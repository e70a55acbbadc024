use vstd::prelude::*;

pub mod app;
pub mod areas;
pub mod browsing_laws;
pub mod dialog_laws;
pub mod dialogs;
pub mod drawing_laws;
pub mod effect;
pub mod event;
pub mod fields;
pub mod frame;
pub mod geometry;
pub mod help_bar;
pub mod help_layout;
pub mod help_sheet;
pub mod highlight;
pub mod host_soundness;
pub mod info_panel;
pub mod input_laws;
pub mod key_laws;
pub mod key_soundness;
pub mod keys;
pub mod kit;
pub mod laws;
pub mod lists;
pub mod media;
pub mod model;
pub mod mouse;
pub mod mouse_laws;
pub mod navigate;
pub mod page_laws;
pub mod panes;
pub mod pickers;
pub mod preview_pane;
pub mod reading_laws;
pub mod reply_laws;
pub mod report_laws;
pub mod requests;
pub mod results;
pub mod scene;
pub mod scene_laws;
pub mod screen;
pub mod setting_items;
pub mod setting_pages;
pub mod settings;
pub mod settings_laws;
pub mod share;
pub mod share_pages;
pub mod soundness;
pub mod start;
pub mod style;
pub mod terminal;
pub mod text;
pub mod text_input;
pub mod text_laws;
pub mod thumbnail;
pub mod transfer;
pub mod transfer_laws;
pub mod views;
pub mod width;

verus! {

/// Whether a folder listing answers the newest request for the folder that is shown. Both ids have
/// to agree, so that a delayed reply cannot replace a newer listing of the same folder.
pub fn folder_listing_matches(
    current_folder_id: &str,
    current_request_id: u64,
    requested_folder_id: &str,
    request_id: u64,
) -> (r: bool)
    ensures
        r == (current_folder_id@ == requested_folder_id@ && current_request_id == request_id),
{
    text::str_eq(current_folder_id, requested_folder_id) && current_request_id == request_id
}

} // verus!
