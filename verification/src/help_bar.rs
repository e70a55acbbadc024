//! The keys that each dialog and page shows in the help bar.

use crate::model::{InputMode, ModeView};
use crate::scene::{add_hint, hints_view, no_hints, Hints, HintsView};
use vstd::prelude::*;

verus! {

/// In the main pane.
pub open spec fn normal_hints() -> HintsView {
    seq![
        ("j/k/g/G"@, "nav"@),
        ("Ctrl+U/D"@, "half page"@),
        ("Enter"@, "open"@),
        ("Bksp"@, "back"@),
        (":"@, "goto"@),
        ("u"@, "upload"@),
        ("r"@, "refresh"@),
        ("?"@, "actions"@),
        ("h"@, "help"@),
        ("q"@, "quit"@),
    ]
}

pub fn normal_keys() -> (r: Hints)
    ensures
        hints_view(r@) == normal_hints(),
{
    let mut v: Hints = no_hints();
    add_hint(&mut v, "j/k/g/G", "nav");
    add_hint(&mut v, "Ctrl+U/D", "half page");
    add_hint(&mut v, "Enter", "open");
    add_hint(&mut v, "Bksp", "back");
    add_hint(&mut v, ":", "goto");
    add_hint(&mut v, "u", "upload");
    add_hint(&mut v, "r", "refresh");
    add_hint(&mut v, "?", "actions");
    add_hint(&mut v, "h", "help");
    add_hint(&mut v, "q", "quit");
    v
}

/// Where a destination is picked for one entry.
pub open spec fn picker_hints() -> HintsView {
    seq![
        ("j/k"@, "nav"@),
        ("Enter"@, "open"@),
        ("Bksp"@, "back"@),
        ("Space"@, "confirm"@),
        ("h"@, "help"@),
        ("Esc"@, "cancel"@),
    ]
}

pub fn picker_keys() -> (r: Hints)
    ensures
        hints_view(r@) == picker_hints(),
{
    let mut v: Hints = no_hints();
    add_hint(&mut v, "j/k", "nav");
    add_hint(&mut v, "Enter", "open");
    add_hint(&mut v, "Bksp", "back");
    add_hint(&mut v, "Space", "confirm");
    add_hint(&mut v, "h", "help");
    add_hint(&mut v, "Esc", "cancel");
    v
}

/// Where a destination is typed.
pub open spec fn path_hints() -> HintsView {
    seq![
        ("Tab"@, "complete"@),
        ("Enter"@, "confirm"@),
        ("Ctrl+B"@, "picker"@),
        ("Esc"@, "cancel"@),
    ]
}

pub fn path_keys() -> (r: Hints)
    ensures
        hints_view(r@) == path_hints(),
{
    let mut v: Hints = no_hints();
    add_hint(&mut v, "Tab", "complete");
    add_hint(&mut v, "Enter", "confirm");
    add_hint(&mut v, "Ctrl+B", "picker");
    add_hint(&mut v, "Esc", "cancel");
    v
}

/// In a field that is confirmed.
pub open spec fn confirm_hints() -> HintsView {
    seq![
        ("Enter"@, "confirm"@),
        ("Esc"@, "cancel"@),
    ]
}

pub fn confirm_keys() -> (r: Hints)
    ensures
        hints_view(r@) == confirm_hints(),
{
    let mut v: Hints = no_hints();
    add_hint(&mut v, "Enter", "confirm");
    add_hint(&mut v, "Esc", "cancel");
    v
}

pub open spec fn goto_hints() -> HintsView {
    seq![
        ("Enter"@, "go"@),
        ("Esc"@, "cancel"@),
    ]
}

pub fn goto_keys() -> (r: Hints)
    ensures
        hints_view(r@) == goto_hints(),
{
    let mut v: Hints = no_hints();
    add_hint(&mut v, "Enter", "go");
    add_hint(&mut v, "Esc", "cancel");
    v
}

pub open spec fn quit_hints() -> HintsView {
    seq![
        ("y"@, "quit"@),
        ("n/Esc"@, "cancel"@),
    ]
}

pub fn quit_keys() -> (r: Hints)
    ensures
        hints_view(r@) == quit_hints(),
{
    let mut v: Hints = no_hints();
    add_hint(&mut v, "y", "quit");
    add_hint(&mut v, "n/Esc", "cancel");
    v
}

pub open spec fn delete_hints() -> HintsView {
    seq![
        ("y"@, "permanent delete"@),
        ("n/Esc"@, "cancel"@),
    ]
}

pub fn delete_keys() -> (r: Hints)
    ensures
        hints_view(r@) == delete_hints(),
{
    let mut v: Hints = no_hints();
    add_hint(&mut v, "y", "permanent delete");
    add_hint(&mut v, "n/Esc", "cancel");
    v
}

pub open spec fn cart_hints() -> HintsView {
    seq![
        ("j/k"@, "nav"@),
        ("x"@, "remove"@),
        ("C"@, "clear all"@),
        ("Enter"@, "download"@),
        ("m"@, "move"@),
        ("c"@, "copy"@),
        ("t"@, "trash"@),
        ("s"@, "share"@),
        ("S"@, "quick share"@),
        ("Esc"@, "close"@),
    ]
}

pub fn cart_keys() -> (r: Hints)
    ensures
        hints_view(r@) == cart_hints(),
{
    let mut v: Hints = no_hints();
    add_hint(&mut v, "j/k", "nav");
    add_hint(&mut v, "x", "remove");
    add_hint(&mut v, "C", "clear all");
    add_hint(&mut v, "Enter", "download");
    add_hint(&mut v, "m", "move");
    add_hint(&mut v, "c", "copy");
    add_hint(&mut v, "t", "trash");
    add_hint(&mut v, "s", "share");
    add_hint(&mut v, "S", "quick share");
    add_hint(&mut v, "Esc", "close");
    v
}

pub open spec fn cart_picker_hints() -> HintsView {
    seq![
        ("j/k"@, "nav"@),
        ("Enter"@, "open folder"@),
        ("Space"@, "confirm here"@),
        ("/"@, "type path"@),
        ("Backspace"@, "go up"@),
        ("Esc"@, "cancel"@),
    ]
}

pub fn cart_picker_keys() -> (r: Hints)
    ensures
        hints_view(r@) == cart_picker_hints(),
{
    let mut v: Hints = no_hints();
    add_hint(&mut v, "j/k", "nav");
    add_hint(&mut v, "Enter", "open folder");
    add_hint(&mut v, "Space", "confirm here");
    add_hint(&mut v, "/", "type path");
    add_hint(&mut v, "Backspace", "go up");
    add_hint(&mut v, "Esc", "cancel");
    v
}

pub open spec fn cart_delete_hints() -> HintsView {
    seq![
        ("y/Enter"@, "trash"@),
        ("n/Esc"@, "cancel"@),
    ]
}

pub fn cart_delete_keys() -> (r: Hints)
    ensures
        hints_view(r@) == cart_delete_hints(),
{
    let mut v: Hints = no_hints();
    add_hint(&mut v, "y/Enter", "trash");
    add_hint(&mut v, "n/Esc", "cancel");
    v
}

pub open spec fn local_path_hints() -> HintsView {
    seq![
        ("Tab"@, "complete"@),
        ("Enter"@, "confirm"@),
        ("Esc"@, "cancel"@),
    ]
}

pub fn local_path_keys() -> (r: Hints)
    ensures
        hints_view(r@) == local_path_hints(),
{
    let mut v: Hints = no_hints();
    add_hint(&mut v, "Tab", "complete");
    add_hint(&mut v, "Enter", "confirm");
    add_hint(&mut v, "Esc", "cancel");
    v
}

pub open spec fn downloads_hints() -> HintsView {
    seq![
        ("j/k"@, "nav"@),
        ("Enter"@, "expand"@),
        ("p"@, "pause/resume"@),
        ("x"@, "cancel"@),
        ("r"@, "retry"@),
        ("Esc"@, "back"@),
    ]
}

pub fn downloads_keys() -> (r: Hints)
    ensures
        hints_view(r@) == downloads_hints(),
{
    let mut v: Hints = no_hints();
    add_hint(&mut v, "j/k", "nav");
    add_hint(&mut v, "Enter", "expand");
    add_hint(&mut v, "p", "pause/resume");
    add_hint(&mut v, "x", "cancel");
    add_hint(&mut v, "r", "retry");
    add_hint(&mut v, "Esc", "back");
    v
}

pub open spec fn offline_hints() -> HintsView {
    seq![
        ("Enter"@, "submit"@),
        ("Esc"@, "cancel"@),
    ]
}

pub fn offline_keys() -> (r: Hints)
    ensures
        hints_view(r@) == offline_hints(),
{
    let mut v: Hints = no_hints();
    add_hint(&mut v, "Enter", "submit");
    add_hint(&mut v, "Esc", "cancel");
    v
}

pub open spec fn tasks_hints() -> HintsView {
    seq![
        ("j/k"@, "nav"@),
        ("r"@, "refresh"@),
        ("R"@, "retry"@),
        ("x"@, "delete"@),
        ("Esc"@, "back"@),
    ]
}

pub fn tasks_keys() -> (r: Hints)
    ensures
        hints_view(r@) == tasks_hints(),
{
    let mut v: Hints = no_hints();
    add_hint(&mut v, "j/k", "nav");
    add_hint(&mut v, "r", "refresh");
    add_hint(&mut v, "R", "retry");
    add_hint(&mut v, "x", "delete");
    add_hint(&mut v, "Esc", "back");
    v
}

pub open spec fn trash_page_hints() -> HintsView {
    seq![
        ("j/k"@, "nav"@),
        ("Space"@, "info"@),
        ("u"@, "restore"@),
        ("x"@, "delete"@),
        ("r"@, "refresh"@),
        ("Enter"@, "collapse"@),
        ("Esc"@, "close"@),
    ]
}

pub fn trash_page_keys() -> (r: Hints)
    ensures
        hints_view(r@) == trash_page_hints(),
{
    let mut v: Hints = no_hints();
    add_hint(&mut v, "j/k", "nav");
    add_hint(&mut v, "Space", "info");
    add_hint(&mut v, "u", "restore");
    add_hint(&mut v, "x", "delete");
    add_hint(&mut v, "r", "refresh");
    add_hint(&mut v, "Enter", "collapse");
    add_hint(&mut v, "Esc", "close");
    v
}

pub open spec fn trash_hints() -> HintsView {
    seq![
        ("j/k"@, "nav"@),
        ("Enter"@, "expand"@),
        ("Space"@, "info"@),
        ("u"@, "restore"@),
        ("x"@, "delete"@),
        ("r"@, "refresh"@),
        ("Esc"@, "close"@),
    ]
}

pub fn trash_keys() -> (r: Hints)
    ensures
        hints_view(r@) == trash_hints(),
{
    let mut v: Hints = no_hints();
    add_hint(&mut v, "j/k", "nav");
    add_hint(&mut v, "Enter", "expand");
    add_hint(&mut v, "Space", "info");
    add_hint(&mut v, "u", "restore");
    add_hint(&mut v, "x", "delete");
    add_hint(&mut v, "r", "refresh");
    add_hint(&mut v, "Esc", "close");
    v
}

pub open spec fn loading_hints() -> HintsView {
    seq![
        ("Esc"@, "cancel"@),
    ]
}

pub fn loading_keys() -> (r: Hints)
    ensures
        hints_view(r@) == loading_hints(),
{
    let mut v: Hints = no_hints();
    add_hint(&mut v, "Esc", "cancel");
    v
}

pub open spec fn closing_hints() -> HintsView {
    seq![
        ("any key"@, "close"@),
    ]
}

pub fn closing_keys() -> (r: Hints)
    ensures
        hints_view(r@) == closing_hints(),
{
    let mut v: Hints = no_hints();
    add_hint(&mut v, "any key", "close");
    v
}

pub open spec fn setting_edit_hints() -> HintsView {
    seq![
        ("Left/Right"@, "change"@),
        ("Space"@, "toggle"@),
        ("Enter"@, "confirm"@),
        ("Esc"@, "cancel"@),
    ]
}

pub fn setting_edit_keys() -> (r: Hints)
    ensures
        hints_view(r@) == setting_edit_hints(),
{
    let mut v: Hints = no_hints();
    add_hint(&mut v, "Left/Right", "change");
    add_hint(&mut v, "Space", "toggle");
    add_hint(&mut v, "Enter", "confirm");
    add_hint(&mut v, "Esc", "cancel");
    v
}

pub open spec fn settings_hints() -> HintsView {
    seq![
        ("j/k"@, "nav"@),
        ("Space/Enter"@, "edit"@),
        ("s"@, "save"@),
        ("Esc"@, "close"@),
    ]
}

pub fn settings_keys() -> (r: Hints)
    ensures
        hints_view(r@) == settings_hints(),
{
    let mut v: Hints = no_hints();
    add_hint(&mut v, "j/k", "nav");
    add_hint(&mut v, "Space/Enter", "edit");
    add_hint(&mut v, "s", "save");
    add_hint(&mut v, "Esc", "close");
    v
}

pub open spec fn discard_hints() -> HintsView {
    seq![
        ("y/Enter"@, "discard"@),
        ("n/Esc"@, "keep editing"@),
    ]
}

pub fn discard_keys() -> (r: Hints)
    ensures
        hints_view(r@) == discard_hints(),
{
    let mut v: Hints = no_hints();
    add_hint(&mut v, "y/Enter", "discard");
    add_hint(&mut v, "n/Esc", "keep editing");
    v
}

pub open spec fn menu_hints() -> HintsView {
    seq![
        ("j/k"@, "nav"@),
        ("Enter"@, "run"@),
        ("Esc/?"@, "close"@),
    ]
}

pub fn menu_keys() -> (r: Hints)
    ensures
        hints_view(r@) == menu_hints(),
{
    let mut v: Hints = no_hints();
    add_hint(&mut v, "j/k", "nav");
    add_hint(&mut v, "Enter", "run");
    add_hint(&mut v, "Esc/?", "close");
    v
}

pub open spec fn rgb_hints() -> HintsView {
    seq![
        ("0-9"@, "input"@),
        ("Enter"@, "confirm"@),
        ("Esc"@, "cancel"@),
    ]
}

pub fn rgb_keys() -> (r: Hints)
    ensures
        hints_view(r@) == rgb_hints(),
{
    let mut v: Hints = no_hints();
    add_hint(&mut v, "0-9", "input");
    add_hint(&mut v, "Enter", "confirm");
    add_hint(&mut v, "Esc", "cancel");
    v
}

pub open spec fn colors_hints() -> HintsView {
    seq![
        ("j/k"@, "nav"@),
        ("r/g/b"@, "edit RGB"@),
        ("s"@, "save"@),
        ("Esc"@, "back"@),
    ]
}

pub fn colors_keys() -> (r: Hints)
    ensures
        hints_view(r@) == colors_hints(),
{
    let mut v: Hints = no_hints();
    add_hint(&mut v, "j/k", "nav");
    add_hint(&mut v, "r/g/b", "edit RGB");
    add_hint(&mut v, "s", "save");
    add_hint(&mut v, "Esc", "back");
    v
}

pub open spec fn protocols_hints() -> HintsView {
    seq![
        ("j/k"@, "nav"@),
        ("Left/Right"@, "protocol"@),
        ("s"@, "save"@),
        ("Esc"@, "back"@),
    ]
}

pub fn protocols_keys() -> (r: Hints)
    ensures
        hints_view(r@) == protocols_hints(),
{
    let mut v: Hints = no_hints();
    add_hint(&mut v, "j/k", "nav");
    add_hint(&mut v, "Left/Right", "protocol");
    add_hint(&mut v, "s", "save");
    add_hint(&mut v, "Esc", "back");
    v
}

pub open spec fn play_hints() -> HintsView {
    seq![
        ("y/Enter"@, "play"@),
        ("n/Esc"@, "cancel"@),
    ]
}

pub fn play_keys() -> (r: Hints)
    ensures
        hints_view(r@) == play_hints(),
{
    let mut v: Hints = no_hints();
    add_hint(&mut v, "y/Enter", "play");
    add_hint(&mut v, "n/Esc", "cancel");
    v
}

pub open spec fn streams_hints() -> HintsView {
    seq![
        ("j/k"@, "nav"@),
        ("Enter"@, "play"@),
        ("Esc"@, "cancel"@),
    ]
}

pub fn streams_keys() -> (r: Hints)
    ensures
        hints_view(r@) == streams_hints(),
{
    let mut v: Hints = no_hints();
    add_hint(&mut v, "j/k", "nav");
    add_hint(&mut v, "Enter", "play");
    add_hint(&mut v, "Esc", "cancel");
    v
}

pub open spec fn share_hints() -> HintsView {
    seq![
        ("p"@, "public share"@),
        ("P"@, "with password"@),
        ("Esc"@, "cancel"@),
    ]
}

pub fn share_keys() -> (r: Hints)
    ensures
        hints_view(r@) == share_hints(),
{
    let mut v: Hints = no_hints();
    add_hint(&mut v, "p", "public share");
    add_hint(&mut v, "P", "with password");
    add_hint(&mut v, "Esc", "cancel");
    v
}

pub open spec fn created_hints() -> HintsView {
    seq![
        ("y"@, "copy URL"@),
        ("Esc"@, "close top"@),
        ("Ctrl+Esc"@, "close all"@),
    ]
}

pub fn created_keys() -> (r: Hints)
    ensures
        hints_view(r@) == created_hints(),
{
    let mut v: Hints = no_hints();
    add_hint(&mut v, "y", "copy URL");
    add_hint(&mut v, "Esc", "close top");
    add_hint(&mut v, "Ctrl+Esc", "close all");
    v
}

pub open spec fn share_delete_hints() -> HintsView {
    seq![
        ("y/Enter"@, "confirm delete"@),
        ("n/Esc"@, "cancel"@),
    ]
}

pub fn share_delete_keys() -> (r: Hints)
    ensures
        hints_view(r@) == share_delete_hints(),
{
    let mut v: Hints = no_hints();
    add_hint(&mut v, "y/Enter", "confirm delete");
    add_hint(&mut v, "n/Esc", "cancel");
    v
}

pub open spec fn shares_hints() -> HintsView {
    seq![
        ("j/k"@, "nav"@),
        ("y"@, "copy URL"@),
        ("d"@, "delete"@),
        ("r"@, "refresh"@),
        ("Esc"@, "back"@),
    ]
}

pub fn shares_keys() -> (r: Hints)
    ensures
        hints_view(r@) == shares_hints(),
{
    let mut v: Hints = no_hints();
    add_hint(&mut v, "j/k", "nav");
    add_hint(&mut v, "y", "copy URL");
    add_hint(&mut v, "d", "delete");
    add_hint(&mut v, "r", "refresh");
    add_hint(&mut v, "Esc", "back");
    v
}

pub open spec fn nothing_hints() -> HintsView {
    Seq::empty()
}

pub fn nothing_keys() -> (r: Hints)
    ensures
        hints_view(r@) == nothing_hints(),
{
    no_hints()
}

/// The keys that are shown in a mode.
pub open spec fn mode_hints(mode: ModeView) -> HintsView {
    match mode {
        ModeView::Normal => normal_hints(),
        ModeView::MovePicker { .. } => picker_hints(),
        ModeView::CopyPicker { .. } => picker_hints(),
        ModeView::MoveInput { .. } => path_hints(),
        ModeView::CopyInput { .. } => path_hints(),
        ModeView::CartMoveInput { .. } => path_hints(),
        ModeView::CartCopyInput { .. } => path_hints(),
        ModeView::Rename { .. } => confirm_hints(),
        ModeView::Mkdir { .. } => confirm_hints(),
        ModeView::GotoPath { .. } => goto_hints(),
        ModeView::ConfirmQuit => quit_hints(),
        ModeView::ConfirmDelete => delete_hints(),
        ModeView::ConfirmPermanentDelete { .. } => confirm_hints(),
        ModeView::CartView => cart_hints(),
        ModeView::CartMovePicker { .. } => cart_picker_hints(),
        ModeView::CartCopyPicker { .. } => cart_picker_hints(),
        ModeView::ConfirmCartDelete => cart_delete_hints(),
        ModeView::DownloadInput { .. } => local_path_hints(),
        ModeView::UploadInput { .. } => local_path_hints(),
        ModeView::DownloadView => downloads_hints(),
        ModeView::OfflineInput { .. } => offline_hints(),
        ModeView::OfflineTasksView { .. } => tasks_hints(),
        ModeView::TrashView { expanded, .. } => if expanded {
            trash_page_hints()
        } else {
            trash_hints()
        },
        ModeView::InfoLoading => loading_hints(),
        ModeView::InfoView { .. } => closing_hints(),
        ModeView::InfoFolderView { .. } => closing_hints(),
        ModeView::TextPreviewView { .. } => closing_hints(),
        ModeView::Settings { editing, .. } => if editing {
            setting_edit_hints()
        } else {
            settings_hints()
        },
        ModeView::ConfirmDiscardSettings { .. } => discard_hints(),
        ModeView::ActionMenu { .. } => menu_hints(),
        ModeView::CustomColorSettings { editing_rgb, .. } => if editing_rgb {
            rgb_hints()
        } else {
            colors_hints()
        },
        ModeView::ImageProtocolSettings { .. } => protocols_hints(),
        ModeView::ConfirmPlay { .. } => play_hints(),
        ModeView::PlayPicker { .. } => streams_hints(),
        ModeView::PlayerInput { .. } => confirm_hints(),
        ModeView::SharePrompt => share_hints(),
        ModeView::ShareCreatedView { .. } => created_hints(),
        ModeView::MySharesView { confirm_delete, .. } => if confirm_delete is Some {
            share_delete_hints()
        } else {
            shares_hints()
        },
        _ => nothing_hints(),
    }
}

pub fn help_pairs(mode: &InputMode) -> (r: Hints)
    ensures
        hints_view(r@) == mode_hints(mode@),
{
    match mode {
        InputMode::Normal => normal_keys(),
        InputMode::MovePicker { .. } => picker_keys(),
        InputMode::CopyPicker { .. } => picker_keys(),
        InputMode::MoveInput { .. } => path_keys(),
        InputMode::CopyInput { .. } => path_keys(),
        InputMode::CartMoveInput { .. } => path_keys(),
        InputMode::CartCopyInput { .. } => path_keys(),
        InputMode::Rename { .. } => confirm_keys(),
        InputMode::Mkdir { .. } => confirm_keys(),
        InputMode::GotoPath { .. } => goto_keys(),
        InputMode::ConfirmQuit => quit_keys(),
        InputMode::ConfirmDelete => delete_keys(),
        InputMode::ConfirmPermanentDelete { .. } => confirm_keys(),
        InputMode::CartView => cart_keys(),
        InputMode::CartMovePicker { .. } => cart_picker_keys(),
        InputMode::CartCopyPicker { .. } => cart_picker_keys(),
        InputMode::ConfirmCartDelete => cart_delete_keys(),
        InputMode::DownloadInput { .. } => local_path_keys(),
        InputMode::UploadInput { .. } => local_path_keys(),
        InputMode::DownloadView => downloads_keys(),
        InputMode::OfflineInput { .. } => offline_keys(),
        InputMode::OfflineTasksView { .. } => tasks_keys(),
        InputMode::TrashView { expanded, .. } => if *expanded {
            trash_page_keys()
        } else {
            trash_keys()
        },
        InputMode::InfoLoading => loading_keys(),
        InputMode::InfoView { .. } => closing_keys(),
        InputMode::InfoFolderView { .. } => closing_keys(),
        InputMode::TextPreviewView { .. } => closing_keys(),
        InputMode::Settings { editing, .. } => if *editing {
            setting_edit_keys()
        } else {
            settings_keys()
        },
        InputMode::ConfirmDiscardSettings { .. } => discard_keys(),
        InputMode::ActionMenu { .. } => menu_keys(),
        InputMode::CustomColorSettings { editing_rgb, .. } => if *editing_rgb {
            rgb_keys()
        } else {
            colors_keys()
        },
        InputMode::ImageProtocolSettings { .. } => protocols_keys(),
        InputMode::ConfirmPlay { .. } => play_keys(),
        InputMode::PlayPicker { .. } => streams_keys(),
        InputMode::PlayerInput { .. } => confirm_keys(),
        InputMode::SharePrompt => share_keys(),
        InputMode::ShareCreatedView { .. } => created_keys(),
        InputMode::MySharesView { confirm_delete, .. } => if confirm_delete.is_some() {
            share_delete_keys()
        } else {
            shares_keys()
        },
        _ => nothing_keys(),
    }
}

} // verus!
