//! What holds of the texts, the pages and the pictures that are shown.

use crate::app::AppView;
use crate::geometry::Rect;
use crate::highlight::{
    ext_start, extension, highlighted, line_number, lines_from, preview_of, text_lines, RunView,
};
use crate::kit::Kit;
use crate::media::{original_option, stream_options};
use crate::model::{Entry, FileInfoView, Media, MyShare, PreviewView};
use crate::scene_laws::is_marked;
use crate::share_pages::{selected_details, share_row};
use crate::terminal::{protocol_in_use, ImageProtocol, TerminalProtocol};
use crate::text::{decimal, occurs, Chars};
use crate::thumbnail::is_success;
use crate::width::shortened;
use syntect::highlighting::Theme;
use syntect::parsing::SyntaxSet;
use vstd::prelude::*;

verus! {

/// The extension of a name is what follows its last dot, and the whole name where it has none.
pub proof fn law_extension_follows_the_last_dot(stem: Chars, ext: Chars)
    requires
        forall|i: int| 0 <= i < ext.len() ==> #[trigger] ext[i] != '.',
    ensures
        extension(stem.push('.') + ext) == ext,
        extension(ext) == ext,
{
    lemma_ext_start(stem.push('.'), ext);
    lemma_ext_start(Seq::empty(), ext);
    assert((stem.push('.') + ext).skip(stem.len() as int + 1) =~= ext);
    assert(Seq::<char>::empty() + ext =~= ext);
    assert(ext.skip(0) =~= ext);
}

proof fn lemma_ext_start(before: Chars, ext: Chars)
    requires
        before.len() == 0 || before.last() == '.',
        forall|i: int| 0 <= i < ext.len() ==> #[trigger] ext[i] != '.',
    ensures
        ext_start(before + ext) == before.len(),
    decreases ext.len(),
{
    let s = before + ext;
    if ext.len() == 0 {
        assert(s =~= before);
    } else {
        let front = ext.drop_last();
        assert forall|i: int| 0 <= i < front.len() implies #[trigger] front[i] != '.' by {
            assert(front[i] == ext[i]);
        }
        lemma_ext_start(before, front);
        assert(s.drop_last() =~= before + front);
        assert(s.last() == ext[ext.len() - 1]);
    }
}

/// Every line of a text preview begins with its own number, counted from one, and there is one
/// for each line of the text.
pub proof fn law_preview_lines_are_numbered(
    name: Chars,
    content: Chars,
    set: SyntaxSet,
    theme: Theme,
    i: int,
)
    requires
        0 <= i < text_lines(content).len(),
    ensures
        highlighted(name, content, set, theme).len() == text_lines(content).len(),
        highlighted(name, content, set, theme)[i][0].text == line_number((i + 1) as nat),
{
}

/// A line whose colours are not known is shown as it is.
pub proof fn law_line_without_colours_is_shown_as_it_is(
    lines: Seq<Chars>,
    runs: spec_fn(int) -> Option<Seq<RunView>>,
    i: int,
)
    requires
        0 <= i < lines.len(),
        runs(i) is None,
    ensures
        preview_of(lines, runs)[i].len() == 2,
        preview_of(lines, runs)[i][1].text == lines[i],
{
}

/// A text without a line feed is one line, or none where it is empty.
pub proof fn law_text_without_line_feed_is_one_line(s: Chars)
    requires
        forall|i: int| 0 <= i < s.len() ==> #[trigger] s[i] != '\n',
    ensures
        s.len() > 0 ==> text_lines(s) == seq![s],
        s.len() == 0 ==> text_lines(s) == Seq::<Chars>::empty(),
{
    lemma_rest_is_one_line(s, 0, 0);
    assert(s.skip(0) =~= s);
}

proof fn lemma_rest_is_one_line(s: Chars, start: int, from: int)
    requires
        0 <= start <= from <= s.len(),
        forall|i: int| from <= i < s.len() ==> #[trigger] s[i] != '\n',
    ensures
        lines_from(s, start, from) == (if start < s.len() {
            seq![s.skip(start)]
        } else {
            Seq::empty()
        }),
    decreases s.len() - from,
{
    if from < s.len() {
        assert(s[from] != '\n');
        lemma_rest_is_one_line(s, start, from + 1);
    }
}

/// A row of the shares names its share, says whether it is private, and is marked where it is the
/// chosen one.
pub proof fn law_share_rows_name_their_shares(s: MyShare, selected: bool, room: nat)
    ensures
        share_row(s, selected, room)[1].text == shortened(s.title@, room),
        is_marked(share_row(s, selected, room)) <==> selected,
        s.pass_code@.len() > 0 ==> share_row(s, selected, room)[3].text == "private  "@,
        s.pass_code@.len() == 0 && !occurs(s.share_to@, "encrypted"@) ==> share_row(
            s,
            selected,
            room,
        )[3].text == "public   "@,
{
    reveal_strlit(" \u{203a} ");
    reveal_strlit("   ");
    assert(" \u{203a} "@[1] != "   "@[1]);
}

/// The details are those of the chosen share: its title, its link and its id.
pub proof fn law_details_are_of_the_chosen_share(
    shares: Seq<MyShare>,
    selected: usize,
    width: u16,
)
    requires
        selected < shares.len(),
        width >= 14,
    ensures
        ({
            let lines = selected_details(shares, selected, width);
            let s = shares[selected as int];
            &&& lines[1][1].text == s.title@
            &&& lines[3][1].text == shortened(s.share_url@, (width - 14) as nat)
            &&& lines.last()[1].text == s.share_id@
            &&& s.pass_code@.len() > 0 ==> lines[6][1].text == s.pass_code@
        }),
{
}

/// The original of a file is offered before its streams, under its own link, where it has one.
pub proof fn law_original_is_offered_first(info: FileInfoView, available: Seq<bool>)
    ensures
        ({
            let all = original_option(info) + stream_options(info.medias, available);
            match info.web_content_link {
                Some(url) => url.len() > 0 ==> all.len() > 0 && all[0].url == url
                    && all[0].available,
                None => all =~= stream_options(info.medias, available),
            }
        }),
{
}

/// A media of a file is offered as a stream where it is not the original and has a link, under its
/// own name and link.
pub proof fn law_streams_are_those_of_the_file(v: Seq<Media>, m: Media, available: Seq<bool>)
    ensures
        ({
            let before = stream_options(v, available);
            let after = stream_options(v.push(m), available);
            let offered = !m.is_origin && m.url is Some && m.url->0@.len() > 0;
            &&& !offered ==> after == before
            &&& offered ==> after.len() == before.len() + 1 && after.drop_last() =~= before
                && after.last().url == m.url->0@ && (m.name is Some ==> after.last().label
                == m.name->0@) && (before.len() < available.len() ==> after.last().available
                == available[before.len() as int])
        }),
{
    assert(v.push(m).drop_last() =~= v);
}

/// A protocol that was chosen is the one in use. Else it is the one that the terminal was found to
/// have, but for the terminal whose own protocol is better.
pub proof fn law_chosen_protocol_is_used(found: TerminalProtocol, program: Option<Chars>)
    ensures
        protocol_in_use(ImageProtocol::Kitty, found, program) == TerminalProtocol::Kitty,
        protocol_in_use(ImageProtocol::Iterm2, found, program) == TerminalProtocol::Iterm2,
        protocol_in_use(ImageProtocol::Sixel, found, program) == TerminalProtocol::Sixel,
        found != TerminalProtocol::Kitty || program is None ==> protocol_in_use(
            ImageProtocol::Auto,
            found,
            program,
        ) == found,
        found == TerminalProtocol::Kitty && program is Some && occurs(program->0, "iTerm"@)
            ==> protocol_in_use(ImageProtocol::Auto, found, program) == TerminalProtocol::Iterm2,
{
}

/// The preview shows what is in a folder from the row it was scrolled to on, under how many there
/// are.
pub proof fn law_folder_preview_shows_the_children(
    a: AppView,
    children: Seq<Entry>,
    area: Rect,
    parts: (Rect, Rect),
    kit: Kit,
    i: int,
)
    requires
        a.preview_state == PreviewView::FolderListing(children),
        a.preview_scroll == 0,
        0 <= i < children.len(),
    ensures
        ({
            let pane = a.preview_scene(area, parts, kit)[0];
            &&& pane is List && pane->List_area == area
            &&& pane->List_title == " Preview ("@ + decimal(children.len()) + ") "@
            &&& pane->items.len() == children.len()
            &&& pane->items[i][2].text == children[i].name@
        }),
{
    reveal(AppView::preview_scene);
}

/// The row that has to be in sight of a list is the chosen one, out of all its rows.
pub proof fn law_chosen_row_is_asked_into_sight(a: AppView, areas: crate::areas::Areas)
    ensures
        a.input is CartView ==> a.list_request(areas) is Some && a.list_request(areas)->0.selected
            == a.cart_selected && a.list_request(areas)->0.rows == a.cart.len(),
        a.input is OfflineTasksView ==> a.list_request(areas) is Some && a.list_request(
            areas,
        )->0.selected == a.input->OfflineTasksView_selected && a.list_request(areas)->0.rows
            == a.input->OfflineTasksView_tasks.len(),
        a.input is TrashView ==> a.list_request(areas) is Some && a.list_request(areas)->0.selected
            == a.input->TrashView_selected && a.list_request(areas)->0.rows
            == a.input->TrashView_entries.len(),
        a.input is MySharesView ==> a.list_request(areas) is Some && a.list_request(
            areas,
        )->0.selected == a.input->MySharesView_selected && a.list_request(areas)->0.rows
            == a.input->MySharesView_shares.len(),
        a.input is ActionMenu ==> a.list_request(areas) is Some && a.list_request(areas)->0.selected
            == a.input->ActionMenu_selected && a.list_request(areas)->0.rows == 22,
{
}

/// A download of a picture counts where its status is in the two hundreds.
pub proof fn law_pictures_come_with_a_success(status: u16)
    ensures
        is_success(status) <==> status / 100 == 2,
{
}

} // verus!
