//! Shares: their links, and how they are described.

use crate::model::MyShare;
use crate::style::{
    add2, add_blank, add_line, add_span, blank_line, line2, lines_view, no_lines, no_spans, span,
    span_of, spans_view, Color, Line, LineView, Span, Style,
};
use crate::text::{
    all_digits, cat2, cat5, chars_of, contains, dec, decimal, digits_value, occurs, owned,
    parse_number, parsed, str_eq, string_of, Chars,
};
use crate::text_input::{byte_prefix, take_bytes};
use crate::width::{shortened, truncate_name};
use vstd::prelude::*;

verus! {

/// A text without the slashes at its end.
pub open spec fn without_end_slashes(s: Chars) -> Chars
    decreases s.len(),
{
    if s.len() > 0 && s.last() == '/' {
        without_end_slashes(s.drop_last())
    } else {
        s
    }
}

/// Where the part of a text after its last slash begins.
pub open spec fn last_part_start(s: Chars) -> int
    decreases s.len(),
{
    if s.len() == 0 || s.last() == '/' {
        s.len() as int
    } else {
        last_part_start(s.drop_last())
    }
}

/// The id in the link of a share; a bare id stands for itself.
pub open spec fn share_id_of(url: Chars) -> Chars {
    if occurs(url, "/s/"@) {
        let t = without_end_slashes(url);
        t.skip(last_part_start(t))
    } else {
        url
    }
}

/// Pulls the share id out of a link, or passes a bare id through.
pub fn extract_share_id(share_url: &str) -> (r: String)
    ensures
        r@ == share_id_of(share_url@),
{
    let v: Vec<char> = chars_of(share_url);
    if !contains(&v, "/s/") {
        return owned(share_url);
    }
    let mut to: usize = v.len();
    assert(v@.take(to as int) =~= v@);
    while to > 0 && v[to - 1] == '/'
        invariant
            to <= v.len(),
            without_end_slashes(v@) == without_end_slashes(v@.take(to as int)),
        decreases to,
    {
        assert(v@.take(to as int).drop_last() =~= v@.take(to - 1));
        to -= 1;
    }
    let ghost t = v@.take(to as int);
    assert(without_end_slashes(v@) == t);
    let mut from: usize = to;
    assert(t.take(from as int) =~= t);
    while from > 0 && v[from - 1] != '/'
        invariant
            from <= to <= v.len(),
            t == v@.take(to as int),
            last_part_start(t) == last_part_start(t.take(from as int)),
        decreases from,
    {
        assert(t.take(from as int).drop_last() =~= t.take(from - 1));
        from -= 1;
    }
    assert(v@.subrange(from as int, to as int) =~= t.skip(from as int));
    string_of(&v, from, to)
}

/// A bare id, one without the mark of a link, is passed through untouched.
pub proof fn law_bare_share_id_is_kept(url: Chars)
    requires
        !occurs(url, "/s/"@),
    ensures
        share_id_of(url) == url,
{
}

/// Whether a share needs a pass code.
pub open spec fn is_private(share: MyShare) -> bool {
    share.pass_code@.len() > 0 || occurs(share.share_to@, "encrypted"@)
}

pub fn share_is_password(share: &MyShare) -> (r: bool)
    ensures
        r == is_private(*share),
{
    if !share.pass_code.as_str().is_empty() {
        return true;
    }
    let to: Vec<char> = chars_of(share.share_to.as_str());
    contains(&to, "encrypted")
}

/// The number that a numeral with an optional sign denotes, where it fits into 64 bits.
pub open spec fn parsed_signed(s: Chars) -> Option<int> {
    if s.len() > 0 && s[0] == '-' {
        let d = s.skip(1);
        if all_digits(d) && digits_value(d) <= 0x8000_0000_0000_0000 {
            Some(-(digits_value(d) as int))
        } else {
            None
        }
    } else {
        match parsed(s, 0x7fff_ffff_ffff_ffff) {
            Some(n) => Some(n as int),
            None => None,
        }
    }
}

fn parse_signed(s: &str) -> (r: Option<i64>)
    ensures
        match r {
            Some(n) => parsed_signed(s@) == Some(n as int),
            None => parsed_signed(s@) is None,
        },
{
    let v: Vec<char> = chars_of(s);
    if v.len() > 0 && v[0] == '-' {
        let rest: String = string_of(&v, 1, v.len());
        assert(rest@ =~= s@.skip(1));
        if v.len() > 1 && v[1] == '+' {
            assert(rest@[0] == '+');
            return None;
        }
        match parse_number(rest.as_str(), 0x8000_0000_0000_0000) {
            Some(n) => {
                if n == 0x8000_0000_0000_0000 {
                    Some(i64::MIN)
                } else {
                    Some(-(n as i64))
                }
            },
            None => None,
        }
    } else {
        match parse_number(s, 0x7fff_ffff_ffff_ffff) {
            Some(n) => Some(n as i64),
            None => None,
        }
    }
}

/// The decimal numeral of a number with a sign.
pub open spec fn signed_decimal(n: int) -> Chars {
    if n < 0 {
        "-"@ + decimal((-n) as nat)
    } else {
        decimal(n as nat)
    }
}

fn signed_dec(n: i64) -> (r: String)
    ensures
        r@ == signed_decimal(n as int),
{
    if n == i64::MIN {
        return cat2("-", dec(0x8000_0000_0000_0000).as_str());
    }
    if n < 0 {
        cat2("-", dec((-n) as u64).as_str())
    } else {
        dec(n as u64)
    }
}

/// Whether a share never ends.
pub open spec fn is_permanent(days: Chars) -> bool {
    days == ""@ || days == "-1"@ || days == "0"@
}

fn never_ends(days: &str) -> (r: bool)
    ensures
        r == is_permanent(days@),
{
    str_eq(days, "") || str_eq(days, "-1") || str_eq(days, "0")
}

/// The days that are left, or `otherwise` where they are no number.
pub open spec fn days_left(days: Chars, otherwise: int) -> int {
    match parsed_signed(days) {
        Some(n) => n,
        None => otherwise,
    }
}

/// How long a share lasts, in words.
pub open spec fn expiry_text(days: Chars) -> Chars {
    if is_permanent(days) {
        "permanent"@
    } else {
        signed_decimal(days_left(days, 0)) + " days"@
    }
}

pub fn share_expiry_label(days: &str) -> (r: String)
    ensures
        r@ == expiry_text(days@),
{
    if never_ends(days) {
        return owned("permanent");
    }
    let n: i64 = match parse_signed(days) {
        Some(n) => n,
        None => 0,
    };
    cat2(signed_dec(n).as_str(), " days")
}

/// The colour for how long a share lasts: the nearer its end, the more alarming.
pub open spec fn expiry_color(days: Chars) -> Color {
    if is_permanent(days) {
        Color::Green
    } else if days_left(days, 99) <= 3 {
        Color::Red
    } else if days_left(days, 99) <= 7 {
        Color::Yellow
    } else {
        Color::DarkGray
    }
}

pub fn share_expiry_color(days: &str) -> (r: Color)
    ensures
        r == expiry_color(days@),
{
    if never_ends(days) {
        return Color::Green;
    }
    let n: i64 = match parse_signed(days) {
        Some(n) => n,
        None => 99,
    };
    if n <= 3 {
        Color::Red
    } else if n <= 7 {
        Color::Yellow
    } else {
        Color::DarkGray
    }
}

/// A count that the drive wrote as text; 0 where it is no number.
pub open spec fn count_of(s: Chars) -> nat {
    match parsed(s, u64::MAX as nat) {
        Some(n) => n,
        None => 0,
    }
}

pub(crate) fn read_count(s: &str) -> (r: u64)
    ensures
        r == count_of(s@),
{
    match parse_number(s, u64::MAX) {
        Some(n) => n,
        None => 0,
    }
}

pub open spec fn privacy_text(private: bool) -> Chars {
    if private {
        "private"@
    } else {
        "public"@
    }
}

pub open spec fn privacy_color(private: bool) -> Color {
    if private {
        Color::Yellow
    } else {
        Color::Green
    }
}

/// Views, saves and files of a share.
pub open spec fn share_stats(share: MyShare) -> Chars {
    decimal(count_of(share.view_count@)) + "   saves "@ + decimal(count_of(share.restore_count@))
        + "   files "@ + decimal(count_of(share.file_num@))
}

/// The type and the duration of a share.
pub open spec fn terms_line(share: MyShare) -> LineView {
    let label = Style::fg_spec(Color::DarkGray);
    seq![
        span_of("  Type    "@, label),
        span_of(
            privacy_text(is_private(share)),
            Style::fg_spec(privacy_color(is_private(share))),
        ),
        span_of("   Expiry  "@, label),
        span_of(
            expiry_text(share.expiration_days@),
            Style::fg_spec(expiry_color(share.expiration_days@)),
        ),
    ]
}

/// The line with the pass code, where there is one.
pub open spec fn pass_lines(share: MyShare) -> Seq<LineView> {
    if share.pass_code@.len() > 0 {
        seq![
            line2(
                span_of("  Pass    "@, Style::fg_spec(Color::DarkGray)),
                span_of(share.pass_code@, Style::bold_spec(Color::Yellow)),
            ),
        ]
    } else {
        Seq::empty()
    }
}

/// The details of a share in a pane of some width.
pub open spec fn share_details(share: MyShare, width: u16) -> Seq<LineView> {
    let label = Style::fg_spec(Color::DarkGray);
    let value = Style::fg_spec(Color::Reset);
    let url_max = if width >= 14 { (width - 14) as nat } else { 0 };
    seq![
        blank_line(),
        line2(
            span_of("  Title   "@, label),
            span_of(share.title@, Style::bold_spec(Color::Reset)),
        ),
        blank_line(),
        line2(
            span_of("  URL     "@, label),
            span_of(shortened(share.share_url@, url_max), Style::fg_spec(Color::Cyan)),
        ),
        blank_line(),
        terms_line(share),
    ] + pass_lines(share) + seq![
        line2(
            span_of("  Created "@, label),
            span_of(byte_prefix(share.create_time@, 10), Style::fg_spec(Color::Blue)),
        ),
        blank_line(),
        line2(span_of("  Views   "@, label), span_of(share_stats(share), value)),
        blank_line(),
        line2(span_of("  ID      "@, label), span_of(share.share_id@, label)),
    ]
}

fn terms_spans(share: &MyShare) -> (r: Vec<Span>)
    ensures
        spans_view(r@) == terms_line(*share),
{
    let label: Style = Style::fg(Color::DarkGray);
    let private: bool = share_is_password(share);
    let mut v: Vec<Span> = no_spans();
    add_span(&mut v, span("  Type    ", label));
    if private {
        add_span(&mut v, span("private", Style::fg(Color::Yellow)));
    } else {
        add_span(&mut v, span("public", Style::fg(Color::Green)));
    }
    add_span(&mut v, span("   Expiry  ", label));
    let days: &str = share.expiration_days.as_str();
    let text: String = share_expiry_label(days);
    add_span(&mut v, span(text.as_str(), Style::fg(share_expiry_color(days))));
    assert(spans_view(v@) =~= terms_line(*share));
    v
}

fn add_pass_line(lines: &mut Vec<Line>, share: &MyShare)
    ensures
        lines_view(final(lines)@) == lines_view(old(lines)@) + pass_lines(*share),
{
    if !share.pass_code.as_str().is_empty() {
        add2(
            lines,
            span("  Pass    ", Style::fg(Color::DarkGray)),
            span(share.pass_code.as_str(), Style::bold(Color::Yellow)),
        );
    }
    assert(lines_view(lines@) =~= lines_view(old(lines)@) + pass_lines(*share));
}

pub fn share_detail_lines(share: &MyShare, width: u16) -> (r: Vec<Line>)
    ensures
        lines_view(r@) == share_details(*share, width),
{
    let label: Style = Style::fg(Color::DarkGray);
    let value: Style = Style::fg(Color::Reset);
    let url_max: usize = if width >= 14 { (width - 14) as usize } else { 0 };
    let url: String = truncate_name(share.share_url.as_str(), url_max);
    let date: String = take_bytes(share.create_time.as_str(), 10);
    let stats: String = cat5(
        dec(read_count(share.view_count.as_str())).as_str(),
        "   saves ",
        dec(read_count(share.restore_count.as_str())).as_str(),
        "   files ",
        dec(read_count(share.file_num.as_str())).as_str(),
    );
    let mut lines: Vec<Line> = no_lines();
    add_blank(&mut lines);
    add2(
        &mut lines,
        span("  Title   ", label),
        span(share.title.as_str(), Style::bold(Color::Reset)),
    );
    add_blank(&mut lines);
    add2(&mut lines, span("  URL     ", label), span(url.as_str(), Style::fg(Color::Cyan)));
    add_blank(&mut lines);
    add_line(&mut lines, terms_spans(share));
    add_pass_line(&mut lines, share);
    add2(&mut lines, span("  Created ", label), span(date.as_str(), Style::fg(Color::Blue)));
    add_blank(&mut lines);
    add2(&mut lines, span("  Views   ", label), span(stats.as_str(), value));
    add_blank(&mut lines);
    add2(&mut lines, span("  ID      ", label), span(share.share_id.as_str(), label));
    assert(lines_view(lines@) =~= share_details(*share, width));
    lines
}

} // verus!
