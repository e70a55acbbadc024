//! Sizes in words, and the streams in which a video can be played.

use crate::model::{options_view, FileInfo, FileInfoView, Media, PlayOption, PlayOptionView};
use crate::text::{cat2, cat3, dec, decimal, opt_text, owned, parse_number, parsed, Chars};
use vstd::prelude::*;

verus! {

pub const KB: u64 = 1024;

pub const MB: u64 = 1048576;

pub const GB: u64 = 1073741824;

pub const TB: u64 = 1099511627776;

/// The integers up to this one have a place each in a float of 53 bits.
pub const EXACT_LIMIT: u64 = 9007199254740992;

/// `n / d`, rounded to the nearest integer, and from the middle to the even one.
pub open spec fn half_even(n: int, d: int) -> int {
    let q = n / d;
    let r = n % d;
    if 2 * r > d || (2 * r == d && q % 2 == 1) {
        q + 1
    } else {
        q
    }
}

/// The distance between the floats of 53 bits around `n`, and 1 where they are closer.
pub open spec fn float_step(n: int) -> int
    decreases n,
{
    if n < EXACT_LIMIT {
        1
    } else {
        2 * float_step(n / 2)
    }
}

/// The float of 53 bits that is closest to `n`.
pub open spec fn as_float(n: int) -> int {
    half_even(n, float_step(n)) * float_step(n)
}

/// A number of tenths, written with one digit behind the point.
pub open spec fn one_decimal(tenths: int) -> Chars {
    decimal((tenths / 10) as nat) + "."@ + decimal((tenths % 10) as nat)
}

pub open spec fn in_unit(bytes: int, unit: int) -> Chars {
    one_decimal(half_even(as_float(bytes) * 10, unit))
}

/// A size in words: in the largest unit that it fills, with one digit behind the point.
pub open spec fn size_text(bytes: int) -> Chars {
    if bytes >= TB {
        in_unit(bytes, TB as int) + " TB"@
    } else if bytes >= GB {
        in_unit(bytes, GB as int) + " GB"@
    } else if bytes >= MB {
        in_unit(bytes, MB as int) + " MB"@
    } else if bytes >= KB {
        in_unit(bytes, KB as int) + " KB"@
    } else {
        decimal(bytes as nat) + " B"@
    }
}

fn round_half_even(n: u128, d: u128) -> (r: u128)
    requires
        0 < d <= 0x1_0000_0000_0000_0000,
        n <= 0xff_ffff_ffff_ffff_ffff,
    ensures
        r == half_even(n as int, d as int),
        r <= n / d + 1,
{
    let q: u128 = n / d;
    let r: u128 = n % d;
    assert(q <= n) by (nonlinear_arith)
        requires
            q == n / d,
            d > 0,
    ;
    if 2 * r > d || (2 * r == d && q % 2 == 1) {
        q + 1
    } else {
        q
    }
}

proof fn lemma_float_step(n: int)
    requires
        0 <= n < 0x1_0000_0000_0000_0000,
    ensures
        1 <= float_step(n) <= 2048,
        n < EXACT_LIMIT ==> float_step(n) == 1,
{
    reveal_with_fuel(float_step, 13);
}

fn step_of(n: u64) -> (r: u64)
    ensures
        r == float_step(n as int),
        1 <= r <= 2048,
    decreases n,
{
    proof {
        lemma_float_step(n as int);
        lemma_float_step(n as int / 2);
    }
    if n < EXACT_LIMIT {
        1
    } else {
        2 * step_of(n / 2)
    }
}

/// The float of 53 bits that is closest to `n`, as an integer.
fn rounded(n: u64) -> (r: u128)
    ensures
        r == as_float(n as int),
        r <= 0x1_0000_0000_0000_1000,
{
    let step: u64 = step_of(n);
    let q: u128 = round_half_even(n as u128, step as u128);
    assert(q * step <= n + step) by (nonlinear_arith)
        requires
            q <= n as u128 / step as u128 + 1,
            step > 0,
    ;
    q * (step as u128)
}

fn write_tenths(tenths: u64) -> (r: String)
    ensures
        r@ == one_decimal(tenths as int),
{
    cat3(dec(tenths / 10).as_str(), ".", dec(tenths % 10).as_str())
}

fn write_in_unit(bytes: u64, unit: u64) -> (r: String)
    requires
        unit >= KB,
    ensures
        r@ == in_unit(bytes as int, unit as int),
{
    let n: u128 = rounded(bytes) * 10;
    let t: u128 = round_half_even(n, unit as u128);
    assert(n / (unit as u128) <= n / 1024) by (nonlinear_arith)
        requires
            unit >= 1024,
    ;
    write_tenths(t as u64)
}

/// Writes a size in the largest unit that it fills, with one digit behind the point. Sizes over
/// 2^53 bytes are rounded as a float of 64 bits rounds them.
pub fn format_size(bytes: u64) -> (r: String)
    ensures
        r@ == size_text(bytes as int),
{
    if bytes >= TB {
        cat2(write_in_unit(bytes, TB).as_str(), " TB")
    } else if bytes >= GB {
        cat2(write_in_unit(bytes, GB).as_str(), " GB")
    } else if bytes >= MB {
        cat2(write_in_unit(bytes, MB).as_str(), " MB")
    } else if bytes >= KB {
        cat2(write_in_unit(bytes, KB).as_str(), " KB")
    } else {
        cat2(dec(bytes).as_str(), " B")
    }
}

/// A size that comes as a numeral, in words; nothing where it is no number.
pub open spec fn size_of_numeral(size: Option<Chars>) -> Option<Chars> {
    match size {
        Some(s) => match parsed(s, u64::MAX as nat) {
            Some(n) => Some(size_text(n as int)),
            None => None,
        },
        None => None,
    }
}

pub fn format_numeral(size: &Option<String>) -> (r: Option<String>)
    ensures
        opt_text(r) == size_of_numeral(opt_text(*size)),
{
    match size {
        Some(s) => match parse_number(s.as_str(), u64::MAX) {
            Some(n) => Some(format_size(n)),
            None => None,
        },
        None => None,
    }
}

pub open spec fn text_or(t: Option<Chars>, other: Chars) -> Chars {
    match t {
        Some(s) => s,
        None => other,
    }
}

pub fn or_text(t: Option<String>, other: &str) -> (r: String)
    ensures
        r@ == text_or(opt_text(t), other@),
{
    match t {
        Some(s) => s,
        None => owned(other),
    }
}

/// Whether a stream is one that can be chosen beside the original.
pub open spec fn is_stream(m: Media) -> bool {
    !m.is_origin && m.url is Some && m.url->0@.len() > 0
}

fn stream(m: &Media) -> (r: bool)
    ensures
        r == is_stream(*m),
{
    if m.is_origin {
        return false;
    }
    match &m.url {
        Some(u) => !u.as_str().is_empty(),
        None => false,
    }
}

/// The links of the streams, in order, beside the original.
pub open spec fn stream_urls(medias: Seq<Media>) -> Seq<Chars>
    decreases medias.len(),
{
    if medias.len() == 0 {
        Seq::empty()
    } else {
        let before = stream_urls(medias.drop_last());
        let m = medias.last();
        if is_stream(m) {
            before.push(m.url->0@)
        } else {
            before
        }
    }
}

/// The links whose streams have to be tried before a choice among them can be offered.
pub fn stream_links(info: &FileInfo) -> (r: Vec<String>)
    ensures
        crate::text::texts(r@) == stream_urls(info@.medias),
{
    let mut out: Vec<String> = Vec::new();
    let mut i: usize = 0;
    assert(crate::text::texts(out@) =~= stream_urls(info.medias@.take(0)));
    while i < info.medias.len()
        invariant
            i <= info.medias.len(),
            crate::text::texts(out@) == stream_urls(info.medias@.take(i as int)),
        decreases info.medias.len() - i,
    {
        let m: &Media = &info.medias[i];
        assert(info.medias@.take(i + 1).drop_last() =~= info.medias@.take(i as int));
        if stream(m) {
            match &m.url {
                Some(u) => {
                    let ghost before = crate::text::texts(out@);
                    out.push(u.clone());
                    assert(crate::text::texts(out@) =~= before.push(u@));
                },
                None => {},
            }
        }
        i += 1;
    }
    assert(info.medias@.take(i as int) =~= info.medias@);
    out
}

pub open spec fn stream_option(m: Media, available: bool) -> PlayOptionView {
    PlayOptionView {
        label: text_or(opt_text(m.name), "Unknown"@),
        url: m.url->0@,
        available,
    }
}

/// Whether the `n`th stream that was tried can be played.
pub open spec fn answered(available: Seq<bool>, n: int) -> bool {
    0 <= n < available.len() && available[n]
}

pub open spec fn stream_options(medias: Seq<Media>, available: Seq<bool>) -> Seq<PlayOptionView>
    decreases medias.len(),
{
    if medias.len() == 0 {
        Seq::empty()
    } else {
        let before = stream_options(medias.drop_last(), available);
        let m = medias.last();
        if is_stream(m) {
            before.push(stream_option(m, answered(available, before.len() as int)))
        } else {
            before
        }
    }
}

/// The original, where it can be downloaded.
pub open spec fn original_option(info: FileInfoView) -> Seq<PlayOptionView> {
    match info.web_content_link {
        Some(url) => if url.len() > 0 {
            seq![
                PlayOptionView {
                    label: "Original ("@ + text_or(size_of_numeral(info.size), Seq::empty()) + ")"@,
                    url,
                    available: true,
                },
            ]
        } else {
            Seq::empty()
        },
        None => Seq::empty(),
    }
}

fn original(info: &FileInfo) -> (r: Vec<PlayOption>)
    ensures
        options_view(r@) == original_option(info@),
{
    let mut out: Vec<PlayOption> = Vec::new();
    match &info.web_content_link {
        Some(url) => {
            if !url.as_str().is_empty() {
                let size: String = or_text(
                    format_numeral(&info.size),
                    crate::navigate::empty_text().as_str(),
                );
                out.push(
                    PlayOption {
                        label: cat3("Original (", size.as_str(), ")"),
                        url: url.clone(),
                        available: true,
                    },
                );
            }
        },
        None => {},
    }
    assert(options_view(out@) =~= original_option(info@));
    out
}

fn answer(available: &Vec<bool>, n: usize) -> (r: bool)
    ensures
        r == answered(available@, n as int),
{
    n < available.len() && available[n]
}

fn streams(info: &FileInfo, available: &Vec<bool>) -> (r: Vec<PlayOption>)
    ensures
        options_view(r@) == stream_options(info@.medias, available@),
{
    let mut out: Vec<PlayOption> = Vec::new();
    let mut i: usize = 0;
    assert(options_view(out@) =~= stream_options(info.medias@.take(0), available@));
    while i < info.medias.len()
        invariant
            i <= info.medias.len(),
            options_view(out@) == stream_options(info.medias@.take(i as int), available@),
        decreases info.medias.len() - i,
    {
        let m: &Media = &info.medias[i];
        assert(info.medias@.take(i + 1).drop_last() =~= info.medias@.take(i as int));
        if stream(m) {
            match &m.url {
                Some(u) => {
                    let ghost before = options_view(out@);
                    let label: String = or_text(crate::text::clone_opt(&m.name), "Unknown");
                    let available: bool = answer(available, out.len());
                    out.push(PlayOption { label, url: u.clone(), available });
                    assert(options_view(out@) =~= before.push(stream_option(*m, available)));
                },
                None => {},
            }
        }
        i += 1;
    }
    assert(info.medias@.take(i as int) =~= info.medias@);
    out
}

/// The choice of streams for a file: the original first, then the others in order. `available` tells
/// of each of the stream links whether it can be played.
pub fn play_options(info: &FileInfo, available: &Vec<bool>) -> (r: Vec<PlayOption>)
    ensures
        options_view(r@) == original_option(info@) + stream_options(info@.medias, available@),
{
    let mut out: Vec<PlayOption> = original(info);
    let mut more: Vec<PlayOption> = streams(info, available);
    let ghost a = out@;
    let ghost b = more@;
    out.append(&mut more);
    assert(options_view(out@) =~= options_view(a) + options_view(b));
    out
}

/// A stream is offered for each link that was tried, in the same order.
pub proof fn law_streams_match_their_links(medias: Seq<Media>, available: Seq<bool>)
    ensures
        stream_options(medias, available).len() == stream_urls(medias).len(),
        forall|i: int|
            0 <= i < stream_urls(medias).len() ==> (#[trigger] stream_options(
                medias,
                available,
            )[i]).url == stream_urls(medias)[i] && stream_options(medias, available)[i].available
                == answered(available, i),
    decreases medias.len(),
{
    if medias.len() > 0 {
        law_streams_match_their_links(medias.drop_last(), available);
    }
}

} // verus!
