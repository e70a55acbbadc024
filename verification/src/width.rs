//! Fitting text into display columns: cutting, padding and wrapping.

use crate::text::{blanks, cat2, chars_of, owned, spaces, string_of, texts, Chars};
use unicode_width::{UnicodeWidthChar, UnicodeWidthStr};
use vstd::prelude::*;

verus! {

/// The display columns of a character, absent for a control character.
pub uninterp spec fn char_columns(c: char) -> Option<usize>;

/// The display columns of a text.
pub uninterp spec fn text_columns(s: Seq<char>) -> usize;

/// `unicode_width::UnicodeWidthChar::width`. A printable ASCII character takes one column, and no
/// character takes more than 255 of them: the width comes out of a table of bytes.
#[verifier::external_body]
fn char_width(c: char) -> (r: Option<usize>)
    ensures
        r == char_columns(c),
        ' ' <= c <= '~' ==> r == Some(1usize),
        r matches Some(n) ==> n <= 255,
{
    UnicodeWidthChar::width(c)
}

/// Whether a text holds printable ASCII characters only.
pub open spec fn is_ascii_print(t: Chars) -> bool {
    forall|i: int| 0 <= i < t.len() ==> ' ' <= #[trigger] t[i] <= '~'
}

/// `unicode_width::UnicodeWidthStr::width`. The width is added up from the end of the text, and a
/// printable ASCII character there adds one column without changing what the characters before it
/// take.
#[verifier::external_body]
pub(crate) fn text_width(s: &str) -> (r: usize)
    ensures
        r == text_columns(s@),
        s@.len() == 0 ==> r == 0,
        forall|t: Seq<char>|
            is_ascii_print(t) && r + t.len() <= usize::MAX ==> #[trigger] text_columns(s@ + t) == r
                + t.len(),
{
    UnicodeWidthStr::width(s)
}

/// The columns that a character is counted with: none for a control character.
pub open spec fn cols(c: char) -> nat {
    match char_columns(c) {
        Some(n) => n as nat,
        None => 0,
    }
}

pub(crate) fn char_cols(c: char) -> (r: usize)
    ensures
        r == cols(c),
        r <= 255,
        ' ' <= c <= '~' ==> r == 1,
{
    match char_width(c) {
        Some(n) => n,
        None => 0,
    }
}

/// The columns of a text, character by character.
pub open spec fn cols_sum(s: Chars) -> nat
    decreases s.len(),
{
    if s.len() == 0 {
        0
    } else {
        cols_sum(s.drop_last()) + cols(s.last())
    }
}

/// How many of the characters from index `from` on fit into `budget` columns.
pub open spec fn fit_from(s: Chars, from: int, budget: int) -> int
    decreases s.len() - from,
{
    if 0 <= from < s.len() && cols(s[from]) <= budget {
        1 + fit_from(s, from + 1, budget - cols(s[from]))
    } else {
        0
    }
}

/// The longest beginning of `s` that fits into `budget` columns.
pub open spec fn fit_front(s: Chars, budget: int) -> Chars {
    s.take(fit_from(s, 0, budget))
}

/// How many of the characters before index `to` fit into `budget` columns.
pub open spec fn fit_before(s: Chars, to: int, budget: int) -> int
    decreases to,
{
    if 0 < to <= s.len() && cols(s[to - 1]) <= budget {
        1 + fit_before(s, to - 1, budget - cols(s[to - 1]))
    } else {
        0
    }
}

/// The longest end of `s` that fits into `budget` columns.
pub open spec fn fit_back(s: Chars, budget: int) -> Chars {
    s.skip(s.len() - fit_before(s, s.len() as int, budget))
}

pub proof fn lemma_fit_from_bounds(s: Chars, from: int, budget: int)
    requires
        0 <= from <= s.len(),
        0 <= budget,
    ensures
        0 <= fit_from(s, from, budget) <= s.len() - from,
        cols_sum(s.take(from + fit_from(s, from, budget))) <= cols_sum(s.take(from)) + budget,
    decreases s.len() - from,
{
    if from < s.len() && cols(s[from]) <= budget {
        lemma_fit_from_bounds(s, from + 1, budget - cols(s[from]));
        assert(s.take(from + 1).drop_last() =~= s.take(from));
    }
}

/// The number of characters at the start of `v` that fit into `budget` columns, and the columns
/// they take.
fn fit_count(v: &Vec<char>, budget: usize) -> (r: (usize, usize))
    ensures
        r.0 == fit_from(v@, 0, budget as int),
        r.0 <= v.len(),
        r.1 <= budget,
        r.1 == cols_sum(v@.take(r.0 as int)),
{
    let mut i: usize = 0;
    let mut used: usize = 0;
    assert(v@.take(0).len() == 0);
    while i < v.len()
        invariant
            i <= v.len(),
            used <= budget,
            used == cols_sum(v@.take(i as int)),
            fit_from(v@, 0, budget as int) == i + fit_from(v@, i as int, budget - used),
        ensures
            fit_from(v@, i as int, budget - used) == 0,
        decreases v.len() - i,
    {
        let w: usize = char_cols(v[i]);
        if w > budget - used {
            break;
        }
        assert(v@.take(i + 1).drop_last() =~= v@.take(i as int));
        used += w;
        i += 1;
    }
    (i, used)
}

/// The longest beginning of a text that fits into `budget` columns.
pub(crate) fn prefix_fitting(v: &Vec<char>, budget: usize) -> (r: String)
    ensures
        r@ == fit_front(v@, budget as int),
{
    let (n, _used) = fit_count(v, budget);
    assert(v@.take(n as int) =~= v@.subrange(0, n as int));
    string_of(v, 0, n)
}

/// The longest end of a text that fits into `budget` columns.
pub(crate) fn suffix_fitting(v: &Vec<char>, budget: usize) -> (r: String)
    ensures
        r@ == fit_back(v@, budget as int),
{
    let mut i: usize = v.len();
    let mut left: usize = budget;
    while i > 0
        invariant
            i <= v.len(),
            left <= budget,
            fit_before(v@, v@.len() as int, budget as int) == v.len() - i + fit_before(
                v@,
                i as int,
                left as int,
            ),
        ensures
            fit_before(v@, i as int, left as int) == 0,
        decreases i,
    {
        let w: usize = char_cols(v[i - 1]);
        if w > left {
            break;
        }
        left -= w;
        i -= 1;
    }
    assert(v@.skip(i as int) =~= v@.subrange(i as int, v@.len() as int));
    string_of(v, i, v.len())
}

/// Whether a text and all its beginnings take as many columns as their characters do one by one.
pub open spec fn adds_up(s: Chars) -> bool {
    forall|k: int|
        0 <= k <= s.len() ==> text_columns(#[trigger] s.take(k)) == cols_sum(s.take(k))
}

pub proof fn lemma_cols_sum_adds(a: Chars, b: Chars)
    ensures
        cols_sum(a + b) == cols_sum(a) + cols_sum(b),
    decreases b.len(),
{
    if b.len() == 0 {
        assert(a + b =~= a);
    } else {
        assert((a + b).drop_last() =~= a + b.drop_last());
        lemma_cols_sum_adds(a, b.drop_last());
    }
}

pub proof fn lemma_cols_of_ones(t: Chars)
    requires
        forall|i: int| 0 <= i < t.len() ==> cols(#[trigger] t[i]) == 1,
    ensures
        cols_sum(t) == t.len(),
    decreases t.len(),
{
    if t.len() > 0 {
        lemma_cols_of_ones(t.drop_last());
    }
}

proof fn lemma_take_all(s: Chars)
    requires
        adds_up(s),
    ensures
        text_columns(s) == cols_sum(s),
{
    assert(s.take(s.len() as int) =~= s);
}

/// A name cut to `max` columns, with an ellipsis where something was cut off.
pub open spec fn shortened(name: Chars, max: nat) -> Chars {
    if text_columns(name) <= max {
        name
    } else {
        fit_front(name, max - 3) + "..."@
    }
}

/// Shortens a name. Where the columns of its characters add up and there is room for the ellipsis,
/// what is left fits, is the name itself exactly where that fits, and is not shortened any further.
pub fn truncate_name(name: &str, max_width: usize) -> (r: String)
    ensures
        r@ == shortened(name@, max_width as nat),
        adds_up(name@) && max_width >= 3 ==> {
            &&& text_columns(r@) == cols_sum(r@)
            &&& text_columns(r@) <= max_width
            &&& r@ == name@ <==> text_columns(name@) <= max_width
            &&& shortened(r@, max_width as nat) == r@
        },
{
    if text_width(name) <= max_width {
        proof {
            if adds_up(name@) {
                lemma_take_all(name@);
            }
        }
        return owned(name);
    }
    let v: Vec<char> = chars_of(name);
    let mut out: String = String::new();
    if max_width >= 3 {
        out = prefix_fitting(&v, max_width - 3);
        let _columns: usize = text_width(out.as_str());
        let _dot: usize = char_cols('.');
        proof {
            lemma_fit_from_bounds(v@, 0, max_width - 3);
            assert(v@.take(0).len() == 0);
            reveal_strlit("...");
            assert(is_ascii_print("..."@));
            lemma_cols_of_ones("..."@);
            lemma_cols_sum_adds(out@, "..."@);
        }
    } else {
        assert(fit_front(v@, max_width - 3) =~= out@);
    }
    out.push_str("...");
    out
}

proof fn lemma_fit_from_is_longest(s: Chars, from: int, budget: int, k: int)
    requires
        0 <= from <= s.len(),
        from + fit_from(s, from, budget) < k <= s.len(),
        0 <= fit_from(s, from, budget),
    ensures
        cols_sum(s.take(k)) > cols_sum(s.take(from)) + budget,
    decreases s.len() - from,
{
    assert(s.take(from + 1).drop_last() =~= s.take(from));
    if cols(s[from]) <= budget {
        lemma_fit_from_bounds(s, from + 1, budget - cols(s[from]));
        lemma_fit_from_is_longest(s, from + 1, budget - cols(s[from]), k);
    } else {
        assert(s.take(k) =~= s.take(from + 1) + s.subrange(from + 1, k));
        lemma_cols_sum_adds(s.take(from + 1), s.subrange(from + 1, k));
    }
}

/// A shortened name fits, with the ellipsis after the longest beginning that leaves room for it,
/// and is not shortened any further. The columns of the name add up, and the ellipsis takes three.
pub proof fn law_shortened_name_fits(name: Chars, max: nat, k: int)
    requires
        max >= 3,
        adds_up(name),
        text_columns(fit_front(name, max - 3) + "..."@) == text_columns(fit_front(name, max - 3))
            + 3,
        0 <= k <= name.len(),
    ensures
        text_columns(shortened(name, max)) <= max,
        shortened(name, max) == name <==> text_columns(name) <= max,
        shortened(shortened(name, max), max) == shortened(name, max),
        text_columns(name) > max ==> ({
            let start = fit_front(name, max - 3);
            &&& shortened(name, max) == start + "..."@
            &&& start == name.take(start.len() as int)
            &&& text_columns(start) + 3 <= max
            &&& k > start.len() ==> text_columns(name.take(k)) + 3 > max
        }),
{
    lemma_fit_from_bounds(name, 0, max - 3);
    assert(name.take(0).len() == 0);
    let n = fit_from(name, 0, max - 3);
    assert(fit_front(name, max - 3) == name.take(n));
    if k > n {
        lemma_fit_from_is_longest(name, 0, max - 3, k);
    }
}

/// A text cut and padded to `width` columns.
pub open spec fn padded(s: Chars, width: nat) -> Chars {
    if text_columns(s) <= width {
        s + blanks((width - text_columns(s)) as nat)
    } else if width < 4 {
        fit_front(s, width as int) + blanks(
            (width - cols_sum(fit_front(s, width as int))) as nat,
        )
    } else {
        let t = shortened(s, width);
        let gap: int = if text_columns(t) <= width { width - text_columns(t) } else { 0 };
        t + blanks(gap as nat)
    }
}

/// Whether the display width of what is left of `s` after cutting it for `width` columns can be
/// padded to them: the characters of a text may take more columns together than one by one.
pub open spec fn cuts_cleanly(s: Chars, width: nat) -> bool {
    if text_columns(s) <= width {
        true
    } else if width < 4 {
        let cut = fit_front(s, width as int);
        text_columns(cut) == cols_sum(cut)
    } else {
        text_columns(shortened(s, width)) <= width
    }
}

/// Cuts and pads a text to exactly `width` display columns, where the columns of its characters add
/// up or the text is cut cleanly in another way.
pub fn pad_to_width(s: &str, width: usize) -> (r: String)
    ensures
        r@ == padded(s@, width as nat),
        cuts_cleanly(s@, width as nat) ==> text_columns(r@) == width,
        adds_up(s@) ==> text_columns(r@) == width && cols_sum(r@) == width,
{
    let w: usize = text_width(s);
    let _one: usize = char_cols(' ');
    if w <= width {
        proof {
            lemma_blanks(s@, (width - w) as nat);
            if adds_up(s@) {
                lemma_take_all(s@);
            }
        }
        return cat2(s, spaces(width - w).as_str());
    }
    if width < 4 {
        let v: Vec<char> = chars_of(s);
        let (n, used) = fit_count(&v, width);
        assert(v@.take(n as int) =~= v@.subrange(0, n as int));
        let cut: String = string_of(&v, 0, n);
        let _shown: usize = text_width(cut.as_str());
        proof {
            lemma_blanks(cut@, (width - used) as nat);
        }
        return cat2(cut.as_str(), spaces(width - used).as_str());
    }
    let t: String = truncate_name(s, width);
    let tw: usize = text_width(t.as_str());
    let gap: usize = if tw <= width { width - tw } else { 0 };
    proof {
        lemma_blanks(t@, gap as nat);
    }
    cat2(t.as_str(), spaces(gap).as_str())
}

proof fn lemma_blanks(s: Chars, n: nat)
    requires
        cols(' ') == 1,
    ensures
        is_ascii_print(blanks(n)),
        cols_sum(s + blanks(n)) == cols_sum(s) + n,
{
    lemma_cols_of_ones(blanks(n));
    lemma_cols_sum_adds(s, blanks(n));
}

/// The lines that `s` is broken into from index `from` on, when `line` has been gathered already.
/// A line is broken before a character that would carry it over `max` columns.
pub open spec fn wrapped_from(s: Chars, from: int, line: Chars, max: nat) -> Seq<Chars>
    decreases s.len() - from,
{
    if 0 <= from < s.len() {
        if cols_sum(line) + cols(s[from]) > max && line.len() > 0 {
            seq![line] + wrapped_from(s, from + 1, seq![s[from]], max)
        } else {
            wrapped_from(s, from + 1, line.push(s[from]), max)
        }
    } else {
        seq![line]
    }
}

/// What is shown of a character in lines of `max` columns: one that is wider than a line becomes
/// padding.
pub open spec fn fitting_char(c: char, max: nat) -> char {
    if cols(c) <= max {
        c
    } else {
        ' '
    }
}

/// A text with padding in place of the characters that are wider than a line of `max` columns.
pub open spec fn fitted(s: Chars, max: nat) -> Chars {
    Seq::new(s.len(), |i: int| fitting_char(s[i], max))
}

/// The visual lines of a text in `max` columns. Into no column at all nothing can be broken: there
/// the text stays in one piece.
pub open spec fn wrapped(s: Chars, max: nat) -> Seq<Chars> {
    if max == 0 {
        seq![s]
    } else {
        wrapped_from(fitted(s, max), 0, Seq::empty(), max)
    }
}

/// The visual lines of several texts, one after the other.
pub open spec fn wrapped_all(msgs: Seq<Chars>, max: nat) -> Seq<Chars>
    decreases msgs.len(),
{
    if msgs.len() == 0 {
        Seq::empty()
    } else {
        wrapped_all(msgs.drop_last(), max) + wrapped(msgs.last(), max)
    }
}

fn fit_chars(v: &Vec<char>, max: usize) -> (r: Vec<char>)
    requires
        max > 0,
    ensures
        r@ == fitted(v@, max as nat),
        forall|k: int| 0 <= k < r@.len() ==> cols(#[trigger] r@[k]) <= max,
{
    let _one: usize = char_cols(' ');
    let mut out: Vec<char> = Vec::new();
    let mut i: usize = 0;
    while i < v.len()
        invariant
            i <= v.len(),
            max > 0,
            cols(' ') == 1,
            out@ =~= fitted(v@, max as nat).take(i as int),
            forall|k: int| 0 <= k < out@.len() ==> cols(#[trigger] out@[k]) <= max,
        decreases v.len() - i,
    {
        if char_cols(v[i]) <= max {
            out.push(v[i]);
        } else {
            out.push(' ');
        }
        i += 1;
    }
    assert(fitted(v@, max as nat).take(v@.len() as int) =~= fitted(v@, max as nat));
    out
}

/// Wraps a text into visual lines by display width. Each of them fits into `max_width` columns,
/// unless there is no column at all: then the whole text comes back.
pub fn wrap_line(s: &str, max_width: usize) -> (r: Vec<String>)
    ensures
        texts(r@) == wrapped(s@, max_width as nat),
        max_width == 0 ==> texts(r@) == seq![s@],
        max_width >= 1 ==> forall|i: int|
            0 <= i < r@.len() ==> cols_sum(#[trigger] texts(r@)[i]) <= max_width,
{
    let mut lines: Vec<String> = Vec::new();
    if max_width == 0 {
        lines.push(owned(s));
        assert(texts(lines@) =~= seq![s@]);
        return lines;
    }
    let v: Vec<char> = fit_chars(&chars_of(s), max_width);
    let ghost f = fitted(s@, max_width as nat);
    let mut current: String = String::new();
    let mut empty: bool = true;
    let mut used: u128 = 0;
    let mut i: usize = 0;
    assert(current@ =~= Seq::<char>::empty());
    assert(texts(lines@) + wrapped_from(f, 0, current@, max_width as nat) =~= wrapped(
        s@,
        max_width as nat,
    ));
    while i < v.len()
        invariant
            i <= v.len(),
            v@ == f,
            f == fitted(s@, max_width as nat),
            max_width > 0,
            empty == (current@.len() == 0),
            used == cols_sum(current@),
            used <= 255 * i,
            texts(lines@) + wrapped_from(f, i as int, current@, max_width as nat) == wrapped(
                s@,
                max_width as nat,
            ),
        decreases v.len() - i,
    {
        let c: char = v[i];
        let w: usize = char_cols(c);
        let ghost line = current@;
        let ghost done = lines@;
        if used + (w as u128) > max_width as u128 && !empty {
            lines.push(current);
            current = String::new();
            used = 0;
            current.push(c);
            assert(current@ =~= seq![c]);
            proof {
                lemma_cols_of_one(c);
            }
            assert(texts(lines@) =~= texts(done).push(line));
            assert(texts(done) + (seq![line] + wrapped_from(
                f,
                i + 1,
                current@,
                max_width as nat,
            )) =~= texts(lines@) + wrapped_from(f, i + 1, current@, max_width as nat));
        } else {
            current.push(c);
            assert(current@.drop_last() =~= line);
        }
        empty = false;
        used += w as u128;
        i += 1;
    }
    let ghost done = lines@;
    lines.push(current);
    assert(texts(lines@) =~= texts(done) + seq![lines@.last()@]);
    proof {
        assert forall|i: int| 0 <= i < lines@.len() implies cols_sum(#[trigger] texts(lines@)[i])
            <= max_width by {
            lemma_wrapped_from_fits(f, 0, Seq::empty(), max_width as nat, i);
        }
    }
    lines
}

/// Wraps all log messages into visual lines.
pub fn wrap_logs(logs: &Vec<String>, max_width: usize) -> (r: Vec<String>)
    ensures
        texts(r@) == wrapped_all(texts(logs@), max_width as nat),
{
    let mut all: Vec<String> = Vec::new();
    let mut i: usize = 0;
    assert(texts(all@) =~= wrapped_all(texts(logs@).take(0), max_width as nat));
    while i < logs.len()
        invariant
            i <= logs.len(),
            texts(all@) == wrapped_all(texts(logs@).take(i as int), max_width as nat),
        decreases logs.len() - i,
    {
        let ghost done = all@;
        let mut lines: Vec<String> = wrap_line(logs[i].as_str(), max_width);
        let ghost more = lines@;
        all.append(&mut lines);
        assert(texts(all@) =~= texts(done) + texts(more));
        assert(texts(logs@).take(i + 1).drop_last() =~= texts(logs@).take(i as int));
        i += 1;
    }
    assert(texts(logs@).take(logs@.len() as int) =~= texts(logs@));
    all
}

/// The characters of several lines, one line after the other.
pub open spec fn concatenated(lines: Seq<Chars>) -> Chars
    decreases lines.len(),
{
    if lines.len() == 0 {
        Seq::empty()
    } else {
        lines[0] + concatenated(lines.skip(1))
    }
}

proof fn lemma_cols_of_one(c: char)
    ensures
        cols_sum(seq![c]) == cols(c),
{
    assert(seq![c].drop_last() =~= Seq::<char>::empty());
    assert(cols_sum(Seq::<char>::empty()) == 0);
}

proof fn lemma_concatenated_one(line: Chars)
    ensures
        concatenated(seq![line]) == line,
{
    assert(seq![line].skip(1) =~= Seq::<Chars>::empty());
    assert(concatenated(Seq::<Chars>::empty()) =~= Seq::<char>::empty());
    assert(line + Seq::<char>::empty() =~= line);
}

proof fn lemma_wrapped_from_rejoins(s: Chars, from: int, line: Chars, max: nat)
    requires
        0 <= from <= s.len(),
    ensures
        concatenated(wrapped_from(s, from, line, max)) == line + s.skip(from),
    decreases s.len() - from,
{
    let lines = wrapped_from(s, from, line, max);
    if from < s.len() {
        if cols_sum(line) + cols(s[from]) > max && line.len() > 0 {
            let rest = wrapped_from(s, from + 1, seq![s[from]], max);
            lemma_wrapped_from_rejoins(s, from + 1, seq![s[from]], max);
            assert(lines.skip(1) =~= rest);
            assert(seq![s[from]] + s.skip(from + 1) =~= s.skip(from));
            assert(lines[0] == line);
        } else {
            lemma_wrapped_from_rejoins(s, from + 1, line.push(s[from]), max);
            assert(line.push(s[from]) + s.skip(from + 1) =~= line + s.skip(from));
        }
    } else {
        lemma_concatenated_one(line);
        assert(line + s.skip(from) =~= line);
    }
}

/// Wrapping loses nothing but characters that are wider than a line: the lines put together again
/// are the text with padding in their place, and the text itself where all characters fit.
pub proof fn law_wrapped_lines_rejoin(s: Chars, max: nat)
    requires
        max > 0,
    ensures
        concatenated(wrapped(s, max)) == fitted(s, max),
        (forall|k: int| 0 <= k < s.len() ==> cols(#[trigger] s[k]) <= max) ==> concatenated(
            wrapped(s, max),
        ) == s,
{
    let f = fitted(s, max);
    lemma_wrapped_from_rejoins(f, 0, Seq::empty(), max);
    assert(Seq::<char>::empty() + f.skip(0) =~= f);
    if forall|k: int| 0 <= k < s.len() ==> cols(#[trigger] s[k]) <= max {
        assert(f =~= s);
    }
}

proof fn lemma_wrapped_from_fits(s: Chars, from: int, line: Chars, max: nat, i: int)
    requires
        0 <= from <= s.len(),
        forall|k: int| 0 <= k < s.len() ==> cols(#[trigger] s[k]) <= max,
        cols_sum(line) <= max,
        0 <= i < wrapped_from(s, from, line, max).len(),
    ensures
        cols_sum(wrapped_from(s, from, line, max)[i]) <= max,
    decreases s.len() - from,
{
    if from < s.len() {
        if cols_sum(line) + cols(s[from]) > max && line.len() > 0 {
            lemma_cols_of_one(s[from]);
            if i > 0 {
                lemma_wrapped_from_fits(s, from + 1, seq![s[from]], max, i - 1);
            }
        } else {
            assert(line.push(s[from]).drop_last() =~= line);
            if line.len() == 0 {
                assert(line =~= Seq::<char>::empty());
            }
            lemma_wrapped_from_fits(s, from + 1, line.push(s[from]), max, i);
        }
    }
}

/// Every visual line fits into the columns it was wrapped for, counted character by character. A
/// blank takes one column.
pub proof fn law_wrapped_lines_fit(s: Chars, max: nat, i: int)
    requires
        max > 0,
        cols(' ') == 1,
        0 <= i < wrapped(s, max).len(),
    ensures
        cols_sum(wrapped(s, max)[i]) <= max,
{
    lemma_wrapped_from_fits(fitted(s, max), 0, Seq::empty(), max, i);
}

} // verus!
