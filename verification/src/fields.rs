//! Fields with a label, and other texts that several panels show.

use crate::geometry::min_int;
use crate::media::{format_size, size_text};
use crate::model::{Entry, EntryKind};
use crate::scene::add_lines;
use crate::style::{
    add1, add2, add_line, add_span, line1, line2, lines_view, no_lines, no_spans, span, span_of,
    span_owned, spans_view, Color, Line, LineView, Span, SpanView, Style,
};
use crate::text::{
    blanks, cat2, cat3, chars_of, is_space, is_whitespace, repeat_char, repeated, spaces, str_eq,
    string_of, texts, trim_back, trim_front, Chars,
};
use crate::width::{char_cols, cols, cols_sum};
use vstd::prelude::*;

verus! {

/// A text that is being folded: the lines that are done, the one that is being filled, and where it
/// may be broken.
pub struct Fold {
    pub done: Seq<Chars>,
    pub current: Chars,
    pub brk: Option<int>,
}

/// Whether there is no room for another character.
pub open spec fn is_full(current: Chars, c: char, budget: int) -> bool {
    cols_sum(current) + cols(c) > budget && current.len() > 0
}

/// The line broken where it may be, with the white space around the break dropped, or else ended
/// as it is.
pub open spec fn broken(f: Fold) -> Fold {
    match f.brk {
        Some(b) => if b < f.current.len() {
            Fold {
                done: f.done.push(trim_back(f.current.take(b))),
                current: trim_front(f.current.skip(b)),
                brk: None,
            }
        } else {
            ended(f)
        },
        None => ended(f),
    }
}

pub open spec fn ended(f: Fold) -> Fold {
    Fold { done: f.done.push(f.current), current: Seq::empty(), brk: None }
}

/// With room for a character.
pub open spec fn with_room(f: Fold, c: char, budget: int) -> Fold {
    if is_full(f.current, c, budget) {
        let g = broken(f);
        if is_full(g.current, c, budget) {
            ended(g)
        } else {
            g
        }
    } else {
        f
    }
}

/// With a character put on the line. A line may be broken behind a blank and before a wide
/// character.
pub open spec fn extended(f: Fold, c: char) -> Fold {
    let brk = if c == ' ' {
        Some(f.current.len() as int + 1)
    } else if cols(c) >= 2 {
        Some(f.current.len() as int)
    } else {
        f.brk
    };
    Fold { done: f.done, current: f.current.push(c), brk }
}

/// The first `n` characters of a text, folded.
pub open spec fn folded(value: Chars, n: int, budget: int) -> Fold
    decreases n,
{
    if n <= 0 {
        Fold { done: Seq::empty(), current: Seq::empty(), brk: None }
    } else {
        extended(with_room(folded(value, n - 1, budget), value[n - 1], budget), value[n - 1])
    }
}

/// A text in lines of `budget` columns, broken between words where that is possible.
pub open spec fn segments(value: Chars, budget: int) -> Seq<Chars> {
    let f = folded(value, value.len() as int, budget);
    if f.current.len() > 0 {
        f.done.push(f.current)
    } else {
        f.done
    }
}

proof fn lemma_cols_of_skip(s: Chars, k: int)
    requires
        0 <= k <= s.len(),
    ensures
        cols_sum(s.skip(k)) <= cols_sum(s),
    decreases s.len(),
{
    if k < s.len() {
        lemma_cols_of_skip(s.drop_last(), k);
        assert(s.skip(k).drop_last() =~= s.drop_last().skip(k));
    }
}

proof fn lemma_cols_of_take(s: Chars, k: int)
    requires
        0 <= k <= s.len(),
    ensures
        cols_sum(s.take(k)) <= cols_sum(s),
    decreases s.len(),
{
    if k < s.len() {
        lemma_cols_of_take(s.drop_last(), k);
        assert(s.take(k) =~= s.drop_last().take(k));
    } else {
        assert(s.take(k) =~= s);
    }
}

proof fn lemma_cols_of_trim_front(s: Chars)
    ensures
        cols_sum(trim_front(s)) <= cols_sum(s),
    decreases s.len(),
{
    if s.len() > 0 && is_space(s[0]) {
        lemma_cols_of_trim_front(s.skip(1));
        lemma_cols_of_skip(s, 1);
    }
}

proof fn lemma_cols_of_trim_back(s: Chars)
    ensures
        cols_sum(trim_back(s)) <= cols_sum(s),
    decreases s.len(),
{
    if s.len() > 0 && is_space(s.last()) {
        lemma_cols_of_trim_back(s.drop_last());
    }
}

/// The columns of some characters.
fn sum_cols(v: &Vec<char>) -> (r: usize)
    requires
        cols_sum(v@) <= usize::MAX,
    ensures
        r == cols_sum(v@),
{
    let mut sum: usize = 0;
    let mut i: usize = 0;
    assert(v@.take(0).len() == 0);
    while i < v.len()
        invariant
            i <= v.len(),
            cols_sum(v@) <= usize::MAX,
            sum == cols_sum(v@.take(i as int)),
        decreases v.len() - i,
    {
        proof {
            lemma_cols_of_take(v@, i + 1);
            assert(v@.take(i + 1).drop_last() =~= v@.take(i as int));
        }
        sum += char_cols(v[i]);
        i += 1;
    }
    assert(v@.take(i as int) =~= v@);
    sum
}

/// The columns of a text, as far as they can be counted.
fn label_cols(s: &str) -> (r: usize)
    ensures
        r == min_int(cols_sum(s@) as int, usize::MAX as int),
{
    let v: Vec<char> = chars_of(s);
    let mut sum: usize = 0;
    let mut i: usize = 0;
    assert(v@.take(0).len() == 0);
    while i < v.len()
        invariant
            i <= v.len(),
            v@ == s@,
            sum == min_int(cols_sum(v@.take(i as int)) as int, usize::MAX as int),
        decreases v.len() - i,
    {
        assert(v@.take(i + 1).drop_last() =~= v@.take(i as int));
        sum = sum.saturating_add(char_cols(v[i]));
        i += 1;
    }
    assert(v@.take(i as int) =~= v@);
    sum
}

fn trim_end_upto(v: &Vec<char>, to: usize) -> (r: String)
    requires
        to <= v@.len(),
    ensures
        r@ == trim_back(v@.take(to as int)),
{
    let mut n: usize = to;
    while n > 0 && is_whitespace(v[n - 1])
        invariant
            n <= to <= v@.len(),
            trim_back(v@.take(to as int)) == trim_back(v@.take(n as int)),
        decreases n,
    {
        assert(v@.take(n as int).drop_last() =~= v@.take(n - 1));
        n -= 1;
    }
    assert(v@.subrange(0, n as int) =~= v@.take(n as int));
    string_of(v, 0, n)
}

fn trim_start_from(v: &Vec<char>, from: usize) -> (r: Vec<char>)
    requires
        from <= v@.len(),
    ensures
        r@ == trim_front(v@.skip(from as int)),
{
    let mut i: usize = from;
    while i < v.len() && is_whitespace(v[i])
        invariant
            from <= i <= v@.len(),
            trim_front(v@.skip(from as int)) == trim_front(v@.skip(i as int)),
        decreases v@.len() - i,
    {
        assert(v@.skip(i as int).skip(1) =~= v@.skip(i + 1));
        i += 1;
    }
    let ghost start = i;
    assert(trim_front(v@.skip(from as int)) == v@.skip(i as int));
    let mut out: Vec<char> = Vec::new();
    while i < v.len()
        invariant
            start <= i <= v@.len(),
            out@ == v@.subrange(start as int, i as int),
        decreases v@.len() - i,
    {
        out.push(v[i]);
        i += 1;
        assert(out@ =~= v@.subrange(start as int, i as int));
    }
    assert(out@ =~= v@.skip(start as int));
    out
}

/// A fold as it is computed.
struct Folding {
    done: Vec<String>,
    current: Vec<char>,
    width: usize,
    brk: Option<usize>,
}

impl Folding {
    spec fn shows(self, f: Fold) -> bool {
        &&& texts(self.done@) == f.done
        &&& self.current@ == f.current
        &&& self.width == cols_sum(f.current)
        &&& match self.brk {
            Some(b) => f.brk == Some(b as int) && b <= f.current.len(),
            None => f.brk is None,
        }
    }
}

fn add_text(v: &mut Vec<String>, s: String)
    ensures
        texts(final(v)@) == texts(old(v)@).push(s@),
{
    v.push(s);
    assert(texts(v@) =~= texts(old(v)@).push(s@));
}

fn end_line(f: Folding, Ghost(m): Ghost<Fold>) -> (r: Folding)
    requires
        f.shows(m),
    ensures
        r.shows(ended(m)),
{
    let mut done: Vec<String> = f.done;
    assert(f.current@.subrange(0, f.current@.len() as int) =~= f.current@);
    add_text(&mut done, string_of(&f.current, 0, f.current.len()));
    let current: Vec<char> = Vec::new();
    assert(current@ =~= Seq::<char>::empty());
    Folding { done, current, width: 0, brk: None }
}

fn break_line(f: Folding, Ghost(m): Ghost<Fold>) -> (r: Folding)
    requires
        f.shows(m),
    ensures
        r.shows(broken(m)),
{
    match f.brk {
        Some(b) => {
            if b < f.current.len() {
                proof {
                    lemma_cols_of_skip(m.current, b as int);
                    lemma_cols_of_trim_front(m.current.skip(b as int));
                }
                let mut done: Vec<String> = f.done;
                add_text(&mut done, trim_end_upto(&f.current, b));
                let current: Vec<char> = trim_start_from(&f.current, b);
                let width: usize = sum_cols(&current);
                return Folding { done, current, width, brk: None };
            }
            end_line(f, Ghost(m))
        },
        None => end_line(f, Ghost(m)),
    }
}

fn full(f: &Folding, w: usize, budget: usize, Ghost(m): Ghost<Fold>, Ghost(c): Ghost<char>) -> (r:
    bool)
    requires
        f.shows(m),
        w == cols(c),
    ensures
        r == is_full(m.current, c, budget as int),
{
    f.current.len() > 0 && (f.width > budget || w > budget - f.width)
}

fn make_room(f: Folding, w: usize, budget: usize, Ghost(m): Ghost<Fold>, Ghost(c): Ghost<char>) -> (r:
    Folding)
    requires
        f.shows(m),
        w == cols(c),
    ensures
        r.shows(with_room(m, c, budget as int)),
{
    if full(&f, w, budget, Ghost(m), Ghost(c)) {
        let g: Folding = break_line(f, Ghost(m));
        if full(&g, w, budget, Ghost(broken(m)), Ghost(c)) {
            return end_line(g, Ghost(broken(m)));
        }
        return g;
    }
    f
}

fn extend_line(f: Folding, c: char, w: usize, Ghost(m): Ghost<Fold>) -> (r: Folding)
    requires
        f.shows(m),
        w == cols(c),
        cols_sum(m.current) + w <= usize::MAX,
    ensures
        r.shows(extended(m, c)),
{
    let n: usize = f.current.len();
    let mut current: Vec<char> = f.current;
    current.push(c);
    proof {
        assert(m.current.push(c).drop_last() =~= m.current);
        assert(m.current.push(c).last() == c);
    }
    let brk: Option<usize> = if c == ' ' {
        Some(current.len())
    } else if w >= 2 {
        Some(n)
    } else {
        f.brk
    };
    Folding { done: f.done, current, width: f.width + w, brk }
}

/// Folds a text into lines of `budget` columns.
fn fold_text(value: &str, budget: usize) -> (r: Vec<String>)
    ensures
        texts(r@) == segments(value@, budget as int),
{
    let v: Vec<char> = chars_of(value);
    let mut f: Folding = Folding {
        done: Vec::new(),
        current: Vec::new(),
        width: 0,
        brk: None,
    };
    let mut i: usize = 0;
    assert(texts(f.done@) =~= Seq::empty());
    assert(f.current@ =~= Seq::<char>::empty());
    while i < v.len()
        invariant
            i <= v@.len(),
            v@ == value@,
            f.shows(folded(value@, i as int, budget as int)),
        decreases v@.len() - i,
    {
        let ghost m = folded(value@, i as int, budget as int);
        let c: char = v[i];
        let w: usize = char_cols(c);
        let g: Folding = make_room(f, w, budget, Ghost(m), Ghost(c));
        let ghost room = with_room(m, c, budget as int);
        assert(cols_sum(Seq::<char>::empty()) == 0);
        assert(room.current.len() == 0 ==> room.current =~= Seq::<char>::empty());
        f = extend_line(g, c, w, Ghost(room));
        i += 1;
    }
    let ghost m = folded(value@, v@.len() as int, budget as int);
    let mut done: Vec<String> = f.done;
    if f.current.len() > 0 {
        assert(f.current@.subrange(0, f.current@.len() as int) =~= f.current@);
        add_text(&mut done, string_of(&f.current, 0, f.current.len()));
    }
    done
}

proof fn lemma_folded_fits(value: Chars, n: int, budget: int)
    requires
        0 <= n <= value.len(),
        forall|k: int| 0 <= k < value.len() ==> cols(#[trigger] value[k]) <= budget,
    ensures
        cols_sum(folded(value, n, budget).current) <= max_zero(budget),
        forall|k: int|
            0 <= k < folded(value, n, budget).done.len() ==> cols_sum(
                #[trigger] folded(value, n, budget).done[k],
            ) <= max_zero(budget),
        match folded(value, n, budget).brk {
            Some(b) => 0 <= b <= folded(value, n, budget).current.len(),
            None => true,
        },
    decreases n,
{
    if n > 0 {
        lemma_folded_fits(value, n - 1, budget);
        let f = folded(value, n - 1, budget);
        let c = value[n - 1];
        let g = broken(f);
        match f.brk {
            Some(b) => {
                lemma_cols_of_take(f.current, b);
                lemma_cols_of_trim_back(f.current.take(b));
                lemma_cols_of_skip(f.current, b);
                lemma_cols_of_trim_front(f.current.skip(b));
            },
            None => {},
        }
        let room = with_room(f, c, budget);
        assert(room.current.len() == 0 ==> room.current =~= Seq::<char>::empty());
        assert(room.current.push(c).drop_last() =~= room.current);
        assert(cols_sum(Seq::<char>::empty()) == 0);
    }
}

pub open spec fn max_zero(n: int) -> int {
    if n > 0 {
        n
    } else {
        0
    }
}

/// Where no character is wider than the room there is, no line of a folded text is wider either.
pub proof fn law_folded_lines_fit(value: Chars, budget: int, i: int)
    requires
        0 < budget,
        forall|k: int| 0 <= k < value.len() ==> cols(#[trigger] value[k]) <= budget,
        0 <= i < segments(value, budget).len(),
    ensures
        cols_sum(segments(value, budget)[i]) <= budget,
{
    lemma_folded_fits(value, value.len() as int, budget);
}

pub open spec fn is_blank(s: Chars) -> bool {
    forall|i: int| 0 <= i < s.len() ==> is_space(#[trigger] s[i])
}

/// Lines with a gap after each, put together.
pub open spec fn woven(lines: Seq<Chars>, gaps: Seq<Chars>) -> Chars
    decreases lines.len(),
{
    if lines.len() == 0 {
        Seq::empty()
    } else {
        woven(lines.drop_last(), gaps.drop_last()) + lines.last() + gaps.last()
    }
}

/// Whether a text is made of lines with gaps of nothing but white space after each.
pub open spec fn is_woven(text: Chars, lines: Seq<Chars>, gaps: Seq<Chars>) -> bool {
    &&& gaps.len() == lines.len()
    &&& forall|i: int| 0 <= i < gaps.len() ==> is_blank(#[trigger] gaps[i])
    &&& text == woven(lines, gaps)
}

proof fn lemma_trim_front_drops_blanks(s: Chars)
    ensures
        trim_front(s).len() <= s.len(),
        is_blank(s.take(s.len() - trim_front(s).len())),
        s == s.take(s.len() - trim_front(s).len()) + trim_front(s),
    decreases s.len(),
{
    let n = s.len() - trim_front(s).len();
    if s.len() > 0 && is_space(s[0]) {
        lemma_trim_front_drops_blanks(s.skip(1));
        let t = s.skip(1);
        let head = t.take(n - 1);
        assert(s.take(n) =~= seq![s[0]] + head);
        assert(s =~= seq![s[0]] + t);
        assert(seq![s[0]] + (head + trim_front(t)) =~= (seq![s[0]] + head) + trim_front(t));
    } else {
        assert(s =~= s.take(n) + trim_front(s));
    }
}

proof fn lemma_trim_back_drops_blanks(s: Chars)
    ensures
        trim_back(s).len() <= s.len(),
        is_blank(s.skip(trim_back(s).len() as int)),
        s == trim_back(s) + s.skip(trim_back(s).len() as int),
    decreases s.len(),
{
    let n = trim_back(s).len() as int;
    if s.len() > 0 && is_space(s.last()) {
        lemma_trim_back_drops_blanks(s.drop_last());
        let t = s.drop_last();
        assert(s.skip(n) =~= t.skip(n).push(s.last()));
        assert(s =~= t.push(s.last()));
        assert((trim_back(t) + t.skip(n)).push(s.last()) =~= trim_back(t) + t.skip(n).push(
            s.last(),
        ));
    } else {
        assert(s =~= trim_back(s) + s.skip(n));
    }
}

proof fn lemma_woven_grows(lines: Seq<Chars>, gaps: Seq<Chars>, line: Chars, gap: Chars)
    ensures
        woven(lines.push(line), gaps.push(gap)) == woven(lines, gaps) + line + gap,
{
    assert(lines.push(line).drop_last() =~= lines);
    assert(gaps.push(gap).drop_last() =~= gaps);
}

/// A fold of `text` stays one when its line is ended.
proof fn lemma_ended_weaves(text: Chars, f: Fold, gaps: Seq<Chars>) -> (g: Seq<Chars>)
    requires
        gaps.len() == f.done.len(),
        forall|i: int| 0 <= i < gaps.len() ==> is_blank(#[trigger] gaps[i]),
        text == woven(f.done, gaps) + f.current,
    ensures
        g.len() == ended(f).done.len(),
        forall|i: int| 0 <= i < g.len() ==> is_blank(#[trigger] g[i]),
        text == woven(ended(f).done, g) + ended(f).current,
{
    let none = Seq::<char>::empty();
    lemma_woven_grows(f.done, gaps, f.current, none);
    assert(woven(f.done, gaps) + f.current + none + none =~= text);
    gaps.push(none)
}

proof fn lemma_regrouped(w: Chars, a: Chars, tail: Chars, head: Chars, b: Chars)
    ensures
        w + a + (tail + head) + b == w + ((a + tail) + (head + b)),
{
    assert(w + a + (tail + head) + b =~= w + ((a + tail) + (head + b)));
}

/// A fold of `text` stays one when its line is broken.
proof fn lemma_broken_weaves(text: Chars, f: Fold, gaps: Seq<Chars>) -> (g: Seq<Chars>)
    requires
        gaps.len() == f.done.len(),
        forall|i: int| 0 <= i < gaps.len() ==> is_blank(#[trigger] gaps[i]),
        text == woven(f.done, gaps) + f.current,
        f.brk is Some ==> 0 <= f.brk->0 <= f.current.len(),
    ensures
        g.len() == broken(f).done.len(),
        forall|i: int| 0 <= i < g.len() ==> is_blank(#[trigger] g[i]),
        text == woven(broken(f).done, g) + broken(f).current,
{
    if f.brk is Some && f.brk->0 < f.current.len() {
        let front = f.current.take(f.brk->0);
        let back = f.current.skip(f.brk->0);
        lemma_trim_back_drops_blanks(front);
        lemma_trim_front_drops_blanks(back);
        let tail = front.skip(trim_back(front).len() as int);
        let head = back.take(back.len() - trim_front(back).len());
        lemma_woven_grows(f.done, gaps, trim_back(front), tail + head);
        assert(f.current =~= front + back);
        lemma_regrouped(woven(f.done, gaps), trim_back(front), tail, head, trim_front(back));
        gaps.push(tail + head)
    } else {
        lemma_ended_weaves(text, f, gaps)
    }
}

proof fn lemma_folded_weaves(value: Chars, n: int, budget: int) -> (g: Seq<Chars>)
    requires
        0 <= n <= value.len(),
    ensures
        g.len() == folded(value, n, budget).done.len(),
        forall|i: int| 0 <= i < g.len() ==> is_blank(#[trigger] g[i]),
        value.take(n) == woven(folded(value, n, budget).done, g) + folded(value, n, budget).current,
        match folded(value, n, budget).brk {
            Some(b) => 0 <= b <= folded(value, n, budget).current.len(),
            None => true,
        },
    decreases n,
{
    if n == 0 {
        let none = Seq::<Chars>::empty();
        assert(value.take(0) =~= woven(none, none) + Seq::<char>::empty());
        none
    } else {
        let gaps = lemma_folded_weaves(value, n - 1, budget);
        let f = folded(value, n - 1, budget);
        let c = value[n - 1];
        let before = value.take(n - 1);
        let g = if is_full(f.current, c, budget) {
            let h = lemma_broken_weaves(before, f, gaps);
            if is_full(broken(f).current, c, budget) {
                lemma_ended_weaves(before, broken(f), h)
            } else {
                h
            }
        } else {
            gaps
        };
        let room = with_room(f, c, budget);
        assert(value.take(n) =~= before.push(c));
        assert(woven(room.done, g) + room.current.push(c) =~= value.take(n));
        g
    }
}

/// Folding loses nothing but white space where a line is broken: the text is made of the lines with
/// nothing but white space between them.
pub proof fn law_folding_loses_only_white_space(value: Chars, budget: int)
    ensures
        exists|gaps: Seq<Chars>| is_woven(value, segments(value, budget), gaps),
{
    let gaps = lemma_folded_weaves(value, value.len() as int, budget);
    let f = folded(value, value.len() as int, budget);
    assert(value.take(value.len() as int) =~= value);
    if f.current.len() > 0 {
        let none = Seq::<char>::empty();
        lemma_woven_grows(f.done, gaps, f.current, none);
        assert(woven(f.done, gaps) + f.current + none =~= value);
        assert(is_woven(value, segments(value, budget), gaps.push(none)));
    } else {
        assert(woven(f.done, gaps) + f.current =~= woven(f.done, gaps));
        assert(is_woven(value, segments(value, budget), gaps));
    }
}

/// The columns of a label, as far as they can be counted.
pub open spec fn label_width(label: Chars) -> int {
    min_int(cols_sum(label) as int, usize::MAX as int)
}

/// Line `i` of a field.
pub open spec fn field_line(
    label: Chars,
    segs: Seq<Chars>,
    label_style: Style,
    value_style: Style,
    i: int,
) -> LineView {
    if i == 0 {
        line2(span_of(label, label_style), span_of(segs[i], value_style))
    } else {
        line2(
            span_of(blanks(label_width(label) as nat), Style::plain_spec()),
            span_of(segs[i], value_style),
        )
    }
}

/// A field: its label, and its value in lines beside it.
pub open spec fn field_lines(
    label: Chars,
    value: Chars,
    label_style: Style,
    value_style: Style,
    total: int,
) -> Seq<LineView> {
    let budget = total - label_width(label);
    if budget <= 0 {
        seq![line2(span_of(label, label_style), span_of(value, value_style))]
    } else {
        let segs = segments(value, budget);
        if segs.len() == 0 {
            seq![line1(span_of(label, label_style))]
        } else {
            Seq::new(
                segs.len(),
                |i: int| field_line(label, segs, label_style, value_style, i),
            )
        }
    }
}

/// Lays a field out in lines of `total_width` columns. The value is folded between words where that
/// is possible, and its further lines are indented to where the first begins.
pub fn wrap_labeled_field(
    label: &str,
    value: &str,
    label_style: Style,
    value_style: Style,
    total_width: usize,
) -> (r: Vec<Line>)
    ensures
        lines_view(r@) == field_lines(
            label@,
            value@,
            label_style,
            value_style,
            total_width as int,
        ),
{
    let lw: usize = label_cols(label);
    let mut out: Vec<Line> = no_lines();
    if total_width <= lw {
        add2(&mut out, span(label, label_style), span(value, value_style));
        return out;
    }
    let segs: Vec<String> = fold_text(value, total_width - lw);
    let ghost all = segments(value@, total_width - lw);
    assert(segs@.len() == all.len());
    if segs.len() == 0 {
        add1(&mut out, span(label, label_style));
        return out;
    }
    let mut i: usize = 0;
    while i < segs.len()
        invariant
            i <= segs@.len(),
            all == texts(segs@),
            lw == label_width(label@),
            lines_view(out@).len() == i,
            forall|k: int|
                0 <= k < i ==> #[trigger] lines_view(out@)[k] == field_line(
                    label@,
                    all,
                    label_style,
                    value_style,
                    k,
                ),
        decreases segs@.len() - i,
    {
        assert(all[i as int] == segs@[i as int]@);
        if i == 0 {
            add2(
                &mut out,
                span(label, label_style),
                span(segs[i].as_str(), value_style),
            );
        } else {
            add2(
                &mut out,
                span_owned(spaces(lw), Style::plain()),
                span(segs[i].as_str(), value_style),
            );
        }
        i += 1;
    }
    assert(lines_view(out@) =~= field_lines(
        label@,
        value@,
        label_style,
        value_style,
        total_width as int,
    ));
    out
}

pub open spec fn dim_yellow() -> Style {
    Style { fg: Some(Color::Yellow), dim: true, ..Style::plain_spec() }
}

pub fn dimmed_yellow() -> (r: Style)
    ensures
        r == dim_yellow(),
{
    Style { fg: Some(Color::Yellow), bg: None, bold: false, underlined: false, dim: true }
}

/// Whether an entry is among others, by its id.
pub open spec fn holds_id(entries: Seq<Entry>, id: Chars) -> bool {
    exists|i: int| 0 <= i < entries.len() && (#[trigger] entries[i]).id@ == id
}

pub fn contains_id(entries: &Vec<Entry>, id: &str) -> (r: bool)
    ensures
        r == holds_id(entries@, id@),
{
    let mut i: usize = 0;
    while i < entries.len()
        invariant
            i <= entries@.len(),
            forall|k: int| 0 <= k < i ==> (#[trigger] entries@[k]).id@ != id@,
        decreases entries@.len() - i,
    {
        if str_eq(entries[i].id.as_str(), id) {
            assert(entries@[i as int].id@ == id@);
            return true;
        }
        i += 1;
    }
    false
}

pub open spec fn star_mark() -> SpanView {
    span_of("\u{2605} Starred"@, Style::fg_spec(Color::Yellow))
}

pub open spec fn cart_mark() -> SpanView {
    span_of("\u{2606} In cart"@, dim_yellow())
}

/// The line that tells whether an entry is starred and whether it is in the cart; none where neither
/// holds.
pub open spec fn marker_lines(starred: bool, in_cart: bool) -> Seq<LineView> {
    let lead = span_of("  "@, Style::plain_spec());
    if starred && in_cart {
        seq![seq![lead, star_mark(), span_of("  "@, Style::plain_spec()), cart_mark()]]
    } else if starred {
        seq![seq![lead, star_mark()]]
    } else if in_cart {
        seq![seq![lead, cart_mark()]]
    } else {
        Seq::empty()
    }
}

pub fn markers(starred: bool, in_cart: bool) -> (r: Vec<Line>)
    ensures
        lines_view(r@) == marker_lines(starred, in_cart),
{
    let mut out: Vec<Line> = no_lines();
    if !starred && !in_cart {
        return out;
    }
    let mut spans: Vec<Span> = no_spans();
    add_span(&mut spans, span("  ", Style::plain()));
    if starred {
        add_span(&mut spans, span("\u{2605} Starred", Style::fg(Color::Yellow)));
    }
    if starred && in_cart {
        add_span(&mut spans, span("  ", Style::plain()));
    }
    if in_cart {
        add_span(&mut spans, span("\u{2606} In cart", dimmed_yellow()));
    }
    assert(spans_view(spans@) =~= marker_lines(starred, in_cart)[0]);
    add_line(&mut out, spans);
    out
}

/// A label and a short value.
pub open spec fn short_field(label: Chars, value: Chars, value_color: Color) -> LineView {
    line2(
        span_of(label, Style::fg_spec(Color::Cyan)),
        span_of(value, Style::fg_spec(value_color)),
    )
}

pub fn add_field(lines: &mut Vec<Line>, label: &str, value: &str, value_color: Color)
    ensures
        lines_view(final(lines)@) == lines_view(old(lines)@).push(
            short_field(label@, value@, value_color),
        ),
{
    add2(
        lines,
        span(label, Style::fg(Color::Cyan)),
        span(value, Style::fg(value_color)),
    );
}

/// Lines, followed by one more where a condition holds.
pub open spec fn push_if(lines: Seq<LineView>, when: bool, line: LineView) -> Seq<LineView> {
    if when {
        lines.push(line)
    } else {
        lines
    }
}

/// Name, size, dates and markers of an entry.
pub open spec fn entry_lines(e: Entry, in_cart: bool, width: int) -> Seq<LineView> {
    let name = field_lines(
        "  Name:  "@,
        e.name@,
        Style::fg_spec(Color::Cyan),
        Style::fg_spec(Color::Reset),
        width,
    );
    let sized = push_if(
        name,
        e.kind == EntryKind::File,
        short_field("  Size:  "@, size_text(e.size as int), Color::Reset),
    );
    let created = push_if(
        sized,
        e.created_time@.len() > 0,
        short_field("  Created:"@, e.created_time@, Color::DarkGray),
    );
    let modified = push_if(
        created,
        e.modified_time@.len() > 0,
        short_field("  Modified:"@, e.modified_time@, Color::DarkGray),
    );
    modified + marker_lines(e.starred, in_cart)
}

pub fn entry_info_lines(e: &Entry, in_cart: bool, wrap_w: usize) -> (r: Vec<Line>)
    ensures
        lines_view(r@) == entry_lines(*e, in_cart, wrap_w as int),
{
    let mut lines: Vec<Line> = wrap_labeled_field(
        "  Name:  ",
        e.name.as_str(),
        Style::fg(Color::Cyan),
        Style::fg(Color::Reset),
        wrap_w,
    );
    if e.kind == EntryKind::File {
        add_field(&mut lines, "  Size:  ", format_size(e.size).as_str(), Color::Reset);
    }
    if !e.created_time.as_str().is_empty() {
        add_field(&mut lines, "  Created:", e.created_time.as_str(), Color::DarkGray);
    }
    if !e.modified_time.as_str().is_empty() {
        add_field(&mut lines, "  Modified:", e.modified_time.as_str(), Color::DarkGray);
    }
    add_lines(&mut lines, markers(e.starred, in_cart));
    lines
}

/// Black on yellow.
pub open spec fn warning_style() -> Style {
    Style { fg: Some(Color::Black), bg: Some(Color::Yellow), ..Style::plain_spec() }
}

fn black_on_yellow() -> (r: Style)
    ensures
        r == warning_style(),
{
    Style {
        fg: Some(Color::Black),
        bg: Some(Color::Yellow),
        bold: false,
        underlined: false,
        dim: false,
    }
}

/// The inside of a row of the warning triangle, with a bar in its middle or without.
pub open spec fn triangle_inside(width: nat, bar: bool) -> SpanView {
    if bar {
        let side = blanks(((width - 2) / 2) as nat);
        span_of(side + "\u{2588}\u{2588}"@ + side, warning_style())
    } else {
        span_of(blanks(width), warning_style())
    }
}

/// A row of the warning triangle.
pub open spec fn triangle_row(pad: nat, width: nat, bar: bool) -> LineView {
    let edge = Style::bold_spec(Color::Yellow);
    seq![
        span_of(blanks(pad), Style::plain_spec()),
        span_of("\u{2584}\u{2588}"@, edge),
        triangle_inside(width, bar),
        span_of("\u{2588}\u{2584}"@, edge),
    ]
}

/// A large warning triangle with an exclamation mark.
pub open spec fn triangle() -> Seq<LineView> {
    let edge = Style::bold_spec(Color::Yellow);
    seq![
        line1(span_of(blanks(10) + "\u{2584}\u{2584}"@, edge)),
        line1(span_of(blanks(9) + "\u{2584}\u{2588}\u{2588}\u{2584}"@, edge)),
        triangle_row(8, 2, false),
        triangle_row(7, 4, true),
        triangle_row(6, 6, true),
        triangle_row(5, 8, true),
        triangle_row(4, 10, false),
        triangle_row(3, 12, true),
        line1(span_of(blanks(3) + repeated('\u{2588}', 16), edge)),
    ]
}

fn add_row(lines: &mut Vec<Line>, pad: usize, width: usize, bar: bool)
    requires
        width >= 2,
    ensures
        lines_view(final(lines)@) == lines_view(old(lines)@).push(
            triangle_row(pad as nat, width as nat, bar),
        ),
{
    let edge: Style = Style::bold(Color::Yellow);
    let inside: String = if bar {
        let side: String = spaces((width - 2) / 2);
        cat3(side.as_str(), "\u{2588}\u{2588}", side.as_str())
    } else {
        spaces(width)
    };
    let mut row: Vec<Span> = no_spans();
    add_span(&mut row, span_owned(spaces(pad), Style::plain()));
    add_span(&mut row, span("\u{2584}\u{2588}", edge));
    add_span(&mut row, span_owned(inside, black_on_yellow()));
    add_span(&mut row, span("\u{2588}\u{2584}", edge));
    assert(spans_view(row@) =~= triangle_row(pad as nat, width as nat, bar));
    add_line(lines, row);
}

pub fn warn_triangle_lines() -> (r: Vec<Line>)
    ensures
        lines_view(r@) == triangle(),
{
    let edge: Style = Style::bold(Color::Yellow);
    let mut v: Vec<Line> = no_lines();
    add1(&mut v, span_owned(cat2(spaces(10).as_str(), "\u{2584}\u{2584}"), edge));
    add1(
        &mut v,
        span_owned(cat2(spaces(9).as_str(), "\u{2584}\u{2588}\u{2588}\u{2584}"), edge),
    );
    add_row(&mut v, 8, 2, false);
    add_row(&mut v, 7, 4, true);
    add_row(&mut v, 6, 6, true);
    add_row(&mut v, 5, 8, true);
    add_row(&mut v, 4, 10, false);
    add_row(&mut v, 3, 12, true);
    add1(
        &mut v,
        span_owned(
            cat2(spaces(3).as_str(), repeat_char('\u{2588}', 16).as_str()),
            edge,
        ),
    );
    v
}

} // verus!
