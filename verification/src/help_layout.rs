//! How the panes and the help are laid out on a screen of a given width.

use crate::text::{cat2, cat3, Chars};
use crate::width::{
    adds_up, char_cols, lemma_cols_of_ones, lemma_cols_sum_adds, pad_to_width, padded, text_columns,
    text_width,
};
use vstd::prelude::*;

verus! {

/// Which panes the main screen shows.
#[derive(Clone, Copy, Debug, PartialEq, Eq, Structural)]
pub enum MainLayoutMode {
    ThreePane,
    CurrentPreview,
    ParentCurrent,
    CurrentOnly,
}

/// Narrow screens show fewer panes.
pub open spec fn layout_of(width: int, show_preview: bool) -> MainLayoutMode {
    if show_preview {
        if width >= 96 {
            MainLayoutMode::ThreePane
        } else if width >= 64 {
            MainLayoutMode::CurrentPreview
        } else {
            MainLayoutMode::CurrentOnly
        }
    } else if width >= 60 {
        MainLayoutMode::ParentCurrent
    } else {
        MainLayoutMode::CurrentOnly
    }
}

pub fn main_layout_mode(width: u16, show_preview: bool) -> (r: MainLayoutMode)
    ensures
        r == layout_of(width as int, show_preview),
{
    if show_preview {
        if width >= 96 {
            MainLayoutMode::ThreePane
        } else if width >= 64 {
            MainLayoutMode::CurrentPreview
        } else {
            MainLayoutMode::CurrentOnly
        }
    } else if width >= 60 {
        MainLayoutMode::ParentCurrent
    } else {
        MainLayoutMode::CurrentOnly
    }
}

/// The width of the help: two columns of margin on each side, between 44 and 92 columns, and never
/// more than the terminal has.
pub open spec fn sheet_width(terminal: int) -> int {
    let wanted = terminal - 4;
    let w = if wanted < 44 {
        44
    } else if wanted > 92 {
        92
    } else {
        wanted
    };
    if w < terminal {
        w
    } else {
        terminal
    }
}

pub fn help_sheet_width(terminal_width: u16) -> (r: u16)
    ensures
        r == sheet_width(terminal_width as int),
        r <= terminal_width,
{
    let wanted: u16 = terminal_width.saturating_sub(4);
    let w: u16 = if wanted < 44 {
        44
    } else if wanted > 92 {
        92
    } else {
        wanted
    };
    if w < terminal_width {
        w
    } else {
        terminal_width
    }
}

/// As many columns as leave room for a key, a gap of two and ten columns of description each, but
/// no more than there are sections, and at least one.
pub open spec fn column_count(inner: int, sections: int, key: int) -> int {
    if sections == 0 {
        0
    } else {
        let n = inner / (key + 12);
        let m = if n < 1 {
            1
        } else {
            n
        };
        if m < sections {
            m
        } else {
            sections
        }
    }
}

pub fn help_column_count(inner_width: usize, section_count: usize, key_width: usize) -> (r: usize)
    ensures
        r == column_count(inner_width as int, section_count as int, key_width as int),
        section_count > 0 ==> 1 <= r <= section_count,
{
    if section_count == 0 {
        return 0;
    }
    let least: usize = key_width.saturating_add(12);
    let n: usize = inner_width / least;
    proof {
        if key_width + 12 > usize::MAX {
            assert(inner_width as int / (key_width + 12) == 0) by (nonlinear_arith)
                requires
                    0 <= inner_width < key_width + 12,
            ;
            assert(n <= 1) by (nonlinear_arith)
                requires
                    n == inner_width / usize::MAX,
                    inner_width <= usize::MAX,
                    usize::MAX > 0,
            ;
        }
    }
    let m: usize = if n < 1 {
        1
    } else {
        n
    };
    if m < section_count {
        m
    } else {
        section_count
    }
}

/// The width of column `i` of `count` columns: what is left over goes to the first ones.
pub open spec fn column_width(inner: int, count: int, i: int) -> int {
    inner / count + if i < inner % count {
        1int
    } else {
        0int
    }
}

pub open spec fn column_widths(inner: int, count: int) -> Seq<int> {
    Seq::new(count as nat, |i: int| column_width(inner, count, i))
}

pub open spec fn ints(v: Seq<usize>) -> Seq<int> {
    Seq::new(v.len(), |i: int| v[i] as int)
}

pub fn help_column_widths(inner_width: usize, column_count: usize) -> (r: Vec<usize>)
    ensures
        ints(r@) == column_widths(inner_width as int, column_count as int),
{
    let mut out: Vec<usize> = Vec::new();
    if column_count == 0 {
        assert(ints(out@) =~= column_widths(inner_width as int, 0));
        return out;
    }
    let base: usize = inner_width / column_count;
    let rest: usize = inner_width % column_count;
    let mut i: usize = 0;
    while i < column_count
        invariant
            0 < column_count,
            i <= column_count,
            base == inner_width as int / column_count as int,
            rest == inner_width as int % column_count as int,
            out.len() == i,
            forall|k: int|
                0 <= k < i ==> out@[k] == column_width(
                    inner_width as int,
                    column_count as int,
                    k,
                ),
        decreases column_count - i,
    {
        if i < rest {
            assert(base + 1 <= inner_width) by (nonlinear_arith)
                requires
                    base == inner_width as int / column_count as int,
                    rest == inner_width as int % column_count as int,
                    0 < rest,
                    0 < column_count,
            ;
            out.push(base + 1);
        } else {
            out.push(base);
        }
        i += 1;
    }
    assert(ints(out@) =~= column_widths(inner_width as int, column_count as int));
    out
}

/// The sum of the widths of the first `k` columns.
pub open spec fn widths_sum(inner: int, count: int, k: int) -> int
    decreases k,
{
    if k <= 0 {
        0
    } else {
        widths_sum(inner, count, k - 1) + column_width(inner, count, k - 1)
    }
}

proof fn lemma_widths_sum(inner: int, count: int, k: int)
    requires
        0 <= inner,
        0 < count,
        0 <= k <= count,
    ensures
        widths_sum(inner, count, k) == k * (inner / count) + if k < inner % count {
            k
        } else {
            inner % count
        },
    decreases k,
{
    if k > 0 {
        lemma_widths_sum(inner, count, k - 1);
        assert((k - 1) * (inner / count) + inner / count == k * (inner / count))
            by (nonlinear_arith);
    } else {
        assert(0 * (inner / count) == 0);
    }
}

/// The columns together take exactly the width that there is, and no two of them differ by more
/// than one.
pub proof fn law_columns_fill_the_width(inner: int, count: int, i: int, j: int)
    requires
        0 <= inner,
        0 < count,
        0 <= i < count,
        0 <= j < count,
    ensures
        widths_sum(inner, count, count) == inner,
        column_width(inner, count, i) - column_width(inner, count, j) <= 1,
{
    lemma_widths_sum(inner, count, count);
    assert(count * (inner / count) + inner % count == inner) by (nonlinear_arith)
        requires
            0 < count,
    ;
    assert(0 <= inner % count < count) by (nonlinear_arith)
        requires
            0 < count,
    ;
}

/// Columns of sections: which sections each holds, and how high it is.
pub struct Stacks {
    pub columns: Seq<Seq<int>>,
    pub heights: Seq<int>,
}

/// The first of the lowest columns.
pub open spec fn shortest(heights: Seq<int>) -> int
    decreases heights.len(),
{
    if heights.len() <= 1 {
        0
    } else {
        let before = shortest(heights.drop_last());
        if heights.last() < heights[before] {
            heights.len() - 1
        } else {
            before
        }
    }
}

/// With a section put into the first of the lowest columns, a blank row below what is there.
pub open spec fn stacked(s: Stacks, section: int, height: int) -> Stacks {
    let c = shortest(s.heights);
    let gap: int = if s.columns[c].len() > 0 {
        1
    } else {
        0
    };
    Stacks {
        columns: s.columns.update(c, s.columns[c].push(section)),
        heights: s.heights.update(c, s.heights[c] + gap + height),
    }
}

pub open spec fn no_stacks(count: int) -> Stacks {
    Stacks {
        columns: Seq::new(count as nat, |i: int| Seq::<int>::empty()),
        heights: Seq::new(count as nat, |i: int| 0int),
    }
}

/// The columns with the first `n` sections in them.
pub open spec fn stacks(heights: Seq<int>, count: int, n: int) -> Stacks
    decreases n,
{
    if n <= 0 {
        no_stacks(count)
    } else {
        stacked(stacks(heights, count, n - 1), n - 1, heights[n - 1])
    }
}

pub open spec fn balanced(heights: Seq<int>, count: int) -> Seq<Seq<int>> {
    if heights.len() == 0 || count == 0 {
        Seq::empty()
    } else {
        let c = if count < heights.len() {
            count
        } else {
            heights.len() as int
        };
        stacks(heights, c, heights.len() as int).columns
    }
}

pub open spec fn total(heights: Seq<int>, n: int) -> int
    decreases n,
{
    if n <= 0 {
        0
    } else {
        total(heights, n - 1) + heights[n - 1]
    }
}

pub open spec fn columns_view(v: Seq<Vec<usize>>) -> Seq<Seq<int>> {
    Seq::new(v.len(), |i: int| ints(v[i]@))
}

proof fn lemma_shortest(heights: Seq<int>)
    requires
        heights.len() > 0,
    ensures
        0 <= shortest(heights) < heights.len(),
        forall|i: int| 0 <= i < heights.len() ==> heights[shortest(heights)] <= #[trigger] heights[i],
    decreases heights.len(),
{
    if heights.len() > 1 {
        lemma_shortest(heights.drop_last());
        let before = shortest(heights.drop_last());
        assert forall|i: int| 0 <= i < heights.len() implies heights[shortest(heights)]
            <= #[trigger] heights[i] by {
            if i < heights.len() - 1 {
                assert(heights.drop_last()[i] == heights[i]);
            }
        }
    }
}

proof fn lemma_stacks_shape(heights: Seq<int>, count: int, n: int)
    requires
        0 < count,
        0 <= n,
    ensures
        stacks(heights, count, n).columns.len() == count,
        stacks(heights, count, n).heights.len() == count,
    decreases n,
{
    if n > 0 {
        lemma_stacks_shape(heights, count, n - 1);
        lemma_shortest(stacks(heights, count, n - 1).heights);
    }
}

proof fn lemma_heights_bounded(heights: Seq<int>, count: int, n: int, c: int)
    requires
        0 < count,
        0 <= n <= heights.len(),
        0 <= c < count,
        forall|i: int| 0 <= i < heights.len() ==> 0 <= #[trigger] heights[i],
    ensures
        0 <= stacks(heights, count, n).heights[c] <= total(heights, n) + n,
    decreases n,
{
    lemma_stacks_shape(heights, count, n);
    if n > 0 {
        lemma_stacks_shape(heights, count, n - 1);
        lemma_heights_bounded(heights, count, n - 1, c);
        let s = stacks(heights, count, n - 1);
        lemma_shortest(s.heights);
        let k = shortest(s.heights);
        lemma_heights_bounded(heights, count, n - 1, k);
    }
}

proof fn lemma_total_grows(heights: Seq<int>, n: int, m: int)
    requires
        0 <= n <= m <= heights.len(),
        forall|i: int| 0 <= i < heights.len() ==> 0 <= #[trigger] heights[i],
    ensures
        total(heights, n) <= total(heights, m),
    decreases m,
{
    if n < m {
        lemma_total_grows(heights, n, m - 1);
    }
}

fn find_shortest(heights: &Vec<usize>) -> (r: usize)
    requires
        heights.len() > 0,
    ensures
        r == shortest(ints(heights@)),
        r < heights.len(),
{
    let mut best: usize = 0;
    let mut i: usize = 1;
    assert(ints(heights@).take(1).len() == 1);
    while i < heights.len()
        invariant
            1 <= i <= heights.len(),
            best < i,
            best == shortest(ints(heights@).take(i as int)),
        decreases heights.len() - i,
    {
        let ghost now = ints(heights@).take(i + 1);
        assert(now.drop_last() =~= ints(heights@).take(i as int));
        assert(now[best as int] == heights@[best as int]);
        if heights[i] < heights[best] {
            best = i;
        }
        i += 1;
    }
    assert(ints(heights@).take(i as int) =~= ints(heights@));
    best
}

fn empty_columns(count: usize) -> (r: Vec<Vec<usize>>)
    ensures
        columns_view(r@) == no_stacks(count as int).columns,
        r@.len() == count,
{
    let mut out: Vec<Vec<usize>> = Vec::new();
    let mut i: usize = 0;
    while i < count
        invariant
            i <= count,
            out.len() == i,
            forall|k: int| 0 <= k < i ==> (#[trigger] out@[k])@ == Seq::<usize>::empty(),
        decreases count - i,
    {
        let column: Vec<usize> = Vec::new();
        out.push(column);
        i += 1;
    }
    assert(columns_view(out@) =~= no_stacks(count as int).columns) by {
        assert forall|k: int| 0 <= k < count implies columns_view(out@)[k] == no_stacks(
            count as int,
        ).columns[k] by {
            assert(ints(out@[k]@) =~= Seq::<int>::empty());
        }
    }
    out
}

fn zeros(count: usize) -> (r: Vec<usize>)
    ensures
        ints(r@) == no_stacks(count as int).heights,
        r@.len() == count,
{
    let mut out: Vec<usize> = Vec::new();
    let mut i: usize = 0;
    while i < count
        invariant
            i <= count,
            out.len() == i,
            forall|k: int| 0 <= k < i ==> out@[k] == 0,
        decreases count - i,
    {
        out.push(0);
        i += 1;
    }
    assert(ints(out@) =~= no_stacks(count as int).heights);
    out
}

fn put(columns: &mut Vec<Vec<usize>>, c: usize, section: usize)
    requires
        c < old(columns).len(),
    ensures
        columns_view(final(columns)@) == columns_view(old(columns)@).update(
            c as int,
            columns_view(old(columns)@)[c as int].push(section as int),
        ),
        final(columns).len() == old(columns).len(),
{
    let mut column: Vec<usize> = Vec::new();
    let mut i: usize = 0;
    let from: &Vec<usize> = &columns[c];
    while i < from.len()
        invariant
            i <= from.len(),
            column@ == from@.take(i as int),
        decreases from.len() - i,
    {
        column.push(from[i]);
        i += 1;
        assert(column@ =~= from@.take(i as int));
    }
    assert(column@ =~= from@);
    column.push(section);
    assert(ints(column@) =~= columns_view(old(columns)@)[c as int].push(section as int));
    columns.set(c, column);
    assert(columns_view(columns@) =~= columns_view(old(columns)@).update(
        c as int,
        columns_view(old(columns)@)[c as int].push(section as int),
    ));
}

/// Puts each section, in order, into the first of the lowest columns.
pub fn balanced_help_columns(section_heights: &Vec<usize>, column_count: usize) -> (r: Vec<
    Vec<usize>,
>)
    requires
        total(ints(section_heights@), section_heights@.len() as int) + section_heights@.len()
            <= usize::MAX,
    ensures
        columns_view(r@) == balanced(ints(section_heights@), column_count as int),
{
    if section_heights.len() == 0 || column_count == 0 {
        let out: Vec<Vec<usize>> = Vec::new();
        assert(columns_view(out@) =~= Seq::empty());
        return out;
    }
    let count: usize = if column_count < section_heights.len() {
        column_count
    } else {
        section_heights.len()
    };
    let mut columns: Vec<Vec<usize>> = empty_columns(count);
    let mut heights: Vec<usize> = zeros(count);
    let ghost all = ints(section_heights@);
    let mut i: usize = 0;
    while i < section_heights.len()
        invariant
            0 < count,
            i <= section_heights.len(),
            all == ints(section_heights@),
            total(all, all.len() as int) + all.len() <= usize::MAX,
            columns_view(columns@) == stacks(all, count as int, i as int).columns,
            ints(heights@) == stacks(all, count as int, i as int).heights,
            columns@.len() == count,
            heights@.len() == count,
        decreases section_heights.len() - i,
    {
        let ghost s = stacks(all, count as int, i as int);
        let c: usize = find_shortest(&heights);
        let height: usize = section_heights[i];
        proof {
            lemma_heights_bounded(all, count as int, i as int, c as int);
            lemma_total_grows(all, i + 1, all.len() as int);
            assert(all[i as int] == height);
            assert(heights@[c as int] == ints(heights@)[c as int]);
            assert(columns_view(columns@)[c as int].len() == columns@[c as int]@.len());
        }
        let gap: usize = if columns[c].len() > 0 {
            1
        } else {
            0
        };
        let ghost before = ints(heights@);
        put(&mut columns, c, i);
        let h: usize = heights[c];
        heights.set(c, h + gap + height);
        assert(ints(heights@) =~= before.update(c as int, before[c as int] + gap + height));
        i += 1;
    }
    columns
}

/// Whether the first `n` sections stand in the columns, each in one place, and in order.
pub open spec fn holds_each_once(columns: Seq<Seq<int>>, n: int) -> bool {
    &&& forall|c: int, k: int|
        0 <= c < columns.len() && 0 <= k < columns[c].len() ==> 0 <= #[trigger] columns[c][k] < n
    &&& forall|c: int, j: int, k: int|
        0 <= c < columns.len() && 0 <= j < k < columns[c].len() ==> (#[trigger] columns[c][j])
            < #[trigger] columns[c][k]
    &&& forall|c: int, d: int, j: int, k: int|
        0 <= c < columns.len() && 0 <= d < columns.len() && c != d && 0 <= j < columns[c].len()
            && 0 <= k < columns[d].len() ==> (#[trigger] columns[c][j]) != #[trigger] columns[d][k]
    &&& forall|i: int| 0 <= i < n ==> #[trigger] is_placed(columns, i)
}

pub open spec fn is_placed(columns: Seq<Seq<int>>, i: int) -> bool {
    exists|c: int, k: int|
        0 <= c < columns.len() && 0 <= k < columns[c].len() && #[trigger] columns[c][k] == i
}

proof fn lemma_stacks_hold_each_once(heights: Seq<int>, count: int, n: int)
    requires
        0 < count,
        0 <= n,
    ensures
        holds_each_once(stacks(heights, count, n).columns, n),
    decreases n,
{
    if n > 0 {
        lemma_stacks_hold_each_once(heights, count, n - 1);
        lemma_stacks_shape(heights, count, n - 1);
        let s = stacks(heights, count, n - 1);
        let t = stacks(heights, count, n);
        lemma_shortest(s.heights);
        let b = shortest(s.heights);
        assert(t.columns[b] == s.columns[b].push(n - 1));
        assert forall|i: int| 0 <= i < n implies #[trigger] is_placed(t.columns, i) by {
            if i == n - 1 {
                assert(t.columns[b][s.columns[b].len() as int] == n - 1);
            } else {
                assert(is_placed(s.columns, i));
                let (c, k) = choose|c: int, k: int|
                    0 <= c < s.columns.len() && 0 <= k < s.columns[c].len()
                        && #[trigger] s.columns[c][k] == i;
                assert(t.columns[c][k] == i);
            }
        }
    } else {
        let t = stacks(heights, count, n);
        assert forall|c: int, k: int|
            0 <= c < t.columns.len() && 0 <= k < t.columns[c].len() implies 0
            <= #[trigger] t.columns[c][k] < n by {
            assert(t.columns[c].len() == 0);
        }
    }
}

/// There are as many columns as were asked for, where there are sections enough.
pub proof fn lemma_balanced_len(heights: Seq<int>, count: int)
    requires
        0 < count <= heights.len(),
    ensures
        balanced(heights, count).len() == count,
{
    lemma_stacks_shape(heights, count, heights.len() as int);
}

/// Every section stands in exactly one place of the columns, and the sections of a column are in
/// order.
pub proof fn law_every_section_has_one_place(heights: Seq<int>, count: int)
    requires
        0 < count,
    ensures
        holds_each_once(balanced(heights, count), heights.len() as int),
{
    if heights.len() > 0 {
        let c = if count < heights.len() {
            count
        } else {
            heights.len() as int
        };
        lemma_stacks_hold_each_once(heights, c, heights.len() as int);
    }
}

/// One entry of the help, as two texts that together take `column` columns: the key and its
/// description.
pub open spec fn item_key(prefix: Chars, key: Chars, key_width: int, column: int) -> Chars {
    let p = if text_columns(prefix) < column {
        text_columns(prefix) as int
    } else {
        column
    };
    let area = if key_width + 1 < column - p {
        key_width + 1
    } else {
        column - p
    };
    if area > 0 {
        padded(prefix, p as nat) + padded(key, (area - 1) as nat) + " "@
    } else {
        padded(prefix, p as nat)
    }
}

pub open spec fn item_description(key_part: Chars, description: Chars, column: int) -> Chars {
    if text_columns(key_part) < column {
        padded(description, (column - text_columns(key_part) - 1) as nat) + " "@
    } else {
        Seq::empty()
    }
}

/// Lays out one entry of the help. The two parts take exactly `column_width` columns together, where
/// the columns of the characters add up in the texts and in what they are put together to.
pub fn help_item_parts(
    prefix: &str,
    key: &str,
    description: &str,
    key_width: usize,
    column_width: usize,
) -> (r: (String, String))
    ensures
        r.0@ == item_key(prefix@, key@, key_width as int, column_width as int),
        r.1@ == item_description(r.0@, description@, column_width as int),
        adds_up(prefix@) && adds_up(key@) && adds_up(description@) && adds_up(r.0@ + r.1@)
            ==> text_columns(r.0@ + r.1@) == column_width,
{
    let _one: usize = char_cols(' ');
    let w: usize = text_width(prefix);
    let p: usize = if w < column_width {
        w
    } else {
        column_width
    };
    let rest: usize = column_width - p;
    let start: String = pad_to_width(prefix, p);
    let area: usize = if key_width < usize::MAX && key_width + 1 < rest {
        key_width + 1
    } else {
        rest
    };
    let key_part: String = if area > 0 {
        cat3(start.as_str(), pad_to_width(key, area - 1).as_str(), " ")
    } else {
        start
    };
    let used: usize = text_width(key_part.as_str());
    let description_part: String = if used < column_width {
        cat2(pad_to_width(description, column_width - used - 1).as_str(), " ")
    } else {
        crate::navigate::empty_text()
    };
    proof {
        reveal_strlit(" ");
        lemma_cols_of_ones(" "@);
        let both = key_part@ + description_part@;
        if adds_up(prefix@) && adds_up(key@) && adds_up(description@) && adds_up(both) {
            if area > 0 {
                let padded_key = padded(key@, (area - 1) as nat);
                lemma_cols_sum_adds(start@, padded_key);
                lemma_cols_sum_adds(start@ + padded_key, " "@);
            }
            lemma_cols_sum_adds(key_part@, description_part@);
            assert(both.take(key_part@.len() as int) =~= key_part@);
            assert(both.take(both.len() as int) =~= both);
            if used < column_width {
                lemma_cols_sum_adds(
                    padded(description@, (column_width - used - 1) as nat),
                    " "@,
                );
            }
        }
    }
    (key_part, description_part)
}

} // verus!
