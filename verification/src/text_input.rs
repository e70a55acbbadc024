//! A line of editable text with a cursor.

use crate::event::{KeyCode, KeyModifiers};
use crate::text::{cat5, chars_of, is_space, is_whitespace, string_of, Chars};
use crate::width::{
    cols, cols_sum, fit_back, fit_before, fit_front, lemma_fit_from_bounds, prefix_fitting,
    suffix_fitting, text_columns, text_width,
};
use vstd::prelude::*;

verus! {

/// The bytes that a character takes in UTF-8.
pub open spec fn char_bytes(c: char) -> nat {
    let n = c as u32;
    if n <= 0x7f {
        1
    } else if n <= 0x7ff {
        2
    } else if n <= 0xffff {
        3
    } else {
        4
    }
}

/// The bytes that a text takes in UTF-8.
pub open spec fn byte_len(s: Chars) -> nat
    decreases s.len(),
{
    if s.len() == 0 {
        0
    } else {
        byte_len(s.drop_last()) + char_bytes(s.last())
    }
}

/// The byte offset of the character at index `k`. A text longer than the machine can count has its
/// far offsets at the greatest number.
pub open spec fn offset_of(s: Chars, k: int) -> usize {
    if byte_len(s.take(k)) <= usize::MAX {
        byte_len(s.take(k)) as usize
    } else {
        usize::MAX
    }
}

/// The index of the character that a byte offset points at: an offset past the end points at the
/// end, and one inside of a character at that character.
pub open spec fn index_at(s: Chars, offset: nat) -> int
    decreases s.len(),
{
    if s.len() == 0 || byte_len(s) <= offset {
        s.len() as int
    } else {
        index_at(s.drop_last(), offset)
    }
}

/// Where the white space before index `k` begins.
pub open spec fn spaces_start(s: Chars, k: int) -> int
    decreases k,
{
    if 0 < k <= s.len() && is_space(s[k - 1]) {
        spaces_start(s, k - 1)
    } else {
        k
    }
}

/// Where the run of characters that are no white space before index `k` begins.
pub open spec fn run_start(s: Chars, k: int) -> int
    decreases k,
{
    if 0 < k <= s.len() && !is_space(s[k - 1]) {
        run_start(s, k - 1)
    } else {
        k
    }
}

/// Where the word before index `k` begins, white space between the two included.
pub open spec fn word_start(s: Chars, k: int) -> int {
    run_start(s, spaces_start(s, k))
}

/// An edited line: its text, the index of the character at the cursor, and whether the line was
/// confirmed (`Some(true)`), given up (`Some(false)`) or is still being edited (`None`).
pub struct Edited {
    pub value: Chars,
    pub at: int,
    pub done: Option<bool>,
}

/// What a key does to a line with the cursor at character `k`.
pub open spec fn edited(s: Chars, k: int, code: KeyCode, modifiers: KeyModifiers) -> Edited {
    let same = Edited { value: s, at: k, done: None };
    match code {
        KeyCode::Esc => Edited { done: Some(false), ..same },
        KeyCode::Enter => Edited { done: Some(true), ..same },
        KeyCode::Home => if modifiers.control {
            Edited { at: 0, ..same }
        } else {
            same
        },
        KeyCode::End => if modifiers.control {
            Edited { at: s.len() as int, ..same }
        } else {
            same
        },
        KeyCode::Left => if k > 0 {
            Edited { at: k - 1, ..same }
        } else {
            same
        },
        KeyCode::Right => if k < s.len() {
            Edited { at: k + 1, ..same }
        } else {
            same
        },
        KeyCode::Backspace => if k > 0 {
            Edited { value: s.remove(k - 1), at: k - 1, done: None }
        } else {
            same
        },
        KeyCode::Delete => if k < s.len() {
            Edited { value: s.remove(k), ..same }
        } else {
            same
        },
        KeyCode::Char(c) => if c == 'a' && modifiers.control {
            Edited { at: 0, ..same }
        } else if c == 'e' && modifiers.control {
            Edited { at: s.len() as int, ..same }
        } else if c == 'w' && modifiers.control {
            let from = word_start(s, k);
            Edited { value: s.take(from) + s.skip(k), at: from, done: None }
        } else if !modifiers.control && !modifiers.alt {
            Edited { value: s.insert(k, c), at: k + 1, done: None }
        } else {
            same
        },
        _ => same,
    }
}

proof fn lemma_byte_len_grows(s: Chars, k: int)
    requires
        0 <= k <= s.len(),
    ensures
        byte_len(s.take(k)) <= byte_len(s),
        k < s.len() ==> byte_len(s.take(k)) < byte_len(s),
    decreases s.len(),
{
    if k < s.len() {
        assert(s.drop_last().take(k) =~= s.take(k));
        lemma_byte_len_grows(s.drop_last(), k);
    } else {
        assert(s.take(k) =~= s);
    }
}

proof fn lemma_index_at(s: Chars, offset: nat, k: int)
    requires
        0 <= k <= s.len(),
        byte_len(s.take(k)) <= offset,
        k < s.len() ==> byte_len(s.take(k + 1)) > offset,
    ensures
        index_at(s, offset) == k,
    decreases s.len(),
{
    if s.len() > 0 {
        if byte_len(s) <= offset {
            if k < s.len() {
                lemma_byte_len_grows(s, k + 1);
            }
        } else {
            if k == s.len() {
                assert(s.take(k) =~= s);
            }
            assert(s.drop_last().take(k) =~= s.take(k));
            if k < s.drop_last().len() {
                assert(s.drop_last().take(k + 1) =~= s.take(k + 1));
            }
            lemma_index_at(s.drop_last(), offset, k);
        }
    }
}

/// The cursor never stands inside of a character: after an edit the offset points back at the
/// character index that the edit left it at.
pub proof fn law_cursor_is_on_a_character(s: Chars, k: int)
    requires
        0 <= k <= s.len(),
        byte_len(s) <= usize::MAX,
    ensures
        index_at(s, offset_of(s, k) as nat) == k,
{
    lemma_byte_len_grows(s, k);
    if k < s.len() {
        assert(s.take(k + 1).drop_last() =~= s.take(k));
    }
    lemma_index_at(s, byte_len(s.take(k)), k);
}

/// Erasing a character that was just typed gives the line back as it was.
pub proof fn law_backspace_undoes_typing(s: Chars, k: int, c: char)
    requires
        0 <= k <= s.len(),
    ensures
        ({
            let plain = KeyModifiers { control: false, alt: false };
            let typed = edited(s, k, KeyCode::Char(c), plain);
            let erased = edited(typed.value, typed.at, KeyCode::Backspace, plain);
            erased.value == s && erased.at == k
        }),
{
    assert(s.insert(k, c).remove(k) =~= s);
}

fn utf8_len(c: char) -> (r: usize)
    ensures
        r == char_bytes(c),
{
    let n: u32 = c as u32;
    if n <= 0x7f {
        1
    } else if n <= 0x7ff {
        2
    } else if n <= 0xffff {
        3
    } else {
        4
    }
}

/// The index of the character that a byte offset points at.
pub(crate) fn char_index(v: &Vec<char>, offset: usize) -> (r: usize)
    ensures
        r == index_at(v@, offset as nat),
        r <= v.len(),
{
    let mut k: usize = 0;
    let mut sum: usize = 0;
    assert(v@.take(0).len() == 0);
    while k < v.len()
        invariant
            k <= v.len(),
            sum <= offset,
            sum == byte_len(v@.take(k as int)),
        ensures
            k < v.len() ==> byte_len(v@.take(k + 1)) > offset,
        decreases v.len() - k,
    {
        let n: usize = utf8_len(v[k]);
        assert(v@.take(k + 1).drop_last() =~= v@.take(k as int));
        if n > offset - sum {
            break;
        }
        sum += n;
        k += 1;
    }
    proof {
        lemma_index_at(v@, offset as nat, k as int);
    }
    k
}

/// The byte offset of the character at index `k`.
fn byte_offset(v: &Vec<char>, k: usize) -> (r: usize)
    requires
        k <= v.len(),
    ensures
        r == offset_of(v@, k as int),
{
    let mut i: usize = 0;
    let mut sum: u128 = 0;
    assert(v@.take(0).len() == 0);
    while i < k
        invariant
            i <= k <= v.len(),
            sum == byte_len(v@.take(i as int)),
            sum <= 4 * i,
        decreases k - i,
    {
        assert(v@.take(i + 1).drop_last() =~= v@.take(i as int));
        sum += utf8_len(v[i]) as u128;
        i += 1;
    }
    if sum <= usize::MAX as u128 {
        sum as usize
    } else {
        usize::MAX
    }
}

/// The byte length of a text.
pub fn text_len(s: &str) -> (r: usize)
    ensures
        r == offset_of(s@, s@.len() as int),
{
    let v: Vec<char> = chars_of(s);
    byte_offset(&v, v.len())
}

/// The first `n` bytes of a text, or all of it where they do not end between two characters.
pub open spec fn byte_prefix(s: Chars, n: nat) -> Chars {
    let k = index_at(s, n);
    if byte_len(s.take(k)) == n {
        s.take(k)
    } else {
        s
    }
}

pub(crate) fn take_bytes(s: &str, n: usize) -> (r: String)
    requires
        n < usize::MAX,
    ensures
        r@ == byte_prefix(s@, n as nat),
{
    let v: Vec<char> = chars_of(s);
    let k: usize = char_index(&v, n);
    assert(v@.take(k as int) =~= v@.subrange(0, k as int));
    if byte_offset(&v, k) == n {
        string_of(&v, 0, k)
    } else {
        crate::text::owned(s)
    }
}

fn word_begin(v: &Vec<char>, k: usize) -> (r: usize)
    requires
        k <= v.len(),
    ensures
        r == word_start(v@, k as int),
        r <= k,
{
    let mut start: usize = k;
    while start > 0 && is_whitespace(v[start - 1])
        invariant
            start <= k <= v.len(),
            spaces_start(v@, k as int) == spaces_start(v@, start as int),
        decreases start,
    {
        start -= 1;
    }
    assert(spaces_start(v@, k as int) == start);
    let ghost mid = start as int;
    while start > 0 && !is_whitespace(v[start - 1])
        invariant
            start <= k <= v.len(),
            run_start(v@, mid) == run_start(v@, start as int),
        decreases start,
    {
        start -= 1;
    }
    start
}

/// Applies a key to a line of text. The cursor is a byte offset; one past the end stands for the
/// end. The answer is `Some(true)` when the line was confirmed, `Some(false)` when it was given up
/// and `None` while it is being edited.
pub fn handle_text_input(
    value: &mut String,
    cursor: &mut usize,
    code: KeyCode,
    modifiers: KeyModifiers,
) -> (r: Option<bool>)
    ensures
        ({
            let e = edited(
                old(value)@,
                index_at(old(value)@, *old(cursor) as nat),
                code,
                modifiers,
            );
            &&& final(value)@ == e.value
            &&& *final(cursor) == offset_of(e.value, e.at)
            &&& r == e.done
        }),
{
    let mut v: Vec<char> = chars_of(value.as_str());
    let n: usize = v.len();
    let k: usize = char_index(&v, *cursor);
    let mut at: usize = k;
    let mut done: Option<bool> = None;
    let mut changed: bool = false;
    let ghost s = v@;
    match code {
        KeyCode::Esc => {
            done = Some(false);
        },
        KeyCode::Enter => {
            done = Some(true);
        },
        KeyCode::Home => {
            if modifiers.control {
                at = 0;
            }
        },
        KeyCode::End => {
            if modifiers.control {
                at = n;
            }
        },
        KeyCode::Left => {
            if k > 0 {
                at = k - 1;
            }
        },
        KeyCode::Right => {
            if k < n {
                at = k + 1;
            }
        },
        KeyCode::Backspace => {
            if k > 0 {
                v.remove(k - 1);
                at = k - 1;
                changed = true;
            }
        },
        KeyCode::Delete => {
            if k < n {
                v.remove(k);
                changed = true;
            }
        },
        KeyCode::Char(c) => {
            if c == 'a' && modifiers.control {
                at = 0;
            } else if c == 'e' && modifiers.control {
                at = n;
            } else if c == 'w' && modifiers.control {
                let from: usize = word_begin(&v, k);
                let mut out: String = string_of(&v, 0, from);
                let tail: String = string_of(&v, k, n);
                out.push_str(tail.as_str());
                assert(out@ =~= s.take(from as int) + s.skip(k as int));
                v = chars_of(out.as_str());
                at = from;
                changed = true;
            } else if !modifiers.control && !modifiers.alt {
                v.insert(k, c);
                let longer: usize = v.len();
                assert(longer == n + 1);
                at = k + 1;
                changed = true;
            }
        },
        _ => {},
    }
    *cursor = byte_offset(&v, at);
    if changed {
        *value = string_of(&v, 0, v.len());
        assert(value@ =~= v@);
    }
    done
}

/// How a line of text is shown in `max` columns: the part around the cursor that fits, with a
/// marker at the cursor and an ellipsis on each side where text is left out.
pub open spec fn shown_line(s: Chars, cursor: nat, max: nat, visible: bool) -> Chars {
    if max == 0 {
        Seq::empty()
    } else {
        let k = index_at(s, cursor);
        let before = s.take(k);
        let after = s.skip(k);
        let marker = if visible { "\u{2588}"@ } else { " "@ };
        let budget = max - 1;
        let cut = text_columns(before) > budget;
        let left = if cut { "\u{2026}"@ } else { ""@ };
        let near = if cut {
            fit_back(before, if budget > 0 { budget - 1 } else { 0 })
        } else {
            before
        };
        let room = if cut { 0 } else { budget - text_columns(before) };
        let over = text_columns(after) > room;
        let next = if over {
            fit_front(after, if room > 0 { room - 1 } else { 0 })
        } else {
            after
        };
        let right = if over && room > 0 { "\u{2026}"@ } else { ""@ };
        left + near + marker + next + right
    }
}

pub fn text_input_view(value: &str, cursor: usize, max_width: usize, cursor_visible: bool) -> (r:
    String)
    ensures
        r@ == shown_line(value@, cursor as nat, max_width as nat, cursor_visible),
{
    if max_width == 0 {
        return String::new();
    }
    let v: Vec<char> = chars_of(value);
    let k: usize = char_index(&v, cursor);
    let before: String = string_of(&v, 0, k);
    let after: String = string_of(&v, k, v.len());
    assert(before@ =~= value@.take(k as int));
    assert(after@ =~= value@.skip(k as int));
    let marker: &str = if cursor_visible { "\u{2588}" } else { " " };
    let budget: usize = max_width - 1;
    let before_width: usize = text_width(before.as_str());
    let cut: bool = before_width > budget;
    let left: &str = if cut { "\u{2026}" } else { "" };
    let near: String = if cut {
        let b: Vec<char> = chars_of(before.as_str());
        suffix_fitting(&b, if budget > 0 { budget - 1 } else { 0 })
    } else {
        before
    };
    let room: usize = if cut { 0 } else { budget - before_width };
    let over: bool = text_width(after.as_str()) > room;
    let right: &str = if over && room > 0 { "\u{2026}" } else { "" };
    let next: String = if over {
        let a: Vec<char> = chars_of(after.as_str());
        prefix_fitting(&a, if room > 0 { room - 1 } else { 0 })
    } else {
        after
    };
    cat5(left, near.as_str(), marker, next.as_str(), right)
}

/// The cursor is always in sight, whatever part of the line is shown.
pub proof fn law_cursor_is_in_sight(s: Chars, cursor: nat, max: nat)
    requires
        max > 0,
    ensures
        shown_line(s, cursor, max, true).contains('\u{2588}'),
{
    reveal_strlit("\u{2588}");
    let k = index_at(s, cursor);
    let before = s.take(k);
    let budget = max - 1;
    let cut = text_columns(before) > budget;
    let left = if cut {
        "\u{2026}"@
    } else {
        ""@
    };
    let near = if cut {
        fit_back(
            before,
            if budget > 0 {
                budget - 1
            } else {
                0
            },
        )
    } else {
        before
    };
    let at = left.len() + near.len();
    assert(shown_line(s, cursor, max, true)[at as int] == '\u{2588}');
}

proof fn lemma_cols_sum_joined(a: Chars, b: Chars)
    ensures
        cols_sum(a + b) == cols_sum(a) + cols_sum(b),
    decreases b.len(),
{
    if b.len() == 0 {
        assert(a + b =~= a);
    } else {
        lemma_cols_sum_joined(a, b.drop_last());
        assert((a + b).drop_last() =~= a + b.drop_last());
    }
}

proof fn lemma_fit_front_fits(s: Chars, budget: int)
    requires
        0 <= budget,
    ensures
        cols_sum(fit_front(s, budget)) <= budget,
{
    lemma_fit_from_bounds(s, 0, budget);
    assert(s.take(0) =~= Seq::empty());
}

proof fn lemma_fit_back_fits(s: Chars, to: int, budget: int)
    requires
        0 <= to <= s.len(),
        0 <= budget,
    ensures
        0 <= fit_before(s, to, budget) <= to,
        cols_sum(s.subrange(to - fit_before(s, to, budget), to)) <= budget,
    decreases to,
{
    if 0 < to && cols(s[to - 1]) <= budget {
        let less = budget - cols(s[to - 1]);
        lemma_fit_back_fits(s, to - 1, less);
        let n = fit_before(s, to - 1, less);
        assert(s.subrange(to - 1 - n, to).drop_last() =~= s.subrange(to - 1 - n, to - 1));
    } else {
        assert(s.subrange(to, to) =~= Seq::empty());
    }
}

proof fn lemma_one_wide(s: Chars)
    requires
        s.len() <= 1,
        s.len() == 1 ==> cols(s[0]) <= 1,
    ensures
        cols_sum(s) <= s.len(),
{
    reveal_with_fuel(cols_sum, 2);
}

/// From two columns on, what is shown of a line fits into its columns, counted character by
/// character, where the signs for the cursor and for what is left out take a column at most and
/// the text on each side of the cursor is not wider one by one than it is together.
pub proof fn law_shown_line_fits(s: Chars, cursor: nat, max: nat, visible: bool)
    requires
        max >= 2,
        cols('\u{2588}') <= 1,
        cols('\u{2026}') <= 1,
        cols(' ') <= 1,
        cols_sum(s.take(index_at(s, cursor))) <= text_columns(s.take(index_at(s, cursor))),
        cols_sum(s.skip(index_at(s, cursor))) <= text_columns(s.skip(index_at(s, cursor))),
    ensures
        cols_sum(shown_line(s, cursor, max, visible)) <= max,
{
    reveal_strlit("\u{2588}");
    reveal_strlit("\u{2026}");
    reveal_strlit(" ");
    reveal_strlit("");
    let k = index_at(s, cursor);
    let before = s.take(k);
    let after = s.skip(k);
    let marker = if visible {
        "\u{2588}"@
    } else {
        " "@
    };
    let budget = max - 1;
    let cut = text_columns(before) > budget;
    let left = if cut {
        "\u{2026}"@
    } else {
        ""@
    };
    let near = if cut {
        fit_back(before, budget - 1)
    } else {
        before
    };
    let room = if cut {
        0
    } else {
        budget - text_columns(before)
    };
    let over = text_columns(after) > room;
    let next = if over {
        fit_front(
            after,
            if room > 0 {
                room - 1
            } else {
                0
            },
        )
    } else {
        after
    };
    let right = if over && room > 0 {
        "\u{2026}"@
    } else {
        ""@
    };
    lemma_one_wide(left);
    lemma_one_wide(marker);
    lemma_one_wide(right);
    if cut {
        lemma_fit_back_fits(before, before.len() as int, budget - 1);
        let n = fit_before(before, before.len() as int, budget - 1);
        assert(near =~= before.subrange(before.len() - n, before.len() as int));
    }
    if over {
        lemma_fit_front_fits(
            after,
            if room > 0 {
                room - 1
            } else {
                0
            },
        );
    }
    lemma_cols_sum_joined(left, near);
    lemma_cols_sum_joined(left + near, marker);
    lemma_cols_sum_joined(left + near + marker, next);
    lemma_cols_sum_joined(left + near + marker + next, right);
}

} // verus!
