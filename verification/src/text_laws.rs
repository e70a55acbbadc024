//! What holds of the texts that are typed, read and shown.

use crate::app::{path_text, status_kind};
use crate::event::{KeyCode, KeyModifiers};
use crate::model::StatusKind;
use crate::share::{last_part_start, share_id_of, without_end_slashes};
use crate::text::{
    all_digits, decimal, digit_char, digits_value, is_digit, is_space, joined, lower, parsed,
    stands_at, trim_back, trim_front, trimmed, words, Chars,
};
use crate::text_input::{edited, run_start, spaces_start};
use vstd::prelude::*;

verus! {

proof fn lemma_front_trimmed(s: Chars) -> (k: int)
    ensures
        0 <= k <= s.len(),
        trim_front(s) == s.skip(k),
        forall|i: int| 0 <= i < k ==> is_space(#[trigger] s[i]),
        k < s.len() ==> !is_space(s[k]),
    decreases s.len(),
{
    if s.len() > 0 && is_space(s[0]) {
        let n = lemma_front_trimmed(s.skip(1));
        assert(s.skip(1).skip(n) =~= s.skip(n + 1));
        assert forall|i: int| 0 <= i < n + 1 implies is_space(#[trigger] s[i]) by {
            if i > 0 {
                assert(s.skip(1)[i - 1] == s[i]);
            }
        }
        n + 1
    } else {
        assert(s.skip(0) =~= s);
        0
    }
}

proof fn lemma_back_trimmed(s: Chars) -> (k: int)
    ensures
        0 <= k <= s.len(),
        trim_back(s) == s.take(k),
        forall|i: int| k <= i < s.len() ==> is_space(#[trigger] s[i]),
        k > 0 ==> !is_space(s[k - 1]),
    decreases s.len(),
{
    if s.len() > 0 && is_space(s.last()) {
        let n = lemma_back_trimmed(s.drop_last());
        assert(s.drop_last().take(n) =~= s.take(n));
        assert forall|i: int| n <= i < s.len() implies is_space(#[trigger] s[i]) by {
            if i < s.len() - 1 {
                assert(s.drop_last()[i] == s[i]);
            }
        }
        n
    } else {
        assert(s.take(s.len() as int) =~= s);
        s.len() as int
    }
}

/// Trimming takes white space off both ends of a text, all of it and nothing else.
pub proof fn law_trimming_takes_white_space_off_the_ends(s: Chars) -> (r: (int, int))
    ensures
        0 <= r.0 <= r.1 <= s.len(),
        trimmed(s) == s.subrange(r.0, r.1),
        forall|i: int| 0 <= i < r.0 ==> is_space(#[trigger] s[i]),
        forall|i: int| r.1 <= i < s.len() ==> is_space(#[trigger] s[i]),
        trimmed(s).len() > 0 ==> !is_space(trimmed(s)[0]) && !is_space(trimmed(s).last()),
{
    let from = lemma_front_trimmed(s);
    let rest = s.skip(from);
    let n = lemma_back_trimmed(rest);
    assert(rest.take(n) =~= s.subrange(from, from + n));
    assert forall|i: int| from + n <= i < s.len() implies is_space(#[trigger] s[i]) by {
        assert(rest[i - from] == s[i]);
    }
    (from, from + n)
}

/// White space is trimmed off only once.
pub proof fn law_trimmed_text_is_kept(s: Chars)
    requires
        s.len() == 0 || (!is_space(s[0]) && !is_space(s.last())),
    ensures
        trimmed(s) == s,
{
}

/// Words have no white space in them, and none of them is empty.
pub proof fn law_words_have_no_white_space(s: Chars, i: int)
    requires
        0 <= i < words(s).len(),
    ensures
        words(s)[i].len() > 0,
        forall|j: int| 0 <= j < words(s)[i].len() ==> !is_space(#[trigger] words(s)[i][j]),
    decreases s.len(),
{
    if s.len() > 0 {
        let before = s.drop_last();
        if is_space(s.last()) {
            law_words_have_no_white_space(before, i);
        } else if before.len() > 0 && !is_space(before.last()) {
            lemma_word_is_open(before);
            law_words_have_no_white_space(before, i);
        } else if i < words(before).len() {
            law_words_have_no_white_space(before, i);
        }
    }
}

proof fn lemma_word_is_open(s: Chars)
    requires
        s.len() > 0,
        !is_space(s.last()),
    ensures
        words(s).len() > 0,
{
}

/// White space parts words: the words of two texts with white space between them are those of the
/// first and then those of the second.
pub proof fn law_white_space_parts_words(s: Chars, c: char, t: Chars)
    requires
        is_space(c),
    ensures
        words(s.push(c) + t) == words(s) + words(t),
    decreases t.len(),
{
    let whole = s.push(c) + t;
    if t.len() == 0 {
        assert(whole =~= s.push(c));
        assert(s.push(c).drop_last() =~= s);
        assert(words(s) + words(t) =~= words(s));
    } else {
        let front = t.drop_last();
        law_white_space_parts_words(s, c, front);
        assert(whole.drop_last() =~= s.push(c) + front);
        assert(whole.last() == t.last());
        let u = words(s) + words(front);
        if front.len() > 0 && !is_space(front.last()) && !is_space(t.last()) {
            lemma_word_is_open(front);
            assert(u.last() == words(front).last());
            assert(u.drop_last() =~= words(s) + words(front).drop_last());
        }
        if front.len() == 0 {
            assert((s.push(c) + front).last() == c);
        } else {
            assert((s.push(c) + front).last() == front.last());
        }
        assert(words(whole) =~= words(s) + words(t));
    }
}

/// A text without white space is one word.
pub proof fn law_text_without_white_space_is_a_word(s: Chars)
    requires
        s.len() > 0,
        forall|i: int| 0 <= i < s.len() ==> !is_space(#[trigger] s[i]),
    ensures
        words(s) == seq![s],
    decreases s.len(),
{
    let before = s.drop_last();
    assert(!is_space(s[s.len() - 1]));
    assert(before.push(s.last()) =~= s);
    if before.len() > 0 {
        assert forall|i: int| 0 <= i < before.len() implies !is_space(#[trigger] before[i]) by {
            assert(before[i] == s[i]);
        }
        law_text_without_white_space_is_a_word(before);
        assert(seq![before].drop_last().push(before.push(s.last())) =~= seq![s]);
    } else {
        assert(seq![s.last()] =~= s);
        assert(words(before) =~= Seq::<Chars>::empty());
        assert(Seq::<Chars>::empty().push(s) =~= seq![s]);
    }
}

proof fn lemma_numeral(n: nat)
    ensures
        digits_value(decimal(n)) == n,
        all_digits(decimal(n)),
        decimal(n)[0] != '+',
    decreases n,
{
    if n < 10 {
        let s = seq![digit_char(n)];
        assert(s.drop_last() =~= Seq::<char>::empty());
        assert(digits_value(Seq::<char>::empty()) == 0);
    } else {
        lemma_numeral(n / 10);
        let front = decimal(n / 10);
        let d = digit_char(n % 10);
        let s = front.push(d);
        assert(s.drop_last() =~= front);
        assert(d as nat - '0' as nat == n % 10);
        assert forall|i: int| 0 <= i < s.len() implies is_digit(#[trigger] s[i]) by {
            if i < front.len() {
                assert(is_digit(front[i]));
            }
        }
        assert(is_digit(s[0]));
    }
}

/// A number that is written and read again is the same number, and is not read where it is larger
/// than what is allowed.
pub proof fn law_written_number_is_read_again(n: nat, max: nat)
    ensures
        parsed(decimal(n), max) == (if n <= max {
            Some(n)
        } else {
            None
        }),
{
    lemma_numeral(n);
}

/// What is no numeral is not read as a number.
pub proof fn law_only_numerals_are_read(s: Chars, max: nat, i: int)
    requires
        0 <= i < s.len(),
        !is_digit(s[i]),
        i > 0 || s[i] != '+',
    ensures
        parsed(s, max) is None,
{
    if s[0] == '+' {
        assert(s.skip(1)[i - 1] == s[i]);
    }
}

/// Lower case changes the letters from `A` to `Z` and no other character.
pub proof fn law_lower_case(s: Chars, i: int)
    requires
        0 <= i < s.len(),
    ensures
        lower(s).len() == s.len(),
        'A' <= s[i] <= 'Z' ==> lower(s)[i] as int == s[i] as int + 32,
        !('A' <= s[i] <= 'Z') ==> lower(s)[i] == s[i],
{
}

/// A message that tells of something that went wrong is shown as an error, whatever its case. One
/// that tells of something that was given up is shown as a warning, where it tells of no error.
pub proof fn law_messages_are_shown_by_what_they_tell(msg: Chars, at: int)
    ensures
        stands_at(lower(msg), "failed"@, at) ==> status_kind(msg) == StatusKind::Error,
        stands_at(lower(msg), "error"@, at) ==> status_kind(msg) == StatusKind::Error,
        stands_at(lower(msg), "invalid"@, at) ==> status_kind(msg) == StatusKind::Error,
        stands_at(lower(msg), "not found"@, at) ==> status_kind(msg) == StatusKind::Error,
        stands_at(lower(msg), "cannot"@, at) ==> status_kind(msg) == StatusKind::Error,
        stands_at(lower(msg), "unavailable"@, at) ==> status_kind(msg) == StatusKind::Error,
        stands_at(lower(msg), "cancelled"@, at) ==> status_kind(msg) != StatusKind::Info,
        stands_at(lower(msg), "warning"@, at) ==> status_kind(msg) != StatusKind::Info,
        stands_at(lower(msg), "no "@, 0) ==> status_kind(msg) != StatusKind::Info,
{
    reveal(status_kind);
}

/// The path of a folder is the path of the folder above it, a slash and its own name. The path of
/// the top is a slash.
pub proof fn law_path_names_every_folder(crumbs: Seq<(Chars, Chars)>, id: Chars, name: Chars)
    ensures
        path_text(Seq::empty()) == "/"@,
        path_text(crumbs.push((id, name))) == (if crumbs.len() == 0 {
            "/"@ + name
        } else {
            path_text(crumbs) + "/"@ + name
        }),
{
    let all = crumbs.push((id, name));
    let names = crate::app::crumb_names(all);
    assert(names.drop_last() =~= crate::app::crumb_names(crumbs));
    assert(names.last() == name);
    if crumbs.len() > 0 {
        let front = joined(crate::app::crumb_names(crumbs), "/"@);
        assert("/"@ + (front + "/"@ + name) =~= ("/"@ + front) + "/"@ + name);
    }
}

/// The id of a share is what stands behind the last slash of its link, whether the link ends in
/// slashes or not.
pub proof fn law_share_id_is_the_end_of_its_link(before: Chars, id: Chars)
    requires
        id.len() > 0,
        forall|i: int| 0 <= i < id.len() ==> #[trigger] id[i] != '/',
    ensures
        share_id_of(before + "/s/"@ + id) == id,
        share_id_of((before + "/s/"@ + id).push('/')) == id,
{
    reveal_strlit("/s/");
    let url = before + "/s/"@ + id;
    let n = before.len() as int;
    assert(url.subrange(n, n + 3) =~= "/s/"@);
    assert(stands_at(url, "/s/"@, n));
    assert(url.last() == id[id.len() - 1]);
    lemma_last_part(before + "/s/"@, id);
    assert(url.skip(n + 3) =~= id);
    let longer = url.push('/');
    assert(longer.subrange(n, n + 3) =~= "/s/"@);
    assert(stands_at(longer, "/s/"@, n));
    assert(longer.drop_last() =~= url);
    assert(without_end_slashes(url) == url);
}

proof fn lemma_last_part(before: Chars, id: Chars)
    requires
        before.len() > 0,
        before.last() == '/',
        forall|i: int| 0 <= i < id.len() ==> #[trigger] id[i] != '/',
    ensures
        last_part_start(before + id) == before.len(),
    decreases id.len(),
{
    let s = before + id;
    if id.len() == 0 {
        assert(s =~= before);
    } else {
        let front = id.drop_last();
        assert forall|i: int| 0 <= i < front.len() implies #[trigger] front[i] != '/' by {
            assert(front[i] == id[i]);
        }
        lemma_last_part(before, front);
        assert(s.drop_last() =~= before + front);
        assert(s.last() == id[id.len() - 1]);
    }
}

proof fn lemma_spaces(s: Chars, k: int)
    requires
        0 <= k <= s.len(),
    ensures
        0 <= spaces_start(s, k) <= k,
        forall|i: int| spaces_start(s, k) <= i < k ==> is_space(#[trigger] s[i]),
        spaces_start(s, k) > 0 ==> !is_space(s[spaces_start(s, k) - 1]),
    decreases k,
{
    if 0 < k && is_space(s[k - 1]) {
        lemma_spaces(s, k - 1);
    }
}

proof fn lemma_run(s: Chars, k: int)
    requires
        0 <= k <= s.len(),
    ensures
        0 <= run_start(s, k) <= k,
        forall|i: int| run_start(s, k) <= i < k ==> !is_space(#[trigger] s[i]),
        run_start(s, k) > 0 ==> is_space(s[run_start(s, k) - 1]),
    decreases k,
{
    if 0 < k && !is_space(s[k - 1]) {
        lemma_run(s, k - 1);
    }
}

/// `Ctrl+W` takes the word before the cursor, with the white space between the two, and nothing
/// else. The cursor is where the word began then.
pub proof fn law_word_before_the_cursor_is_taken(s: Chars, k: int, m: KeyModifiers) -> (mid: int)
    requires
        0 <= k <= s.len(),
        m.control,
    ensures
        ({
            let e = edited(s, k, KeyCode::Char('w'), m);
            &&& 0 <= e.at <= mid <= k
            &&& e.value == s.take(e.at) + s.skip(k)
            &&& e.done is None
            &&& forall|i: int| e.at <= i < mid ==> !is_space(#[trigger] s[i])
            &&& forall|i: int| mid <= i < k ==> is_space(#[trigger] s[i])
            &&& e.at > 0 ==> is_space(s[e.at - 1]) && e.at < mid
        }),
{
    lemma_spaces(s, k);
    lemma_run(s, spaces_start(s, k));
    spaces_start(s, k)
}

} // verus!
