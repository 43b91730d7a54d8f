//! Character-level parsing primitives: decimal digit runs, signed integer
//! literals with surrounding blanks, and separator scanning.
//!
//! Inbound records (transfer memos, date strings) are colon- or
//! comma-delimited text; everything here is stated over the `Seq<char>` view
//! of the input so that the record parsers can give exact grammars.

use vstd::prelude::*;

use crate::lookup::{find_by, lemma_find_by_is, lemma_find_by_none};

verus! {

/// `c` is an ASCII decimal digit.
pub open spec fn is_digit_char(c: char) -> bool {
    48 <= c as u32 && c as u32 <= 57
}

/// The numeric value of a digit character.
pub open spec fn digit_val(c: char) -> int {
    c as u32 - 48
}

/// Every character of `s` is a decimal digit.
pub open spec fn all_digits(s: Seq<char>) -> bool {
    forall|i: int| 0 <= i < s.len() ==> is_digit_char(s[i])
}

/// The value of `s` read as a base-10 numeral (most significant digit first).
pub open spec fn digits_val(s: Seq<char>) -> int
    decreases s.len(),
{
    if s.len() == 0 {
        0
    } else {
        10 * digits_val(s.drop_last()) + digit_val(s.last())
    }
}

pub proof fn lemma_digits_val_nonneg(s: Seq<char>)
    requires
        all_digits(s),
    ensures
        digits_val(s) >= 0,
    decreases s.len(),
{
    if s.len() > 0 {
        lemma_digits_val_nonneg(s.drop_last());
    }
}

/// A numeral is at least as large as any of its prefixes.
pub proof fn lemma_digits_val_prefix(s: Seq<char>, i: int)
    requires
        all_digits(s),
        0 <= i <= s.len(),
    ensures
        digits_val(s.take(i)) <= digits_val(s),
    decreases s.len(),
{
    if i == s.len() {
        assert(s.take(i) =~= s);
    } else {
        assert(s.drop_last() =~= s.take(s.len() - 1));
        lemma_digits_val_prefix(s.drop_last(), i);
        lemma_digits_val_nonneg(s.drop_last());
        assert(s.take(i) =~= s.drop_last().take(i));
    }
}

/// `c` is an ASCII blank, as allowed around date components.
pub open spec fn is_space_char(c: char) -> bool {
    c == ' ' || c == '\t' || c == '\n' || c == '\r'
}

/// `s` with its leading blanks removed.
pub open spec fn trim_front(s: Seq<char>) -> Seq<char>
    decreases s.len(),
{
    if s.len() > 0 && is_space_char(s[0]) {
        trim_front(s.drop_first())
    } else {
        s
    }
}

/// `s` with its trailing blanks removed.
pub open spec fn trim_back(s: Seq<char>) -> Seq<char>
    decreases s.len(),
{
    if s.len() > 0 && is_space_char(s.last()) {
        trim_back(s.drop_last())
    } else {
        s
    }
}

/// `s` with both leading and trailing blanks removed.
pub open spec fn trimmed(s: Seq<char>) -> Seq<char> {
    trim_back(trim_front(s))
}

pub proof fn lemma_trim_front_is(s: Seq<char>, f: int)
    requires
        0 <= f <= s.len(),
        forall|k: int| 0 <= k < f ==> is_space_char(s[k]),
        f == s.len() || !is_space_char(s[f]),
    ensures
        trim_front(s) == s.skip(f),
    decreases f,
{
    if f == 0 {
        assert(s.skip(0) =~= s);
    } else {
        let t = s.drop_first();
        assert(forall|k: int| 0 <= k < t.len() ==> t[k] == s[k + 1]);
        lemma_trim_front_is(t, f - 1);
        assert(t.skip(f - 1) =~= s.skip(f));
    }
}

pub proof fn lemma_trim_back_is(s: Seq<char>, e: int)
    requires
        0 <= e <= s.len(),
        forall|k: int| e <= k < s.len() ==> is_space_char(s[k]),
        e == 0 || !is_space_char(s[e - 1]),
    ensures
        trim_back(s) == s.take(e),
    decreases s.len() - e,
{
    if e == s.len() {
        assert(s.take(e) =~= s);
    } else {
        assert(s.drop_last() =~= s.take(s.len() - 1));
        lemma_trim_back_is(s.take(s.len() - 1), e);
        assert(s.take(s.len() - 1).take(e) =~= s.take(e));
    }
}

/// The value of a signed integer literal: an optional `-` or `+` sign
/// followed by at least one digit, nothing else.
pub open spec fn int_text_val(t: Seq<char>) -> Option<int> {
    if t.len() == 0 {
        None
    } else if t[0] == '-' {
        if t.len() >= 2 && all_digits(t.skip(1)) {
            Some(-digits_val(t.skip(1)))
        } else {
            None
        }
    } else if t[0] == '+' {
        if t.len() >= 2 && all_digits(t.skip(1)) {
            Some(digits_val(t.skip(1)))
        } else {
            None
        }
    } else {
        if all_digits(t) {
            Some(digits_val(t))
        } else {
            None
        }
    }
}

/// The value of an integer component: blanks around the literal are ignored.
pub open spec fn int_component(s: Seq<char>) -> Option<int> {
    int_text_val(trimmed(s))
}

/// The predicate "is this character `sep`", named so that every use is the
/// same spec-level function value.
pub open spec fn char_pred(sep: char) -> spec_fn(char) -> bool {
    |c: char| c == sep
}

/// Scan `s` from position `from` for the first occurrence of `sep`.
pub fn find_char_from(s: &str, from: usize, sep: char) -> (r: Option<usize>)
    requires
        from <= s@.len(),
    ensures
        match r {
            Some(j) => from <= j < s@.len() && s@[j as int] == sep && (forall|k: int|
                from <= k < j ==> s@[k] != sep) && find_by(s@.skip(from as int), char_pred(sep))
                == j - from,
            None => (forall|k: int| from <= k < s@.len() ==> s@[k] != sep) && find_by(
                s@.skip(from as int),
                char_pred(sep),
            ) == -1,
        },
{
    let n = s.unicode_len();
    let ghost tail = s@.skip(from as int);
    proof {
        assert(forall|k: int| 0 <= k < tail.len() ==> tail[k] == s@[k + from]);
    }
    let mut i = from;
    while i < n
        invariant
            from <= i <= n,
            n == s@.len(),
            tail == s@.skip(from as int),
            forall|k: int| from <= k < i ==> s@[k] != sep,
        decreases n - i,
    {
        let c = s.get_char(i);
        if c == sep {
            proof {
                assert(forall|k: int| 0 <= k < tail.len() ==> tail[k] == s@[k + from]);
                assert(tail[i - from] == sep);
                assert(forall|k: int| 0 <= k < i - from ==> (char_pred(sep))(tail[k]) == false);
                lemma_find_by_is(tail, char_pred(sep), i - from);
            }
            return Some(i);
        }
        i = i + 1;
    }
    proof {
        assert(forall|k: int| 0 <= k < tail.len() ==> tail[k] == s@[k + from]);
        assert(forall|k: int| 0 <= k < tail.len() ==> !(char_pred(sep))(tail[k]));
        lemma_find_by_none(tail, char_pred(sep));
    }
    None
}

/// Read a whole string as a run of decimal digits.
///
/// Returns the numeral's value exactly when the string is one or more
/// digits and the value fits in `u128`.
pub fn all_digits_value(s: &str) -> (r: Option<u128>)
    ensures
        match r {
            Some(v) => s@.len() >= 1 && all_digits(s@) && v == digits_val(s@),
            None => !(s@.len() >= 1 && all_digits(s@) && digits_val(s@) <= u128::MAX),
        },
{
    let n = s.unicode_len();
    if n == 0 {
        return None;
    }
    let mut acc: u128 = 0;
    let mut i: usize = 0;
    while i < n
        invariant
            0 <= i <= n,
            n == s@.len(),
            all_digits(s@.take(i as int)),
            acc == digits_val(s@.take(i as int)),
        decreases n - i,
    {
        let c = s.get_char(i);
        let u = c as u32;
        if !(48 <= u && u <= 57) {
            assert(!is_digit_char(s@[i as int]));
            return None;
        }
        let d = (u - 48) as u128;
        proof {
            assert(s@.take(i + 1).drop_last() =~= s@.take(i as int));
            assert(s@.take(i + 1).last() == s@[i as int]);
        }
        let next = match acc.checked_mul(10) {
            Some(m) => m.checked_add(d),
            None => None,
        };
        match next {
            Some(v) => {
                acc = v;
            },
            None => {
                proof {
                    assert(digits_val(s@.take(i + 1)) > u128::MAX);
                    if all_digits(s@) {
                        lemma_digits_val_prefix(s@, i + 1);
                    }
                }
                return None;
            },
        }
        i = i + 1;
    }
    proof {
        assert(s@.take(n as int) =~= s@);
    }
    Some(acc)
}

fn is_blank(c: char) -> (r: bool)
    ensures
        r == is_space_char(c),
{
    c == ' ' || c == '\t' || c == '\n' || c == '\r'
}

/// Read a whole string as a signed 32-bit integer component: optional sign,
/// digits, optional blanks around it — exactly the integers the date fields
/// of campaigns and events may hold.
pub fn parse_i32(s: &str) -> (r: Option<i32>)
    ensures
        match r {
            Some(v) => int_component(s@) == Some(v as int),
            None => !(int_component(s@) matches Some(val) && -0x8000_0000 <= val <= 0x7fff_ffff),
        },
{
    let n = s.unicode_len();
    let mut from: usize = 0;
    while from < n && is_blank(s.get_char(from))
        invariant
            0 <= from <= n,
            n == s@.len(),
            forall|k: int| 0 <= k < from ==> is_space_char(s@[k]),
        decreases n - from,
    {
        from = from + 1;
    }
    let mut to: usize = n;
    while to > from && is_blank(s.get_char(to - 1))
        invariant
            from <= to <= n,
            n == s@.len(),
            forall|k: int| 0 <= k < from ==> is_space_char(s@[k]),
            from == n || !is_space_char(s@[from as int]),
            forall|k: int| to <= k < n ==> is_space_char(s@[k]),
        decreases to,
    {
        to = to - 1;
    }
    let ghost t = trimmed(s@);
    proof {
        lemma_trim_front_is(s@, from as int);
        let mid = s@.skip(from as int);
        assert(forall|k: int| 0 <= k < mid.len() ==> mid[k] == s@[k + from]);
        lemma_trim_back_is(mid, to - from);
        assert(t =~= s@.subrange(from as int, to as int));
    }
    if to == from {
        assert(t.len() == 0);
        return None;
    }
    let first = s.get_char(from);
    let neg = first == '-';
    let signed = neg || first == '+';
    let dstart = if signed {
        from + 1
    } else {
        from
    };
    let digits = s.substring_char(dstart, to);
    proof {
        assert(t[0] == s@[from as int]);
        if signed {
            assert(digits@ =~= t.skip(1));
        } else {
            assert(digits@ =~= t);
        }
    }
    match all_digits_value(digits) {
        None => None,
        Some(v) => {
            if neg {
                if v <= 0x8000_0000u128 {
                    proof {
                        lemma_digits_val_nonneg(digits@);
                    }
                    Some((-(v as i64)) as i32)
                } else {
                    None
                }
            } else {
                if v <= 0x7fff_ffffu128 {
                    Some(v as i32)
                } else {
                    None
                }
            }
        },
    }
}

} // verus!
