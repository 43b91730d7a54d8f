//! Exact reference-currency amounts.
//!
//! A donation's value in the reference currency arrives as text such as
//! `9.98`.  The ledger keeps it as an exact scaled integer — the digits with
//! the point removed, together with the number of fractional digits — so that
//! nothing is rounded and every stored amount is the one that was sent.
//!
//! Only plain non-negative decimal numerals are amounts: a sign, an
//! exponent, a not-a-number or infinity form, or digits whose value exceeds
//! `u128` are all rejected as invalid input rather than stored inexactly.

use vstd::prelude::*;

use crate::lookup::find_by;
use crate::text::{all_digits, all_digits_value, char_pred, digits_val, find_char_from};

verus! {

/// An exact non-negative decimal amount: `mantissa` scaled down by
/// `scale` decimal places.
#[derive(Clone, Copy, Debug, PartialEq, Eq, Structural)]
pub struct DecimalAmount {
    pub mantissa: u128,
    pub scale: usize,
}

impl DecimalAmount {
    /// The amount zero.
    pub fn zero() -> (r: DecimalAmount)
        ensures
            r.mantissa == 0,
            r.scale == 0,
    {
        DecimalAmount { mantissa: 0, scale: 0 }
    }
}

/// The position of the decimal point of `s`, or `-1` if it has none.
pub open spec fn point_pos(s: Seq<char>) -> int {
    find_by(s, char_pred('.'))
}

/// `s` is a decimal literal: digits, or digits `.` digits, with at least one
/// digit on each side of the point and no second point.
pub open spec fn decimal_ok(s: Seq<char>) -> bool {
    let d = point_pos(s);
    if d == -1 {
        s.len() >= 1 && all_digits(s)
    } else {
        &&& 1 <= d
        &&& d + 2 <= s.len()
        &&& all_digits(s.take(d))
        &&& all_digits(s.skip(d + 1))
        &&& find_by(s.skip(d + 1), char_pred('.')) == -1
    }
}

/// The digits of `s` with the decimal point removed.
pub open spec fn decimal_digits(s: Seq<char>) -> Seq<char> {
    let d = point_pos(s);
    if d == -1 {
        s
    } else {
        s.take(d) + s.skip(d + 1)
    }
}

/// How many digits of `s` stand after the decimal point.
pub open spec fn decimal_scale(s: Seq<char>) -> int {
    let d = point_pos(s);
    if d == -1 {
        0
    } else {
        s.len() - d - 1
    }
}

/// Read a string as an exact decimal amount.
///
/// Returns the amount exactly when the string is a decimal literal whose
/// digits, read as one numeral, fit in `u128`.
#[verifier::rlimit(60)]
pub fn parse_decimal(s: &str) -> (r: Option<DecimalAmount>)
    ensures
        match r {
            Some(a) => decimal_ok(s@) && a.mantissa == digits_val(decimal_digits(s@)) && a.scale
                == decimal_scale(s@),
            None => !(decimal_ok(s@) && digits_val(decimal_digits(s@)) <= u128::MAX),
        },
{
    let n = s.unicode_len();
    match find_char_from(s, 0, '.') {
        None => {
            proof {
                assert(s@.skip(0) =~= s@);
            }
            match all_digits_value(s) {
                Some(v) => Some(DecimalAmount { mantissa: v, scale: 0 }),
                None => None,
            }
        },
        Some(d) => {
            proof {
                assert(s@.skip(0) =~= s@);
            }
            if d < 1 || d > n - 2 {
                return None;
            }
            match find_char_from(s, d + 1, '.') {
                Some(_) => {
                    proof {
                        let tail = s@.skip(d + 1);
                        assert(find_by(tail, char_pred('.')) != -1);
                    }
                    None
                },
                None => {
                    let int_part = s.substring_char(0, d);
                    let frac_part = s.substring_char(d + 1, n);
                    proof {
                        assert(int_part@ =~= s@.take(d as int));
                        assert(frac_part@ =~= s@.skip(d + 1));
                    }
                    let iv = all_digits_value(int_part);
                    let fv = all_digits_value(frac_part);
                    match (iv, fv) {
                        (Some(_), Some(_)) => {
                            proof {
                                assert(decimal_ok(s@));
                            }
                            // digits of both parts, point removed, as one numeral
                            let mut acc: u128 = 0;
                            let ghost dd = decimal_digits(s@);
                            proof {
                                assert(dd.len() == s@.len() - 1);
                                assert(forall|j: int|
                                    0 <= j < dd.len() ==> dd[j] == (if j < d {
                                        s@[j]
                                    } else {
                                        s@[j + 1]
                                    }));
                                assert(all_digits(dd));
                            }
                            let mut j: usize = 0;
                            while j < n - 1
                                invariant
                                    0 <= j <= n - 1,
                                    n == s@.len(),
                                    n >= 2,
                                    1 <= d,
                                    d + 2 <= n,
                                    dd == decimal_digits(s@),
                                    dd.len() == n - 1,
                                    all_digits(dd),
                                    forall|k: int|
                                        0 <= k < dd.len() ==> dd[k] == (if k < d {
                                            s@[k]
                                        } else {
                                            s@[k + 1]
                                        }),
                                    acc == digits_val(dd.take(j as int)),
                                decreases n - 1 - j,
                            {
                                let c = if j < d {
                                    s.get_char(j)
                                } else {
                                    s.get_char(j + 1)
                                };
                                proof {
                                    assert(c == dd[j as int]);
                                    assert(crate::text::is_digit_char(dd[j as int]));
                                    assert(dd.take(j + 1).drop_last() =~= dd.take(j as int));
                                    assert(dd.take(j + 1).last() == dd[j as int]);
                                }
                                let u = c as u32;
                                let dv = (u - 48) as u128;
                                let next = match acc.checked_mul(10) {
                                    Some(m) => m.checked_add(dv),
                                    None => None,
                                };
                                match next {
                                    Some(v) => {
                                        acc = v;
                                    },
                                    None => {
                                        proof {
                                            assert(digits_val(dd.take(j + 1)) > u128::MAX);
                                            crate::text::lemma_digits_val_prefix(dd, j + 1);
                                        }
                                        return None;
                                    },
                                }
                                j = j + 1;
                            }
                            proof {
                                assert(dd.take(n - 1) =~= dd);
                            }
                            Some(DecimalAmount { mantissa: acc, scale: n - 1 - d })
                        },
                        _ => {
                            proof {
                                if decimal_ok(s@) {
                                    let ip = s@.take(d as int);
                                    let fp = s@.skip(d + 1);
                                    crate::text::lemma_digits_val_nonneg(ip);
                                    crate::text::lemma_digits_val_nonneg(fp);
                                    let dd = decimal_digits(s@);
                                    assert(all_digits(dd)) by {
                                        assert(forall|k: int|
                                            0 <= k < ip.len() ==> dd[k] == ip[k]);
                                        assert(forall|k: int|
                                            ip.len() <= k < dd.len() ==> dd[k] == fp[k - ip.len()]);
                                    }
                                    if digits_val(dd) <= u128::MAX {
                                        crate::text::lemma_digits_val_prefix(dd, d as int);
                                        assert(dd.take(d as int) =~= ip);
                                        lemma_digits_val_concat(ip, fp);
                                    }
                                }
                            }
                            None
                        },
                    }
                },
            }
        },
    }
}

/// The value of a concatenated numeral bounds the value of its suffix.
proof fn lemma_digits_val_concat(a: Seq<char>, b: Seq<char>)
    requires
        all_digits(a),
        all_digits(b),
    ensures
        digits_val(b) <= digits_val(a + b),
    decreases b.len(),
{
    if b.len() == 0 {
        assert(a + b =~= a);
        crate::text::lemma_digits_val_nonneg(a);
    } else {
        assert((a + b).drop_last() =~= a + b.drop_last());
        assert((a + b).last() == b.last());
        lemma_digits_val_concat(a, b.drop_last());
        crate::text::lemma_digits_val_nonneg(a + b.drop_last());
        crate::text::lemma_digits_val_nonneg(b.drop_last());
    }
}

} // verus!
