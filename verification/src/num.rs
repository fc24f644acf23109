//! Fixed-point numbers.
//!
//! Every numeric value in a formula — literals, noise samples, context
//! signals — is an `i64` holding millionths: the number written `0.2` is
//! held as `200000`.  A literal is an optional minus sign, one to twelve
//! integer digits, and optionally a point with one to six fractional
//! digits; any such literal is represented exactly, and arithmetic on
//! these values is exact integer arithmetic.
use vstd::prelude::*;

use crate::text::find_char;

verus! {

/// How many fixed-point units make one whole unit.
pub const SCALE: i64 = 1_000_000;

pub open spec fn is_digit(c: char) -> bool {
    '0' <= c && c <= '9'
}

pub open spec fn digit_val(c: char) -> int {
    c as u32 - '0' as u32
}

pub open spec fn all_digits(s: Seq<char>) -> bool {
    forall|i: int| 0 <= i < s.len() ==> is_digit(#[trigger] s[i])
}

/// The value of a digit string read in base ten.
pub open spec fn digits_val(s: Seq<char>) -> int
    decreases s.len(),
{
    if s.len() == 0 {
        0
    } else {
        digits_val(s.drop_last()) * 10 + digit_val(s[s.len() - 1])
    }
}

pub open spec fn pow10(n: nat) -> int
    decreases n,
{
    if n == 0 {
        1
    } else {
        10 * pow10((n - 1) as nat)
    }
}

/// `n` zero digits.
pub open spec fn zeros(n: nat) -> Seq<char> {
    Seq::new(n, |i: int| '0')
}

/// The fixed-point units that a literal denotes, if the text is a literal:
/// the integer and fractional digits run together, padded with zeros to six
/// fractional places, read in base ten, and negated after a minus sign.
pub open spec fn spec_literal_micros(s: Seq<char>) -> Option<int> {
    let neg = s.len() > 0 && s[0] == '-';
    let t = if neg {
        s.drop_first()
    } else {
        s
    };
    match find_char(t, '.') {
        None => if 1 <= t.len() <= 12 && all_digits(t) {
            let v = digits_val(t + zeros(6));
            Some(
                if neg {
                    -v
                } else {
                    v
                },
            )
        } else {
            None
        },
        Some(k) => {
            let ip = t.take(k);
            let fp = t.skip(k + 1);
            if 1 <= ip.len() <= 12 && 1 <= fp.len() <= 6 && all_digits(ip) && all_digits(fp) {
                let v = digits_val(ip + fp + zeros((6 - fp.len()) as nat));
                Some(
                    if neg {
                        -v
                    } else {
                        v
                    },
                )
            } else {
                None
            }
        },
    }
}

pub proof fn lemma_pow10_pos(n: nat)
    ensures
        pow10(n) >= 1,
    decreases n,
{
    if n > 0 {
        lemma_pow10_pos((n - 1) as nat);
    }
}

pub proof fn lemma_pow10_mono(a: nat, b: nat)
    requires
        a <= b,
    ensures
        pow10(a) <= pow10(b),
    decreases b,
{
    if a < b {
        lemma_pow10_mono(a, (b - 1) as nat);
        lemma_pow10_pos((b - 1) as nat);
    }
}

pub proof fn lemma_pow10_18()
    ensures
        pow10(18) == 1_000_000_000_000_000_000,
{
    reveal_with_fuel(pow10, 20);
}

/// The value of `n` digits is below `pow10(n)`.
pub proof fn lemma_digits_val_bound(s: Seq<char>)
    requires
        all_digits(s),
    ensures
        0 <= digits_val(s) < pow10(s.len()),
    decreases s.len(),
{
    if s.len() > 0 {
        assert(all_digits(s.drop_last())) by {
            assert(forall|i: int| 0 <= i < s.len() - 1 ==> s.drop_last()[i] == s[i]);
        }
        lemma_digits_val_bound(s.drop_last());
        assert(is_digit(s[s.len() - 1]));
    }
}

fn is_digit_exec(c: char) -> (r: bool)
    ensures
        r == is_digit(c),
{
    '0' <= c && c <= '9'
}

/// Base-ten value of a digit string of at most eighteen digits.
fn digits_to_val(ds: &[char]) -> (v: i64)
    requires
        all_digits(ds@),
        ds@.len() <= 18,
    ensures
        v == digits_val(ds@),
        0 <= v < 1_000_000_000_000_000_000,
{
    proof {
        lemma_pow10_18();
    }
    let mut acc: i64 = 0;
    let mut i: usize = 0;
    proof {
        assert(ds@.take(0) =~= Seq::<char>::empty());
    }
    while i < ds.len()
        invariant
            i <= ds@.len() <= 18,
            all_digits(ds@),
            acc == digits_val(ds@.take(i as int)),
            0 <= acc < pow10(i as nat),
            pow10(18) == 1_000_000_000_000_000_000,
        decreases ds@.len() - i,
    {
        let c = ds[i];
        proof {
            assert(is_digit(ds@[i as int]));
            lemma_pow10_mono((i + 1) as nat, 18);
            assert(ds@.take(i + 1).drop_last() =~= ds@.take(i as int));
            assert(ds@.take(i + 1)[i as int] == ds@[i as int]);
        }
        let d: i64 = (c as u32 - '0' as u32) as i64;
        acc = acc * 10 + d;
        i = i + 1;
    }
    proof {
        assert(ds@.take(ds@.len() as int) =~= ds@);
        lemma_pow10_mono(ds@.len() as nat, 18);
    }
    acc
}

/// Checks that every character of `ds` is a digit.
fn check_digits(ds: &[char]) -> (r: bool)
    ensures
        r == all_digits(ds@),
{
    let mut i: usize = 0;
    while i < ds.len()
        invariant
            i <= ds@.len(),
            forall|j: int| 0 <= j < i ==> is_digit(#[trigger] ds@[j]),
        decreases ds@.len() - i,
    {
        if !is_digit_exec(ds[i]) {
            return false;
        }
        i = i + 1;
    }
    true
}

/// Reads a numeric literal as fixed-point units, if `text` is one.
pub fn parse_literal(text: &[char]) -> (r: Option<i64>)
    ensures
        match r {
            Some(v) => spec_literal_micros(text@) == Some(v as int),
            None => spec_literal_micros(text@) is None,
        },
{
    let neg = text.len() > 0 && text[0] == '-';
    let start: usize = if neg {
        1
    } else {
        0
    };
    let t = vstd::slice::slice_subrange(text, start, text.len());
    proof {
        if neg {
            assert(t@ =~= text@.drop_first());
        } else {
            assert(t@ =~= text@);
        }
    }
    let mut digits: Vec<char>;
    let frac_len: usize;
    match crate::text::find_char_index(t, '.') {
        None => {
            if t.len() < 1 || t.len() > 12 {
                return None;
            }
            if !check_digits(t) {
                return None;
            }
            digits = vstd::slice::slice_to_vec(t);
            frac_len = 0;
        },
        Some(k) => {
            proof {
                crate::text::lemma_find_char(t@, '.');
            }
            let ip = vstd::slice::slice_subrange(t, 0, k);
            let fp = vstd::slice::slice_subrange(t, k + 1, t.len());
            proof {
                assert(ip@ =~= t@.take(k as int));
                assert(fp@ =~= t@.skip(k + 1));
            }
            if ip.len() < 1 || ip.len() > 12 || fp.len() < 1 || fp.len() > 6 {
                return None;
            }
            if !check_digits(ip) {
                return None;
            }
            if !check_digits(fp) {
                return None;
            }
            digits = vstd::slice::slice_to_vec(ip);
            let mut j: usize = 0;
            while j < fp.len()
                invariant
                    j <= fp@.len(),
                    digits@ == ip@ + fp@.take(j as int),
                decreases fp@.len() - j,
            {
                digits.push(fp[j]);
                proof {
                    assert(digits@ =~= ip@ + fp@.take(j + 1));
                }
                j = j + 1;
            }
            proof {
                assert(fp@.take(fp@.len() as int) =~= fp@);
            }
            frac_len = fp.len();
        },
    }
    let ghost base = digits@;
    let pad: usize = 6 - frac_len;
    let mut p: usize = 0;
    while p < pad
        invariant
            p <= pad,
            digits@ == base + zeros(p as nat),
        decreases pad - p,
    {
        digits.push('0');
        proof {
            assert(digits@ =~= base + zeros((p + 1) as nat));
        }
        p = p + 1;
    }
    proof {
        match find_char(t@, '.') {
            None => {
                assert(digits@ =~= t@ + zeros(6));
                assert(all_digits(digits@)) by {
                    assert(forall|i: int|
                        0 <= i < digits@.len() ==> #[trigger] digits@[i] == (if i < t@.len() {
                            t@[i]
                        } else {
                            '0'
                        }));
                }
            },
            Some(k) => {
                let ip = t@.take(k);
                let fp = t@.skip(k + 1);
                assert(digits@ =~= ip + fp + zeros((6 - fp.len()) as nat));
                assert(all_digits(digits@)) by {
                    assert(forall|i: int|
                        0 <= i < digits@.len() ==> #[trigger] digits@[i] == (if i < ip.len() {
                            ip[i]
                        } else if i < ip.len() + fp.len() {
                            fp[i - ip.len()]
                        } else {
                            '0'
                        }));
                }
            },
        }
    }
    let v = digits_to_val(digits.as_slice());
    if neg {
        Some(-v)
    } else {
        Some(v)
    }
}

} // verus!
