//! Numbers as the service transmits them: integers in JSON number tokens,
//! and decimal values that arrive either as number tokens or inside JSON
//! strings. A decimal is kept in its lexical form, so that nothing is lost
//! to rounding; its well-formedness is the grammar below.

use vstd::prelude::*;

use crate::json::is_digit;
use crate::json::spec_after_exp;
use crate::json::spec_after_frac;
use crate::json::spec_scan_digits;
use crate::json::after_exp;
use crate::json::after_frac;
use crate::json::scan_digits;
use crate::text::spec_digit_char;
use crate::text::spec_i64_string;
use crate::text::spec_u64_string;
use crate::text::str_to_chars;

verus! {

pub open spec fn spec_all_digits(s: Seq<char>) -> bool {
    forall|i: int| 0 <= i && i < s.len() ==> is_digit(#[trigger] s[i])
}

/// The number written by a sequence of decimal digits.
pub open spec fn spec_digits_val(s: Seq<char>) -> int
    decreases s.len(),
{
    if s.len() == 0 {
        0
    } else {
        spec_digits_val(s.drop_last()) * 10 + (s.last() as u32 - 48)
    }
}

proof fn lemma_digits_val_nonneg(s: Seq<char>)
    requires
        spec_all_digits(s),
    ensures
        spec_digits_val(s) >= 0,
    decreases s.len(),
{
    if s.len() > 0 {
        assert(spec_all_digits(s.drop_last()));
        lemma_digits_val_nonneg(s.drop_last());
    }
}

/// A prefix of a digit string never writes a larger number.
proof fn lemma_digits_val_take_le(s: Seq<char>, i: int)
    requires
        spec_all_digits(s),
        0 <= i <= s.len(),
    ensures
        spec_digits_val(s.take(i)) <= spec_digits_val(s),
    decreases s.len() - i,
{
    if i == s.len() {
        assert(s.take(i) =~= s);
    } else {
        assert(s.take(i + 1).drop_last() =~= s.take(i));
        assert(spec_all_digits(s.take(i)));
        lemma_digits_val_nonneg(s.take(i));
        lemma_digits_val_take_le(s, i + 1);
    }
}

/// The number a string of digits writes, when it fits the type.
pub open spec fn spec_parse_u64(s: Seq<char>) -> Option<u64> {
    if s.len() >= 1 && spec_all_digits(s) && spec_digits_val(s) <= u64::MAX {
        Some(spec_digits_val(s) as u64)
    } else {
        None
    }
}

/// Reads an unsigned decimal number, exactly when every character is a
/// digit and the value fits.
pub fn parse_u64_chars(v: &Vec<char>) -> (r: Option<u64>)
    ensures
        r == spec_parse_u64(v@),
{
    if v.len() == 0 {
        return None;
    }
    let mut n: u64 = 0;
    let mut i: usize = 0;
    while i < v.len()
        invariant
            0 < v@.len(),
            i <= v@.len(),
            spec_all_digits(v@.take(i as int)),
            n == spec_digits_val(v@.take(i as int)),
        decreases v@.len() - i,
    {
        let u = v[i] as u32;
        if !(48 <= u && u <= 57) {
            assert(!is_digit(v@[i as int]));
            return None;
        }
        let d = (u - 48) as u64;
        proof {
            assert(v@.take(i as int + 1).drop_last() =~= v@.take(i as int));
        }
        let m = match n.checked_mul(10) {
            Some(m) => m,
            None => {
                proof {
                    if spec_all_digits(v@) {
                        lemma_digits_val_take_le(v@, i as int + 1);
                        lemma_digits_val_nonneg(v@.take(i as int + 1));
                    }
                }
                return None;
            },
        };
        let t = match m.checked_add(d) {
            Some(t) => t,
            None => {
                proof {
                    if spec_all_digits(v@) {
                        lemma_digits_val_take_le(v@, i as int + 1);
                    }
                }
                return None;
            },
        };
        n = t;
        i = i + 1;
    }
    proof {
        assert(v@.take(i as int) =~= v@);
    }
    Some(n)
}

/// The integer a token writes: an optional minus sign, then digits.
pub open spec fn spec_parse_int(s: Seq<char>) -> Option<int> {
    if s.len() >= 2 && s[0] == '-' && spec_all_digits(s.skip(1)) {
        Some(-spec_digits_val(s.skip(1)))
    } else if s.len() >= 1 && spec_all_digits(s) {
        Some(spec_digits_val(s))
    } else {
        None
    }
}

pub open spec fn spec_parse_i32(s: Seq<char>) -> Option<i32> {
    match spec_parse_int(s) {
        Some(v) => if i32::MIN <= v && v <= i32::MAX {
            Some(v as i32)
        } else {
            None
        },
        None => None,
    }
}

pub open spec fn spec_parse_u32(s: Seq<char>) -> Option<u32> {
    match spec_parse_int(s) {
        Some(v) => if 0 <= v && v <= u32::MAX {
            Some(v as u32)
        } else {
            None
        },
        None => None,
    }
}

/// The magnitude written after a leading minus sign.
fn parse_neg_magnitude(v: &Vec<char>) -> (r: Option<u64>)
    requires
        v@.len() >= 1,
        v@[0] == '-',
    ensures
        r == spec_parse_u64(v@.skip(1)),
{
    let mut tail: Vec<char> = Vec::new();
    let mut k: usize = 1;
    while k < v.len()
        invariant
            1 <= k <= v@.len(),
            tail@ == v@.subrange(1, k as int),
        decreases v@.len() - k,
    {
        tail.push(v[k]);
        k = k + 1;
        proof {
            assert(tail@ =~= v@.subrange(1, k as int));
        }
    }
    proof {
        assert(tail@ =~= v@.skip(1));
    }
    parse_u64_chars(&tail)
}

/// Reads a signed decimal number into `i32`, exactly when the token is an
/// optional minus sign, then digits, and the value fits.
pub fn parse_i32_chars(v: &Vec<char>) -> (r: Option<i32>)
    ensures
        r == spec_parse_i32(v@),
{
    if v.len() >= 1 && v[0] == '-' {
        proof {
            if v@.len() >= 2 && spec_all_digits(v@.skip(1)) {
                lemma_digits_val_nonneg(v@.skip(1));
            }
            assert(!is_digit('-'));
            if v@.len() >= 1 && spec_all_digits(v@) {
                assert(is_digit(v@[0]));
            }
        }
        match parse_neg_magnitude(v) {
            None => None,
            Some(m) => {
                if m <= 0x8000_0000 {
                    Some((-(m as i64)) as i32)
                } else {
                    None
                }
            },
        }
    } else {
        match parse_u64_chars(v) {
            None => None,
            Some(m) => {
                proof {
                    lemma_digits_val_nonneg(v@);
                }
                if m <= 0x7FFF_FFFF {
                    Some(m as i32)
                } else {
                    None
                }
            },
        }
    }
}

/// Reads an unsigned decimal number into `u32`.
pub fn parse_u32_chars(v: &Vec<char>) -> (r: Option<u32>)
    ensures
        r == spec_parse_u32(v@),
{
    if v.len() >= 1 && v[0] == '-' {
        proof {
            if v@.len() >= 2 && spec_all_digits(v@.skip(1)) {
                lemma_digits_val_nonneg(v@.skip(1));
            }
            assert(!is_digit('-'));
            if v@.len() >= 1 && spec_all_digits(v@) {
                assert(is_digit(v@[0]));
            }
        }
        match parse_neg_magnitude(v) {
            None => None,
            Some(m) => {
                if m == 0 {
                    Some(0)
                } else {
                    None
                }
            },
        }
    } else {
        match parse_u64_chars(v) {
            None => None,
            Some(m) => {
                proof {
                    lemma_digits_val_nonneg(v@);
                }
                if m <= 0xFFFF_FFFF {
                    Some(m as u32)
                } else {
                    None
                }
            },
        }
    }
}

/// The `u64` a token writes, when it writes one in range.
pub open spec fn spec_token_u64(t: Seq<char>) -> Option<u64> {
    match spec_parse_int(t) {
        Some(x) => if 0 <= x && x <= u64::MAX {
            Some(x as u64)
        } else {
            None
        },
        None => None,
    }
}

/// Reads an unsigned decimal number into `u64`; a leading minus sign is
/// accepted only on zero.
pub fn parse_u64_token(v: &Vec<char>) -> (r: Option<u64>)
    ensures
        r == spec_token_u64(v@),
{
    if v.len() >= 1 && v[0] == '-' {
        proof {
            if v@.len() >= 2 && spec_all_digits(v@.skip(1)) {
                lemma_digits_val_nonneg(v@.skip(1));
            }
            assert(!is_digit('-'));
            if v@.len() >= 1 && spec_all_digits(v@) {
                assert(is_digit(v@[0]));
            }
        }
        match parse_neg_magnitude(v) {
            None => None,
            Some(m) => {
                if m == 0 {
                    Some(0)
                } else {
                    None
                }
            },
        }
    } else {
        match parse_u64_chars(v) {
            None => None,
            Some(m) => {
                proof {
                    lemma_digits_val_nonneg(v@);
                }
                Some(m)
            },
        }
    }
}

/// The position after a decimal written as an optional sign, digits, an
/// optional fraction and an optional exponent, when one starts the string.
pub open spec fn spec_dec_end(s: Seq<char>) -> Option<int> {
    let j = if s.len() > 0 && (s[0] == '-' || s[0] == '+') {
        1int
    } else {
        0int
    };
    if j < s.len() && is_digit(s[j]) {
        let k = spec_scan_digits(s, j);
        match spec_after_frac(s, k) {
            None => None,
            Some(k2) => spec_after_exp(s, k2),
        }
    } else {
        None
    }
}

/// Whether a whole string is one decimal number.
pub open spec fn spec_is_decimal(s: Seq<char>) -> bool {
    spec_dec_end(s) == Some(s.len() as int)
}

fn is_decimal_chars(v: &Vec<char>) -> (r: bool)
    ensures
        r == spec_is_decimal(v@),
{
    let n = v.len();
    let j: usize = if n > 0 && (v[0] == '-' || v[0] == '+') {
        1
    } else {
        0
    };
    if j < n && (v[j] as u32) >= 48 && (v[j] as u32) <= 57 {
        let k = scan_digits(v, j);
        match after_frac(v, k) {
            None => false,
            Some(k2) => match after_exp(v, k2) {
                None => false,
                Some(e) => e == n,
            },
        }
    } else {
        false
    }
}

/// A decimal number, kept in the lexical form the service sent: an optional
/// sign, digits, an optional fraction and an optional exponent. The form is
/// the value; nothing is rounded.
#[derive(Debug, Clone)]
pub struct Dec {
    text: String,
}

impl View for Dec {
    type V = Seq<char>;

    closed spec fn view(&self) -> Seq<char> {
        self.text@
    }
}

impl DeepView for Dec {
    type V = Seq<char>;

    open spec fn deep_view(&self) -> Seq<char> {
        self@
    }
}

impl Dec {
    /// Every value of this type spells a decimal number.
    pub open spec fn wf(&self) -> bool {
        spec_is_decimal(self@)
    }

    /// Reads a decimal from text: `Some` exactly when the whole string is
    /// one decimal number, and then the value keeps that spelling.
    pub fn parse(s: &str) -> (r: Option<Dec>)
        ensures
            match r {
                Some(d) => spec_is_decimal(s@) && d@ == s@ && d.wf(),
                None => !spec_is_decimal(s@),
            },
    {
        let v = str_to_chars(s);
        if is_decimal_chars(&v) {
            Some(Dec { text: s.to_owned() })
        } else {
            None
        }
    }

    /// The decimal zero, the value a defaulted field takes.
    pub fn zero() -> (r: Dec)
        ensures
            r@ == "0"@,
            r.wf(),
    {
        proof {
            reveal_strlit("0");
            assert(spec_scan_digits("0"@, 1) == 1);
            assert(spec_scan_digits("0"@, 0) == 1);
            assert(spec_is_decimal("0"@));
        }
        Dec { text: "0".to_owned() }
    }

    /// The spelling of the number.
    pub fn as_str(&self) -> (r: &str)
        ensures
            r@ == self@,
    {
        self.text.as_str()
    }
}


/// Decimal notation writes only digits, at least one, and writes back the
/// number it was made from.
pub proof fn lemma_u64_string_val(n: int)
    requires
        0 <= n,
    ensures
        spec_all_digits(spec_u64_string(n)),
        spec_digits_val(spec_u64_string(n)) == n,
        spec_u64_string(n).len() >= 1,
    decreases n,
{
    assert(spec_digit_char(n % 10) as u32 == 48 + n % 10) by {
        let d = n % 10;
        assert(0 <= d < 10);
    }
    if n < 10 {
        let s = spec_u64_string(n);
        assert(s =~= seq![spec_digit_char(n)]);
        assert(s.drop_last() =~= Seq::<char>::empty());
        assert(spec_digits_val(Seq::<char>::empty()) == 0);
        assert(s.last() == spec_digit_char(n));
    } else {
        lemma_u64_string_val(n / 10);
        let s = spec_u64_string(n);
        let p = spec_u64_string(n / 10);
        assert(s == p.push(spec_digit_char(n % 10)));
        assert(s.drop_last() =~= p);
        assert forall|i: int| 0 <= i && i < s.len() implies is_digit(#[trigger] s[i]) by {
            if i < p.len() {
                assert(is_digit(p[i]));
            }
        }
    }
}

/// A number token written from a `u64` reads back as that number.
pub proof fn lemma_token_u64_round_trip(n: u64)
    ensures
        (spec_token_u64(spec_u64_string(n as int)) is Some),
        spec_token_u64(spec_u64_string(n as int))->0 == n,
{
    lemma_u64_string_val(n as int);
    let s = spec_u64_string(n as int);
    assert(is_digit(s[0]));
    assert(s[0] != '-');
}

/// A number token written from a `u32` reads back as that number.
pub proof fn lemma_u32_string_round_trip(n: u32)
    ensures
        (spec_parse_u32(spec_u64_string(n as int)) is Some),
        spec_parse_u32(spec_u64_string(n as int))->0 == n,
{
    lemma_u64_string_val(n as int);
    let s = spec_u64_string(n as int);
    assert(is_digit(s[0]));
    assert(s[0] != '-');
}

/// A number token written from an `i32` reads back as that number.
pub proof fn lemma_i32_string_round_trip(n: i32)
    ensures
        (spec_parse_i32(spec_i64_string(n as int)) is Some),
        spec_parse_i32(spec_i64_string(n as int))->0 == n,
{
    if n < 0 {
        lemma_u64_string_val(-(n as int));
        let m = spec_u64_string(-(n as int));
        let s = spec_i64_string(n as int);
        assert(s == seq!['-'] + m);
        assert(s.skip(1) =~= m);
        assert(s[0] == '-');
        assert(s.len() >= 2);
    } else {
        lemma_u64_string_val(n as int);
        let s = spec_i64_string(n as int);
        assert(is_digit(s[0]));
        assert(s[0] != '-');
    }
}

} // verus!
