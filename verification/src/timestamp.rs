//! The polymorphic timestamp normalizer and the decimal integer parser it
//! leans on.
//!
//! Archival dumps encode the creation time of a record as a JSON integer, a
//! floating-point number, or a decimal string, depending on the dump era.
//! The normalizer reduces all three to one canonical signed 64-bit integer;
//! every other shape is a timestamp error.

use vstd::prelude::*;

use crate::error::DecodeErrorKind;
use crate::json::{JsonScalar, ScalarModel};

verus! {

pub open spec fn is_ascii_digit(c: char) -> bool {
    48 <= c as u32 <= 57
}

pub open spec fn digit_val(c: char) -> int {
    c as u32 - 48
}

pub open spec fn all_digits(s: Seq<char>) -> bool {
    forall|i: int| 0 <= i < s.len() ==> is_ascii_digit(s[i])
}

/// The base-10 value of a digit string.
pub open spec fn digits_value(s: Seq<char>) -> int
    decreases s.len(),
{
    if s.len() == 0 {
        0
    } else {
        digits_value(s.drop_last()) * 10 + digit_val(s.last())
    }
}

/// The digits of an integer literal: everything after an optional sign.
pub open spec fn literal_digits(s: Seq<char>) -> Seq<char> {
    if s.len() > 0 && (s[0] == '-' || s[0] == '+') {
        s.drop_first()
    } else {
        s
    }
}

pub open spec fn literal_negative(s: Seq<char>) -> bool {
    s.len() > 0 && s[0] == '-'
}

/// The mathematical value of an integer literal.
pub open spec fn literal_value(s: Seq<char>) -> int {
    if literal_negative(s) {
        -digits_value(literal_digits(s))
    } else {
        digits_value(literal_digits(s))
    }
}

/// An optional sign, one or more decimal digits, nothing else, and a value
/// in the signed 64-bit range.
pub open spec fn is_i64_literal(s: Seq<char>) -> bool {
    &&& literal_digits(s).len() > 0
    &&& all_digits(literal_digits(s))
    &&& i64::MIN <= literal_value(s) <= i64::MAX
}

/// What parsing a string as a signed 64-bit decimal integer yields.
pub open spec fn spec_parse_i64(s: Seq<char>) -> Option<i64> {
    if is_i64_literal(s) {
        Some(literal_value(s) as i64)
    } else {
        None
    }
}

proof fn lemma_digits_nonneg(s: Seq<char>)
    requires
        all_digits(s),
    ensures
        digits_value(s) >= 0,
    decreases s.len(),
{
    if s.len() > 0 {
        assert(all_digits(s.drop_last()));
        lemma_digits_nonneg(s.drop_last());
    }
}

/// Appending digits never shrinks a digit string's value.
proof fn lemma_digits_prefix_le(s: Seq<char>, j: int)
    requires
        all_digits(s),
        0 <= j <= s.len(),
    ensures
        digits_value(s.take(j)) <= digits_value(s),
    decreases s.len() - j,
{
    if j == s.len() {
        assert(s.take(j) =~= s);
    } else {
        assert(s.take(j + 1).drop_last() =~= s.take(j));
        assert(all_digits(s.take(j)));
        lemma_digits_nonneg(s.take(j));
        lemma_digits_prefix_le(s, j + 1);
    }
}

/// Parse a decimal signed 64-bit integer, exactly as the specification
/// `spec_parse_i64` describes: an optional sign, digits only, range checked.
pub fn parse_i64(s: &str) -> (r: Option<i64>)
    ensures
        r == spec_parse_i64(s@),
{
    let n = s.unicode_len();
    let mut i: usize = 0;
    let mut neg = false;
    if n > 0 {
        let c0 = s.get_char(0);
        if c0 == '-' {
            neg = true;
            i = 1;
        } else if c0 == '+' {
            i = 1;
        }
    }
    let ghost start = i as int;
    let ghost ds = literal_digits(s@);
    proof {
        assert(ds =~= s@.skip(start));
    }
    if i >= n {
        // the empty string or a bare sign
        return None;
    }
    let mut mag: u64 = 0;
    while i < n
        invariant
            n == s@.len(),
            start <= i <= n,
            start < n,
            0 <= start <= 1,
            ds == s@.skip(start),
            ds == literal_digits(s@),
            ds.len() == n - start,
            neg == literal_negative(s@),
            all_digits(ds.take(i - start)),
            mag == digits_value(ds.take(i - start)),
            mag <= 9223372036854775808u64,
        decreases n - i,
    {
        let c = s.get_char(i);
        let u = c as u32;
        proof {
            assert(ds[i - start] == c);
        }
        if u < 48 || u > 57 {
            proof {
                assert(!is_ascii_digit(ds[i - start]));
                assert(!all_digits(ds));
            }
            return None;
        }
        let d = (u - 48) as u64;
        let wide: u128 = (mag as u128) * 10 + (d as u128);
        proof {
            assert(ds.take(i + 1 - start).drop_last() =~= ds.take(i - start));
            assert(digits_value(ds.take(i + 1 - start)) == mag * 10 + d);
        }
        if wide > 9223372036854775808u128 {
            // Every longer digit string is at least this large, so the value
            // cannot lie in the signed 64-bit range whichever sign it has.
            proof {
                if is_i64_literal(s@) {
                    assert(all_digits(ds));
                    lemma_digits_prefix_le(ds, i + 1 - start);
                    assert(digits_value(ds) > 9223372036854775808);
                    assert(false);
                }
            }
            return None;
        }
        mag = (wide as u64);
        i += 1;
    }
    proof {
        assert(ds.take(n - start) =~= ds);
    }
    if neg {
        if mag == 9223372036854775808u64 {
            Some(i64::MIN)
        } else {
            Some(-(mag as i64))
        }
    } else {
        if mag > 9223372036854775807u64 {
            // exactly one more than the largest signed 64-bit integer
            None
        } else {
            Some(mag as i64)
        }
    }
}

/// What normalizing one timestamp field value yields: an integer as it is, a
/// floating-point value truncated toward zero, a decimal string parsed, and
/// every other shape refused. An integer above the signed 64-bit range takes
/// the floating-point path in the source dumps' parser and saturates.
pub open spec fn spec_normalize_timestamp(v: ScalarModel) -> Result<i64, DecodeErrorKind> {
    match v {
        ScalarModel::Int(t) => Ok(t),
        ScalarModel::Float(t) => Ok(t),
        ScalarModel::Big => Ok(i64::MAX),
        ScalarModel::Str(s) => match spec_parse_i64(s) {
            Some(t) => Ok(t),
            None => Err(DecodeErrorKind::Timestamp),
        },
        _ => Err(DecodeErrorKind::Timestamp),
    }
}

/// Reduce a timestamp field's value to one canonical integer, or fail with a
/// timestamp error.
pub fn normalize_timestamp(v: &JsonScalar) -> (r: Result<i64, DecodeErrorKind>)
    ensures
        match r {
            Ok(t) => spec_normalize_timestamp(v@) == Ok::<_, DecodeErrorKind>(t),
            Err(k) => spec_normalize_timestamp(v@) == Err::<i64, _>(k),
        },
{
    match v {
        JsonScalar::Int(t) => Ok(*t),
        JsonScalar::Float(t) => Ok(*t),
        JsonScalar::Big => Ok(i64::MAX),
        JsonScalar::Str(s) => match parse_i64(s.as_str()) {
            Some(t) => Ok(t),
            None => Err(DecodeErrorKind::Timestamp),
        },
        _ => Err(DecodeErrorKind::Timestamp),
    }
}

/// Law: a timestamp encoded as an integer, as a floating-point value that
/// truncates to that integer, or as a decimal string with that value all
/// normalize to the same integer.
pub proof fn lemma_timestamp_encodings_agree(t: i64, s: Seq<char>)
    requires
        spec_parse_i64(s) == Some(t),
    ensures
        spec_normalize_timestamp(ScalarModel::Int(t)) == Ok::<i64, DecodeErrorKind>(t),
        spec_normalize_timestamp(ScalarModel::Float(t)) == Ok::<i64, DecodeErrorKind>(t),
        spec_normalize_timestamp(ScalarModel::Str(s)) == Ok::<i64, DecodeErrorKind>(t),
{
}

} // verus!
