//! The composite parent-reference parser.
//!
//! A parent reference prefixes every referent with a two-character type
//! marker joined to the base identifier by an underscore: a marker's second
//! character is a single decimal digit naming the referent's kind, and only
//! that digit is kept as the discriminant.

use vstd::prelude::*;

use crate::timestamp::{digit_val, is_ascii_digit};

verus! {

/// A decoded parent reference: the kind discriminant and the bare base
/// identifier, without the type prefix.
#[derive(Debug, Clone)]
pub struct ParentId {
    pub parent_type: u8,
    pub parent_id: String,
}

/// Specification-level mirror of `ParentId`.
pub struct ParentIdModel {
    pub parent_type: u8,
    pub parent_id: Seq<char>,
}

impl View for ParentId {
    type V = ParentIdModel;

    open spec fn view(&self) -> ParentIdModel {
        ParentIdModel { parent_type: self.parent_type, parent_id: self.parent_id@ }
    }
}

/// Why a parent reference failed to parse.
#[derive(Debug, Clone, Copy, PartialEq, Eq, Structural)]
pub enum ParentIdError {
    /// The source value is missing or explicitly null: a parent reference is
    /// mandatory for every comment.
    Absent,
    /// No underscore, a marker shorter than two characters, or a non-digit
    /// second character.
    Malformed,
}

/// The position of the first underscore at or after `i`, if any.
pub open spec fn first_underscore_from(s: Seq<char>, i: int) -> Option<int>
    decreases s.len() - i when 0 <= i <= s.len()
{
    if i >= s.len() {
        None
    } else if s[i] == '_' {
        Some(i)
    } else {
        first_underscore_from(s, i + 1)
    }
}

/// What parsing a present parent-reference string yields: split on the first
/// underscore, require a marker of at least two characters whose second
/// character is a decimal digit, and keep the digit and the remainder.
pub open spec fn spec_parse_parent_str(s: Seq<char>) -> Option<ParentIdModel> {
    match first_underscore_from(s, 0) {
        None => None,
        Some(u) => if u >= 2 && is_ascii_digit(s[1]) {
            Some(
                ParentIdModel {
                    parent_type: digit_val(s[1]) as u8,
                    parent_id: s.skip(u + 1),
                },
            )
        } else {
            None
        },
    }
}

/// What parsing an optional parent-reference source yields.
pub open spec fn spec_parse_parent(src: Option<Seq<char>>) -> Result<ParentIdModel, ParentIdError> {
    match src {
        None => Err(ParentIdError::Absent),
        Some(s) => match spec_parse_parent_str(s) {
            Some(p) => Ok(p),
            None => Err(ParentIdError::Malformed),
        },
    }
}

impl ParentId {
    /// Parse an optional parent-reference source string. An absent source is
    /// a hard failure of its own kind; a present one must carry an
    /// underscore, a marker of at least two characters, and a decimal digit
    /// as the marker's second character.
    pub fn parse(src: Option<&str>) -> (r: Result<ParentId, ParentIdError>)
        ensures
            match r {
                Ok(p) => spec_parse_parent(src.deep_view()) == Ok::<_, ParentIdError>(p@),
                Err(e) => spec_parse_parent(src.deep_view()) == Err::<ParentIdModel, _>(e),
            },
    {
        let s = match src {
            None => {
                return Err(ParentIdError::Absent);
            },
            Some(s) => s,
        };
        let n = s.unicode_len();
        let mut i: usize = 0;
        while i < n
            invariant
                0 <= i <= n,
                n == s@.len(),
                src.deep_view() == Some(s@),
                first_underscore_from(s@, 0) == first_underscore_from(s@, i as int),
            decreases n - i,
        {
            if s.get_char(i) == '_' {
                if i < 2 {
                    return Err(ParentIdError::Malformed);
                }
                let c = s.get_char(1);
                let u = c as u32;
                if u < 48 || u > 57 {
                    return Err(ParentIdError::Malformed);
                }
                let base = s.substring_char(i + 1, n);
                proof {
                    assert(base@ =~= s@.skip(i + 1));
                }
                return Ok(
                    ParentId { parent_type: (u - 48) as u8, parent_id: base.to_owned() },
                );
            }
            i += 1;
        }
        Err(ParentIdError::Malformed)
    }
}

} // verus!
