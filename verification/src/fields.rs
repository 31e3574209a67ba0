//! Reading typed values out of a parsed line's field list.
//!
//! Every helper comes in two forms: a specification function over the field
//! list's model, and an executable twin proved to agree with it. The helpers
//! encode the presence and default rules both decoders share: a required
//! field must be present with the right shape, an optional field may be
//! missing or null, a defaultable boolean falls back to false when missing.

use vstd::prelude::*;

use crate::error::DecodeErrorKind;
use crate::json::{fields_view, JsonScalar, ScalarModel};

verus! {

/// True when the two strings hold the same characters.
pub fn str_eq(a: &str, b: &str) -> (r: bool)
    ensures
        r == (a@ == b@),
{
    let alen = a.unicode_len();
    if alen != b.unicode_len() {
        return false;
    }
    let mut i: usize = 0;
    while i < alen
        invariant
            alen == a@.len(),
            alen == b@.len(),
            0 <= i <= alen,
            forall|j: int| 0 <= j < i ==> a@[j] == b@[j],
        decreases alen - i,
    {
        if a.get_char(i) != b.get_char(i) {
            return false;
        }
        i += 1;
    }
    proof {
        assert(a@ =~= b@);
    }
    true
}

/// The value of the first field named `name`, if any.
pub open spec fn lookup_field(
    fs: Seq<(Seq<char>, ScalarModel)>,
    name: Seq<char>,
) -> Option<ScalarModel>
    decreases fs.len(),
{
    if fs.len() == 0 {
        None
    } else if fs[0].0 == name {
        Some(fs[0].1)
    } else {
        lookup_field(fs.drop_first(), name)
    }
}

/// A reference to the first field named `name`, if any.
pub fn find_field<'a>(fs: &'a Vec<(String, JsonScalar)>, name: &str) -> (r: Option<
    &'a JsonScalar,
>)
    ensures
        match r {
            Some(v) => lookup_field(fields_view(fs@), name@) == Some(v@),
            None => lookup_field(fields_view(fs@), name@) is None,
        },
{
    let ghost fv = fields_view(fs@);
    proof {
        assert(fv.skip(0) =~= fv);
    }
    let mut i: usize = 0;
    while i < fs.len()
        invariant
            0 <= i <= fs.len(),
            fv == fields_view(fs@),
            fv.len() == fs@.len(),
            lookup_field(fv, name@) == lookup_field(fv.skip(i as int), name@),
        decreases fs.len() - i,
    {
        if str_eq(fs[i].0.as_str(), name) {
            proof {
                assert(fv.skip(i as int)[0] == fv[i as int]);
            }
            return Some(&fs[i].1);
        }
        proof {
            assert(fv.skip(i as int).drop_first() =~= fv.skip(i as int + 1));
        }
        i += 1;
    }
    proof {
        assert(fv.skip(fs@.len() as int) =~= Seq::<(Seq<char>, ScalarModel)>::empty());
    }
    None
}

/// A required string field: present with a string value, or a schema error.
pub open spec fn spec_req_string(
    fs: Seq<(Seq<char>, ScalarModel)>,
    name: Seq<char>,
) -> Result<Seq<char>, DecodeErrorKind> {
    match lookup_field(fs, name) {
        Some(ScalarModel::Str(s)) => Ok(s),
        _ => Err(DecodeErrorKind::Schema),
    }
}

pub(crate) fn req_string(fs: &Vec<(String, JsonScalar)>, name: &str) -> (r: Result<
    String,
    DecodeErrorKind,
>)
    ensures
        match r {
            Ok(s) => spec_req_string(fields_view(fs@), name@) == Ok::<_, DecodeErrorKind>(s@),
            Err(k) => spec_req_string(fields_view(fs@), name@) == Err::<Seq<char>, _>(k),
        },
{
    match find_field(fs, name) {
        Some(JsonScalar::Str(s)) => Ok(s.clone()),
        _ => Err(DecodeErrorKind::Schema),
    }
}

/// An optional string field: missing and null both mean "no value".
pub open spec fn spec_opt_string(
    fs: Seq<(Seq<char>, ScalarModel)>,
    name: Seq<char>,
) -> Result<Option<Seq<char>>, DecodeErrorKind> {
    match lookup_field(fs, name) {
        None => Ok(None),
        Some(ScalarModel::Null) => Ok(None),
        Some(ScalarModel::Str(s)) => Ok(Some(s)),
        Some(_) => Err(DecodeErrorKind::Schema),
    }
}

pub(crate) fn opt_string(fs: &Vec<(String, JsonScalar)>, name: &str) -> (r: Result<
    Option<String>,
    DecodeErrorKind,
>)
    ensures
        match r {
            Ok(s) => spec_opt_string(fields_view(fs@), name@) == Ok::<_, DecodeErrorKind>(
                s.deep_view(),
            ),
            Err(k) => spec_opt_string(fields_view(fs@), name@) == Err::<Option<Seq<char>>, _>(k),
        },
{
    match find_field(fs, name) {
        None => Ok(None),
        Some(JsonScalar::Null) => Ok(None),
        Some(JsonScalar::Str(s)) => Ok(Some(s.clone())),
        Some(_) => Err(DecodeErrorKind::Schema),
    }
}

/// An optional 32-bit signed integer field.
pub open spec fn spec_opt_i32(
    fs: Seq<(Seq<char>, ScalarModel)>,
    name: Seq<char>,
) -> Result<Option<i32>, DecodeErrorKind> {
    match lookup_field(fs, name) {
        None => Ok(None),
        Some(ScalarModel::Null) => Ok(None),
        Some(ScalarModel::Int(i)) => if i32::MIN <= i <= i32::MAX {
            Ok(Some(i as i32))
        } else {
            Err(DecodeErrorKind::Schema)
        },
        Some(_) => Err(DecodeErrorKind::Schema),
    }
}

pub(crate) fn opt_i32(fs: &Vec<(String, JsonScalar)>, name: &str) -> (r: Result<
    Option<i32>,
    DecodeErrorKind,
>)
    ensures
        match r {
            Ok(v) => spec_opt_i32(fields_view(fs@), name@) == Ok::<_, DecodeErrorKind>(v),
            Err(k) => spec_opt_i32(fields_view(fs@), name@) == Err::<Option<i32>, _>(k),
        },
{
    match find_field(fs, name) {
        None => Ok(None),
        Some(JsonScalar::Null) => Ok(None),
        Some(JsonScalar::Int(i)) => {
            let i = *i;
            if i32::MIN as i64 <= i && i <= i32::MAX as i64 {
                Ok(Some(i as i32))
            } else {
                Err(DecodeErrorKind::Schema)
            }
        },
        Some(_) => Err(DecodeErrorKind::Schema),
    }
}

/// An optional 64-bit signed integer field.
pub open spec fn spec_opt_i64(
    fs: Seq<(Seq<char>, ScalarModel)>,
    name: Seq<char>,
) -> Result<Option<i64>, DecodeErrorKind> {
    match lookup_field(fs, name) {
        None => Ok(None),
        Some(ScalarModel::Null) => Ok(None),
        Some(ScalarModel::Int(i)) => Ok(Some(i)),
        Some(_) => Err(DecodeErrorKind::Schema),
    }
}

pub(crate) fn opt_i64(fs: &Vec<(String, JsonScalar)>, name: &str) -> (r: Result<
    Option<i64>,
    DecodeErrorKind,
>)
    ensures
        match r {
            Ok(v) => spec_opt_i64(fields_view(fs@), name@) == Ok::<_, DecodeErrorKind>(v),
            Err(k) => spec_opt_i64(fields_view(fs@), name@) == Err::<Option<i64>, _>(k),
        },
{
    match find_field(fs, name) {
        None => Ok(None),
        Some(JsonScalar::Null) => Ok(None),
        Some(JsonScalar::Int(i)) => Ok(Some(*i)),
        Some(_) => Err(DecodeErrorKind::Schema),
    }
}

/// An optional 32-bit unsigned integer field.
pub open spec fn spec_opt_u32(
    fs: Seq<(Seq<char>, ScalarModel)>,
    name: Seq<char>,
) -> Result<Option<u32>, DecodeErrorKind> {
    match lookup_field(fs, name) {
        None => Ok(None),
        Some(ScalarModel::Null) => Ok(None),
        Some(ScalarModel::Int(i)) => if 0 <= i <= u32::MAX {
            Ok(Some(i as u32))
        } else {
            Err(DecodeErrorKind::Schema)
        },
        Some(_) => Err(DecodeErrorKind::Schema),
    }
}

pub(crate) fn opt_u32(fs: &Vec<(String, JsonScalar)>, name: &str) -> (r: Result<
    Option<u32>,
    DecodeErrorKind,
>)
    ensures
        match r {
            Ok(v) => spec_opt_u32(fields_view(fs@), name@) == Ok::<_, DecodeErrorKind>(v),
            Err(k) => spec_opt_u32(fields_view(fs@), name@) == Err::<Option<u32>, _>(k),
        },
{
    match find_field(fs, name) {
        None => Ok(None),
        Some(JsonScalar::Null) => Ok(None),
        Some(JsonScalar::Int(i)) => {
            let i = *i;
            if 0 <= i && i <= u32::MAX as i64 {
                Ok(Some(i as u32))
            } else {
                Err(DecodeErrorKind::Schema)
            }
        },
        Some(_) => Err(DecodeErrorKind::Schema),
    }
}

/// A required 32-bit signed integer field.
pub open spec fn spec_req_i32(
    fs: Seq<(Seq<char>, ScalarModel)>,
    name: Seq<char>,
) -> Result<i32, DecodeErrorKind> {
    match lookup_field(fs, name) {
        Some(ScalarModel::Int(i)) => if i32::MIN <= i <= i32::MAX {
            Ok(i as i32)
        } else {
            Err(DecodeErrorKind::Schema)
        },
        _ => Err(DecodeErrorKind::Schema),
    }
}

pub(crate) fn req_i32(fs: &Vec<(String, JsonScalar)>, name: &str) -> (r: Result<
    i32,
    DecodeErrorKind,
>)
    ensures
        match r {
            Ok(v) => spec_req_i32(fields_view(fs@), name@) == Ok::<_, DecodeErrorKind>(v),
            Err(k) => spec_req_i32(fields_view(fs@), name@) == Err::<i32, _>(k),
        },
{
    match find_field(fs, name) {
        Some(JsonScalar::Int(i)) => {
            let i = *i;
            if i32::MIN as i64 <= i && i <= i32::MAX as i64 {
                Ok(i as i32)
            } else {
                Err(DecodeErrorKind::Schema)
            }
        },
        _ => Err(DecodeErrorKind::Schema),
    }
}

/// A required boolean field.
pub open spec fn spec_req_bool(
    fs: Seq<(Seq<char>, ScalarModel)>,
    name: Seq<char>,
) -> Result<bool, DecodeErrorKind> {
    match lookup_field(fs, name) {
        Some(ScalarModel::Bool(b)) => Ok(b),
        _ => Err(DecodeErrorKind::Schema),
    }
}

pub(crate) fn req_bool(fs: &Vec<(String, JsonScalar)>, name: &str) -> (r: Result<
    bool,
    DecodeErrorKind,
>)
    ensures
        match r {
            Ok(b) => spec_req_bool(fields_view(fs@), name@) == Ok::<_, DecodeErrorKind>(b),
            Err(k) => spec_req_bool(fields_view(fs@), name@) == Err::<bool, _>(k),
        },
{
    match find_field(fs, name) {
        Some(JsonScalar::Bool(b)) => Ok(*b),
        _ => Err(DecodeErrorKind::Schema),
    }
}

/// An optional boolean field: missing and null both mean "no value".
pub open spec fn spec_opt_bool(
    fs: Seq<(Seq<char>, ScalarModel)>,
    name: Seq<char>,
) -> Result<Option<bool>, DecodeErrorKind> {
    match lookup_field(fs, name) {
        None => Ok(None),
        Some(ScalarModel::Null) => Ok(None),
        Some(ScalarModel::Bool(b)) => Ok(Some(b)),
        Some(_) => Err(DecodeErrorKind::Schema),
    }
}

pub(crate) fn opt_bool(fs: &Vec<(String, JsonScalar)>, name: &str) -> (r: Result<
    Option<bool>,
    DecodeErrorKind,
>)
    ensures
        match r {
            Ok(v) => spec_opt_bool(fields_view(fs@), name@) == Ok::<_, DecodeErrorKind>(v),
            Err(k) => spec_opt_bool(fields_view(fs@), name@) == Err::<Option<bool>, _>(k),
        },
{
    match find_field(fs, name) {
        None => Ok(None),
        Some(JsonScalar::Null) => Ok(None),
        Some(JsonScalar::Bool(b)) => Ok(Some(*b)),
        Some(_) => Err(DecodeErrorKind::Schema),
    }
}

/// A defaultable boolean field: false when missing, but a present value must
/// be a boolean.
pub open spec fn spec_bool_or_false(
    fs: Seq<(Seq<char>, ScalarModel)>,
    name: Seq<char>,
) -> Result<bool, DecodeErrorKind> {
    match lookup_field(fs, name) {
        None => Ok(false),
        Some(ScalarModel::Bool(b)) => Ok(b),
        Some(_) => Err(DecodeErrorKind::Schema),
    }
}

pub(crate) fn bool_or_false(fs: &Vec<(String, JsonScalar)>, name: &str) -> (r: Result<
    bool,
    DecodeErrorKind,
>)
    ensures
        match r {
            Ok(b) => spec_bool_or_false(fields_view(fs@), name@) == Ok::<_, DecodeErrorKind>(b),
            Err(k) => spec_bool_or_false(fields_view(fs@), name@) == Err::<bool, _>(k),
        },
{
    match find_field(fs, name) {
        None => Ok(false),
        Some(JsonScalar::Bool(b)) => Ok(*b),
        Some(_) => Err(DecodeErrorKind::Schema),
    }
}

} // verus!
