//! A plain model of one JSON line.
//!
//! The decoders in this crate never walk a parser's value tree themselves:
//! one trusted call reduces a line to the list of its top-level fields, each
//! field to the scalar the decoders care about, and everything after that
//! point is verified code over these types.

use vstd::prelude::*;

verus! {

/// What one top-level field of a JSON object holds, reduced to plain values.
///
/// A number that fits the signed 64-bit range is `Int`. A number that the
/// parser holds as a floating-point value is `Float`, carrying the value
/// truncated toward zero (saturated at the ends of the signed 64-bit range).
/// An integer above the signed 64-bit range is `Big`. A nested array or
/// object is `Composite` and opaque: no decoder reads inside one, and every
/// decoder refuses the shape wherever it stands.
#[derive(Debug, Clone)]
pub enum JsonScalar {
    Null,
    Bool(bool),
    Int(i64),
    Float(i64),
    Big,
    Str(String),
    Composite,
}

/// Specification-level mirror of `JsonScalar`, with text as `Seq<char>`.
pub enum ScalarModel {
    Null,
    Bool(bool),
    Int(i64),
    Float(i64),
    Big,
    Str(Seq<char>),
    Composite,
}

impl View for JsonScalar {
    type V = ScalarModel;

    open spec fn view(&self) -> ScalarModel {
        match self {
            JsonScalar::Null => ScalarModel::Null,
            JsonScalar::Bool(b) => ScalarModel::Bool(*b),
            JsonScalar::Int(i) => ScalarModel::Int(*i),
            JsonScalar::Float(t) => ScalarModel::Float(*t),
            JsonScalar::Big => ScalarModel::Big,
            JsonScalar::Str(s) => ScalarModel::Str(s@),
            JsonScalar::Composite => ScalarModel::Composite,
        }
    }
}

/// One line, parsed: not JSON at all, JSON but not an object, or an object's
/// top-level fields in their textual order.
pub enum ParsedLine {
    NotJson,
    NotObject,
    Fields(Vec<(String, JsonScalar)>),
}

/// Specification-level mirror of `ParsedLine`.
pub enum LineModel {
    NotJson,
    NotObject,
    Fields(Seq<(Seq<char>, ScalarModel)>),
}

/// The fields of a parsed object, as the specifications see them.
pub open spec fn fields_view(fs: Seq<(String, JsonScalar)>) -> Seq<(Seq<char>, ScalarModel)> {
    fs.map_values(|p: (String, JsonScalar)| (p.0@, p.1@))
}

impl View for ParsedLine {
    type V = LineModel;

    open spec fn view(&self) -> LineModel {
        match self {
            ParsedLine::NotJson => LineModel::NotJson,
            ParsedLine::NotObject => LineModel::NotObject,
            ParsedLine::Fields(fs) => LineModel::Fields(fields_view(fs@)),
        }
    }
}

/// What parsing a given line yields. The outcome depends on the line's text
/// alone; nothing further is assumed about it.
pub uninterp spec fn json_line_model(line: Seq<char>) -> LineModel;

/// Relies on `serde_json::from_str` for the whole parse: whether the line is
/// valid JSON, whether its top value is an object, and which scalar each
/// top-level field holds are functions of the line's text alone. A number is
/// reported through `as_i64` when it fits the signed 64-bit range, through
/// `as_f64` truncated toward zero when the parser holds it as a
/// floating-point value, and as `Big` otherwise.
#[verifier::external_body]
pub(crate) fn parse_json_line(line: &str) -> (r: ParsedLine)
    ensures
        r@ == json_line_model(line@),
{
    match serde_json::from_str::<serde_json::Value>(line) {
        Err(_) => ParsedLine::NotJson,
        Ok(serde_json::Value::Object(m)) => ParsedLine::Fields(m.into_iter().map(|(k, v)| (k,
            match v {
                serde_json::Value::Null => JsonScalar::Null,
                serde_json::Value::Bool(b) => JsonScalar::Bool(b),
                serde_json::Value::Number(n) => if n.is_f64() { JsonScalar::Float(n.as_f64().unwrap() as i64) } else { n.as_i64().map_or(JsonScalar::Big, JsonScalar::Int) },
                serde_json::Value::String(s) => JsonScalar::Str(s),
                _ => JsonScalar::Composite,
            })).collect()),
        Ok(_) => ParsedLine::NotObject,
    }
}

} // verus!
