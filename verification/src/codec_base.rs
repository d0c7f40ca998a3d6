//! Shared pieces of the record codec: scalar encodings and their exact
//! decodings, shared by every record type.
use vstd::prelude::*;

use crate::jsonio::{jv, Json};
use crate::json::JsonV;
use crate::text::{str_to_chars, string_from_chars};
use crate::views::v_opt_str;

verus! {

/// Decoding of a JSON string.
pub open spec fn str_of_jv(j: JsonV) -> Option<Seq<char>> {
    match j {
        JsonV::Str(s) => Some(s),
        _ => None,
    }
}

/// Encoding of an optional text: the text, or null.
pub open spec fn opt_str_jv(o: Option<Seq<char>>) -> JsonV {
    match o {
        None => JsonV::Null,
        Some(s) => JsonV::Str(s),
    }
}

/// Decoding of an optional text.
pub open spec fn opt_str_of_jv(j: JsonV) -> Option<Option<Seq<char>>> {
    match j {
        JsonV::Null => Some(None),
        JsonV::Str(s) => Some(Some(s)),
        _ => None,
    }
}

/// Decoding of a 64-bit integer.
pub open spec fn int_of_jv(j: JsonV) -> Option<i64> {
    match j {
        JsonV::Int(n) => if i64::MIN <= n <= i64::MAX {
            Some(n as i64)
        } else {
            None
        },
        _ => None,
    }
}

/// Encoding of an optional integer: the number, or null.
pub open spec fn opt_int_jv(o: Option<i64>) -> JsonV {
    match o {
        None => JsonV::Null,
        Some(n) => JsonV::Int(n as int),
    }
}

/// Decoding of an optional integer.
pub open spec fn opt_int_of_jv(j: JsonV) -> Option<Option<i64>> {
    match j {
        JsonV::Null => Some(None),
        JsonV::Int(n) => if i64::MIN <= n <= i64::MAX {
            Some(Some(n as i64))
        } else {
            None
        },
        _ => None,
    }
}

/// Decoding of a boolean.
pub open spec fn bool_of_jv(j: JsonV) -> Option<bool> {
    match j {
        JsonV::Bool(b) => Some(b),
        _ => None,
    }
}

/// Encoding of an optional boolean: the value, or null.
pub open spec fn opt_bool_jv(o: Option<bool>) -> JsonV {
    match o {
        None => JsonV::Null,
        Some(b) => JsonV::Bool(b),
    }
}

/// Decoding of an optional boolean.
pub open spec fn opt_bool_of_jv(j: JsonV) -> Option<Option<bool>> {
    match j {
        JsonV::Null => Some(None),
        JsonV::Bool(b) => Some(Some(b)),
        _ => None,
    }
}

/// A JSON string from library text.
pub fn ex_str_json(s: &str) -> (j: Json)
    ensures
        jv(j) == JsonV::Str(s@),
{
    Json::Str(str_to_chars(s))
}

/// A JSON value from optional library text.
pub fn ex_opt_str_json(o: &Option<String>) -> (j: Json)
    ensures
        jv(j) == opt_str_jv(v_opt_str(*o)),
{
    match o {
        None => Json::Null,
        Some(s) => Json::Str(str_to_chars(s.as_str())),
    }
}

/// A JSON value from an optional integer.
pub fn ex_opt_int_json(o: &Option<i64>) -> (j: Json)
    ensures
        jv(j) == opt_int_jv(*o),
{
    match o {
        None => Json::Null,
        Some(n) => Json::Int(*n),
    }
}

/// A JSON value from an optional boolean.
pub fn ex_opt_bool_json(o: &Option<bool>) -> (j: Json)
    ensures
        jv(j) == opt_bool_jv(*o),
{
    match o {
        None => Json::Null,
        Some(b) => Json::Bool(*b),
    }
}

/// Reads a string back from a JSON value.
pub fn ex_str_of(j: &Json) -> (r: Option<String>)
    ensures
        match r {
            Some(s) => str_of_jv(jv(*j)) == Some(s@),
            None => str_of_jv(jv(*j)) is None,
        },
{
    match j {
        Json::Str(t) => Some(string_from_chars(t)),
        _ => None,
    }
}

/// Reads an optional string back from a JSON value.
pub fn ex_opt_str_of(j: &Json) -> (r: Option<Option<String>>)
    ensures
        match r {
            Some(o) => opt_str_of_jv(jv(*j)) == Some(v_opt_str(o)),
            None => opt_str_of_jv(jv(*j)) is None,
        },
{
    match j {
        Json::Null => Some(None),
        Json::Str(t) => Some(Some(string_from_chars(t))),
        _ => None,
    }
}

/// Reads an integer back from a JSON value.
pub fn ex_int_of(j: &Json) -> (r: Option<i64>)
    ensures
        match r {
            Some(n) => int_of_jv(jv(*j)) == Some(n),
            None => int_of_jv(jv(*j)) is None,
        },
{
    match j {
        Json::Int(n) => Some(*n),
        _ => None,
    }
}

/// Reads an optional integer back from a JSON value.
pub fn ex_opt_int_of(j: &Json) -> (r: Option<Option<i64>>)
    ensures
        match r {
            Some(o) => opt_int_of_jv(jv(*j)) == Some(o),
            None => opt_int_of_jv(jv(*j)) is None,
        },
{
    match j {
        Json::Null => Some(None),
        Json::Int(n) => Some(Some(*n)),
        _ => None,
    }
}

/// Reads a boolean back from a JSON value.
pub fn ex_bool_of(j: &Json) -> (r: Option<bool>)
    ensures
        match r {
            Some(b) => bool_of_jv(jv(*j)) == Some(b),
            None => bool_of_jv(jv(*j)) is None,
        },
{
    match j {
        Json::Bool(b) => Some(*b),
        _ => None,
    }
}

/// Reads an optional boolean back from a JSON value.
pub fn ex_opt_bool_of(j: &Json) -> (r: Option<Option<bool>>)
    ensures
        match r {
            Some(o) => opt_bool_of_jv(jv(*j)) == Some(o),
            None => opt_bool_of_jv(jv(*j)) is None,
        },
{
    match j {
        Json::Null => Some(None),
        Json::Bool(b) => Some(Some(*b)),
        _ => None,
    }
}

} // verus!
