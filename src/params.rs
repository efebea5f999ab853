//! Decoding of a tool call's argument object into typed parameters.

use vstd::prelude::*;
use crate::models::{CloseWindowParams, EmptyParams, ScreenshotParams, WindowScreenshotParams};
use crate::text::{decimal, push_decimal, push_signed_decimal, signed_decimal};

verus! {

/// One value of a tool call's argument object. Numbers are split by what a
/// `u32` parameter can take; fractional numbers carry no value here, since
/// no parameter takes one.
#[derive(Clone, Debug)]
pub enum ParamValue {
    Null,
    Bool(bool),
    Unsigned(u64),
    Negative(i64),
    Fractional,
    Text(String),
    Array,
    Object,
}

/// A tool call's argument object: its entries in order.
#[derive(Clone, Debug)]
pub struct RawParams {
    pub entries: Vec<(String, ParamValue)>,
}

/// Some entry of `entries` has the key `key`.
pub open spec fn has_key(entries: Seq<(String, ParamValue)>, key: Seq<char>) -> bool {
    exists|i: int| 0 <= i < entries.len() && (#[trigger] entries[i]).0@ == key
}

/// `i` is the first entry of `entries` with the key `key`.
pub open spec fn is_first_key(entries: Seq<(String, ParamValue)>, key: Seq<char>, i: int) -> bool {
    &&& 0 <= i < entries.len()
    &&& entries[i].0@ == key
    &&& forall|j: int| 0 <= j < i ==> (#[trigger] entries[j]).0@ != key
}

/// The value of the first entry with the key `key`, if any.
pub open spec fn lookup(entries: Seq<(String, ParamValue)>, key: Seq<char>) -> Option<ParamValue> {
    if has_key(entries, key) {
        Some(entries[choose|i: int| is_first_key(entries, key, i)].1)
    } else {
        None
    }
}

/// How a value of the wrong type is described in an error.
pub open spec fn kind_of(v: ParamValue) -> Seq<char> {
    match v {
        ParamValue::Null => "null"@,
        ParamValue::Bool(_) => "a boolean"@,
        ParamValue::Unsigned(_) => "an integer"@,
        ParamValue::Negative(_) => "a negative integer"@,
        ParamValue::Fractional => "a fractional number"@,
        ParamValue::Text(_) => "a string"@,
        ParamValue::Array => "an array"@,
        ParamValue::Object => "an object"@,
    }
}

/// The `u32` that the field `key` holds in `v`, or the reason it holds none.
pub open spec fn u32_of(key: Seq<char>, v: ParamValue) -> Result<u32, Seq<char>> {
    match v {
        ParamValue::Unsigned(n) => if n <= u32::MAX {
            Ok(n as u32)
        } else {
            Err("field `"@ + key + "` is out of range: "@ + decimal(n as nat)
                + " does not fit in an unsigned 32-bit integer"@)
        },
        ParamValue::Negative(n) => Err("field `"@ + key + "` is out of range: "@ + signed_decimal(
            n as int,
        ) + " is negative"@),
        _ => Err("field `"@ + key + "` has the wrong type: expected an unsigned 32-bit integer, found "@
            + kind_of(v)),
    }
}

/// The reason given when a required field is absent.
pub open spec fn missing_field(key: Seq<char>) -> Seq<char> {
    "missing field `"@ + key + "`"@
}

/// The required `u32` field `key` of `entries`, or the reason it is not there.
pub open spec fn required_u32(entries: Seq<(String, ParamValue)>, key: Seq<char>) -> Result<u32, Seq<char>> {
    match lookup(entries, key) {
        None => Err(missing_field(key)),
        Some(v) => u32_of(key, v),
    }
}

/// The optional `u32` field `key` of `entries`: absent or null is `None`.
pub open spec fn optional_u32(entries: Seq<(String, ParamValue)>, key: Seq<char>) -> Result<Option<u32>, Seq<char>> {
    match lookup(entries, key) {
        None => Ok(None),
        Some(ParamValue::Null) => Ok(None),
        Some(v) => match u32_of(key, v) {
            Ok(n) => Ok(Some(n)),
            Err(e) => Err(e),
        },
    }
}

/// The value of the first entry whose key is `key`.
pub fn find_param<'a>(params: &'a RawParams, key: &String) -> (r: Option<&'a ParamValue>)
    ensures
        match r {
            Some(v) => lookup(params.entries@, key@) == Some(*v),
            None => lookup(params.entries@, key@).is_none(),
        },
{
    let mut i: usize = 0;
    while i < params.entries.len()
        invariant
            i <= params.entries@.len(),
            forall|j: int| 0 <= j < i ==> (#[trigger] params.entries@[j]).0@ != key@,
        decreases params.entries@.len() - i,
    {
        if params.entries[i].0 == *key {
            let ghost k = i as int;
            assert(is_first_key(params.entries@, key@, k));
            assert(has_key(params.entries@, key@));
            proof {
                let c = choose|c: int| is_first_key(params.entries@, key@, c);
                assert(c == k) by {
                    if c < k {
                        assert(params.entries@[c].0@ != key@);
                    } else if c > k {
                        assert(params.entries@[k].0@ != key@);
                    }
                }
                assert(lookup(params.entries@, key@) == Some(params.entries@[k].1));
            }
            return Some(&params.entries[i].1);
        }
        i = i + 1;
    }
    assert(!has_key(params.entries@, key@));
    None
}

fn kind_text(v: &ParamValue) -> (r: &'static str)
    ensures
        r@ == kind_of(*v),
{
    match v {
        ParamValue::Null => "null",
        ParamValue::Bool(_) => "a boolean",
        ParamValue::Unsigned(_) => "an integer",
        ParamValue::Negative(_) => "a negative integer",
        ParamValue::Fractional => "a fractional number",
        ParamValue::Text(_) => "a string",
        ParamValue::Array => "an array",
        ParamValue::Object => "an object",
    }
}

/// The `u32` that the field `key` holds in `v`, or the reason it holds none.
pub fn decode_u32(key: &String, v: &ParamValue) -> (r: Result<u32, String>)
    ensures
        match (r, u32_of(key@, *v)) {
            (Ok(n), Ok(m)) => n == m,
            (Err(e), Err(f)) => e@ == f,
            _ => false,
        },
{
    let mut s = String::from_str("field `");
    s.append(key.as_str());
    match v {
        ParamValue::Unsigned(n) => {
            if *n <= u32::MAX as u64 {
                return Ok(*n as u32);
            }
            s.append("` is out of range: ");
            push_decimal(&mut s, *n);
            s.append(" does not fit in an unsigned 32-bit integer");
        },
        ParamValue::Negative(n) => {
            s.append("` is out of range: ");
            push_signed_decimal(&mut s, *n);
            s.append(" is negative");
        },
        _ => {
            s.append("` has the wrong type: expected an unsigned 32-bit integer, found ");
            s.append(kind_text(v));
        },
    }
    assert(s@ =~= u32_of(key@, *v)->Err_0);
    Err(s)
}

/// The required `u32` field `key` of `params`, or the reason it is not there.
pub fn decode_required_u32(params: &RawParams, key: &String) -> (r: Result<u32, String>)
    ensures
        match (r, required_u32(params.entries@, key@)) {
            (Ok(n), Ok(m)) => n == m,
            (Err(e), Err(f)) => e@ == f,
            _ => false,
        },
{
    match find_param(params, key) {
        Some(v) => decode_u32(key, v),
        None => {
            let mut s = String::from_str("missing field `");
            s.append(key.as_str());
            s.append("`");
            assert(s@ =~= missing_field(key@));
            Err(s)
        },
    }
}

/// The optional `u32` field `key` of `params`, or the reason it cannot be
/// read.
pub fn decode_optional_u32(params: &RawParams, key: &String) -> (r: Result<Option<u32>, String>)
    ensures
        match (r, optional_u32(params.entries@, key@)) {
            (Ok(n), Ok(m)) => n == m,
            (Err(e), Err(f)) => e@ == f,
            _ => false,
        },
{
    match find_param(params, key) {
        None => Ok(None),
        Some(ParamValue::Null) => Ok(None),
        Some(v) => match decode_u32(key, v) {
            Ok(n) => Ok(Some(n)),
            Err(e) => Err(e),
        },
    }
}

impl EmptyParams {
    /// Any argument object is accepted: entries are ignored.
    pub fn decode(params: &RawParams) -> (r: EmptyParams) {
        EmptyParams {  }
    }
}

impl ScreenshotParams {
    /// Reads the optional `monitor_index`.
    pub fn decode(params: &RawParams) -> (r: Result<ScreenshotParams, String>)
        ensures
            match (r, optional_u32(params.entries@, "monitor_index"@)) {
                (Ok(p), Ok(m)) => p.monitor_index == m,
                (Err(e), Err(f)) => e@ == f,
                _ => false,
            },
    {
        let key = String::from_str("monitor_index");
        match decode_optional_u32(params, &key) {
            Ok(monitor_index) => Ok(ScreenshotParams { monitor_index }),
            Err(e) => Err(e),
        }
    }
}

impl WindowScreenshotParams {
    /// Reads the required `window_id`.
    pub fn decode(params: &RawParams) -> (r: Result<WindowScreenshotParams, String>)
        ensures
            match (r, required_u32(params.entries@, "window_id"@)) {
                (Ok(p), Ok(m)) => p.window_id == m,
                (Err(e), Err(f)) => e@ == f,
                _ => false,
            },
    {
        let key = String::from_str("window_id");
        match decode_required_u32(params, &key) {
            Ok(window_id) => Ok(WindowScreenshotParams { window_id }),
            Err(e) => Err(e),
        }
    }
}

impl CloseWindowParams {
    /// Reads the required `window_id`.
    pub fn decode(params: &RawParams) -> (r: Result<CloseWindowParams, String>)
        ensures
            match (r, required_u32(params.entries@, "window_id"@)) {
                (Ok(p), Ok(m)) => p.window_id == m,
                (Err(e), Err(f)) => e@ == f,
                _ => false,
            },
    {
        let key = String::from_str("window_id");
        match decode_required_u32(params, &key) {
            Ok(window_id) => Ok(CloseWindowParams { window_id }),
            Err(e) => Err(e),
        }
    }
}

} // verus!
