//! The JSON value abstraction consumed by the event decoder.
//!
//! A frame arrives as one JSON object.  The transport layer parses the raw
//! text and hands the decoder a [`Json`] value; the decoder only ever reads
//! named fields out of it.  Objects keep their bindings in wire order and a
//! field read returns the first binding with the requested key.

use vstd::prelude::*;

use crate::error::{fail_matches, missing_field, shape_mismatch, Error};

verus! {

/// One JSON value.  Numbers are integers: the wire protocol modelled here
/// carries timestamps and identifiers as strings, and counts and reply ids as
/// integers, so non-integral numbers are rejected by the transport layer
/// before a frame reaches the decoder.
pub enum Json {
    Null,
    Bool(bool),
    I64(i64),
    U64(u64),
    Str(String),
    Arr(Vec<Json>),
    Obj(Vec<(String, Json)>),
}

/// The name of a value's shape, used in schema failure reports.
pub open spec fn kind_name(j: Json) -> Seq<char> {
    match j {
        Json::Null => "null"@,
        Json::Bool(_) => "boolean"@,
        Json::I64(_) => "integer"@,
        Json::U64(_) => "integer"@,
        Json::Str(_) => "string"@,
        Json::Arr(_) => "array"@,
        Json::Obj(_) => "object"@,
    }
}

/// The first binding with the given key, if any.
pub open spec fn lookup(entries: Seq<(String, Json)>, key: Seq<char>) -> Option<Json>
    decreases entries.len(),
{
    if entries.len() == 0 {
        None
    } else if entries[0].0@ == key {
        Some(entries[0].1)
    } else {
        lookup(entries.skip(1), key)
    }
}

/// The value of a named field of an object; `None` when the value is not an
/// object or has no such field.
pub open spec fn spec_get(j: Json, key: Seq<char>) -> Option<Json> {
    match j {
        Json::Obj(entries) => lookup(entries@, key),
        _ => None,
    }
}

/// One way a frame can fail to match the schema the decoder expects.
pub ghost enum Fail {
    /// A required field is absent.
    Missing(Seq<char>),
    /// A field is present with the wrong shape.
    Mismatch { expected: Seq<char>, found: Seq<char> },
    /// The frame's discriminant string matches no known event kind.
    UnknownType(Seq<char>),
    /// A nested entity's own discriminant matches no variant of its union.
    UnknownVariant(Seq<char>),
}

/// The outcome of reading part of a frame: a value, or the first schema
/// failure encountered.
pub ghost enum Outcome<T> {
    Good(T),
    Bad(Fail),
}

/// A required string field.
pub open spec fn str_req(j: Json, key: Seq<char>) -> Outcome<Seq<char>> {
    match spec_get(j, key) {
        None => Outcome::Bad(Fail::Missing(key)),
        Some(v) => match v {
            Json::Str(s) => Outcome::Good(s@),
            _ => Outcome::Bad(Fail::Mismatch { expected: "string"@, found: kind_name(v) }),
        },
    }
}

/// An optional string field: absent and `null` both mean "no value".
pub open spec fn str_opt(j: Json, key: Seq<char>) -> Outcome<Option<Seq<char>>> {
    match spec_get(j, key) {
        None => Outcome::Good(None),
        Some(v) => match v {
            Json::Null => Outcome::Good(None),
            Json::Str(s) => Outcome::Good(Some(s@)),
            _ => Outcome::Bad(Fail::Mismatch { expected: "string"@, found: kind_name(v) }),
        },
    }
}

/// A required boolean field.
pub open spec fn bool_req(j: Json, key: Seq<char>) -> Outcome<bool> {
    match spec_get(j, key) {
        None => Outcome::Bad(Fail::Missing(key)),
        Some(v) => match v {
            Json::Bool(b) => Outcome::Good(b),
            _ => Outcome::Bad(Fail::Mismatch { expected: "boolean"@, found: kind_name(v) }),
        },
    }
}

/// An optional boolean field: absent and `null` both mean "no value".
pub open spec fn bool_opt(j: Json, key: Seq<char>) -> Outcome<Option<bool>> {
    match spec_get(j, key) {
        None => Outcome::Good(None),
        Some(v) => match v {
            Json::Null => Outcome::Good(None),
            Json::Bool(b) => Outcome::Good(Some(b)),
            _ => Outcome::Bad(Fail::Mismatch { expected: "boolean"@, found: kind_name(v) }),
        },
    }
}

/// The mathematical value of a number, whichever wire representation it uses.
pub open spec fn int_of(v: Json) -> Option<int> {
    match v {
        Json::I64(n) => Some(n as int),
        Json::U64(n) => Some(n as int),
        _ => None,
    }
}

/// A required integer field that must fit in `isize`.
pub open spec fn isize_req(j: Json, key: Seq<char>) -> Outcome<int> {
    match spec_get(j, key) {
        None => Outcome::Bad(Fail::Missing(key)),
        Some(v) => match int_of(v) {
            None => Outcome::Bad(Fail::Mismatch { expected: "integer"@, found: kind_name(v) }),
            Some(n) => if isize::MIN <= n <= isize::MAX {
                Outcome::Good(n)
            } else {
                Outcome::Bad(
                    Fail::Mismatch { expected: "integer"@, found: "out-of-range integer"@ },
                )
            },
        },
    }
}

/// A required integer field that must fit in `i64`.
pub open spec fn i64_req(j: Json, key: Seq<char>) -> Outcome<int> {
    match spec_get(j, key) {
        None => Outcome::Bad(Fail::Missing(key)),
        Some(v) => match int_of(v) {
            None => Outcome::Bad(Fail::Mismatch { expected: "integer"@, found: kind_name(v) }),
            Some(n) => if i64::MIN <= n <= i64::MAX {
                Outcome::Good(n)
            } else {
                Outcome::Bad(
                    Fail::Mismatch { expected: "integer"@, found: "out-of-range integer"@ },
                )
            },
        },
    }
}

/// An optional integer field that must fit in `i64` when present.
pub open spec fn i64_opt(j: Json, key: Seq<char>) -> Outcome<Option<int>> {
    match spec_get(j, key) {
        None => Outcome::Good(None),
        Some(v) => match v {
            Json::Null => Outcome::Good(None),
            _ => match int_of(v) {
                None => Outcome::Bad(
                    Fail::Mismatch { expected: "integer"@, found: kind_name(v) },
                ),
                Some(n) => if i64::MIN <= n <= i64::MAX {
                    Outcome::Good(Some(n))
                } else {
                    Outcome::Bad(
                        Fail::Mismatch { expected: "integer"@, found: "out-of-range integer"@ },
                    )
                },
            },
        },
    }
}

/// A required field that must itself be an object.
pub open spec fn obj_req(j: Json, key: Seq<char>) -> Outcome<Json> {
    match spec_get(j, key) {
        None => Outcome::Bad(Fail::Missing(key)),
        Some(v) => if v matches Json::Obj(_) {
            Outcome::Good(v)
        } else {
            Outcome::Bad(Fail::Mismatch { expected: "object"@, found: kind_name(v) })
        },
    }
}

/// The character sequences of an array whose elements must all be strings.
pub open spec fn strs_of(elems: Seq<Json>) -> Outcome<Seq<Seq<char>>>
    decreases elems.len(),
{
    if elems.len() == 0 {
        Outcome::Good(Seq::empty())
    } else {
        match elems[0] {
            Json::Str(s) => match strs_of(elems.skip(1)) {
                Outcome::Good(t) => Outcome::Good(seq![s@] + t),
                Outcome::Bad(f) => Outcome::Bad(f),
            },
            v => Outcome::Bad(Fail::Mismatch { expected: "string"@, found: kind_name(v) }),
        }
    }
}

/// An optional field holding an array of strings.
pub open spec fn strs_opt(j: Json, key: Seq<char>) -> Outcome<Option<Seq<Seq<char>>>> {
    match spec_get(j, key) {
        None => Outcome::Good(None),
        Some(v) => match v {
            Json::Null => Outcome::Good(None),
            Json::Arr(elems) => match strs_of(elems@) {
                Outcome::Good(t) => Outcome::Good(Some(t)),
                Outcome::Bad(f) => Outcome::Bad(f),
            },
            _ => Outcome::Bad(Fail::Mismatch { expected: "array"@, found: kind_name(v) }),
        },
    }
}

/// A required field holding an array of strings.
pub open spec fn strs_req(j: Json, key: Seq<char>) -> Outcome<Seq<Seq<char>>> {
    match spec_get(j, key) {
        None => Outcome::Bad(Fail::Missing(key)),
        Some(v) => match v {
            Json::Arr(elems) => strs_of(elems@),
            _ => Outcome::Bad(Fail::Mismatch { expected: "array"@, found: kind_name(v) }),
        },
    }
}

/// String equality on the underlying character sequences.
pub fn str_eq(a: &str, b: &str) -> (r: bool)
    ensures
        r == (a@ == b@),
{
    let sa = a.to_owned();
    let sb = b.to_owned();
    sa == sb
}

/// Finds the first binding with the given key.
pub fn get_field<'a>(j: &'a Json, key: &str) -> (r: Option<&'a Json>)
    ensures
        match r {
            Some(v) => spec_get(*j, key@) == Some(*v),
            None => spec_get(*j, key@) is None,
        },
{
    match j {
        Json::Obj(entries) => {
            let n = entries.len();
            let mut i: usize = 0;
            proof {
                assert(entries@.skip(0) =~= entries@);
            }
            while i < n
                invariant
                    n == entries.len(),
                    i <= n,
                    *j == Json::Obj(*entries),
                    spec_get(*j, key@) == lookup(entries@.skip(i as int), key@),
                decreases n - i,
            {
                let pair = &entries[i];
                if str_eq(pair.0.as_str(), key) {
                    proof {
                        assert(entries@.skip(i as int)[0] == entries@[i as int]);
                        assert(lookup(entries@.skip(i as int), key@)
                            == Some(entries@[i as int].1));
                        assert(*pair == entries@[i as int]);
                    }
                    return Some(&pair.1);
                }
                proof {
                    assert(entries@.skip(i as int).skip(1) =~= entries@.skip(i as int + 1));
                    assert(entries@.skip(i as int)[0] == entries@[i as int]);
                }
                i += 1;
            }
            None
        },
        _ => None,
    }
}

/// The wire name of a value's shape.
pub fn kind_of(j: &Json) -> (r: &str)
    ensures
        r@ == kind_name(*j),
{
    match j {
        Json::Null => "null",
        Json::Bool(_) => "boolean",
        Json::I64(_) => "integer",
        Json::U64(_) => "integer",
        Json::Str(_) => "string",
        Json::Arr(_) => "array",
        Json::Obj(_) => "object",
    }
}

/// Reads a required string field.
pub fn read_str(j: &Json, key: &str) -> (r: Result<String, Error>)
    ensures
        match str_req(*j, key@) {
            Outcome::Good(s) => r matches Ok(v) && v@ == s,
            Outcome::Bad(f) => r matches Err(e) && fail_matches(f, e),
        },
{
    match get_field(j, key) {
        None => Err(missing_field(key)),
        Some(v) => match v {
            Json::Str(s) => Ok(s.clone()),
            _ => Err(shape_mismatch("string", kind_of(v))),
        },
    }
}

/// The character sequences of an optional string value.
pub open spec fn opt_str_view(o: Option<String>) -> Option<Seq<char>> {
    match o {
        Some(s) => Some(s@),
        None => None,
    }
}

/// Reads an optional string field; absent and `null` both give `None`.
pub fn read_str_opt(j: &Json, key: &str) -> (r: Result<Option<String>, Error>)
    ensures
        match str_opt(*j, key@) {
            Outcome::Good(s) => r matches Ok(v) && opt_str_view(v) == s,
            Outcome::Bad(f) => r matches Err(e) && fail_matches(f, e),
        },
{
    match get_field(j, key) {
        None => Ok(None),
        Some(v) => match v {
            Json::Null => Ok(None),
            Json::Str(s) => Ok(Some(s.clone())),
            _ => Err(shape_mismatch("string", kind_of(v))),
        },
    }
}

/// Reads a required boolean field.
pub fn read_bool(j: &Json, key: &str) -> (r: Result<bool, Error>)
    ensures
        match bool_req(*j, key@) {
            Outcome::Good(b) => r == Ok::<bool, Error>(b),
            Outcome::Bad(f) => r matches Err(e) && fail_matches(f, e),
        },
{
    match get_field(j, key) {
        None => Err(missing_field(key)),
        Some(v) => match v {
            Json::Bool(b) => Ok(*b),
            _ => Err(shape_mismatch("boolean", kind_of(v))),
        },
    }
}

/// Reads an optional boolean field; absent and `null` both give `None`.
pub fn read_bool_opt(j: &Json, key: &str) -> (r: Result<Option<bool>, Error>)
    ensures
        match bool_opt(*j, key@) {
            Outcome::Good(b) => r == Ok::<Option<bool>, Error>(b),
            Outcome::Bad(f) => r matches Err(e) && fail_matches(f, e),
        },
{
    match get_field(j, key) {
        None => Ok(None),
        Some(v) => match v {
            Json::Null => Ok(None),
            Json::Bool(b) => Ok(Some(*b)),
            _ => Err(shape_mismatch("boolean", kind_of(v))),
        },
    }
}

/// Reads a required integer field into `isize`.
pub fn read_isize(j: &Json, key: &str) -> (r: Result<isize, Error>)
    ensures
        match isize_req(*j, key@) {
            Outcome::Good(n) => r matches Ok(v) && v as int == n,
            Outcome::Bad(f) => r matches Err(e) && fail_matches(f, e),
        },
{
    match get_field(j, key) {
        None => Err(missing_field(key)),
        Some(v) => match v {
            Json::I64(n) => {
                let n = *n;
                if isize::MIN as i64 <= n && n <= isize::MAX as i64 {
                    Ok(n as isize)
                } else {
                    Err(shape_mismatch("integer", "out-of-range integer"))
                }
            },
            Json::U64(u) => {
                let u = *u;
                if u <= isize::MAX as u64 {
                    Ok(u as isize)
                } else {
                    Err(shape_mismatch("integer", "out-of-range integer"))
                }
            },
            _ => Err(shape_mismatch("integer", kind_of(v))),
        },
    }
}

/// Reads a required integer field into `i64`.
pub fn read_i64(j: &Json, key: &str) -> (r: Result<i64, Error>)
    ensures
        match i64_req(*j, key@) {
            Outcome::Good(n) => r matches Ok(v) && v as int == n,
            Outcome::Bad(f) => r matches Err(e) && fail_matches(f, e),
        },
{
    match get_field(j, key) {
        None => Err(missing_field(key)),
        Some(v) => match v {
            Json::I64(n) => Ok(*n),
            Json::U64(u) => {
                let u = *u;
                if u <= i64::MAX as u64 {
                    Ok(u as i64)
                } else {
                    Err(shape_mismatch("integer", "out-of-range integer"))
                }
            },
            _ => Err(shape_mismatch("integer", kind_of(v))),
        },
    }
}

/// The mathematical values of an optional integer.
pub open spec fn opt_i64_view(o: Option<i64>) -> Option<int> {
    match o {
        Some(n) => Some(n as int),
        None => None,
    }
}

/// Reads an optional integer field; absent and `null` both give `None`.
pub fn read_i64_opt(j: &Json, key: &str) -> (r: Result<Option<i64>, Error>)
    ensures
        match i64_opt(*j, key@) {
            Outcome::Good(n) => r matches Ok(v) && opt_i64_view(v) == n,
            Outcome::Bad(f) => r matches Err(e) && fail_matches(f, e),
        },
{
    match get_field(j, key) {
        None => Ok(None),
        Some(v) => match v {
            Json::Null => Ok(None),
            Json::I64(n) => Ok(Some(*n)),
            Json::U64(u) => {
                let u = *u;
                if u <= i64::MAX as u64 {
                    Ok(Some(u as i64))
                } else {
                    Err(shape_mismatch("integer", "out-of-range integer"))
                }
            },
            _ => Err(shape_mismatch("integer", kind_of(v))),
        },
    }
}

/// Reads a required field that must itself be an object.
pub fn read_obj<'a>(j: &'a Json, key: &str) -> (r: Result<&'a Json, Error>)
    ensures
        match obj_req(*j, key@) {
            Outcome::Good(v) => r matches Ok(x) && *x == v,
            Outcome::Bad(f) => r matches Err(e) && fail_matches(f, e),
        },
{
    match get_field(j, key) {
        None => Err(missing_field(key)),
        Some(v) => match v {
            Json::Obj(_) => Ok(v),
            _ => Err(shape_mismatch("object", kind_of(v))),
        },
    }
}

/// Decodes the elements of a string array, from position `i` on.
fn decode_strs(elems: &Vec<Json>, i: usize) -> (r: Result<Vec<String>, Error>)
    requires
        i <= elems.len(),
    ensures
        match strs_of(elems@.skip(i as int)) {
            Outcome::Good(t) => r matches Ok(v) && v.deep_view() == t,
            Outcome::Bad(f) => r matches Err(e) && fail_matches(f, e),
        },
    decreases elems.len() - i,
{
    if i == elems.len() {
        let out: Vec<String> = Vec::new();
        proof {
            assert(elems@.skip(i as int) =~= Seq::<Json>::empty());
            assert(out.deep_view() =~= Seq::<Seq<char>>::empty());
        }
        Ok(out)
    } else {
        let head = &elems[i];
        match head {
            Json::Str(s) => {
                proof {
                    assert(elems@.skip(i as int)[0] == elems@[i as int]);
                    assert(elems@.skip(i as int).skip(1) =~= elems@.skip(i as int + 1));
                }
                match decode_strs(elems, i + 1) {
                    Ok(mut tail) => {
                        let ghost tail0 = tail.deep_view();
                        let mut out: Vec<String> = Vec::new();
                        out.push(s.clone());
                        out.append(&mut tail);
                        proof {
                            assert(out.deep_view() =~= seq![s@] + tail0);
                        }
                        Ok(out)
                    },
                    Err(e) => Err(e),
                }
            },
            _ => {
                proof {
                    assert(elems@.skip(i as int)[0] == elems@[i as int]);
                }
                Err(shape_mismatch("string", kind_of(head)))
            },
        }
    }
}

/// Reads an optional field holding an array of strings.
pub fn read_strs_opt(j: &Json, key: &str) -> (r: Result<Option<Vec<String>>, Error>)
    ensures
        match strs_opt(*j, key@) {
            Outcome::Good(t) => r matches Ok(v) && v.deep_view() == t,
            Outcome::Bad(f) => r matches Err(e) && fail_matches(f, e),
        },
{
    match get_field(j, key) {
        None => Ok(None),
        Some(v) => match v {
            Json::Null => Ok(None),
            Json::Arr(elems) => {
                proof {
                    assert(elems@.skip(0) =~= elems@);
                }
                match decode_strs(elems, 0) {
                    Ok(out) => Ok(Some(out)),
                    Err(e) => Err(e),
                }
            },
            _ => Err(shape_mismatch("array", kind_of(v))),
        },
    }
}

/// Reads a required field holding an array of strings.
pub fn read_strs(j: &Json, key: &str) -> (r: Result<Vec<String>, Error>)
    ensures
        match strs_req(*j, key@) {
            Outcome::Good(t) => r matches Ok(v) && v.deep_view() == t,
            Outcome::Bad(f) => r matches Err(e) && fail_matches(f, e),
        },
{
    match get_field(j, key) {
        None => Err(missing_field(key)),
        Some(v) => match v {
            Json::Arr(elems) => {
                proof {
                    assert(elems@.skip(0) =~= elems@);
                }
                decode_strs(elems, 0)
            },
            _ => Err(shape_mismatch("array", kind_of(v))),
        },
    }
}

} // verus!
