//! The library's own JSON value type and a path accessor over it.
//!
//! Every navigation step of the extractor goes through [`lookup`] (or the
//! typed accessors built on it), so every failure carries the human-readable
//! dotted path at which it happened.

use vstd::prelude::*;
use vstd::string::StringExecFns;
use crate::digits::{dec_str, u64_text};
use crate::errors::{ExtractError, ExtractErrorView};

verus! {

/// One JSON value.
///
/// Numbers appear in the source data only as video bitrates, which are read
/// as unsigned 64-bit integers; a number of any other shape is kept as
/// `OtherNumber`, since no extraction rule reads its value.  Object members
/// are kept as a list of key/value pairs; keys are unique in any document
/// produced by a JSON parser, and lookup takes the first match.
#[derive(Debug)]
pub enum JsonValue {
    Null,
    Bool(bool),
    UInt(u64),
    OtherNumber,
    Text(String),
    Array(Vec<JsonValue>),
    Object(Vec<(String, JsonValue)>),
}

/// One step of a path: an object key or an array index.
#[derive(Debug)]
pub enum PathSeg {
    Key(String),
    Index(usize),
}

/// The mathematical shape of a [`PathSeg`].
pub enum SegView {
    Key(Seq<char>),
    Index(int),
}

impl View for PathSeg {
    type V = SegView;

    open spec fn view(&self) -> SegView {
        match self {
            PathSeg::Key(k) => SegView::Key(k@),
            PathSeg::Index(i) => SegView::Index(*i as int),
        }
    }
}

/// The views of a path's segments.
pub open spec fn segs_view(segs: Seq<PathSeg>) -> Seq<SegView> {
    segs.map_values(|p: PathSeg| p@)
}

/// The name of a value's JSON kind, as it appears in `TypeMismatch` errors.
pub open spec fn kind_text(v: JsonValue) -> Seq<char> {
    match v {
        JsonValue::Null => "null"@,
        JsonValue::Bool(_) => "boolean"@,
        JsonValue::UInt(_) => "number"@,
        JsonValue::OtherNumber => "number"@,
        JsonValue::Text(_) => "string"@,
        JsonValue::Array(_) => "array"@,
        JsonValue::Object(_) => "object"@,
    }
}

/// The name of a value's JSON kind.
pub fn kind_text_of(v: &JsonValue) -> (r: String)
    ensures
        r@ == kind_text(*v),
{
    match v {
        JsonValue::Null => String::from_str("null"),
        JsonValue::Bool(_) => String::from_str("boolean"),
        JsonValue::UInt(_) => String::from_str("number"),
        JsonValue::OtherNumber => String::from_str("number"),
        JsonValue::Text(_) => String::from_str("string"),
        JsonValue::Array(_) => String::from_str("array"),
        JsonValue::Object(_) => String::from_str("object"),
    }
}

/// The dotted text of the first `n` segments of a path:
/// keys joined with `.`, indices written `[i]`.
pub open spec fn path_text_upto(segs: Seq<SegView>, n: nat) -> Seq<char>
    decreases n,
{
    if n == 0 {
        Seq::empty()
    } else {
        let prefix = path_text_upto(segs, (n - 1) as nat);
        match segs[n - 1] {
            SegView::Key(k) => if n == 1 {
                k
            } else {
                prefix + "."@ + k
            },
            SegView::Index(i) => prefix + "["@ + dec_str(i as nat) + "]"@,
        }
    }
}

/// The dotted text of a whole path, e.g. `instructions[0].entries`.
pub open spec fn path_text(segs: Seq<SegView>) -> Seq<char> {
    path_text_upto(segs, segs.len())
}

/// The dotted text of a path.
pub fn path_to_text(segs: &Vec<PathSeg>) -> (r: String)
    ensures
        r@ == path_text(segs_view(segs@)),
{
    let mut s = String::new();
    let mut j: usize = 0;
    while j < segs.len()
        invariant
            j <= segs.len(),
            s@ == path_text_upto(segs_view(segs@), j as nat),
        decreases segs.len() - j,
    {
        match &segs[j] {
            PathSeg::Key(k) => {
                if j > 0 {
                    s.append(".");
                }
                s.append(k.as_str());
            },
            PathSeg::Index(i) => {
                s.append("[");
                let t = u64_text(*i as u64);
                s.append(t.as_str());
                s.append("]");
            },
        }
        j = j + 1;
    }
    s
}

/// The value under `key` among an object's members: the first pair whose key
/// matches, if any.
pub open spec fn obj_get(fields: Seq<(String, JsonValue)>, key: Seq<char>) -> Option<JsonValue>
    decreases fields.len(),
{
    if fields.len() == 0 {
        None
    } else if fields[0].0@ == key {
        Some(fields[0].1)
    } else {
        obj_get(fields.drop_first(), key)
    }
}

fn obj_field<'a>(fields: &'a Vec<(String, JsonValue)>, key: &String) -> (r: Option<
    &'a JsonValue,
>)
    ensures
        match r {
            Some(c) => obj_get(fields@, key@) == Some(*c),
            None => obj_get(fields@, key@) is None,
        },
{
    let mut j: usize = 0;
    proof {
        assert(fields@.skip(0) =~= fields@);
    }
    while j < fields.len()
        invariant
            j <= fields.len(),
            obj_get(fields@, key@) == obj_get(fields@.skip(j as int), key@),
        decreases fields.len() - j,
    {
        proof {
            assert(fields@.skip(j as int)[0] == fields@[j as int]);
            assert(fields@.skip(j as int).drop_first() =~= fields@.skip(j as int + 1));
        }
        if fields[j].0 == *key {
            return Some(&fields[j].1);
        }
        j = j + 1;
    }
    proof {
        assert(fields@.skip(fields@.len() as int).len() == 0);
    }
    None
}

/// The result of walking `segs` into `v`, starting at segment `i`; `full` is
/// the whole requested path, used for the error text.  A missing key or an
/// out-of-range index fails with `MissingField`; a step into a value of the
/// wrong container kind fails with `TypeMismatch`.
pub open spec fn lookup_from(
    v: JsonValue,
    segs: Seq<SegView>,
    i: nat,
    full: Seq<SegView>,
) -> Result<JsonValue, ExtractErrorView>
    decreases segs.len() - i,
{
    if i >= segs.len() {
        Ok(v)
    } else {
        match segs[i as int] {
            SegView::Key(k) => match v {
                JsonValue::Object(fields) => match obj_get(fields@, k) {
                    Some(child) => lookup_from(child, segs, i + 1, full),
                    None => Err(ExtractErrorView::MissingField { path: path_text(full) }),
                },
                _ => Err(
                    ExtractErrorView::TypeMismatch {
                        path: path_text(full),
                        expected: "object"@,
                        actual: kind_text(v),
                    },
                ),
            },
            SegView::Index(ix) => match v {
                JsonValue::Array(items) => if 0 <= ix < items@.len() {
                    lookup_from(items@[ix], segs, i + 1, full)
                } else {
                    Err(ExtractErrorView::MissingField { path: path_text(full) })
                },
                _ => Err(
                    ExtractErrorView::TypeMismatch {
                        path: path_text(full),
                        expected: "array"@,
                        actual: kind_text(v),
                    },
                ),
            },
        }
    }
}

/// The value at `segs` in `v`, or the classified error.
pub open spec fn lookup_spec(v: JsonValue, segs: Seq<SegView>) -> Result<
    JsonValue,
    ExtractErrorView,
> {
    lookup_from(v, segs, 0, segs)
}

/// Walks a path into a value: the leaf value at the path, or the classified
/// error naming the path.
pub fn lookup<'a>(v: &'a JsonValue, segs: &Vec<PathSeg>) -> (r: Result<
    &'a JsonValue,
    ExtractError,
>)
    ensures
        match r {
            Ok(c) => lookup_spec(*v, segs_view(segs@)) == Ok::<JsonValue, ExtractErrorView>(*c),
            Err(e) => lookup_spec(*v, segs_view(segs@)) == Err::<JsonValue, ExtractErrorView>(e@),
        },
{
    let ghost sv = segs_view(segs@);
    let mut cur: &JsonValue = v;
    let mut i: usize = 0;
    while i < segs.len()
        invariant
            i <= segs.len(),
            sv == segs_view(segs@),
            sv.len() == segs@.len(),
            lookup_from(*v, sv, 0, sv) == lookup_from(*cur, sv, i as nat, sv),
        decreases segs.len() - i,
    {
        proof {
            assert(sv[i as int] == segs@[i as int]@);
        }
        match &segs[i] {
            PathSeg::Key(k) => {
                match cur {
                    JsonValue::Object(fields) => {
                        match obj_field(fields, k) {
                            Some(child) => {
                                cur = child;
                            },
                            None => {
                                return Err(
                                    ExtractError::MissingField { path: path_to_text(segs) },
                                );
                            },
                        }
                    },
                    _ => {
                        return Err(
                            ExtractError::TypeMismatch {
                                path: path_to_text(segs),
                                expected: String::from_str("object"),
                                actual: kind_text_of(cur),
                            },
                        );
                    },
                }
            },
            PathSeg::Index(ix) => {
                match cur {
                    JsonValue::Array(items) => {
                        if *ix < items.len() {
                            cur = &items[*ix];
                        } else {
                            return Err(ExtractError::MissingField { path: path_to_text(segs) });
                        }
                    },
                    _ => {
                        return Err(
                            ExtractError::TypeMismatch {
                                path: path_to_text(segs),
                                expected: String::from_str("array"),
                                actual: kind_text_of(cur),
                            },
                        );
                    },
                }
            },
        }
        i = i + 1;
    }
    Ok(cur)
}

/// The string at `segs` in `v`: its characters, or the classified error
/// (`TypeMismatch` with expected kind `string` when the path resolves to a
/// value of another kind).
pub open spec fn text_at(v: JsonValue, segs: Seq<SegView>) -> Result<Seq<char>, ExtractErrorView> {
    match lookup_spec(v, segs) {
        Ok(JsonValue::Text(s)) => Ok(s@),
        Ok(other) => Err(
            ExtractErrorView::TypeMismatch {
                path: path_text(segs),
                expected: "string"@,
                actual: kind_text(other),
            },
        ),
        Err(e) => Err(e),
    }
}

/// The string at `segs` in `v`, or the classified error.
pub fn get_text<'a>(v: &'a JsonValue, segs: &Vec<PathSeg>) -> (r: Result<&'a String, ExtractError>)
    ensures
        match r {
            Ok(s) => text_at(*v, segs_view(segs@)) == Ok::<Seq<char>, ExtractErrorView>(s@),
            Err(e) => text_at(*v, segs_view(segs@)) == Err::<Seq<char>, ExtractErrorView>(e@),
        },
{
    match lookup(v, segs) {
        Ok(c) => match c {
            JsonValue::Text(s) => Ok(s),
            _ => Err(
                ExtractError::TypeMismatch {
                    path: path_to_text(segs),
                    expected: String::from_str("string"),
                    actual: kind_text_of(c),
                },
            ),
        },
        Err(e) => Err(e),
    }
}

/// The array at `segs` in `v`, where the caller requires a structural node:
/// any failure — an absent segment, a wrong-kind step, or a non-array at the
/// end — is `MalformedResponse` naming the path.
pub open spec fn array_at(v: JsonValue, segs: Seq<SegView>) -> Result<
    Seq<JsonValue>,
    ExtractErrorView,
> {
    match lookup_spec(v, segs) {
        Ok(JsonValue::Array(items)) => Ok(items@),
        _ => Err(ExtractErrorView::MalformedResponse { path: path_text(segs) }),
    }
}

/// The array at `segs` in `v`, or `MalformedResponse`.
pub fn get_array<'a>(v: &'a JsonValue, segs: &Vec<PathSeg>) -> (r: Result<
    &'a Vec<JsonValue>,
    ExtractError,
>)
    ensures
        match r {
            Ok(items) => array_at(*v, segs_view(segs@)) == Ok::<Seq<JsonValue>, ExtractErrorView>(
                items@,
            ),
            Err(e) => array_at(*v, segs_view(segs@)) == Err::<Seq<JsonValue>, ExtractErrorView>(
                e@,
            ),
        },
{
    match lookup(v, segs) {
        Ok(c) => match c {
            JsonValue::Array(items) => Ok(items),
            _ => Err(ExtractError::MalformedResponse { path: path_to_text(segs) }),
        },
        Err(_) => Err(ExtractError::MalformedResponse { path: path_to_text(segs) }),
    }
}

/// The array at `segs` in `v` if the path resolves to one, and `None` on any
/// failure: used where an absent node is ordinary rather than an error.
pub open spec fn opt_array_at(v: JsonValue, segs: Seq<SegView>) -> Option<Seq<JsonValue>> {
    match lookup_spec(v, segs) {
        Ok(JsonValue::Array(items)) => Some(items@),
        _ => None,
    }
}

/// The array at `segs` in `v`, or `None` on any failure.
pub fn get_opt_array<'a>(v: &'a JsonValue, segs: &Vec<PathSeg>) -> (r: Option<&'a Vec<JsonValue>>)
    ensures
        match r {
            Some(items) => opt_array_at(*v, segs_view(segs@)) == Some(items@),
            None => opt_array_at(*v, segs_view(segs@)) is None,
        },
{
    match lookup(v, segs) {
        Ok(c) => match c {
            JsonValue::Array(items) => Some(items),
            _ => None,
        },
        Err(_) => None,
    }
}

/// The unsigned number at `segs` in `v`, and zero on any failure: used for
/// optional bitrates, which count as zero when absent or of another shape.
pub open spec fn uint_at_or_zero(v: JsonValue, segs: Seq<SegView>) -> u64 {
    match lookup_spec(v, segs) {
        Ok(JsonValue::UInt(b)) => b,
        _ => 0,
    }
}

/// The unsigned number at `segs` in `v`, or zero on any failure.
pub fn get_uint_or_zero(v: &JsonValue, segs: &Vec<PathSeg>) -> (r: u64)
    ensures
        r == uint_at_or_zero(*v, segs_view(segs@)),
{
    match lookup(v, segs) {
        Ok(c) => match c {
            JsonValue::UInt(b) => *b,
            _ => 0,
        },
        Err(_) => 0,
    }
}

/// A key segment.
pub fn key_seg(k: &str) -> (r: PathSeg)
    ensures
        r@ == SegView::Key(k@),
{
    PathSeg::Key(String::from_str(k))
}

/// An index segment.
pub fn index_seg(i: usize) -> (r: PathSeg)
    ensures
        r@ == SegView::Index(i as int),
{
    PathSeg::Index(i)
}

/// The tree that parsing a piece of JSON text yields, carried over into the
/// library's value type, or `None` where the text is not valid JSON.  The
/// parse is a function of the text alone.
pub uninterp spec fn parsed_document(text: Seq<char>) -> Option<JsonValue>;

#[verifier::external_type_specification]
#[verifier::external_body]
pub struct ExRawValue(serde_json::Value);

/// Converts serde_json's tree into the library's value type, one node at a
/// time: objects and arrays element-wise, numbers through `Number::as_u64`
/// (any number that is not an unsigned 64-bit integer becomes `OtherNumber`).
#[verifier::external_body]
fn from_raw(v: &serde_json::Value) -> JsonValue {
    match v {
        serde_json::Value::Null => JsonValue::Null,
        serde_json::Value::Bool(b) => JsonValue::Bool(*b),
        serde_json::Value::Number(n) => match n.as_u64() {
            Some(u) => JsonValue::UInt(u),
            None => JsonValue::OtherNumber,
        },
        serde_json::Value::String(s) => JsonValue::Text(s.clone()),
        serde_json::Value::Array(a) => JsonValue::Array(a.iter().map(from_raw).collect()),
        serde_json::Value::Object(o) => JsonValue::Object(
            o.iter().map(|(k, w)| (k.clone(), from_raw(w))).collect(),
        ),
    }
}

/// Relies on `serde_json::from_str::<serde_json::Value>`: the parsed tree
/// depends on the text alone; `parsed_document` names it, in the library's
/// value type.
#[verifier::external_body]
pub(crate) fn parse_document(text: &str) -> (r: Option<JsonValue>)
    ensures
        r == parsed_document(text@),
{
    match serde_json::from_str::<serde_json::Value>(text) {
        Ok(v) => Some(from_raw(&v)),
        Err(_) => None,
    }
}

} // verus!
