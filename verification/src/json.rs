//! JSON documents read from backend status commands and logs, through
//! `serde_json`. A parsed document is opaque here; what the library reads of
//! it is named by `json_contents`: the boolean and the string found at each
//! JSON pointer that resolves in it.

use vstd::prelude::*;

verus! {

#[verifier::external_type_specification]
#[verifier::external_body]
pub struct ExJsonValue(serde_json::Value);

/// What a JSON document holds, as far as this library reads it: for each JSON
/// pointer that `serde_json::Value::pointer` resolves in the document, what
/// `as_bool` and `as_str` give for the value found there. The empty pointer
/// resolves to the document itself.
pub uninterp spec fn json_contents(value: serde_json::Value) -> Map<
    Seq<char>,
    (Option<bool>, Option<Seq<char>>),
>;

/// The document that `serde_json::from_str` reads from `text`, taken by
/// `json_contents`; `None` where the text is not a JSON document.
pub uninterp spec fn json_text_contents(text: Seq<char>) -> Option<
    Map<Seq<char>, (Option<bool>, Option<Seq<char>>)>,
>;

/// The document that `serde_json::from_slice` reads from `bytes`, taken by
/// `json_contents`; `None` where the bytes are not a JSON document.
pub uninterp spec fn json_bytes_contents(bytes: Seq<u8>) -> Option<
    Map<Seq<char>, (Option<bool>, Option<Seq<char>>)>,
>;

/// The contents of a document that may be absent.
pub open spec fn doc_contents(doc: Option<serde_json::Value>) -> Option<
    Map<Seq<char>, (Option<bool>, Option<Seq<char>>)>,
> {
    match doc {
        Some(v) => Some(json_contents(v)),
        None => None,
    }
}

/// The boolean at a pointer of a document, if the pointer resolves to one.
pub open spec fn bool_at(m: Map<Seq<char>, (Option<bool>, Option<Seq<char>>)>, p: Seq<char>) -> Option<
    bool,
> {
    if m.dom().contains(p) {
        m[p].0
    } else {
        None
    }
}

/// The string at a pointer of a document, if the pointer resolves to one.
pub open spec fn str_at(m: Map<Seq<char>, (Option<bool>, Option<Seq<char>>)>, p: Seq<char>) -> Option<
    Seq<char>,
> {
    if m.dom().contains(p) {
        m[p].1
    } else {
        None
    }
}

/// An object key that `Value::get` looks up exactly as the one-token pointer
/// `/key` does: no `/` or `~` to escape, and not an array index.
pub open spec fn plain_member_key(key: Seq<char>) -> bool {
    &&& forall|i: int| 0 <= i < key.len() ==> #[trigger] key[i] != '/' && key[i] != '~'
    &&& exists|i: int| 0 <= i < key.len() && !('0' <= #[trigger] key[i] <= '9')
}

/// `serde_json::from_slice` into a `serde_json::Value`: the document that
/// `json_bytes_contents` names for these bytes, `None` where there is none.
#[verifier::external_body]
pub(crate) fn json_from_slice(bytes: &[u8]) -> (r: Option<serde_json::Value>)
    ensures
        r is Some <==> json_bytes_contents(bytes@) is Some,
        r matches Some(v) ==> json_bytes_contents(bytes@) == Some(json_contents(v)),
{
    serde_json::from_slice(bytes).ok()
}

/// `serde_json::from_str` into a `serde_json::Value`: the document that
/// `json_text_contents` names for this text, `None` where there is none.
#[verifier::external_body]
pub(crate) fn json_from_str(text: &str) -> (r: Option<serde_json::Value>)
    ensures
        r is Some <==> json_text_contents(text@) is Some,
        r matches Some(v) ==> json_text_contents(text@) == Some(json_contents(v)),
{
    serde_json::from_str(text).ok()
}

/// `serde_json::Value::get` with an object key. For a plain key this is the
/// value at the pointer `/key`; of other keys nothing is stated.
#[verifier::external_body]
pub(crate) fn json_get<'a>(value: &'a serde_json::Value, key: &str) -> (r: Option<
    &'a serde_json::Value,
>)
    ensures
        plain_member_key(key@) ==> (r is Some <==> json_contents(*value).dom().contains(
            seq!['/'] + key@,
        )),
        plain_member_key(key@) ==> (r matches Some(n) ==> json_contents(*n)[""@] == json_contents(
            *value,
        )[seq!['/'] + key@]),
{
    value.get(key)
}

/// `serde_json::Value::pointer` (RFC 6901): the value at `pointer`, present
/// exactly where the pointer resolves.
#[verifier::external_body]
pub(crate) fn json_pointer<'a>(value: &'a serde_json::Value, pointer: &str) -> (r: Option<
    &'a serde_json::Value,
>)
    ensures
        r is Some <==> json_contents(*value).dom().contains(pointer@),
        r matches Some(n) ==> json_contents(*n)[""@] == json_contents(*value)[pointer@],
{
    value.pointer(pointer)
}

/// `serde_json::Value::as_str`: the string the value is, if it is one.
#[verifier::external_body]
pub(crate) fn json_as_str(value: &serde_json::Value) -> (r: Option<&str>)
    ensures
        crate::gateway::ostr_ref(r) == json_contents(*value)[""@].1,
{
    value.as_str()
}

/// `serde_json::Value::as_bool`: the boolean the value is, if it is one.
#[verifier::external_body]
pub(crate) fn json_as_bool(value: &serde_json::Value) -> (r: Option<bool>)
    ensures
        r == json_contents(*value)[""@].0,
{
    value.as_bool()
}

} // verus!
