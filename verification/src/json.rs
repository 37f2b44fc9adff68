//! Reading a request body as JSON.

use vstd::prelude::*;

verus! {

/// The text of the member `key` of the JSON object that `document` spells:
/// `None` where `document` is no JSON document, where the document is no
/// object, where the object has no such member, and where the member is no
/// string.
pub uninterp spec fn json_text_member(document: Seq<char>, key: Seq<char>) -> Option<Seq<char>>;

/// Parses `document` with `serde_json::from_str` into a `serde_json::Value`,
/// looks `key` up with `Value::get` and takes the text of what it finds with
/// `Value::as_str`.
///
/// Nothing is proved of the parsing. The contract gives its result a name and
/// says no more than that the same document and key give the same result.
#[verifier::external_body]
pub(crate) fn text_member(document: &str, key: &str) -> (member: Option<String>)
    ensures
        match member {
            Some(text) => json_text_member(document@, key@) == Some(text@),
            None => json_text_member(document@, key@) is None,
        },
{
    let parsed: serde_json::Value = serde_json::from_str(document).ok()?;
    Some(parsed.get(key)?.as_str()?.to_owned())
}

} // verus!
