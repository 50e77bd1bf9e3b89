//! Trusted boundary to serde_json: reading single members out of manifest,
//! cache and pull-request documents. Each reader's result is a function of
//! the text alone, so it carries a name that the callers' contracts can be
//! exact about. The contracts here are believed, not proved; each doc
//! comment names the functions relied on.

use vstd::prelude::*;

verus! {

#[verifier::external_type_specification]
#[verifier::external_body]
pub struct ExJsonError(serde_json::Error);

/// Whether serde_json accepts `s` as a JSON document; acceptance depends
/// on the text alone.
pub uninterp spec fn json_ok(s: Seq<char>) -> bool;

/// The compact rendering of the top-level `version` member of the
/// document `s`, or `None` when the document has no such member; for a
/// well-formed `s` this is a function of the text alone.
pub uninterp spec fn json_version_of(s: Seq<char>) -> Option<Seq<char>>;

/// The top-level string member of the document `s` under `key`, or
/// `None` when there is no such member or it is not a string; for a
/// well-formed `s` this is a function of the text and the key alone.
pub uninterp spec fn json_string_field(s: Seq<char>, key: Seq<char>) -> Option<Seq<char>>;

/// The `pullRequestId` string under the `pullRequest` member of the
/// document `s`, or `None` when that path does not lead to a string; for
/// a well-formed `s` this is a function of the text alone.
pub uninterp spec fn json_pr_id_of(s: Seq<char>) -> Option<Seq<char>>;

/// Relies on serde_json::from_str at `Value` (`Ok` exactly on well-formed
/// JSON), `Value::get` (the member under the key, when the value is an
/// object that has it) and serde_json's `Display` for `Value` (the
/// compact rendering, so a string renders in quotes and `null` as
/// `null`). The composite result is [`json_version_of`].
#[verifier::external_body]
pub(crate) fn read_version_field(s: &str) -> (r: Result<Option<String>, serde_json::Error>)
    ensures
        r is Ok <==> json_ok(s@),
        r matches Ok(v) ==> match (v, json_version_of(s@)) {
            (Some(t), Some(u)) => t@ == u,
            (None, None) => true,
            _ => false,
        },
{
    match serde_json::from_str::<serde_json::Value>(s) {
        Err(e) => Err(e),
        Ok(doc) => match doc.get("version") {
            None => Ok(None),
            Some(value) => Ok(Some(value.to_string())),
        },
    }
}

/// Relies on serde_json::from_str at `Value`, `Value::get` and
/// `Value::as_str` (the characters of a JSON string value, `None` for
/// any other kind). The composite result is [`json_string_field`].
#[verifier::external_body]
pub(crate) fn read_string_field(s: &str, key: &str) -> (r: Result<
    Option<String>,
    serde_json::Error,
>)
    ensures
        r is Ok <==> json_ok(s@),
        r matches Ok(v) ==> match (v, json_string_field(s@, key@)) {
            (Some(t), Some(u)) => t@ == u,
            (None, None) => true,
            _ => false,
        },
{
    match serde_json::from_str::<serde_json::Value>(s) {
        Err(e) => Err(e),
        Ok(doc) => match doc.get(key) {
            None => Ok(None),
            Some(value) => match value.as_str() {
                None => Ok(None),
                Some(text) => Ok(Some(text.to_owned())),
            },
        },
    }
}

/// Relies on serde_json::from_str at `Value`, `Value::get` twice (the
/// `pullRequest` member, then its `pullRequestId` member) and
/// `Value::as_str`. The composite result is [`json_pr_id_of`].
#[verifier::external_body]
pub(crate) fn read_pr_id_field(s: &str) -> (r: Result<Option<String>, serde_json::Error>)
    ensures
        r is Ok <==> json_ok(s@),
        r matches Ok(v) ==> match (v, json_pr_id_of(s@)) {
            (Some(t), Some(u)) => t@ == u,
            (None, None) => true,
            _ => false,
        },
{
    match serde_json::from_str::<serde_json::Value>(s) {
        Err(e) => Err(e),
        Ok(doc) => match doc.get("pullRequest") {
            None => Ok(None),
            Some(pr) => match pr.get("pullRequestId") {
                None => Ok(None),
                Some(value) => match value.as_str() {
                    None => Ok(None),
                    Some(text) => Ok(Some(text.to_owned())),
                },
            },
        },
    }
}

} // verus!
