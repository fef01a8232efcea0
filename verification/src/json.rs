//! Trusted boundary to the JSON parser.
//!
//! Parsing and member lookup are delegated to `serde_json`. Both are
//! deterministic functions of the document text alone, so each lookup the
//! decoder needs carries a name (`json_push_ref`, `json_comment_body`, ...)
//! for what that text yields; the decoder's contract is stated over those
//! names. A parsed document keeps the text it was parsed from, so the names
//! can speak of the text while the calls walk the parsed tree.

use vstd::prelude::*;

verus! {

/// Declares `serde_json::Value`, a parsed JSON document, as an opaque type.
#[verifier::external_type_specification]
#[verifier::external_body]
pub struct ExValue(serde_json::Value);

/// Whether a text is a well-formed JSON document, as
/// `serde_json::from_str::<serde_json::Value>` decides it.
pub uninterp spec fn json_doc_ok(text: Seq<char>) -> bool;

/// The string member at `ref`, as a function of the document text.
pub uninterp spec fn json_push_ref(text: Seq<char>) -> Option<Seq<char>>;

/// The string member at `action`, as a function of the document text.
pub uninterp spec fn json_comment_action(text: Seq<char>) -> Option<Seq<char>>;

/// The string member at `comment.body`, as a function of the document text.
pub uninterp spec fn json_comment_body(text: Seq<char>) -> Option<Seq<char>>;

/// Whether the member `issue` is present, as a function of the document text.
pub uninterp spec fn json_issue_present(text: Seq<char>) -> bool;

/// Whether the member `issue.pull_request` is present, as a function of the
/// document text.
pub uninterp spec fn json_pull_request_present(text: Seq<char>) -> bool;

/// The string member at `issue.pull_request.url`, as a function of the
/// document text.
pub uninterp spec fn json_pull_request_url(text: Seq<char>) -> Option<Seq<char>>;

/// The string member at `repository.full_name`, as a function of the
/// document text.
pub uninterp spec fn json_repo_full_name(text: Seq<char>) -> Option<Seq<char>>;

/// A parsed JSON document, paired with the text it was parsed from.
pub struct ParsedDoc {
    text: String,
    value: serde_json::Value,
}

impl View for ParsedDoc {
    type V = Seq<char>;

    closed spec fn view(&self) -> Seq<char> {
        self.text@
    }
}

/// Relies on `serde_json::from_str::<serde_json::Value>`: parsing succeeds
/// exactly when the text is well-formed JSON, and depends on the text alone.
#[verifier::external_body]
pub(crate) fn parse_json(text: &str) -> (r: Option<ParsedDoc>)
    ensures
        r is Some <==> json_doc_ok(text@),
        r is Some ==> r->0@ == text@,
{
    match serde_json::from_str(text) {
        Ok(value) => Some(ParsedDoc { text: text.to_owned(), value }),
        Err(_) => None,
    }
}

/// Relies on `serde_json::Value::get` and `Value::as_str`: the `ref` member
/// is a function of the document text.
#[verifier::external_body]
pub(crate) fn member_push_ref(doc: &ParsedDoc) -> (r: Option<String>)
    ensures
        r.deep_view() == json_push_ref(doc@),
{
    doc.value.get("ref").and_then(|v| v.as_str()).map(|s| s.to_owned())
}

/// Relies on `serde_json::Value::get` and `Value::as_str`: the `action`
/// member is a function of the document text.
#[verifier::external_body]
pub(crate) fn member_comment_action(doc: &ParsedDoc) -> (r: Option<String>)
    ensures
        r.deep_view() == json_comment_action(doc@),
{
    doc.value.get("action").and_then(|v| v.as_str()).map(|s| s.to_owned())
}

/// Relies on `serde_json::Value::get` and `Value::as_str`: the
/// `comment.body` member is a function of the document text.
#[verifier::external_body]
pub(crate) fn member_comment_body(doc: &ParsedDoc) -> (r: Option<String>)
    ensures
        r.deep_view() == json_comment_body(doc@),
{
    doc.value.get("comment").and_then(|c| c.get("body")).and_then(|v| v.as_str()).map(
        |s| s.to_owned(),
    )
}

/// Relies on `serde_json::Value::get`: presence of the `issue` member is a
/// function of the document text.
#[verifier::external_body]
pub(crate) fn member_issue_present(doc: &ParsedDoc) -> (r: bool)
    ensures
        r == json_issue_present(doc@),
{
    doc.value.get("issue").is_some()
}

/// Relies on `serde_json::Value::get`: presence of the `issue.pull_request`
/// member is a function of the document text.
#[verifier::external_body]
pub(crate) fn member_pull_request_present(doc: &ParsedDoc) -> (r: bool)
    ensures
        r == json_pull_request_present(doc@),
{
    doc.value.get("issue").and_then(|i| i.get("pull_request")).is_some()
}

/// Relies on `serde_json::Value::get` and `Value::as_str`: the
/// `issue.pull_request.url` member is a function of the document text.
#[verifier::external_body]
pub(crate) fn member_pull_request_url(doc: &ParsedDoc) -> (r: Option<String>)
    ensures
        r.deep_view() == json_pull_request_url(doc@),
{
    doc.value.get("issue").and_then(|i| i.get("pull_request")).and_then(|p| p.get("url"))
        .and_then(|v| v.as_str()).map(|s| s.to_owned())
}

/// Relies on `serde_json::Value::get` and `Value::as_str`: the
/// `repository.full_name` member is a function of the document text.
#[verifier::external_body]
pub(crate) fn member_repo_full_name(doc: &ParsedDoc) -> (r: Option<String>)
    ensures
        r.deep_view() == json_repo_full_name(doc@),
{
    doc.value.get("repository").and_then(|r| r.get("full_name")).and_then(|v| v.as_str()).map(
        |s| s.to_owned(),
    )
}

} // verus!
