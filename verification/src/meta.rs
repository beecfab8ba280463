//! Release metadata: the JSON body of the metadata endpoint decoded into
//! the four fields the updater consumes.  The JSON text is parsed by
//! serde_json; which fields the document must hold, and the rejection of a
//! body missing one, is this crate's own verified logic.

use vstd::prelude::*;
use vstd::string::*;

use crate::errors::UpdateError;

verus! {

/// The string-valued top-level fields of a parsed JSON document: the map
/// from each key of the top-level object whose value is a JSON string to
/// that string's text.  A document whose top level is not an object has no
/// such fields, so its map is empty.
pub uninterp spec fn json_str_fields(v: serde_json::Value) -> Map<Seq<char>, Seq<char>>;

/// What serde_json's `from_str` yields on a given text: `None` when the
/// text is not valid JSON, else the string-valued top-level fields of the
/// parsed document.  Parsing depends on the text alone.
pub uninterp spec fn json_doc(s: Seq<char>) -> Option<Map<Seq<char>, Seq<char>>>;

#[verifier::external_type_specification]
#[verifier::external_body]
pub struct ExValue(serde_json::Value);

/// Relies on serde_json::from_str::<Value>: parses the text as JSON,
/// deterministically, succeeding exactly on valid JSON documents.
#[verifier::external_body]
fn parse_json(s: &str) -> (r: Option<serde_json::Value>)
    ensures
        r is Some <==> json_doc(s@) is Some,
        r matches Some(v) ==> json_doc(s@) == Some(json_str_fields(v)),
{
    match serde_json::from_str::<serde_json::Value>(s) {
        Ok(v) => Some(v),
        Err(_) => None,
    }
}

/// Relies on serde_json's Value::get (top-level lookup by key) and
/// Value::as_str (the text of a JSON string, nothing for any other value).
#[verifier::external_body]
fn get_str_field(v: &serde_json::Value, key: &str) -> (r: Option<String>)
    ensures
        r is Some <==> json_str_fields(*v).dom().contains(key@),
        r matches Some(s) ==> s@ == json_str_fields(*v)[key@],
{
    match v.get(key) {
        Some(x) => match x.as_str() {
            Some(s) => Some(s.to_owned()),
            None => None,
        },
        None => None,
    }
}

/// One release's metadata: the four fields consumed from the metadata
/// endpoint.  Immutable once fetched; `reh_url` is carried but unused
/// downstream.
#[derive(Debug)]
pub struct Resp {
    pub version: String,
    pub download_url: String,
    pub commit_sha: String,
    pub reh_url: String,
}

/// Whether a metadata document holds all four required fields as strings.
pub open spec fn has_metadata_fields(m: Map<Seq<char>, Seq<char>>) -> bool {
    &&& m.dom().contains("version"@)
    &&& m.dom().contains("downloadUrl"@)
    &&& m.dom().contains("commitSha"@)
    &&& m.dom().contains("rehUrl"@)
}

/// Whether `r` carries exactly the four fields of the document `m`.
pub open spec fn resp_matches(r: Resp, m: Map<Seq<char>, Seq<char>>) -> bool {
    &&& r.version@ == m["version"@]
    &&& r.download_url@ == m["downloadUrl"@]
    &&& r.commit_sha@ == m["commitSha"@]
    &&& r.reh_url@ == m["rehUrl"@]
}

/// Decode a metadata body: the text must be valid JSON whose top level
/// holds the four documented fields as strings; any body that is not is
/// rejected with a DecodeError.  Unrecognized additional fields are
/// ignored.
pub fn parse_metadata(body: &str) -> (r: Result<Resp, UpdateError>)
    ensures
        match json_doc(body@) {
            Option::None => r matches Err(e) && e is DecodeError,
            Option::Some(m) => {
                if has_metadata_fields(m) {
                    r matches Ok(resp) && resp_matches(resp, m)
                } else {
                    r matches Err(e) && e is DecodeError
                }
            },
        },
{
    let parsed = parse_json(body);
    match parsed {
        Option::Some(v) => {
            let version = get_str_field(&v, "version");
            let download_url = get_str_field(&v, "downloadUrl");
            let commit_sha = get_str_field(&v, "commitSha");
            let reh_url = get_str_field(&v, "rehUrl");
            match (version, download_url, commit_sha, reh_url) {
                (
                    Option::Some(version),
                    Option::Some(download_url),
                    Option::Some(commit_sha),
                    Option::Some(reh_url),
                ) => Ok(Resp { version, download_url, commit_sha, reh_url }),
                _ => Err(
                    UpdateError::DecodeError {
                        message: "metadata response is missing a required field".to_owned(),
                    },
                ),
            }
        },
        Option::None => Err(
            UpdateError::DecodeError { message: "metadata response is not valid JSON".to_owned() },
        ),
    }
}

} // verus!
