//! The response decoder: parses the service's response text into a typed
//! record. The JSON reading itself is done by `serde_json` behind two trusted
//! wrappers; everything around them — which fields are required, the
//! all-or-nothing policy, the shape of the decoded record — is verified.

use vstd::prelude::*;
use crate::error::PipelineError;
use crate::model::{ComicResponse, ComicResponseView};

verus! {

/// The string value under `key` in the top-level JSON object of `body`, if
/// `body` is a JSON document whose top level is an object, `key` is present,
/// and the value under it is a string; nothing otherwise. Parsing is a pure
/// function of the two texts, so the result has a name.
pub uninterp spec fn json_str_field(body: Seq<char>, key: Seq<char>) -> Option<Seq<char>>;

/// The unsigned integer value under `key` in the top-level JSON object of
/// `body`, under the same conditions, if that value is an integral JSON
/// number that fits in sixty-four unsigned bits; nothing otherwise.
pub uninterp spec fn json_u64_field(body: Seq<char>, key: Seq<char>) -> Option<u64>;

/// Relies on `serde_json::from_str::<serde_json::Value>`,
/// `serde_json::Value::get` and `serde_json::Value::as_str`: parsing a text
/// is deterministic, `get` on the parsed top-level object returns the value
/// under the key (and nothing when the top level is no object or the key is
/// absent), and `as_str` returns the value exactly when it is a string. The
/// result is therefore a function of `body` and `key` alone.
#[verifier::external_body]
fn get_str_field(body: &str, key: &str) -> (r: Option<String>)
    ensures
        match r {
            Some(s) => json_str_field(body@, key@) == Some(s@),
            None => json_str_field(body@, key@) is None,
        },
{
    match serde_json::from_str::<serde_json::Value>(body) {
        Ok(v) => match v.get(key) {
            Some(f) => f.as_str().map(str::to_owned),
            None => None,
        },
        Err(_) => None,
    }
}

/// Relies on `serde_json::from_str::<serde_json::Value>`,
/// `serde_json::Value::get` and `serde_json::Value::as_u64`: as above, with
/// `as_u64` returning the value exactly when it is an integral number
/// representable as a `u64`.
#[verifier::external_body]
fn get_u64_field(body: &str, key: &str) -> (r: Option<u64>)
    ensures
        match r {
            Some(n) => json_u64_field(body@, key@) == Some(n),
            None => json_u64_field(body@, key@) is None,
        },
{
    match serde_json::from_str::<serde_json::Value>(body) {
        Ok(v) => match v.get(key) {
            Some(f) => f.as_u64(),
            None => None,
        },
        Err(_) => None,
    }
}

/// A response body is well formed when its top level is a JSON object that
/// carries every required field with the required shape: the ten text fields
/// as strings, and `num` as a positive integer that fits the machine's word.
pub open spec fn body_wellformed(body: Seq<char>) -> bool {
    &&& json_str_field(body, "month"@) is Some
    &&& json_str_field(body, "link"@) is Some
    &&& json_str_field(body, "year"@) is Some
    &&& json_str_field(body, "news"@) is Some
    &&& json_str_field(body, "safe_title"@) is Some
    &&& json_str_field(body, "transcript"@) is Some
    &&& json_str_field(body, "alt"@) is Some
    &&& json_str_field(body, "img"@) is Some
    &&& json_str_field(body, "title"@) is Some
    &&& json_str_field(body, "day"@) is Some
    &&& json_u64_field(body, "num"@) matches Some(n) && 1 <= n <= usize::MAX as u64
}

/// The record that a well-formed body decodes to.
pub open spec fn spec_decoded(body: Seq<char>) -> ComicResponseView
    recommends
        body_wellformed(body),
{
    ComicResponseView {
        month: json_str_field(body, "month"@)->Some_0,
        num: json_u64_field(body, "num"@)->Some_0 as int,
        link: json_str_field(body, "link"@)->Some_0,
        year: json_str_field(body, "year"@)->Some_0,
        news: json_str_field(body, "news"@)->Some_0,
        safe_title: json_str_field(body, "safe_title"@)->Some_0,
        transcript: json_str_field(body, "transcript"@)->Some_0,
        alt: json_str_field(body, "alt"@)->Some_0,
        img: json_str_field(body, "img"@)->Some_0,
        title: json_str_field(body, "title"@)->Some_0,
        day: json_str_field(body, "day"@)->Some_0,
    }
}

impl ComicResponse {
    /// Decodes a response body into a record. All-or-nothing: it returns a
    /// record exactly when the body is well formed, the record is then the
    /// decoded one and its identifier is positive; on every other body it
    /// returns the decode error and nothing is produced.
    pub fn decode(body: &str) -> (r: Result<ComicResponse, PipelineError>)
        ensures
            r is Ok <==> body_wellformed(body@),
            r matches Ok(c) ==> c@ == spec_decoded(body@) && c.wf(),
            r matches Err(e) ==> e == PipelineError::Decode,
    {
        let month = match get_str_field(body, "month") {
            Some(s) => s,
            None => { return Err(PipelineError::Decode) },
        };
        let link = match get_str_field(body, "link") {
            Some(s) => s,
            None => { return Err(PipelineError::Decode) },
        };
        let year = match get_str_field(body, "year") {
            Some(s) => s,
            None => { return Err(PipelineError::Decode) },
        };
        let news = match get_str_field(body, "news") {
            Some(s) => s,
            None => { return Err(PipelineError::Decode) },
        };
        let safe_title = match get_str_field(body, "safe_title") {
            Some(s) => s,
            None => { return Err(PipelineError::Decode) },
        };
        let transcript = match get_str_field(body, "transcript") {
            Some(s) => s,
            None => { return Err(PipelineError::Decode) },
        };
        let alt = match get_str_field(body, "alt") {
            Some(s) => s,
            None => { return Err(PipelineError::Decode) },
        };
        let img = match get_str_field(body, "img") {
            Some(s) => s,
            None => { return Err(PipelineError::Decode) },
        };
        let title = match get_str_field(body, "title") {
            Some(s) => s,
            None => { return Err(PipelineError::Decode) },
        };
        let day = match get_str_field(body, "day") {
            Some(s) => s,
            None => { return Err(PipelineError::Decode) },
        };
        let num64 = match get_u64_field(body, "num") {
            Some(n) => n,
            None => { return Err(PipelineError::Decode) },
        };
        if num64 < 1 || num64 > usize::MAX as u64 {
            return Err(PipelineError::Decode);
        }
        let num = num64 as usize;
        Ok(ComicResponse { month, num, link, year, news, safe_title, transcript, alt, img, title, day })
    }
}

/// Law: decoding is all-or-nothing. A body whose object lacks any one of the
/// required fields — the description field `alt` among them — is not well
/// formed, and `decode` returns an error on every body that is not well
/// formed; a partially populated record is never produced.
pub proof fn lemma_decode_all_or_nothing(body: Seq<char>)
    ensures
        json_str_field(body, "alt"@) is None ==> !body_wellformed(body),
        json_str_field(body, "title"@) is None ==> !body_wellformed(body),
        json_str_field(body, "day"@) is None ==> !body_wellformed(body),
        json_str_field(body, "month"@) is None ==> !body_wellformed(body),
        json_str_field(body, "year"@) is None ==> !body_wellformed(body),
        json_str_field(body, "img"@) is None ==> !body_wellformed(body),
        json_str_field(body, "link"@) is None ==> !body_wellformed(body),
        json_str_field(body, "news"@) is None ==> !body_wellformed(body),
        json_str_field(body, "safe_title"@) is None ==> !body_wellformed(body),
        json_str_field(body, "transcript"@) is None ==> !body_wellformed(body),
        json_u64_field(body, "num"@) is None ==> !body_wellformed(body),
{
}

} // verus!
