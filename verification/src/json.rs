//! The one JSON inspection the challenge handler needs, behind a trusted
//! wrapper. What the lookup finds is named: [`auth_key_of`] stands for the
//! `authenticationKey` entry of a parsed challenge body, and every contract
//! that mentions the body's key speaks through that name.

use vstd::prelude::*;

verus! {

/// Whether a character sequence is a valid JSON document. Left without a
/// definition: only the trusted wrapper below speaks for it.
pub uninterp spec fn json_parses(s: Seq<char>) -> bool;

/// What a challenge body holds under `authenticationKey`: `None` when the
/// body is not a JSON object, or the key's value is neither a string nor
/// null; `Some(None)` when the object lacks the key or holds null there;
/// `Some(Some(k))` when it holds the string `k`. A function of the body's
/// characters alone. Left without a definition: only the trusted wrapper
/// below speaks for it.
pub uninterp spec fn auth_key_of(body: Seq<char>) -> Option<Option<Seq<char>>>;

/// Relies on `serde_json`: `from_str::<Value>` (`Ok` exactly on valid JSON
/// text), `Value::is_object`, `Value::get`, `Value::is_null` and
/// `Value::as_str`, each determined by the document alone, to look up the
/// challenge body's `authenticationKey` string.
#[verifier::external_body]
pub(crate) fn challenge_auth_key(body: &str) -> (r: Option<Option<String>>)
    ensures
        match r {
            None => auth_key_of(body@) is None,
            Some(None) => auth_key_of(body@) == Some(Option::<Seq<char>>::None),
            Some(Some(k)) => auth_key_of(body@) == Some(Some(k@)),
        },
        !json_parses(body@) ==> r is None,
{
    let v = match serde_json::from_str::<serde_json::Value>(body) {
        Ok(v) => v,
        Err(_) => return None,
    };
    if !v.is_object() {
        return None;
    }
    match v.get("authenticationKey") {
        None => Some(None),
        Some(k) if k.is_null() => Some(None),
        Some(k) => k.as_str().map(|s| Some(s.to_string())),
    }
}

} // verus!
