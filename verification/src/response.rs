//! What an API response means: success passes through, an error status
//! becomes the provider's own structured error when the body carries one.
use crate::{Error, PoEApiError};
use vstd::prelude::*;

verus! {

/// A user identity record, as the profile endpoint reports it.
#[derive(Debug, Clone)]
pub struct Profile {
    pub uuid: String,
    pub name: String,
    pub realm: Option<String>,
    pub locale: Option<String>,
    pub guild: Option<ProfileGuildOrTwitch>,
    pub twitch: Option<ProfileGuildOrTwitch>,
}

/// A guild or twitch affiliation: just its name.
#[derive(Debug, Clone)]
pub struct ProfileGuildOrTwitch {
    pub name: String,
}

/// What decoding the provider's JSON error body yields, a function of the
/// bytes alone: the `error` and `error_description` strings when the body
/// is such an object, else a description of why the decode failed.
pub uninterp spec fn provider_error_of(body: Seq<u8>) -> Result<(Seq<char>, Seq<char>), Seq<char>>;

/// Relies on `serde_json::from_slice` and the `Value` accessors: reads the
/// `error` and `error_description` strings out of a JSON error body, or
/// says why it cannot — the JSON parser's own message, or which field is
/// missing; either way a function of the bytes alone.
#[verifier::external_body]
fn parse_provider_error(body: &[u8]) -> (r: Result<PoEApiError, String>)
    ensures
        match r {
            Ok(p) => provider_error_of(body@) == Ok::<(Seq<char>, Seq<char>), Seq<char>>(
                (p.error@, p.error_description@),
            ),
            Err(m) => provider_error_of(body@) == Err::<(Seq<char>, Seq<char>), Seq<char>>(m@),
        },
{
    let value: serde_json::Value = match serde_json::from_slice(body) {
        Ok(v) => v,
        Err(e) => return Err(e.to_string()),
    };
    let error = match value.get("error").and_then(serde_json::Value::as_str) {
        Some(s) => s.to_owned(),
        None => return Err("missing string field `error`".to_owned()),
    };
    let error_description = match value.get("error_description").and_then(serde_json::Value::as_str)
    {
        Some(s) => s.to_owned(),
        None => return Err("missing string field `error_description`".to_owned()),
    };
    Ok(PoEApiError { error, error_description })
}

/// True of the statuses that signal failure: client and server errors.
pub open spec fn is_error_status(status: u16) -> bool {
    400 <= status < 600
}

/// Decides what a response means. A success status passes; an error status
/// whose body is the provider's structured error becomes exactly that
/// error; an error status without one is a transport-level failure that
/// carries the decode failure's own description.
pub fn check_response(status: u16, body: &[u8]) -> (r: Result<(), Error>)
    ensures
        r is Ok <==> !is_error_status(status),
        is_error_status(status) ==> match provider_error_of(body@) {
            Ok(p) => r matches Err(e) && e matches Error::PoEApiError {
                error,
                error_description,
            } && error@ == p.0 && error_description@ == p.1,
            Err(m) => r matches Err(e) && e matches Error::ReqwestError(t) && t@ == m,
        },
{
    if status >= 400 && status < 600 {
        match parse_provider_error(body) {
            Ok(PoEApiError { error, error_description }) => Err(
                Error::PoEApiError { error, error_description },
            ),
            Err(m) => Err(Error::ReqwestError(m)),
        }
    } else {
        Ok(())
    }
}

} // verus!
