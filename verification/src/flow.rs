//! The start of one authorization flow: fresh secrets and the URL that
//! embeds them.
use crate::authurl::{authorize_url_bytes, build_authorize_url};
use crate::config::PoEApiConfig;
use crate::scope::{render_scopes, scopes_wire, PoEApiScope};
use vstd::prelude::*;
use vstd::string::StrSliceExecFns;
use vstd::utf8::encode_utf8;

verus! {

/// Everything one flow attempt starts from: the URL to put in front of the
/// user, the CSRF token the callback must echo as `state`, and the PKCE
/// pair whose challenge the URL embeds and whose verifier the token
/// exchange consumes.
pub struct AuthorizationRequest {
    pub url: Vec<u8>,
    pub state: String,
    pub challenge: String,
    pub verifier: String,
}

/// Relies on `oauth2::CsrfToken::new_random`: a fresh random token each
/// call; nothing can be promised of its value.
#[verifier::external_body]
fn new_csrf_token() -> (r: String) {
    oauth2::CsrfToken::new_random().secret().to_owned()
}

/// What `oauth2::PkceCodeChallenge::from_code_verifier_sha256` derives from
/// a verifier: its SHA-256 digest, base64url-encoded — a function of the
/// verifier alone.
pub uninterp spec fn s256_challenge_of(verifier: Seq<char>) -> Seq<char>;

/// Relies on `oauth2::PkceCodeChallenge::new_random_sha256`: a fresh random
/// verifier each call — nothing can be promised of its value — paired with
/// the challenge derived from it, `s256_challenge_of` the verifier.
#[verifier::external_body]
fn new_pkce_pair() -> (r: (String, String))
    ensures
        r.0@ == s256_challenge_of(r.1@),
{
    let (challenge, verifier) = oauth2::PkceCodeChallenge::new_random_sha256();
    (challenge.as_str().to_owned(), verifier.secret().to_owned())
}

/// Starts one flow: draws a fresh CSRF token and PKCE pair, renders the
/// scopes, and builds the authorization URL that embeds them all; the URL
/// is exactly the rendering of what the result carries.
pub fn begin_authorization(config: &PoEApiConfig, scopes: &Vec<PoEApiScope>) -> (r:
    AuthorizationRequest)
    ensures
        r.url@ == authorize_url_bytes(
            encode_utf8(config.client_id@),
            encode_utf8(config.redirect_url@),
            scopes_wire(scopes@),
            encode_utf8(r.state@),
            encode_utf8(r.challenge@),
        ),
        r.challenge@ == s256_challenge_of(r.verifier@),
{
    let state = new_csrf_token();
    let (challenge, verifier) = new_pkce_pair();
    let scope = render_scopes(scopes);
    let url = build_authorize_url(
        config.client_id.as_str().as_bytes_vec().as_slice(),
        config.redirect_url.as_str().as_bytes_vec().as_slice(),
        scope.as_slice(),
        state.as_str().as_bytes_vec().as_slice(),
        challenge.as_str().as_bytes_vec().as_slice(),
    );
    AuthorizationRequest { url, state, challenge, verifier }
}

} // verus!
