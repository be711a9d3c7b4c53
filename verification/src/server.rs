//! The local listener that captures the provider's redirect: one bounded
//! poll at a time, so a caller's loop stays responsive to cancellation.
use crate::codec::{avoids, bytes_eq, first_value, parse_query, parsed_query, lookup_first,
    query_of_pairs, query_of_url, url_query, lemma_query_of_pairs_avoids, lemma_query_of_url_build,
    lemma_query_round_trip, QUESTION};
use crate::config::PoEApiConfig;
use crate::Error;
use std::sync::atomic::{AtomicBool, Ordering};
use vstd::prelude::*;
use vstd::string::{StrSliceExecFns, StringExecFns, StringSliceAdditionalSpecFns};
use vstd::utf8::encode_utf8;

verus! {

#[verifier::external_type_specification]
#[verifier::external_body]
pub struct ExServer(tiny_http::Server);

#[verifier::external_type_specification]
#[verifier::external_body]
pub struct ExRequest(tiny_http::Request);

/// How long one poll blocks before cancellation is checked again.
pub const POLL_INTERVAL_MS: u64 = 100;

/// Relies on `tiny_http::Server::http`: binds an HTTP listener at the given
/// address, or says why it cannot.
#[verifier::external_body]
fn bind_listener(addr: &str) -> (r: Result<tiny_http::Server, String>) {
    match tiny_http::Server::http(addr) {
        Ok(server) => Ok(server),
        Err(e) => Err(e.to_string()),
    }
}

/// Relies on `tiny_http::Server::recv_timeout`: waits at most the given time
/// for one incoming request; what arrives depends on the network alone.
#[verifier::external_body]
fn recv_request(server: &tiny_http::Server, timeout_ms: u64) -> (r: Result<
    Option<tiny_http::Request>,
    String,
>) {
    match server.recv_timeout(std::time::Duration::from_millis(timeout_ms)) {
        Ok(request) => Ok(request),
        Err(e) => Err(e.to_string()),
    }
}

/// Relies on `tiny_http::Request::url`: the path and query the client asked
/// for, as it came off the wire.
#[verifier::external_body]
fn request_target(request: &tiny_http::Request) -> (r: String) {
    request.url().to_string()
}

/// Relies on `tiny_http::Request::respond` and `tiny_http::Response::from_data`:
/// answers the client with the given status code and body.
#[verifier::external_body]
fn respond_with(request: tiny_http::Request, status: u16, body: &[u8]) -> (r: Result<(), String>) {
    let response = tiny_http::Response::from_data(body.to_vec()).with_status_code(status);
    match request.respond(response) {
        Ok(()) => Ok(()),
        Err(e) => Err(e.to_string()),
    }
}

/// What `String::from_utf8_lossy` makes of a byte sequence.
pub uninterp spec fn lossy_utf8_of(bytes: Seq<u8>) -> Seq<char>;

/// Relies on `String::from_utf8_lossy`: a function of the bytes alone, and
/// the identity on valid UTF-8.
#[verifier::external_body]
fn bytes_to_string_lossy(bytes: &[u8]) -> (r: String)
    ensures
        r@ == lossy_utf8_of(bytes@),
        vstd::utf8::valid_utf8(bytes@) ==> vstd::utf8::encode_utf8(r@) == bytes@,
{
    String::from_utf8_lossy(bytes).into_owned()
}

/// The authorization code a callback URL carries: the value of its first
/// `code` pair, provided the value of its first `state` pair equals the
/// expected token exactly; anything else carries none.
pub open spec fn callback_code(url: Seq<u8>, expected_state: Seq<u8>) -> Option<Seq<u8>> {
    let pairs = parsed_query(query_of_url(url));
    match (first_value(pairs, "state".spec_bytes()), first_value(pairs, "code".spec_bytes())) {
        (Some(st), Some(code)) => if st == expected_state {
            Some(code)
        } else {
            None
        },
        _ => None,
    }
}

/// The query keys of a callback, `state` and `code`, are distinct.
proof fn lemma_callback_keys_distinct()
    ensures
        "state".spec_bytes() != "code".spec_bytes(),
{
    reveal_strlit("state");
    reveal_strlit("code");
    broadcast use vstd::string::is_ascii_spec_bytes;

    assert(vstd::string::is_ascii("state"));
    assert(vstd::string::is_ascii("code"));
    assert("state".spec_bytes().len() == 5);
    assert("code".spec_bytes().len() == 4);
}

/// A correctly-stated callback is accepted: a request for the redirect
/// target followed by a query carrying the expected `state` and a `code`
/// yields exactly that code, whatever bytes the two values hold.
pub proof fn lemma_correct_callback_accepted(base: Seq<u8>, state: Seq<u8>, code: Seq<u8>)
    requires
        avoids(base, QUESTION),
    ensures
        ({
            let pairs = seq![("state".spec_bytes(), state), ("code".spec_bytes(), code)];
            callback_code(base + seq![QUESTION] + query_of_pairs(pairs), state) == Some(code)
        }),
{
    let pairs = seq![("state".spec_bytes(), state), ("code".spec_bytes(), code)];
    lemma_query_of_pairs_avoids(pairs);
    lemma_query_of_url_build(base, query_of_pairs(pairs));
    lemma_query_round_trip(pairs);
    lemma_callback_keys_distinct();
    assert(pairs.drop_first() =~= seq![("code".spec_bytes(), code)]);
    assert(first_value(pairs, "state".spec_bytes()) == Some(state));
    assert(first_value(pairs, "code".spec_bytes()) == first_value(
        pairs.drop_first(),
        "code".spec_bytes(),
    ));
    assert(first_value(pairs, "code".spec_bytes()) == Some(code));
}

/// A mismatched callback is rejected: when the `state` a request carries
/// differs from the expected token at all, no code is read out of it.
pub proof fn lemma_mismatched_callback_rejected(
    base: Seq<u8>,
    state: Seq<u8>,
    code: Seq<u8>,
    expected: Seq<u8>,
)
    requires
        avoids(base, QUESTION),
        state != expected,
    ensures
        ({
            let pairs = seq![("state".spec_bytes(), state), ("code".spec_bytes(), code)];
            callback_code(base + seq![QUESTION] + query_of_pairs(pairs), expected) is None
        }),
{
    let pairs = seq![("state".spec_bytes(), state), ("code".spec_bytes(), code)];
    lemma_query_of_pairs_avoids(pairs);
    lemma_query_of_url_build(base, query_of_pairs(pairs));
    lemma_query_round_trip(pairs);
    assert(first_value(pairs, "state".spec_bytes()) == Some(state));
}

/// A callback whose `state` matches but which carries no `code` is still
/// rejected: matching alone hands nothing out.
pub proof fn lemma_codeless_callback_rejected(base: Seq<u8>, state: Seq<u8>)
    requires
        avoids(base, QUESTION),
    ensures
        ({
            let pairs = seq![("state".spec_bytes(), state)];
            callback_code(base + seq![QUESTION] + query_of_pairs(pairs), state) is None
        }),
{
    let pairs = seq![("state".spec_bytes(), state)];
    lemma_query_of_pairs_avoids(pairs);
    lemma_query_of_url_build(base, query_of_pairs(pairs));
    lemma_query_round_trip(pairs);
    lemma_callback_keys_distinct();
    assert(pairs.drop_first() =~= Seq::<(Seq<u8>, Seq<u8>)>::empty());
    assert(first_value(pairs, "code".spec_bytes()) == first_value(
        pairs.drop_first(),
        "code".spec_bytes(),
    ));
    assert(first_value(pairs, "code".spec_bytes()) is None);
}

/// Reads the authorization code out of a callback URL, accepting exactly
/// the requests whose first `state` equals the expected token and which
/// carry a `code`.
pub fn extract_callback_code(url: &[u8], expected_state: &[u8]) -> (r: Option<Vec<u8>>)
    ensures
        match r {
            Some(code) => callback_code(url@, expected_state@) == Some(code@),
            None => callback_code(url@, expected_state@) is None,
        },
{
    let query = url_query(url);
    let pairs = parse_query(query.as_slice());
    let state = lookup_first(&pairs, ("state").as_bytes_vec().as_slice());
    let code = lookup_first(&pairs, ("code").as_bytes_vec().as_slice());
    match (state, code) {
        (Some(st), Some(code)) => {
            if bytes_eq(st.as_slice(), expected_state) {
                Some(code)
            } else {
                None
            }
        },
        _ => None,
    }
}

/// What one bounded poll of the listener ends in.
pub enum CallbackPoll {
    /// Nothing arrived, or what arrived was rejected with `422 Invalid
    /// Query`; poll again.
    Pending,
    /// A request carried the expected state and a code: the code, with the
    /// success page already served.
    Accepted(String),
    /// The cancellation flag was observed while nothing was arriving.
    Cancelled,
    /// The listener itself failed; fatal to the flow.
    Failed(String),
}

/// Owns the bound local listener and the flow's cancellation flag.
pub struct AuthorizationServer {
    server: tiny_http::Server,
    close_handle: AtomicBool,
}

impl AuthorizationServer {
    /// Binds the local listener at the given address; failure to bind is
    /// fatal and surfaced immediately.
    pub fn new(addr: &str) -> (r: Result<Self, Error>)
        ensures
            r matches Err(e) ==> e is IoError,
    {
        match bind_listener(addr) {
            Ok(server) => Ok(AuthorizationServer { server, close_handle: AtomicBool::new(false) }),
            Err(m) => Err(Error::IoError(m)),
        }
    }

    /// Sets the cancellation flag: a poll loop observes it within one poll
    /// interval and gives up with `FlowCancelled`.
    pub fn close(&self) {
        self.close_handle.store(true, Ordering::SeqCst);
    }

    /// One bounded step of waiting for the redirect: blocks at most one
    /// poll interval. A request whose query carries the expected `state`
    /// and a `code` is answered with the configured success page and ends
    /// the wait; any other request is answered `422 Invalid Query` and the
    /// wait goes on; with no request, the cancellation flag decides whether
    /// to give up or poll again. The accepted code is exactly what
    /// `callback_code` reads out of the URL reconstructed from the
    /// configured redirect target and some received request's path.
    pub fn poll_authorization_code(&self, config: &PoEApiConfig, state: &str) -> (r: CallbackPoll)
        ensures
            r matches CallbackPoll::Accepted(code) ==> exists|target: Seq<char>, c: Seq<u8>|
                callback_code(encode_utf8(config.redirect_url@ + target), state.spec_bytes())
                    == Some(c) && code@ == lossy_utf8_of(c),
    {
        let expected = state.as_bytes_vec();
        match recv_request(&self.server, POLL_INTERVAL_MS) {
            Err(m) => CallbackPoll::Failed(m),
            Ok(None) => {
                if self.close_handle.load(Ordering::SeqCst) {
                    CallbackPoll::Cancelled
                } else {
                    CallbackPoll::Pending
                }
            },
            Ok(Some(request)) => {
                let target = request_target(&request);
                let mut full = config.redirect_url.clone();
                full.append(target.as_str());
                let full_bytes = full.as_str().as_bytes_vec();
                match extract_callback_code(full_bytes.as_slice(), expected.as_slice()) {
                    Some(code) => {
                        match respond_with(request, 200, config.close_html.as_str().as_bytes()) {
                            Ok(()) => {
                                let code_string = bytes_to_string_lossy(code.as_slice());
                                proof {
                                    assert(callback_code(
                                        encode_utf8(config.redirect_url@ + target@),
                                        state.spec_bytes(),
                                    ) == Some(code@));
                                }
                                CallbackPoll::Accepted(code_string)
                            },
                            Err(m) => CallbackPoll::Failed(m),
                        }
                    },
                    None => {
                        match respond_with(request, 422, ("Invalid Query").as_bytes()) {
                            Ok(()) => CallbackPoll::Pending,
                            Err(m) => CallbackPoll::Failed(m),
                        }
                    },
                }
            },
        }
    }

    /// Turns the end of a finished wait into the flow's outcome: an accepted
    /// code is returned, cancellation and listener failure become their
    /// errors; a pending poll has no outcome yet.
    pub fn poll_outcome(poll: CallbackPoll) -> (r: Option<Result<String, Error>>)
        ensures
            match poll {
                CallbackPoll::Pending => r is None,
                CallbackPoll::Accepted(code) => r == Some(Ok::<String, Error>(code)),
                CallbackPoll::Cancelled => r == Some(Err::<String, Error>(Error::FlowCancelled)),
                CallbackPoll::Failed(m) => r == Some(Err::<String, Error>(Error::IoError(m))),
            },
    {
        match poll {
            CallbackPoll::Pending => None,
            CallbackPoll::Accepted(code) => Some(Ok(code)),
            CallbackPoll::Cancelled => Some(Err(Error::FlowCancelled)),
            CallbackPoll::Failed(m) => Some(Err(Error::IoError(m))),
        }
    }
}

} // verus!
