//! Construction of the authorization URL, and the guarantee that parsing
//! its query recovers exactly what was put in.
use crate::codec::{
    avoids, build_query, first_value, pairs_view, parsed_query, query_of_pairs, query_of_url,
    lemma_query_of_pairs_avoids, lemma_query_of_url_build, lemma_query_round_trip, QUESTION,
};
use crate::AUTH_URL;
use vstd::prelude::*;
use vstd::string::{StrSliceExecFns, StringSliceAdditionalSpecFns};

verus! {

/// The query pairs of an authorization URL, in order: fixed response type,
/// client identity, redirect target, rendered scopes, CSRF token and PKCE
/// challenge with its fixed method.
pub open spec fn authorize_pairs(
    client_id: Seq<u8>,
    redirect_uri: Seq<u8>,
    scope: Seq<u8>,
    state: Seq<u8>,
    challenge: Seq<u8>,
) -> Seq<(Seq<u8>, Seq<u8>)> {
    seq![
        ("response_type".spec_bytes(), "code".spec_bytes()),
        ("client_id".spec_bytes(), client_id),
        ("redirect_uri".spec_bytes(), redirect_uri),
        ("scope".spec_bytes(), scope),
        ("state".spec_bytes(), state),
        ("code_challenge".spec_bytes(), challenge),
        ("code_challenge_method".spec_bytes(), "S256".spec_bytes()),
    ]
}

/// The whole authorization URL: the provider's authorization endpoint, `?`,
/// and the rendered query.
pub open spec fn authorize_url_bytes(
    client_id: Seq<u8>,
    redirect_uri: Seq<u8>,
    scope: Seq<u8>,
    state: Seq<u8>,
    challenge: Seq<u8>,
) -> Seq<u8> {
    AUTH_URL.spec_bytes() + seq![QUESTION] + query_of_pairs(
        authorize_pairs(client_id, redirect_uri, scope, state, challenge),
    )
}

/// Builds the authorization URL from the flow's raw ingredients; every value
/// is percent-encoded into the query.
pub fn build_authorize_url(
    client_id: &[u8],
    redirect_uri: &[u8],
    scope: &[u8],
    state: &[u8],
    challenge: &[u8],
) -> (r: Vec<u8>)
    ensures
        r@ == authorize_url_bytes(client_id@, redirect_uri@, scope@, state@, challenge@),
{
    let mut pairs: Vec<(Vec<u8>, Vec<u8>)> = Vec::new();
    pairs.push((("response_type").as_bytes_vec(), ("code").as_bytes_vec()));
    pairs.push((("client_id").as_bytes_vec(), vstd::slice::slice_to_vec(client_id)));
    pairs.push((("redirect_uri").as_bytes_vec(), vstd::slice::slice_to_vec(redirect_uri)));
    pairs.push((("scope").as_bytes_vec(), vstd::slice::slice_to_vec(scope)));
    pairs.push((("state").as_bytes_vec(), vstd::slice::slice_to_vec(state)));
    pairs.push((("code_challenge").as_bytes_vec(), vstd::slice::slice_to_vec(challenge)));
    pairs.push((("code_challenge_method").as_bytes_vec(), ("S256").as_bytes_vec()));
    proof {
        assert(pairs_view(pairs@) =~= authorize_pairs(
            client_id@,
            redirect_uri@,
            scope@,
            state@,
            challenge@,
        ));
    }
    let mut out = (AUTH_URL).as_bytes_vec();
    out.push(QUESTION);
    let mut q = build_query(&pairs);
    out.append(&mut q);
    proof {
        assert(out@ =~= authorize_url_bytes(
            client_id@,
            redirect_uri@,
            scope@,
            state@,
            challenge@,
        ));
    }
    out
}

/// The authorization endpoint holds no `?` of its own: the first `?` of the
/// built URL is the one that introduces the query.
proof fn lemma_auth_url_avoids_question()
    ensures
        avoids(AUTH_URL.spec_bytes(), QUESTION),
{
    reveal_strlit("https://www.pathofexile.com/oauth/authorize");
    broadcast use vstd::string::is_ascii_spec_bytes;

    assert(vstd::string::is_ascii(AUTH_URL));
    assert forall|i: int| 0 <= i < AUTH_URL.spec_bytes().len() implies AUTH_URL.spec_bytes()[i]
        != QUESTION by {
        assert(AUTH_URL.spec_bytes()[i] == AUTH_URL@[i] as u8);
    }
}

/// The query keys that the recovery of `state` and `code_challenge` walks
/// past are all distinct from those two.
proof fn lemma_authorize_keys_distinct()
    ensures
        "response_type".spec_bytes() != "state".spec_bytes(),
        "client_id".spec_bytes() != "state".spec_bytes(),
        "redirect_uri".spec_bytes() != "state".spec_bytes(),
        "scope".spec_bytes() != "state".spec_bytes(),
        "response_type".spec_bytes() != "code_challenge".spec_bytes(),
        "client_id".spec_bytes() != "code_challenge".spec_bytes(),
        "redirect_uri".spec_bytes() != "code_challenge".spec_bytes(),
        "scope".spec_bytes() != "code_challenge".spec_bytes(),
        "state".spec_bytes() != "code_challenge".spec_bytes(),
{
    reveal_strlit("response_type");
    reveal_strlit("client_id");
    reveal_strlit("redirect_uri");
    reveal_strlit("scope");
    reveal_strlit("state");
    reveal_strlit("code_challenge");
    broadcast use vstd::string::is_ascii_spec_bytes;

    assert(vstd::string::is_ascii("response_type"));
    assert(vstd::string::is_ascii("client_id"));
    assert(vstd::string::is_ascii("redirect_uri"));
    assert(vstd::string::is_ascii("scope"));
    assert(vstd::string::is_ascii("state"));
    assert(vstd::string::is_ascii("code_challenge"));
    assert("response_type".spec_bytes().len() == 13);
    assert("client_id".spec_bytes().len() == 9);
    assert("redirect_uri".spec_bytes().len() == 12);
    assert("scope".spec_bytes().len() == 5);
    assert("state".spec_bytes().len() == 5);
    assert("code_challenge".spec_bytes().len() == 14);
    assert("scope".spec_bytes()[2] == 'o' as u8);
    assert("state".spec_bytes()[2] == 'a' as u8);
}

/// Parsing the query of a freshly built authorization URL gives back every
/// pair that went in; in particular the `state` and `code_challenge` values
/// are recovered exactly, whatever bytes they hold.
pub proof fn lemma_authorize_url_round_trip(
    client_id: Seq<u8>,
    redirect_uri: Seq<u8>,
    scope: Seq<u8>,
    state: Seq<u8>,
    challenge: Seq<u8>,
)
    ensures
        ({
            let parsed = parsed_query(
                query_of_url(
                    authorize_url_bytes(client_id, redirect_uri, scope, state, challenge),
                ),
            );
            &&& parsed == authorize_pairs(client_id, redirect_uri, scope, state, challenge)
            &&& first_value(parsed, "state".spec_bytes()) == Some(state)
            &&& first_value(parsed, "code_challenge".spec_bytes()) == Some(challenge)
        }),
{
    let ps = authorize_pairs(client_id, redirect_uri, scope, state, challenge);
    let q = query_of_pairs(ps);
    lemma_auth_url_avoids_question();
    lemma_query_of_pairs_avoids(ps);
    lemma_query_of_url_build(AUTH_URL.spec_bytes(), q);
    lemma_query_round_trip(ps);
    lemma_authorize_keys_distinct();
    let p1 = ps.drop_first();
    let p2 = p1.drop_first();
    let p3 = p2.drop_first();
    let p4 = p3.drop_first();
    let p5 = p4.drop_first();
    assert(p1 =~= ps.subrange(1, 7));
    assert(p2 =~= ps.subrange(2, 7));
    assert(p3 =~= ps.subrange(3, 7));
    assert(p4 =~= ps.subrange(4, 7));
    assert(p5 =~= ps.subrange(5, 7));
    let ks = "state".spec_bytes();
    let kc = "code_challenge".spec_bytes();
    assert(first_value(ps, ks) == first_value(p1, ks));
    assert(first_value(p1, ks) == first_value(p2, ks));
    assert(first_value(p2, ks) == first_value(p3, ks));
    assert(first_value(p3, ks) == first_value(p4, ks));
    assert(p4[0] == (ks, state));
    assert(first_value(p4, ks) == Some(state));
    assert(first_value(ps, kc) == first_value(p1, kc));
    assert(first_value(p1, kc) == first_value(p2, kc));
    assert(first_value(p2, kc) == first_value(p3, kc));
    assert(first_value(p3, kc) == first_value(p4, kc));
    assert(first_value(p4, kc) == first_value(p5, kc));
    assert(p5[0] == (kc, challenge));
    assert(first_value(p5, kc) == Some(challenge));
}

} // verus!
