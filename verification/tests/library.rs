use poe_api::authurl::build_authorize_url;
use poe_api::codec::{
    build_query, bytes_eq, lookup_first, parse_query, percent_decode, percent_encode, url_query,
};
use poe_api::config::{api_url, PoEApiConfigBuilder};
use poe_api::flow::begin_authorization;
use poe_api::response::check_response;
use poe_api::scope::{render_scopes, PoEApiAccountScope, PoEApiScope};
use poe_api::server::{extract_callback_code, AuthorizationServer, CallbackPoll};
use poe_api::{Error, CLOSE_HTML};

fn full_config() -> poe_api::config::PoEApiConfig {
    PoEApiConfigBuilder::default()
        .client_id("c1".to_string())
        .version("0.1".to_string())
        .contact_email("dev@example.com".to_string())
        .redirect_url("http://127.0.0.1:8099")
        .unwrap()
        .redirect_addr("127.0.0.1:8099")
        .unwrap()
        .build()
        .unwrap()
}

#[test]
fn scope_names_are_canonical() {
    assert_eq!(PoEApiAccountScope::Profile.name(), "account:profile");
    assert_eq!(PoEApiAccountScope::Leagues.name(), "account:leagues");
    assert_eq!(PoEApiAccountScope::Stashes.name(), "account:stashes");
    assert_eq!(PoEApiAccountScope::Characters.name(), "account:characters");
    assert_eq!(PoEApiAccountScope::LeagueAccounts.name(), "account:league_accounts");
    assert_eq!(PoEApiAccountScope::ItemFilter.name(), "account:item_filter");
}

#[test]
fn scope_to_string_matches_name() {
    assert_eq!(PoEApiAccountScope::Profile.to_string(), "account:profile");
    let s = PoEApiScope::Account(PoEApiAccountScope::ItemFilter);
    assert_eq!(s.to_string(), "account:item_filter");
    assert_eq!(s.name(), "account:item_filter");
}

#[test]
fn scope_from_str_accepts_short_names() {
    assert!(matches!(
        PoEApiAccountScope::from_str("profile"),
        Ok(PoEApiAccountScope::Profile)
    ));
    assert!(matches!(
        PoEApiAccountScope::from_str("league_accounts"),
        Ok(PoEApiAccountScope::LeagueAccounts)
    ));
    assert!(matches!(
        PoEApiAccountScope::from_str("account::stashes"),
        Ok(PoEApiAccountScope::Stashes)
    ));
    assert!(matches!(
        PoEApiAccountScope::from_str("account::account::leagues"),
        Ok(PoEApiAccountScope::Leagues)
    ));
}

#[test]
fn scope_from_str_rejects_everything_else() {
    match PoEApiAccountScope::from_str("account:profile") {
        Err(Error::Custom(m)) => assert_eq!(m, "Failed to parse account scope"),
        _ => panic!("expected a parse failure"),
    }
    assert!(PoEApiAccountScope::from_str("everything").is_err());
    assert!(PoEApiScope::from_str("everything").is_err());
    assert!(matches!(
        PoEApiScope::from_str("characters"),
        Ok(PoEApiScope::Account(PoEApiAccountScope::Characters))
    ));
}

#[test]
fn scope_from_conversion() {
    let s = PoEApiScope::from(PoEApiAccountScope::Profile);
    assert!(matches!(s, PoEApiScope::Account(PoEApiAccountScope::Profile)));
}

#[test]
fn rendered_scopes_are_space_joined() {
    let scopes = vec![
        PoEApiScope::Account(PoEApiAccountScope::Profile),
        PoEApiScope::Account(PoEApiAccountScope::Leagues),
    ];
    assert_eq!(render_scopes(&scopes), b"account:profile account:leagues".to_vec());
}

#[test]
fn rendered_scopes_keep_duplicates_and_order() {
    let scopes = vec![
        PoEApiScope::Account(PoEApiAccountScope::Stashes),
        PoEApiScope::Account(PoEApiAccountScope::Stashes),
    ];
    assert_eq!(render_scopes(&scopes), b"account:stashes account:stashes".to_vec());
    let none: Vec<PoEApiScope> = Vec::new();
    assert_eq!(render_scopes(&none), Vec::<u8>::new());
}

#[test]
fn percent_encoding_is_exact() {
    assert_eq!(percent_encode(b"a b"), b"a%20b".to_vec());
    assert_eq!(percent_encode(b"AZaz09-._~"), b"AZaz09-._~".to_vec());
    assert_eq!(percent_encode(b"+"), b"%2B".to_vec());
    assert_eq!(percent_encode(b"/?#&="), b"%2F%3F%23%26%3D".to_vec());
}

#[test]
fn percent_decoding_is_lenient() {
    assert_eq!(percent_decode(b"a%20b"), b"a b".to_vec());
    assert_eq!(percent_decode(b"a+b"), b"a b".to_vec());
    assert_eq!(percent_decode(b"%G1"), b"%G1".to_vec());
    assert_eq!(percent_decode(b"%4"), b"%4".to_vec());
    assert_eq!(percent_decode(b"%2b"), b"+".to_vec());
}

#[test]
fn percent_round_trip_survives_every_byte() {
    let mut all: Vec<u8> = Vec::new();
    let mut b: u16 = 0;
    while b < 256 {
        all.push(b as u8);
        b += 1;
    }
    let encoded = percent_encode(&all);
    assert_eq!(percent_decode(&encoded), all);
}

#[test]
fn query_parsing_is_ordered_and_decoded() {
    let pairs = parse_query(b"state=S&code=ABC");
    assert_eq!(pairs.len(), 2);
    assert_eq!(pairs[0], (b"state".to_vec(), b"S".to_vec()));
    assert_eq!(pairs[1], (b"code".to_vec(), b"ABC".to_vec()));
    let pairs = parse_query(b"a=1&&b=2");
    assert_eq!(pairs.len(), 2);
    let pairs = parse_query(b"flag&x=%41+%42");
    assert_eq!(pairs[0], (b"flag".to_vec(), b"".to_vec()));
    assert_eq!(pairs[1], (b"x".to_vec(), b"A B".to_vec()));
}

#[test]
fn first_matching_key_wins() {
    let pairs = parse_query(b"a=1&a=2&b=3");
    assert_eq!(lookup_first(&pairs, b"a"), Some(b"1".to_vec()));
    assert_eq!(lookup_first(&pairs, b"b"), Some(b"3".to_vec()));
    assert_eq!(lookup_first(&pairs, b"c"), None);
}

#[test]
fn query_build_then_parse_round_trips() {
    let pairs = vec![
        (b"plain".to_vec(), b"value".to_vec()),
        (b"odd key&".to_vec(), b"odd=value#?".to_vec()),
        (b"empty".to_vec(), b"".to_vec()),
    ];
    let wire = build_query(&pairs);
    assert_eq!(parse_query(&wire), pairs);
}

#[test]
fn authorization_url_recovers_state_and_challenge() {
    let url = build_authorize_url(
        b"c1",
        b"http://127.0.0.1:8099/",
        b"account:profile account:stashes",
        b"STATE123",
        b"CHAL-456_",
    );
    let query = url_query(&url);
    let pairs = parse_query(&query);
    assert_eq!(lookup_first(&pairs, b"state"), Some(b"STATE123".to_vec()));
    assert_eq!(lookup_first(&pairs, b"code_challenge"), Some(b"CHAL-456_".to_vec()));
    assert_eq!(lookup_first(&pairs, b"response_type"), Some(b"code".to_vec()));
    assert_eq!(lookup_first(&pairs, b"code_challenge_method"), Some(b"S256".to_vec()));
    assert_eq!(lookup_first(&pairs, b"redirect_uri"), Some(b"http://127.0.0.1:8099/".to_vec()));
    assert_eq!(
        lookup_first(&pairs, b"scope"),
        Some(b"account:profile account:stashes".to_vec())
    );
    assert!(url.starts_with(b"https://www.pathofexile.com/oauth/authorize?"));
}

#[test]
fn begun_flow_embeds_its_fresh_secrets() {
    let config = full_config();
    let scopes = vec![PoEApiScope::Account(PoEApiAccountScope::Profile)];
    let request = begin_authorization(&config, &scopes);
    let query = url_query(&request.url);
    let pairs = parse_query(&query);
    assert_eq!(lookup_first(&pairs, b"state"), Some(request.state.as_bytes().to_vec()));
    assert_eq!(
        lookup_first(&pairs, b"code_challenge"),
        Some(request.challenge.as_bytes().to_vec())
    );
    assert_eq!(lookup_first(&pairs, b"client_id"), Some(b"c1".to_vec()));
    assert!(!request.state.is_empty());
    assert!(!request.verifier.is_empty());
    let again = begin_authorization(&config, &scopes);
    assert_ne!(again.state, request.state);
    assert_ne!(again.challenge, request.challenge);
}

#[test]
fn callback_with_matching_state_yields_its_code() {
    let url = b"http://127.0.0.1:8099/?state=S&code=ABC";
    assert_eq!(extract_callback_code(url, b"S"), Some(b"ABC".to_vec()));
}

#[test]
fn callback_with_wrong_state_yields_nothing() {
    let url = b"http://127.0.0.1:8099/?state=WRONG&code=ABC";
    assert_eq!(extract_callback_code(url, b"S"), None);
    let retry = b"http://127.0.0.1:8099/?state=S&code=ABC";
    assert_eq!(extract_callback_code(retry, b"S"), Some(b"ABC".to_vec()));
}

#[test]
fn callback_without_code_or_state_yields_nothing() {
    assert_eq!(extract_callback_code(b"http://127.0.0.1:8099/?state=S", b"S"), None);
    assert_eq!(extract_callback_code(b"http://127.0.0.1:8099/?code=ABC", b"S"), None);
    assert_eq!(extract_callback_code(b"http://127.0.0.1:8099/", b"S"), None);
}

#[test]
fn callback_query_is_percent_decoded() {
    let url = b"http://127.0.0.1:8099/?state=%53&code=A%42C";
    assert_eq!(extract_callback_code(url, b"S"), Some(b"ABC".to_vec()));
}

#[test]
fn callback_comparison_is_exact() {
    assert_eq!(extract_callback_code(b"http://h/?state=s&code=C", b"S"), None);
    assert_eq!(extract_callback_code(b"http://h/?state=SS&code=C", b"S"), None);
    assert!(bytes_eq(b"S", b"S"));
    assert!(!bytes_eq(b"S", b"s"));
}

#[test]
fn builder_reports_the_missing_field() {
    match PoEApiConfigBuilder::default().build() {
        Err(Error::UninitializedField(f)) => assert_eq!(f, "client_id"),
        _ => panic!("expected a missing-field failure"),
    }
    match PoEApiConfigBuilder::default().client_id("c1".to_string()).build() {
        Err(Error::UninitializedField(f)) => assert_eq!(f, "version"),
        _ => panic!("expected a missing-field failure"),
    }
}

#[test]
fn builder_normalizes_the_redirect_url() {
    let config = PoEApiConfigBuilder::default()
        .client_id("c1".to_string())
        .version("1".to_string())
        .contact_email("a@b.c".to_string())
        .redirect_url("http://localhost:8088")
        .unwrap()
        .redirect_addr("127.0.0.1:8088")
        .unwrap()
        .build()
        .unwrap();
    assert_eq!(config.redirect_url, "http://localhost:8088/");
    assert_eq!(config.redirect_addr, "127.0.0.1:8088");
}

#[test]
fn builder_rejects_an_invalid_redirect_url() {
    match PoEApiConfigBuilder::default().redirect_url("not a url") {
        Err(Error::UrlParseError(m)) => assert_eq!(m, "relative URL without a base"),
        _ => panic!("expected a URL parse failure"),
    }
}

#[test]
fn builder_defaults_the_success_page() {
    let config = full_config();
    assert_eq!(config.close_html, CLOSE_HTML);
    let custom = PoEApiConfigBuilder::default()
        .client_id("c1".to_string())
        .version("1".to_string())
        .contact_email("a@b.c".to_string())
        .redirect_url("http://localhost:1/")
        .unwrap()
        .redirect_addr("localhost:1")
        .unwrap()
        .close_html("<p>done</p>".to_string())
        .build()
        .unwrap();
    assert_eq!(custom.close_html, "<p>done</p>");
}

#[test]
fn user_agent_has_the_documented_shape() {
    let config = full_config();
    assert_eq!(config.user_agent(), "OAuth c1/0.1 (contact: dev@example.com)");
}

#[test]
fn api_url_joins_base_and_endpoint() {
    assert_eq!(api_url("/profile").unwrap(), "https://api.pathofexile.com/profile");
    assert_eq!(api_url("/x y").unwrap(), "https://api.pathofexile.com/x%20y");
}

#[test]
fn provider_error_body_becomes_a_provider_error() {
    let body = br#"{"error":"invalid_token","error_description":"expired"}"#;
    match check_response(401, body) {
        Err(Error::PoEApiError { error, error_description }) => {
            assert_eq!(error, "invalid_token");
            assert_eq!(error_description, "expired");
        }
        _ => panic!("expected the provider's own error"),
    }
}

#[test]
fn success_statuses_pass_and_garbage_bodies_fail_as_transport() {
    assert!(check_response(200, b"").is_ok());
    assert!(check_response(399, b"ignored").is_ok());
    assert!(check_response(599, b"x").is_err());
}

#[test]
fn undecodable_error_bodies_carry_the_decode_cause() {
    match check_response(500, b"not json") {
        Err(Error::ReqwestError(m)) => assert!(m.contains("expected")),
        _ => panic!("expected a transport error with the JSON parser's message"),
    }
    match check_response(400, b"{}") {
        Err(Error::ReqwestError(m)) => assert_eq!(m, "missing string field `error`"),
        _ => panic!("expected a transport error naming the missing field"),
    }
    match check_response(400, br#"{"error":"x"}"#) {
        Err(Error::ReqwestError(m)) => assert_eq!(m, "missing string field `error_description`"),
        _ => panic!("expected a transport error naming the missing field"),
    }
}

#[test]
fn error_messages_read_as_documented() {
    let e = Error::PoEApiError {
        error: "invalid_token".to_string(),
        error_description: "expired".to_string(),
    };
    assert_eq!(e.message(), "invalid_token: expired");
    assert_eq!(
        Error::FailedToGetAuthorizationCode.message(),
        "Failed to get authorization code"
    );
    assert_eq!(Error::Custom("boom".to_string()).message(), "boom");
    assert_eq!(
        Error::UrlParseError("relative URL without a base".to_string()).message(),
        "relative URL without a base"
    );
}

#[test]
fn begun_flow_challenge_is_derived_from_its_verifier() {
    let config = full_config();
    let scopes = vec![PoEApiScope::Account(PoEApiAccountScope::Profile)];
    let request = begin_authorization(&config, &scopes);
    let rederived = oauth2::PkceCodeChallenge::from_code_verifier_sha256(
        &oauth2::PkceCodeVerifier::new(request.verifier.clone()),
    );
    assert_eq!(rederived.as_str(), request.challenge);
}

#[test]
fn listener_cancellation_ends_the_wait_within_one_interval() {
    let config = full_config();
    let server = AuthorizationServer::new("127.0.0.1:0").unwrap();
    server.close();
    let started = std::time::Instant::now();
    let poll = server.poll_authorization_code(&config, "S");
    assert!(matches!(poll, CallbackPoll::Cancelled));
    assert!(started.elapsed() < std::time::Duration::from_secs(2));
    assert!(matches!(
        AuthorizationServer::poll_outcome(poll),
        Some(Err(Error::FlowCancelled))
    ));
}

#[test]
fn listener_without_requests_or_cancellation_stays_pending() {
    let config = full_config();
    let server = AuthorizationServer::new("127.0.0.1:0").unwrap();
    let poll = server.poll_authorization_code(&config, "S");
    assert!(matches!(poll, CallbackPoll::Pending));
    assert!(matches!(AuthorizationServer::poll_outcome(poll), None));
}

#[test]
fn listener_bind_failure_is_fatal() {
    assert!(matches!(
        AuthorizationServer::new("256.256.256.256:0"),
        Err(Error::IoError(_))
    ));
}

#[test]
fn poll_outcomes_map_to_flow_results() {
    assert!(matches!(
        AuthorizationServer::poll_outcome(CallbackPoll::Accepted("ABC".to_string())),
        Some(Ok(code)) if code == "ABC"
    ));
    assert!(matches!(
        AuthorizationServer::poll_outcome(CallbackPoll::Failed("broken pipe".to_string())),
        Some(Err(Error::IoError(_)))
    ));
}
