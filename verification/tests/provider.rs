use std::collections::hash_map::DefaultHasher;
use std::hash::{Hash, Hasher};

use outbound_oauth2::cache::{CACHE_SKEW, CLOCK_END, NANOS_PER_SEC};
use outbound_oauth2::{
    FetchEvent, Oauth2Config, Oauth2Error, OutboundOauth2, TokenCache, TokenResponse, TokenStep,
};

fn config() -> Oauth2Config {
    Oauth2Config {
        username: None,
        token: None,
        token_url: None,
        refresh_token: None,
        client_id: None,
        client_secret: None,
        scope: None,
    }
}

const SECOND: u128 = NANOS_PER_SEC;

/// A token endpoint that serves the queued replies in order (looping the last
/// one) and records every request body.
struct FakeTokenServer {
    replies: Vec<(u16, String)>,
    requests: Vec<String>,
}

impl FakeTokenServer {
    fn start(replies: Vec<(u16, String)>) -> Self {
        FakeTokenServer {
            replies,
            requests: Vec::new(),
        }
    }

    fn reply(&mut self, body: String) -> (u16, String) {
        let idx = self.requests.len().min(self.replies.len() - 1);
        self.requests.push(body);
        self.replies[idx].clone()
    }
}

fn decode(text: &str) -> FetchEvent {
    let value = match serde_json::from_str::<serde_json::Value>(text) {
        Ok(value) => value,
        Err(err) => return FetchEvent::Undecodable(err.to_string()),
    };
    match value.get("access_token").and_then(|v| v.as_str()) {
        Some(token) => FetchEvent::Decoded(TokenResponse {
            access_token: token.to_string(),
            expires_in: value.get("expires_in").and_then(|v| v.as_u64()),
            refresh_token: value
                .get("refresh_token")
                .and_then(|v| v.as_str())
                .map(str::to_string),
        }),
        None => FetchEvent::Undecodable("missing field `access_token`".to_string()),
    }
}

fn drive(
    provider: &OutboundOauth2,
    cache: &mut TokenCache,
    now: u128,
    server: &mut FakeTokenServer,
) -> Result<String, Oauth2Error> {
    let mut step = provider.access_token(cache, now);
    loop {
        let event = match step {
            TokenStep::Done(answer) => return answer,
            TokenStep::Post { url, body } => {
                assert_eq!(url, TOKEN_URL);
                let (status, text) = server.reply(body);
                FetchEvent::Response {
                    status,
                    body: Some(text),
                }
            }
            TokenStep::Decode { text } => decode(&text),
        };
        step = provider.fetch(event, now, cache);
    }
}

const TOKEN_URL: &str = "http://127.0.0.1:8080/token";

fn done(step: TokenStep) -> Result<String, Oauth2Error> {
    match step {
        TokenStep::Done(answer) => answer,
        TokenStep::Post { .. } => panic!("a request is made"),
        TokenStep::Decode { .. } => panic!("a reply is decoded"),
    }
}

fn posted(step: TokenStep) -> (String, String) {
    match step {
        TokenStep::Post { url, body } => (url, body),
        _ => panic!("no request is made"),
    }
}

fn hash_of<T: Hash>(value: &T) -> u64 {
    let mut hasher = DefaultHasher::new();
    value.hash(&mut hasher);
    hasher.finish()
}

#[test]
fn debug_output_redacts_secrets() {
    let mut config = config();
    config.username = Some("user@example.org".into());
    config.token = Some("static-secret".into());
    config.refresh_token = Some("refresh-secret".into());
    config.client_secret = Some("client-secret".into());
    let provider = OutboundOauth2::try_new(&config).unwrap();
    let rendered = provider.to_debug_string(false);
    for secret in ["static-secret", "refresh-secret", "client-secret"] {
        assert!(!rendered.contains(secret), "{rendered} leaks {secret}");
    }
    assert!(rendered.contains("user@example.org"), "{rendered}");
}

#[test]
fn static_token_needs_no_endpoint() {
    let mut config = config();
    config.token = Some("static-token".into());
    let provider = OutboundOauth2::try_new(&config).unwrap();
    let cache = provider.new_cache();
    assert_eq!(
        done(provider.access_token(&cache, 0)).unwrap(),
        "static-token"
    );
}

#[test]
fn no_token_and_no_endpoint_gives_no_provider() {
    let config = config();
    assert!(OutboundOauth2::try_new(&config).is_none());
}

#[test]
fn refresh_grant_fetches_and_caches_token() {
    let mut server = FakeTokenServer::start(vec![(
        200,
        r#"{"access_token":"tok-1","expires_in":3600}"#.into(),
    )]);
    let mut config = config();
    config.token_url = Some(TOKEN_URL.into());
    config.refresh_token = Some("refresh-1".into());
    config.client_id = Some("client-1".into());
    config.client_secret = Some("secret-1".into());
    config.scope = Some("https://mail.example.org/".into());
    let provider = OutboundOauth2::try_new(&config).unwrap();
    let mut cache = provider.new_cache();

    assert_eq!(
        drive(&provider, &mut cache, 0, &mut server).unwrap(),
        "tok-1"
    );
    // Second call must be served from the cache: no new request.
    assert_eq!(
        drive(&provider, &mut cache, 0, &mut server).unwrap(),
        "tok-1"
    );
    assert_eq!(server.requests.len(), 1);
    let sent = &server.requests[0];
    for expected in [
        "grant_type=refresh_token",
        "refresh_token=refresh-1",
        "client_id=client-1",
        "client_secret=secret-1",
        "scope=https%3A%2F%2Fmail.example.org%2F",
    ] {
        assert!(
            sent.contains(expected),
            "request {sent:?} missing {expected}"
        );
    }
}

#[test]
fn expired_token_is_refetched_with_rotated_refresh_token() {
    let mut server = FakeTokenServer::start(vec![
        (
            200,
            r#"{"access_token":"tok-1","expires_in":1,"refresh_token":"refresh-2"}"#.into(),
        ),
        (200, r#"{"access_token":"tok-2","expires_in":3600}"#.into()),
    ]);
    let mut config = config();
    config.token_url = Some(TOKEN_URL.into());
    config.refresh_token = Some("refresh-1".into());
    let provider = OutboundOauth2::try_new(&config).unwrap();
    let mut cache = provider.new_cache();

    assert_eq!(
        drive(&provider, &mut cache, 0, &mut server).unwrap(),
        "tok-1"
    );
    // expires_in=1 means the token is already within the refresh skew.
    assert_eq!(
        drive(&provider, &mut cache, 0, &mut server).unwrap(),
        "tok-2"
    );
    // The second request must present the rotated refresh token.
    assert_eq!(server.requests.len(), 2);
    assert!(
        server.requests[1].contains("refresh_token=refresh-2"),
        "{:?}",
        server.requests[1]
    );
}

#[test]
fn client_credentials_grant_when_no_refresh_token() {
    let mut server = FakeTokenServer::start(vec![(
        200,
        r#"{"access_token":"ccb-tok","expires_in":1800}"#.into(),
    )]);
    let mut config = config();
    config.token_url = Some(TOKEN_URL.into());
    config.client_id = Some("client-1".into());
    config.client_secret = Some("secret-1".into());
    let provider = OutboundOauth2::try_new(&config).unwrap();
    let mut cache = provider.new_cache();

    assert_eq!(
        drive(&provider, &mut cache, 0, &mut server).unwrap(),
        "ccb-tok"
    );
    assert_eq!(server.requests.len(), 1);
    assert!(
        server.requests[0].contains("grant_type=client_credentials"),
        "{:?}",
        server.requests[0]
    );
    assert!(
        server.requests[0].contains("client_id=client-1"),
        "{:?}",
        server.requests[0]
    );
    assert!(
        server.requests[0].contains("client_secret=secret-1"),
        "{:?}",
        server.requests[0]
    );
}

#[test]
fn rejected_grant_is_permanent_error() {
    let mut server =
        FakeTokenServer::start(vec![(400, r#"{"error":"invalid_grant"}"#.into())]);
    let mut config = config();
    config.token_url = Some(TOKEN_URL.into());
    config.refresh_token = Some("bad-refresh".into());
    let provider = OutboundOauth2::try_new(&config).unwrap();
    let mut cache = provider.new_cache();

    let err = drive(&provider, &mut cache, 0, &mut server).unwrap_err();
    assert!(matches!(err, Oauth2Error::Permanent(_)), "{err:?}");
    let err = drive(&provider, &mut cache, 0, &mut server).unwrap_err();
    assert!(matches!(err, Oauth2Error::Permanent(_)), "{err:?}");
}

#[test]
fn server_failure_is_transient_error() {
    let mut server = FakeTokenServer::start(vec![(500, r#"{"error":"boom"}"#.into())]);
    let mut config = config();
    config.token_url = Some(TOKEN_URL.into());
    config.refresh_token = Some("refresh-1".into());
    let provider = OutboundOauth2::try_new(&config).unwrap();
    let mut cache = provider.new_cache();

    let err = drive(&provider, &mut cache, 0, &mut server).unwrap_err();
    assert!(matches!(err, Oauth2Error::Temporary(_)), "{err:?}");
}

#[test]
fn either_a_token_or_an_endpoint_makes_a_provider() {
    let mut with_token = config();
    with_token.token = Some(String::new());
    assert!(OutboundOauth2::try_new(&with_token).is_some());
    let mut with_url = config();
    with_url.token_url = Some(String::new());
    assert!(OutboundOauth2::try_new(&with_url).is_some());
    let mut with_rest = config();
    with_rest.username = Some("u".into());
    with_rest.refresh_token = Some("r".into());
    with_rest.client_id = Some("i".into());
    with_rest.client_secret = Some("s".into());
    with_rest.scope = Some("o".into());
    assert!(OutboundOauth2::try_new(&with_rest).is_none());
}

#[test]
fn username_is_the_configured_one() {
    let mut config = config();
    config.token = Some("t".into());
    assert_eq!(OutboundOauth2::try_new(&config).unwrap().username(), None);
    config.username = Some("relayuser@test.org".into());
    assert_eq!(
        OutboundOauth2::try_new(&config).unwrap().username(),
        Some("relayuser@test.org")
    );
}

#[test]
fn new_cache_holds_the_configured_refresh_token_only() {
    let mut config = config();
    config.token_url = Some(TOKEN_URL.into());
    config.refresh_token = Some("refresh-1".into());
    let cache = OutboundOauth2::try_new(&config).unwrap().new_cache();
    assert_eq!(cache.token, None);
    assert_eq!(cache.expires_at, None);
    assert_eq!(cache.refresh_token.as_deref(), Some("refresh-1"));
}

#[test]
fn static_token_beats_endpoint_and_cache() {
    let mut config = config();
    config.token = Some("static".into());
    config.token_url = Some(TOKEN_URL.into());
    config.refresh_token = Some("refresh-1".into());
    let provider = OutboundOauth2::try_new(&config).unwrap();
    let cache = TokenCache {
        token: Some("cached".into()),
        expires_at: Some(CLOCK_END),
        refresh_token: None,
    };
    assert_eq!(done(provider.access_token(&cache, 0)).unwrap(), "static");
}

#[test]
fn refresh_request_has_its_exact_text() {
    let mut config = config();
    config.token_url = Some(TOKEN_URL.into());
    config.refresh_token = Some("r&1=2".into());
    let provider = OutboundOauth2::try_new(&config).unwrap();
    let cache = provider.new_cache();
    let (url, body) = posted(provider.access_token(&cache, 0));
    assert_eq!(url, TOKEN_URL);
    assert_eq!(body, "grant_type=refresh_token&refresh_token=r%261%3D2");

    config.client_id = Some("id".into());
    config.client_secret = Some("s e".into());
    config.scope = Some("a+b".into());
    let provider = OutboundOauth2::try_new(&config).unwrap();
    let (_, body) = posted(provider.access_token(&cache, 0));
    assert_eq!(
        body,
        "grant_type=refresh_token&refresh_token=r%261%3D2&client_id=id&client_secret=s%20e&scope=a%2Bb"
    );
}

#[test]
fn credentials_request_has_its_exact_text() {
    let mut config = config();
    config.token_url = Some(TOKEN_URL.into());
    config.client_id = Some("id".into());
    config.client_secret = Some("sec".into());
    let provider = OutboundOauth2::try_new(&config).unwrap();
    let cache = provider.new_cache();
    let (_, body) = posted(provider.access_token(&cache, 0));
    assert_eq!(
        body,
        "grant_type=client_credentials&client_id=id&client_secret=sec"
    );
    config.scope = Some("mail".into());
    let provider = OutboundOauth2::try_new(&config).unwrap();
    let (_, body) = posted(provider.access_token(&cache, 0));
    assert_eq!(
        body,
        "grant_type=client_credentials&client_id=id&client_secret=sec&scope=mail"
    );
}

#[test]
fn a_lone_half_of_the_credentials_is_a_permanent_error() {
    for (id, secret) in [(None, None), (Some("i"), None), (None, Some("s"))] {
        let mut config = config();
        config.token_url = Some(TOKEN_URL.into());
        config.client_id = id.map(str::to_string);
        config.client_secret = secret.map(str::to_string);
        let provider = OutboundOauth2::try_new(&config).unwrap();
        let cache = provider.new_cache();
        let err = done(provider.access_token(&cache, 0)).unwrap_err();
        assert_eq!(
            err,
            Oauth2Error::Permanent(
                "OAuth2 route has neither a refresh token nor client credentials".into()
            )
        );
    }
}

#[test]
fn cached_token_is_served_until_the_margin() {
    let mut config = config();
    config.token_url = Some(TOKEN_URL.into());
    config.refresh_token = Some("refresh-1".into());
    let provider = OutboundOauth2::try_new(&config).unwrap();
    let mut cache = provider.new_cache();
    let granted = 5 * SECOND + 7;
    cache.store(
        TokenResponse {
            access_token: "tok".into(),
            expires_in: Some(100),
            refresh_token: None,
        },
        granted,
    );
    let expiry = granted + 100 * SECOND;
    assert_eq!(cache.expires_at, Some(expiry));
    let last = expiry - CACHE_SKEW - 1;
    assert_eq!(done(provider.access_token(&cache, last)).unwrap(), "tok");
    posted(provider.access_token(&cache, last + 1));
    posted(provider.access_token(&cache, CLOCK_END));
    posted(provider.access_token(&cache, u128::MAX));
}

#[test]
fn a_grant_without_lifetime_lives_an_hour() {
    let mut config = config();
    config.token_url = Some(TOKEN_URL.into());
    let provider = OutboundOauth2::try_new(&config).unwrap();
    let mut cache = provider.new_cache();
    let response = TokenResponse {
        access_token: "tok".into(),
        expires_in: None,
        refresh_token: Some("r".into()),
    };
    let step = provider.fetch(FetchEvent::Decoded(response), 9, &mut cache);
    assert_eq!(done(step).unwrap(), "tok");
    assert_eq!(cache.token.as_deref(), Some("tok"));
    assert_eq!(cache.expires_at, Some(3600 * SECOND + 9));
    assert_eq!(cache.refresh_token.as_deref(), Some("r"));
}

#[test]
fn a_grant_without_rotation_keeps_the_refresh_token() {
    let mut cache = TokenCache {
        token: None,
        expires_at: None,
        refresh_token: Some("old".into()),
    };
    cache.store(
        TokenResponse {
            access_token: "tok".into(),
            expires_in: Some(0),
            refresh_token: None,
        },
        0,
    );
    assert_eq!(cache.refresh_token.as_deref(), Some("old"));
    let mut config = config();
    config.token_url = Some(TOKEN_URL.into());
    config.refresh_token = Some("configured".into());
    let provider = OutboundOauth2::try_new(&config).unwrap();
    let (_, body) = posted(provider.access_token(&cache, 0));
    assert_eq!(body, "grant_type=refresh_token&refresh_token=old");
    cache.refresh_token = None;
    let (_, body) = posted(provider.access_token(&cache, 0));
    assert_eq!(body, "grant_type=refresh_token&refresh_token=configured");
}

#[test]
fn the_longest_lifetime_is_stored() {
    let mut cache = TokenCache::default();
    cache.store(
        TokenResponse {
            access_token: "tok".into(),
            expires_in: Some(u64::MAX),
            refresh_token: None,
        },
        SECOND - 1,
    );
    assert_eq!(cache.expires_at, Some(CLOCK_END));
    assert_eq!(
        CLOCK_END,
        std::time::Duration::MAX.as_nanos()
    );
}

#[test]
fn a_cache_without_a_token_answers_with_an_error() {
    let mut cache = TokenCache::default();
    assert_eq!(
        cache.held().unwrap_err(),
        Oauth2Error::Permanent("token endpoint returned no access token".into())
    );
    assert_eq!(cache.fresh(0), None);
    cache.token = Some("tok".into());
    assert_eq!(cache.held().unwrap(), "tok");
    assert_eq!(cache.fresh(0), None);
    cache.expires_at = Some(CACHE_SKEW);
    assert_eq!(cache.fresh(0), None);
    cache.expires_at = Some(CACHE_SKEW + 1);
    assert_eq!(cache.fresh(0).as_deref(), Some("tok"));
}

fn endpoint_provider() -> OutboundOauth2 {
    let mut config = config();
    config.token_url = Some(TOKEN_URL.into());
    config.refresh_token = Some("refresh-1".into());
    OutboundOauth2::try_new(&config).unwrap()
}

#[test]
fn every_failure_has_its_kind_and_message_and_keeps_the_cache() {
    let provider = endpoint_provider();
    let cases: Vec<(FetchEvent, Oauth2Error)> = vec![
        (
            FetchEvent::Unreachable("connection refused".into()),
            Oauth2Error::Temporary("token endpoint unreachable: connection refused".into()),
        ),
        (
            FetchEvent::Undecodable("expected value at line 1 column 1".into()),
            Oauth2Error::Temporary(
                "invalid token endpoint response: expected value at line 1 column 1".into(),
            ),
        ),
        (
            FetchEvent::Response {
                status: 400,
                body: Some("nope".into()),
            },
            Oauth2Error::Permanent(
                "token endpoint rejected the grant (400 Bad Request nope)".into(),
            ),
        ),
        (
            FetchEvent::Response {
                status: 499,
                body: None,
            },
            Oauth2Error::Permanent(
                "token endpoint rejected the grant (499 <unknown status code> )".into(),
            ),
        ),
        (
            FetchEvent::Response {
                status: 500,
                body: Some("boom".into()),
            },
            Oauth2Error::Temporary(
                "token endpoint failed (500 Internal Server Error boom)".into(),
            ),
        ),
        (
            FetchEvent::Response {
                status: 301,
                body: Some(String::new()),
            },
            Oauth2Error::Temporary("token endpoint failed (301 Moved Permanently )".into()),
        ),
        (
            FetchEvent::Response {
                status: 100,
                body: Some("x".into()),
            },
            Oauth2Error::Temporary("token endpoint failed (100 Continue x)".into()),
        ),
        (
            FetchEvent::Response {
                status: 999,
                body: Some("x".into()),
            },
            Oauth2Error::Temporary("token endpoint failed (999 <unknown status code> x)".into()),
        ),
    ];
    for (event, expected) in cases {
        let mut cache = provider.new_cache();
        let err = done(provider.fetch(event, 1, &mut cache)).unwrap_err();
        assert_eq!(err, expected);
        assert_eq!(cache.token, None);
        assert_eq!(cache.expires_at, None);
        assert_eq!(cache.refresh_token.as_deref(), Some("refresh-1"));
    }
}

#[test]
fn every_success_status_is_decoded() {
    let provider = endpoint_provider();
    let mut cache = provider.new_cache();
    for status in [200u16, 204, 299] {
        let event = FetchEvent::Response {
            status,
            body: Some("{}".into()),
        };
        match provider.fetch(event, 1, &mut cache) {
            TokenStep::Decode { text } => assert_eq!(text, "{}"),
            _ => panic!("{status} is not decoded"),
        }
    }
    let event = FetchEvent::Response {
        status: 200,
        body: None,
    };
    match provider.fetch(event, 1, &mut cache) {
        TokenStep::Decode { text } => assert_eq!(text, ""),
        _ => panic!("an unreadable body is not taken as empty"),
    }
    for status in [199u16, 300] {
        let event = FetchEvent::Response { status, body: None };
        assert!(done(provider.fetch(event, 1, &mut cache)).is_err());
    }
}

#[test]
fn undecodable_reply_is_transient_error() {
    let mut server = FakeTokenServer::start(vec![(200, "not json".into())]);
    let provider = endpoint_provider();
    let mut cache = provider.new_cache();
    let err = drive(&provider, &mut cache, 0, &mut server).unwrap_err();
    assert!(matches!(err, Oauth2Error::Temporary(_)), "{err:?}");
}

#[test]
fn providers_compare_and_hash_by_configuration() {
    let provider = endpoint_provider();
    let same = endpoint_provider();
    assert!(provider == same);
    assert!(provider == provider.clone());
    assert_eq!(hash_of(&provider), hash_of(&same));
    let base = {
        let mut c = config();
        c.token_url = Some(TOKEN_URL.into());
        c
    };
    let set: [fn(&mut Oauth2Config); 7] = [
        |c| c.username = Some("x".into()),
        |c| c.token = Some("x".into()),
        |c| c.token_url = Some("x".into()),
        |c| c.refresh_token = Some("x".into()),
        |c| c.client_id = Some("x".into()),
        |c| c.client_secret = Some("x".into()),
        |c| c.scope = Some("x".into()),
    ];
    for change in set {
        let mut changed = base.clone();
        assert!(changed == base);
        change(&mut changed);
        assert!(changed != base);
        assert!(
            OutboundOauth2::try_new(&changed).unwrap() != OutboundOauth2::try_new(&base).unwrap()
        );
    }
}
