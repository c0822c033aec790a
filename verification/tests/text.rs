use outbound_oauth2::debug::{render_config, render_provider};
use outbound_oauth2::provider::grant_body;
use outbound_oauth2::status::refused;
use outbound_oauth2::{percent_encode, Oauth2Error, OutboundOauth2};

const UNRESERVED: &str = "ABCDEFGHIJKLMNOPQRSTUVWXYZabcdefghijklmnopqrstuvwxyz0123456789-_.~";

#[test]
fn unreserved_characters_are_kept() {
    assert_eq!(percent_encode(UNRESERVED), UNRESERVED);
    assert_eq!(percent_encode(""), "");
}

#[test]
fn other_bytes_are_escaped_in_upper_case() {
    assert_eq!(
        percent_encode("https://mail.example.org/"),
        "https%3A%2F%2Fmail.example.org%2F"
    );
    assert_eq!(percent_encode(" +&=%"), "%20%2B%26%3D%25");
    assert_eq!(percent_encode("\u{0}\n\u{7f}"), "%00%0A%7F");
    assert_eq!(percent_encode("é€😀"), "%C3%A9%E2%82%AC%F0%9F%98%80");
}

#[test]
fn every_ascii_character_is_kept_or_escaped() {
    for b in 0u8..128 {
        let c = b as char;
        let expected = if UNRESERVED.contains(c) {
            c.to_string()
        } else {
            format!("%{b:02X}")
        };
        assert_eq!(percent_encode(&c.to_string()), expected);
    }
}

#[test]
fn encoded_values_decode_to_themselves() {
    for value in ["", "a", "a&b=c%41+ d", "é€😀", "%%%"] {
        let encoded = percent_encode(value);
        let mut bytes: Vec<u8> = Vec::new();
        let mut rest = encoded.as_bytes();
        while let Some(&b) = rest.first() {
            if b == b'%' {
                let hex = std::str::from_utf8(&rest[1..3]).unwrap();
                bytes.push(u8::from_str_radix(hex, 16).unwrap());
                rest = &rest[3..];
            } else {
                bytes.push(b);
                rest = &rest[1..];
            }
        }
        assert_eq!(String::from_utf8(bytes).unwrap(), value);
    }
}

#[test]
fn errors_show_their_message() {
    let temporary = Oauth2Error::Temporary("a".into());
    let permanent = Oauth2Error::Permanent("a".into());
    assert_eq!(temporary.to_string(), "OAuth2 token error: a");
    assert_eq!(permanent.to_string(), "OAuth2 token error: a");
    assert_ne!(temporary, permanent);
    assert_eq!(temporary, temporary.clone());
    assert_eq!(permanent, permanent.clone());
    assert_ne!(permanent, Oauth2Error::Permanent("b".into()));
    assert_eq!(format!("{temporary:?}"), "Temporary(\"a\")");
}

#[test]
fn refusals_are_permanent_for_client_errors_only() {
    for code in 100u16..1000 {
        let err = refused(code, "T", "B");
        if (400..500).contains(&code) {
            assert_eq!(
                err,
                Oauth2Error::Permanent("token endpoint rejected the grant (T B)".into())
            );
        } else {
            assert_eq!(
                err,
                Oauth2Error::Temporary("token endpoint failed (T B)".into())
            );
        }
    }
}

/// Same name and fields as the configuration, with the derived `Debug`.
#[derive(Debug)]
#[allow(dead_code)]
struct Oauth2Config {
    username: Option<String>,
    token: Option<String>,
    token_url: Option<String>,
    refresh_token: Option<String>,
    client_id: Option<String>,
    client_secret: Option<String>,
    scope: Option<String>,
}

fn some(text: &str) -> Option<String> {
    Some(text.to_string())
}

fn library_config(full: bool) -> outbound_oauth2::Oauth2Config {
    outbound_oauth2::Oauth2Config {
        username: some("a \"quoted\"\nname\t\u{1}é"),
        token: if full { some("static-secret") } else { None },
        token_url: some("https://example.org/token"),
        refresh_token: if full { some("refresh-secret") } else { None },
        client_id: if full { None } else { some("id") },
        client_secret: if full { some("client-secret") } else { None },
        scope: some(""),
    }
}

fn shown_config(full: bool) -> Oauth2Config {
    let redacted = library_config(full).redacted();
    Oauth2Config {
        username: redacted.username,
        token: redacted.token,
        token_url: redacted.token_url,
        refresh_token: redacted.refresh_token,
        client_id: redacted.client_id,
        client_secret: redacted.client_secret,
        scope: redacted.scope,
    }
}

#[test]
fn redaction_replaces_secrets_only() {
    let redacted = library_config(true).redacted();
    assert_eq!(redacted.username, library_config(true).username);
    assert_eq!(redacted.token.as_deref(), Some("<redacted>"));
    assert_eq!(redacted.token_url, library_config(true).token_url);
    assert_eq!(redacted.refresh_token.as_deref(), Some("<redacted>"));
    assert_eq!(redacted.client_id, None);
    assert_eq!(redacted.client_secret.as_deref(), Some("<redacted>"));
    assert_eq!(redacted.scope.as_deref(), Some(""));
    let open = library_config(false).redacted();
    assert!(open == library_config(false));
}

#[test]
fn debug_texts_are_those_of_debug_structs() {
    #[derive(Debug)]
    #[allow(dead_code)]
    struct OutboundOauth2 {
        config: Oauth2Config,
    }
    for full in [true, false] {
        let config = library_config(full);
        let shown = shown_config(full);
        assert_eq!(config.to_debug_string(false), format!("{shown:?}"));
        assert_eq!(config.to_debug_string(true), format!("{shown:#?}"));
        let provider = outbound_oauth2::OutboundOauth2::try_new(&config).unwrap();
        let shown = OutboundOauth2 {
            config: shown_config(full),
        };
        assert_eq!(provider.to_debug_string(false), format!("{shown:?}"));
        assert_eq!(provider.to_debug_string(true), format!("{shown:#?}"));
    }
}

#[test]
fn debug_texts_do_not_depend_on_what_secrets_are() {
    let config = library_config(true);
    let mut other = config.clone();
    other.token = some("x");
    other.refresh_token = some("");
    other.client_secret = some("client-secret-2");
    for alternate in [false, true] {
        assert_eq!(
            config.to_debug_string(alternate),
            other.to_debug_string(alternate)
        );
        assert_eq!(
            OutboundOauth2::try_new(&config).unwrap().to_debug_string(alternate),
            OutboundOauth2::try_new(&other).unwrap().to_debug_string(alternate)
        );
    }
    other.token = None;
    assert_ne!(config.to_debug_string(false), other.to_debug_string(false));
    assert_ne!(config.to_debug_string(true), other.to_debug_string(true));
}

#[test]
fn rendering_writes_values_as_given() {
    let shown = outbound_oauth2::Oauth2Config {
        username: some("U"),
        token: None,
        token_url: None,
        refresh_token: None,
        client_id: None,
        client_secret: None,
        scope: some("S"),
    };
    let plain = "Oauth2Config { username: Some(U), token: None, token_url: None, \
                 refresh_token: None, client_id: None, client_secret: None, scope: Some(S) }";
    assert_eq!(render_config(&shown, false, "  "), plain);
    assert_eq!(
        render_provider(&shown, false),
        format!("OutboundOauth2 {{ config: {plain} }}")
    );
    assert_eq!(
        render_config(&shown, true, "  "),
        "Oauth2Config {\n      username: Some(\n          U,\n      ),\n      token: None,\n      \
         token_url: None,\n      refresh_token: None,\n      client_id: None,\n      \
         client_secret: None,\n      scope: Some(\n          S,\n      ),\n  }"
    );
}

#[test]
fn grant_bodies_prefer_the_refresh_token() {
    let mut config = library_config(false);
    config.scope = None;
    assert_eq!(
        grant_body(&config, Some("r")).as_deref(),
        Some("grant_type=refresh_token&refresh_token=r&client_id=id")
    );
    assert_eq!(grant_body(&config, None), None);
    config.client_secret = some("s");
    assert_eq!(
        grant_body(&config, None).as_deref(),
        Some("grant_type=client_credentials&client_id=id&client_secret=s")
    );
}
