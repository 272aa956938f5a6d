use regex::Regex;
use sso::config::{FAKE_SSO_IDENTIFIER, SSO_AUTH_EXPIRATION};
use sso::oidc::{decoded_state, redirect_uri};
use sso::{
    authorize_url, decode_state, OIDCCode, OIDCCodeChallenge, OIDCCodeVerifier, OIDCIdentifier,
    OIDCState, SsoError,
};

#[test]
fn identifier_joins_issuer_and_subject() {
    let identifier = OIDCIdentifier::new("https://idp.example.com", "4711");
    assert_eq!(identifier.as_str(), "https://idp.example.com/4711");
    assert_eq!(OIDCIdentifier::new("", "").into_inner(), "/");
}

#[test]
fn names_hold_the_text_that_they_are_made_of() {
    assert_eq!(OIDCCode::from("c".to_owned()).as_str(), "c");
    assert_eq!(OIDCCodeChallenge::from("h".to_owned()).into_inner(), "h");
    assert_eq!(OIDCCodeVerifier::from_form("v".to_owned()).as_str(), "v");
    assert_eq!(OIDCState::default().as_str(), "");
    assert_eq!(OIDCCode::from("c"), OIDCCode::from("c".to_owned()));
    assert_eq!(OIDCState::from("s").as_str(), "s");
    assert_eq!(OIDCIdentifier::from("i").as_str(), "i");
    let code = OIDCCode::from("again".to_owned());
    assert_eq!(code.clone(), code);
}

#[test]
fn state_is_decoded() {
    assert_eq!(decode_state("c3RhdGU=").unwrap().as_str(), "state");
    assert_eq!(decode_state("").unwrap().as_str(), "");
    assert_eq!(decode_state("w6TDtsO8").unwrap().as_str(), "\u{e4}\u{f6}\u{fc}");
}

#[test]
fn encoded_state_is_read_back() {
    for state in ["", "abc", "\u{e4}\u{f6}\u{fc} \u{1f512}"] {
        let sent = data_encoding::BASE64.encode(state.as_bytes());
        assert_eq!(decode_state(&sent).unwrap(), OIDCState::from(state));
    }
    assert_eq!(decode_state("YWJj").unwrap().as_str(), "abc");
}

#[test]
fn concatenated_state_is_decoded() {
    assert_eq!(decode_state("SGVsbA==byB3b3JsZA==").unwrap().as_str(), "Hello world");
}

#[test]
fn state_that_is_not_base64_is_refused() {
    for state in ["c3RhdGU", "c3RhdGV=", "c3 RhdGU=", "*"] {
        let refused = decode_state(state).unwrap_err();
        assert_eq!(refused, SsoError::StateNotBase64(state.to_owned()));
        assert_eq!(refused.message(), format!("Failed to decode {state} using base64"));
    }
}

#[test]
fn state_that_is_no_text_is_refused() {
    let refused = decode_state("/w==").unwrap_err();
    assert_eq!(refused, SsoError::StateNotUtf8("/w==".to_owned()));
    assert_eq!(refused.message(), "Invalid utf8 chars in /w== after base64 decoding");
}

#[test]
fn decoded_state_goes_by_the_decoder() {
    assert_eq!(decoded_state("x", Ok(vec![111, 107])).unwrap().as_str(), "ok");
    assert_eq!(
        decoded_state("x", Err("complaint".to_owned())),
        Err(SsoError::StateNotBase64("x".to_owned()))
    );
}

#[test]
fn clients_return_to_their_own_addresses() {
    let domain = "https://vault.example.com";
    let page = Ok("https://vault.example.com/sso-connector.html".to_owned());
    assert_eq!(redirect_uri("web", "ignored", domain), page);
    assert_eq!(redirect_uri("browser", "", domain), page);
    let scheme = Ok("bitwarden://sso-callback".to_owned());
    assert_eq!(redirect_uri("desktop", "", domain), scheme);
    assert_eq!(redirect_uri("mobile", "", domain), scheme);
    assert_eq!(
        redirect_uri("cli", "http://localhost:8065", domain),
        Ok("http://localhost:8065".to_owned())
    );
}

#[test]
fn unknown_client_is_refused() {
    let refused = redirect_uri("Web", "", "https://vault.example.com").unwrap_err();
    assert_eq!(refused, SsoError::UnsupportedClient("Web".to_owned()));
    assert_eq!(refused.message(), "Unsupported client Web");
}

#[test]
fn port_is_found_where_the_pattern_finds_it() {
    let pattern = Regex::new(r"^http://localhost:([0-9]{4})$").unwrap();
    let addresses = [
        "http://localhost:8065",
        "http://localhost:0000",
        "http://localhost:9999",
        "http://localhost:80",
        "http://localhost:80650",
        "http://localhost:8065/",
        "http://localhost:8065\n",
        "\nhttp://localhost:8065",
        " http://localhost:8065",
        "https://localhost:8065",
        "http://localhost.example.com:8065",
        "http://localhost:806a",
        "http://localhost:806\u{0665}",
        "http://localhost:\u{ff18}065",
        "http://localhost:-806",
        "HTTP://localhost:8065",
        "",
        "8065",
    ];
    for address in addresses {
        let expected = match pattern.captures(address).and_then(|captures| captures.get(1)) {
            Some(port) => Ok(format!("http://localhost:{}", port.as_str())),
            None => Err(SsoError::MissingPort),
        };
        assert_eq!(redirect_uri("cli", address, "https://vault.example.com"), expected);
    }
    assert_eq!(
        redirect_uri("cli", "", "").unwrap_err().message(),
        "Failed to extract port number"
    );
}

#[test]
fn redirects_stay_home() {
    for client in ["web", "browser", "desktop", "mobile", "cli"] {
        for address in ["https://evil.example.com", "http://localhost:1234"] {
            if let Ok(uri) = redirect_uri(client, address, "https://vault.example.com") {
                assert!(!uri.contains("evil"));
            }
        }
    }
}

#[test]
fn authorize_request_carries_the_login() {
    let request = authorize_url(
        OIDCState::from("state".to_owned()),
        OIDCCodeChallenge::from("challenge".to_owned()),
        "cli",
        "http://localhost:8065",
        Some("hash".to_owned()),
        "https://vault.example.com",
    )
    .unwrap();
    assert_eq!(request.state.as_str(), "state");
    assert_eq!(request.client_challenge.as_str(), "challenge");
    assert_eq!(request.redirect_uri, "http://localhost:8065");
    assert_eq!(request.binding_hash.as_deref(), Some("hash"));
    let refused = authorize_url(
        OIDCState::default(),
        OIDCCodeChallenge::default(),
        "cli",
        "http://localhost",
        None,
        "https://vault.example.com",
    );
    assert_eq!(refused, Err(SsoError::MissingPort));
}

#[test]
fn constants_are_those_that_clients_know() {
    assert_eq!(FAKE_SSO_IDENTIFIER, "00000000-01DC-01DC-01DC-000000000000");
    assert_eq!(SSO_AUTH_EXPIRATION, 10 * 60);
}
