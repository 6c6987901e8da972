use tsukimi::auth_code::{
    callback_from_pairs, callback_response, find_value, join_scopes, parse_callback,
    AuthorizationRequest, Callback, OauthExchangeCodeRequest,
};
use tsukimi::config::AuthConfig;
use tsukimi::error::ApiError;

const VERIFIER: &str = "dBjftJeZ4CVP-mB92K27uhbUJU1p1r_wW1gFWFOEjXk";
const CHALLENGE: &str = "E9Melhoa2OwvFrEMTJguCHaoeK1t8URWbuGJSstw-cM";

fn request(state: &str) -> AuthorizationRequest {
    AuthorizationRequest::with_secrets(state.to_string(), VERIFIER.to_string(), 7777).unwrap()
}

fn invalid() -> ApiError {
    ApiError::AuthenticationError("invalid callback".to_string())
}

fn csrf() -> ApiError {
    ApiError::AuthenticationError("CSRF validation failed".to_string())
}

#[test]
fn matching_state_exchanges_the_code_with_the_verifier_of_the_attempt() {
    let request = request("XYZ");
    let exchange = request.on_callback("GET /callback?code=abc&state=XYZ HTTP/1.1\r\n");
    assert_eq!(
        exchange,
        Ok(OauthExchangeCodeRequest { code: "abc".to_string(), pkce_code_verifier: VERIFIER.to_string() })
    );
    assert_eq!(
        exchange.unwrap().body(),
        format!("{{\"code\":\"abc\",\"pkce_code_verifier\":\"{}\"}}", VERIFIER)
    );
}

#[test]
fn another_state_is_refused_and_nothing_is_exchanged() {
    let request = request("XYZ");
    assert_eq!(request.on_callback("GET /callback?code=abc&state=XYz HTTP/1.1"), Err(csrf()));
    assert_eq!(request.on_callback("GET /callback?code=abc&state= HTTP/1.1"), Err(csrf()));
    assert_eq!(request.on_callback("GET /callback?state=other&code=abc HTTP/1.1"), Err(csrf()));
    assert_eq!(
        request.exchange_for(Callback { code: "abc".to_string(), state: "XYZ ".to_string() }),
        Err(csrf())
    );
}

#[test]
fn callback_without_code_or_state_is_invalid() {
    let request = request("XYZ");
    assert_eq!(request.on_callback("GET /callback?state=XYZ HTTP/1.1"), Err(invalid()));
    assert_eq!(request.on_callback("GET /callback?code=abc HTTP/1.1"), Err(invalid()));
    assert_eq!(request.on_callback("GET /callback HTTP/1.1"), Err(invalid()));
    assert_eq!(request.on_callback("GET"), Err(invalid()));
    assert_eq!(request.on_callback(""), Err(invalid()));
    assert_eq!(request.on_callback("   \r\n"), Err(invalid()));
}

#[test]
fn callback_values_are_decoded() {
    let callback = parse_callback("GET /callback?code=a%20b%2Fc&state=x+y&more=1 HTTP/1.1").unwrap();
    assert_eq!(callback, Callback { code: "a b/c".to_string(), state: "x y".to_string() });
}

#[test]
fn callback_takes_the_first_of_repeated_names() {
    let callback = parse_callback("GET /cb?code=one&code=two&state=s1&state=s2 HTTP/1.1").unwrap();
    assert_eq!(callback, Callback { code: "one".to_string(), state: "s1".to_string() });
}

#[test]
fn callback_target_is_the_second_word() {
    let callback = parse_callback("  GET \t /callback?code=c&state=s   HTTP/1.1\r\n").unwrap();
    assert_eq!(callback, Callback { code: "c".to_string(), state: "s".to_string() });
}

#[test]
fn pairs_give_code_and_state() {
    let pairs = vec![
        ("x".to_string(), "1".to_string()),
        ("state".to_string(), "s".to_string()),
        ("code".to_string(), "c".to_string()),
    ];
    assert_eq!(
        callback_from_pairs(&pairs),
        Some(Callback { code: "c".to_string(), state: "s".to_string() })
    );
    assert_eq!(find_value(&pairs, "x"), Some("1".to_string()));
    assert_eq!(find_value(&pairs, "y"), None);
    assert_eq!(callback_from_pairs(&pairs[..2].to_vec()), None);
    assert_eq!(callback_from_pairs(&Vec::new()), None);
}

#[test]
fn challenge_is_derived_from_verifier() {
    let request = request("s");
    assert_eq!(request.code_challenge(), CHALLENGE);
    assert_eq!(request.code_verifier(), VERIFIER);
    assert_eq!(request.csrf_state(), "s");
    assert_eq!(request.redirect_uri(), "http://localhost:7777/callback");
}

#[test]
fn verifier_must_be_admissible() {
    let short = "a".repeat(42);
    let least = "a".repeat(43);
    let most = "a".repeat(128);
    let long = "a".repeat(129);
    let accented = "é".repeat(43);
    assert!(AuthorizationRequest::with_secrets("s".to_string(), short, 1).is_none());
    assert!(AuthorizationRequest::with_secrets("s".to_string(), least, 1).is_some());
    assert!(AuthorizationRequest::with_secrets("s".to_string(), most, 1).is_some());
    assert!(AuthorizationRequest::with_secrets("s".to_string(), long, 1).is_none());
    assert!(AuthorizationRequest::with_secrets("s".to_string(), accented, 1).is_none());
}

#[test]
fn generated_request_is_well_formed() {
    let first = AuthorizationRequest::generate(7777);
    let second = AuthorizationRequest::generate(80);
    assert_eq!(first.code_verifier().len(), 43);
    assert!(first.code_verifier().is_ascii());
    assert_eq!(first.redirect_uri(), "http://localhost:7777/callback");
    assert_eq!(second.redirect_uri(), "http://localhost:80/callback");
    assert_ne!(first.code_verifier(), second.code_verifier());
    assert_ne!(first.csrf_state(), second.csrf_state());
    assert_eq!(first.csrf_state().len(), 22);
    assert!(first.csrf_state().is_ascii());
    assert_eq!(second.csrf_state().len(), 22);
    let again = AuthorizationRequest::with_secrets(
        first.csrf_state().to_string(),
        first.code_verifier().to_string(),
        7777,
    )
    .unwrap();
    assert_eq!(again, first);
}

#[test]
fn generated_request_accepts_its_own_state_only() {
    let request = AuthorizationRequest::generate(7777);
    let line = format!("GET /callback?code=abc&state={} HTTP/1.1", request.csrf_state());
    assert_eq!(
        request.on_callback(&line),
        Ok(OauthExchangeCodeRequest {
            code: "abc".to_string(),
            pkce_code_verifier: request.code_verifier().to_string(),
        })
    );
    let other = format!("GET /callback?code=abc&state={}x HTTP/1.1", request.csrf_state());
    assert_eq!(request.on_callback(&other), Err(csrf()));
}

#[test]
fn authorization_url_names_every_parameter() {
    let url = request("XYZ").authorization_url(&AuthConfig::github()).unwrap();
    assert_eq!(
        url,
        format!(
            "https://github.com/login/oauth/authorize?response_type=code&client_id=Iv23li6unikd56cFZ6zX&state=XYZ&code_challenge={}&code_challenge_method=S256&redirect_uri=http%3A%2F%2Flocalhost%3A7777%2Fcallback&scope=public_repo+user%3Aemail",
            CHALLENGE
        )
    );
}

#[test]
fn authorization_url_without_scopes_has_no_scope_parameter() {
    let mut config = AuthConfig::github();
    config.scopes = Vec::new();
    config.authorize_url = "https://example.com/auth?x=1".to_string();
    config.client_id = "a b".to_string();
    let url = request("s&t").authorization_url(&config).unwrap();
    assert_eq!(
        url,
        format!(
            "https://example.com/auth?x=1&response_type=code&client_id=a+b&state=s%26t&code_challenge={}&code_challenge_method=S256&redirect_uri=http%3A%2F%2Flocalhost%3A7777%2Fcallback",
            CHALLENGE
        )
    );
}

#[test]
fn authorization_url_needs_an_absolute_endpoint() {
    let mut config = AuthConfig::github();
    config.authorize_url = "/login/oauth/authorize".to_string();
    assert_eq!(request("s").authorization_url(&config), None);
}

#[test]
fn scopes_are_joined_by_spaces() {
    assert_eq!(join_scopes(&Vec::new()), "");
    assert_eq!(join_scopes(&vec!["a".to_string()]), "a");
    assert_eq!(join_scopes(&vec!["a".to_string(), "".to_string(), "b".to_string()]), "a  b");
}

#[test]
fn exchange_body_is_escaped_json() {
    let exchange = OauthExchangeCodeRequest {
        code: "a\"b\\c\n".to_string(),
        pkce_code_verifier: "v".to_string(),
    };
    assert_eq!(exchange.body(), "{\"code\":\"a\\\"b\\\\c\\n\",\"pkce_code_verifier\":\"v\"}");
    let read: serde_json::Value = serde_json::from_str(&exchange.body()).unwrap();
    assert_eq!(read.get("code").and_then(|v| v.as_str()), Some("a\"b\\c\n"));
    assert_eq!(read.get("pkce_code_verifier").and_then(|v| v.as_str()), Some("v"));
}

#[test]
fn callback_response_states_length_in_bytes() {
    assert_eq!(
        callback_response("<h1>ok</h1>"),
        "HTTP/1.1 200 OK\r\ncontent-length: 11\r\n\r\n<h1>ok</h1>"
    );
    assert_eq!(callback_response("é!"), "HTTP/1.1 200 OK\r\ncontent-length: 3\r\n\r\né!");
    assert_eq!(callback_response(""), "HTTP/1.1 200 OK\r\ncontent-length: 0\r\n\r\n");
}
