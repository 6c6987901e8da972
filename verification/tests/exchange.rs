use tsukimi::error::ApiError;
use tsukimi::exchange::{
    parse_exchange_response, payload_from_document, session_from_exchange, OauthExchangeCodeResponse,
};
use tsukimi::session::{AuthSession, Lifetime, Provider, Timestamp};

const FULL: &str = "{\"access_token\":\"at\",\"refresh_token\":\"rt\",\"expires_in\":{\"secs\":3600,\"nanos\":500},\"scopes\":[\"public_repo\",\"user:email\"]}";

#[test]
fn full_payload_is_read() {
    assert_eq!(
        parse_exchange_response(200, FULL),
        Ok(OauthExchangeCodeResponse {
            access_token: "at".to_string(),
            refresh_token: Some("rt".to_string()),
            expires_in: Some(Lifetime { seconds: 3600, nanos: 500 }),
            scopes: Some(vec!["public_repo".to_string(), "user:email".to_string()]),
        })
    );
}

#[test]
fn optional_members_may_be_missing_or_null() {
    let bare = OauthExchangeCodeResponse {
        access_token: "at".to_string(),
        refresh_token: None,
        expires_in: None,
        scopes: None,
    };
    assert_eq!(parse_exchange_response(200, "{\"access_token\":\"at\"}"), Ok(bare.clone()));
    assert_eq!(
        parse_exchange_response(
            200,
            "{\"access_token\":\"at\",\"refresh_token\":null,\"expires_in\":null,\"scopes\":null}"
        ),
        Ok(bare)
    );
    assert_eq!(
        parse_exchange_response(200, "{\"access_token\":\"at\",\"scopes\":[]}"),
        Ok(OauthExchangeCodeResponse {
            access_token: "at".to_string(),
            refresh_token: None,
            expires_in: None,
            scopes: Some(Vec::new()),
        })
    );
}

#[test]
fn malformed_payloads_are_parse_errors() {
    let bodies = [
        "",
        "nonsense",
        "{}",
        "{\"access_token\":5}",
        "{\"access_token\":null}",
        "{\"access_token\":\"at\",\"refresh_token\":7}",
        "{\"access_token\":\"at\",\"expires_in\":3600}",
        "{\"access_token\":\"at\",\"expires_in\":{\"secs\":1}}",
        "{\"access_token\":\"at\",\"expires_in\":{\"secs\":1,\"nanos\":4294967296}}",
        "{\"access_token\":\"at\",\"expires_in\":{\"secs\":18446744073709551615,\"nanos\":1000000000}}",
        "{\"access_token\":\"at\",\"scopes\":\"a b\"}",
        "{\"access_token\":\"at\",\"scopes\":[\"a\",1]}",
    ];
    for body in bodies {
        assert!(
            matches!(parse_exchange_response(200, body), Err(ApiError::ParseError(_))),
            "{}",
            body
        );
    }
}

#[test]
fn failure_status_is_a_request_error() {
    assert_eq!(
        parse_exchange_response(400, "Error exchanging code"),
        Err(ApiError::RequestError(400, "Error exchanging code".to_string()))
    );
    assert_eq!(parse_exchange_response(500, FULL), Err(ApiError::RequestError(500, FULL.to_string())));
}

#[test]
fn whole_seconds_of_nanoseconds_are_carried() {
    let body = "{\"access_token\":\"at\",\"expires_in\":{\"secs\":10,\"nanos\":3500000001}}";
    let payload = parse_exchange_response(200, body).unwrap();
    assert_eq!(payload.expires_in, Some(Lifetime { seconds: 13, nanos: 500_000_001 }));
    let document: serde_json::Value = serde_json::from_str(body).unwrap();
    assert_eq!(payload_from_document(&document), Some(payload));
}

#[test]
fn lifetime_may_be_a_list_of_two_numbers() {
    let listed = "{\"access_token\":\"at\",\"expires_in\":[3600,500]}";
    let named = "{\"access_token\":\"at\",\"expires_in\":{\"nanos\":500,\"secs\":3600}}";
    let expected = Some(Lifetime { seconds: 3600, nanos: 500 });
    assert_eq!(parse_exchange_response(200, listed).unwrap().expires_in, expected);
    assert_eq!(parse_exchange_response(200, named).unwrap().expires_in, expected);
    let carried = "{\"access_token\":\"at\",\"expires_in\":[1,2000000007]}";
    assert_eq!(
        parse_exchange_response(200, carried).unwrap().expires_in,
        Some(Lifetime { seconds: 3, nanos: 7 })
    );
    let bodies = [
        "{\"access_token\":\"at\",\"expires_in\":[]}",
        "{\"access_token\":\"at\",\"expires_in\":[3600]}",
        "{\"access_token\":\"at\",\"expires_in\":[3600,500,1]}",
        "{\"access_token\":\"at\",\"expires_in\":[\"3600\",500]}",
        "{\"access_token\":\"at\",\"expires_in\":[3600,-1]}",
        "{\"access_token\":\"at\",\"expires_in\":[3600,4294967296]}",
        "{\"access_token\":\"at\",\"expires_in\":[18446744073709551615,1000000000]}",
    ];
    for body in bodies {
        assert!(
            matches!(parse_exchange_response(200, body), Err(ApiError::ParseError(_))),
            "{}",
            body
        );
    }
}

#[test]
fn session_expires_its_lifetime_after_now() {
    let payload = parse_exchange_response(200, FULL).unwrap();
    let now = Timestamp { seconds: 1_700_000_000, nanos: 999_999_900 };
    assert_eq!(
        session_from_exchange(payload, now),
        Some(AuthSession {
            provider: Provider::OAuth,
            access_token: "at".to_string(),
            refresh_token: Some("rt".to_string()),
            expires_at: Some(Timestamp { seconds: 1_700_003_601, nanos: 400 }),
            scopes: Some(vec!["public_repo".to_string(), "user:email".to_string()]),
        })
    );
}

#[test]
fn session_without_lifetime_does_not_expire() {
    let payload = parse_exchange_response(200, "{\"access_token\":\"at\"}").unwrap();
    let now = Timestamp { seconds: u64::MAX, nanos: 999_999_999 };
    assert_eq!(
        session_from_exchange(payload, now),
        Some(AuthSession {
            provider: Provider::OAuth,
            access_token: "at".to_string(),
            refresh_token: None,
            expires_at: None,
            scopes: None,
        })
    );
}

#[test]
fn expiry_beyond_the_range_gives_no_session() {
    let payload = OauthExchangeCodeResponse {
        access_token: "at".to_string(),
        refresh_token: None,
        expires_in: Some(Lifetime { seconds: 1, nanos: 0 }),
        scopes: None,
    };
    let last = Timestamp { seconds: u64::MAX, nanos: 0 };
    assert_eq!(session_from_exchange(payload.clone(), last), None);
    let before = Timestamp { seconds: u64::MAX - 1, nanos: 0 };
    assert_eq!(
        session_from_exchange(payload, before).unwrap().expires_at,
        Some(Timestamp { seconds: u64::MAX, nanos: 0 })
    );
    let carried = OauthExchangeCodeResponse {
        access_token: "at".to_string(),
        refresh_token: None,
        expires_in: Some(Lifetime { seconds: 0, nanos: 1 }),
        scopes: None,
    };
    let edge = Timestamp { seconds: u64::MAX, nanos: 999_999_999 };
    assert_eq!(session_from_exchange(carried, edge), None);
}

#[test]
fn timestamps_add_with_carry() {
    let now = Timestamp { seconds: 5, nanos: 600_000_000 };
    assert_eq!(
        now.checked_after(Lifetime { seconds: 2, nanos: 400_000_000 }),
        Some(Timestamp { seconds: 8, nanos: 0 })
    );
    assert_eq!(
        now.checked_after(Lifetime { seconds: 0, nanos: 0 }),
        Some(now)
    );
}
