use tsukimi::device_flow::{
    device_code_form, parse_device_grant, parse_poll_response, DeviceAuthorizationGrant, DeviceFlow, PollReply,
    PollStep, ProviderErrorKind, DEVICE_GRANT_TYPE, SLOW_DOWN_SECONDS,
};
use tsukimi::error::ApiError;
use tsukimi::session::{AuthSession, Provider};

const GRANT: &str = "{\"device_code\":\"d1\",\"user_code\":\"ABCD-1234\",\"verification_uri\":\"https://example.com/device\",\"expires_in\":900,\"interval\":5}";
const PENDING: &str = "{\"error\":\"authorization_pending\",\"error_description\":\"waiting\",\"error_uri\":\"https://example.com/docs\"}";
const SLOW_DOWN: &str = "{\"error\":\"slow_down\",\"error_description\":\"too fast\",\"error_uri\":\"https://example.com/docs\"}";
const EXPIRED: &str = "{\"error\":\"expired_token\",\"error_description\":\"too late\",\"error_uri\":\"https://example.com/docs\"}";
const DENIED: &str = "{\"error\":\"access_denied\",\"error_description\":\"The user said no\",\"error_uri\":\"https://example.com/docs\"}";
const TOKEN: &str = "{\"access_token\":\"tok123\",\"token_type\":\"bearer\",\"scope\":\"repo user:email\"}";

fn expired() -> ApiError {
    ApiError::AuthenticationError("Device code expired".to_string())
}

fn started() -> DeviceFlow {
    DeviceFlow::begin(parse_device_grant(200, GRANT).unwrap())
}

#[test]
fn grant_response_gives_every_field() {
    let grant = parse_device_grant(200, GRANT).unwrap();
    assert_eq!(
        grant,
        DeviceAuthorizationGrant {
            device_code: "d1".to_string(),
            user_code: "ABCD-1234".to_string(),
            verification_uri: "https://example.com/device".to_string(),
            expires_in: 900,
            interval: 5,
        }
    );
}

#[test]
fn grant_response_ignores_other_members() {
    let body = "{\"interval\":7,\"extra\":[1,2],\"device_code\":\"d\",\"user_code\":\"u\",\"verification_uri\":\"v\",\"expires_in\":1}";
    let grant = parse_device_grant(201, body).unwrap();
    assert_eq!(grant.interval, 7);
    assert_eq!(grant.expires_in, 1);
    assert_eq!(grant.device_code, "d");
}

#[test]
fn grant_response_without_a_field_is_a_parse_error() {
    let fields = [
        "\"device_code\":\"d1\"",
        "\"user_code\":\"ABCD-1234\"",
        "\"verification_uri\":\"https://example.com/device\"",
        "\"expires_in\":900",
        "\"interval\":5",
    ];
    for missing in 0..fields.len() {
        let kept: Vec<&str> = fields
            .iter()
            .enumerate()
            .filter(|(i, _)| *i != missing)
            .map(|(_, f)| *f)
            .collect();
        let body = format!("{{{}}}", kept.join(","));
        assert!(matches!(parse_device_grant(200, &body), Err(ApiError::ParseError(_))));
    }
}

#[test]
fn grant_response_with_a_wrong_type_is_a_parse_error() {
    let text_interval = GRANT.replace("\"interval\":5", "\"interval\":\"5\"");
    assert!(matches!(parse_device_grant(200, &text_interval), Err(ApiError::ParseError(_))));
    let negative = GRANT.replace("\"expires_in\":900", "\"expires_in\":-1");
    assert!(matches!(parse_device_grant(200, &negative), Err(ApiError::ParseError(_))));
    let number_code = GRANT.replace("\"device_code\":\"d1\"", "\"device_code\":1");
    assert!(matches!(parse_device_grant(200, &number_code), Err(ApiError::ParseError(_))));
}

#[test]
fn grant_response_that_is_no_json_is_a_parse_error() {
    assert!(matches!(parse_device_grant(200, "not json"), Err(ApiError::ParseError(_))));
    assert!(matches!(parse_device_grant(200, ""), Err(ApiError::ParseError(_))));
    assert!(matches!(parse_device_grant(200, "[1,2]"), Err(ApiError::ParseError(_))));
}

#[test]
fn grant_response_with_a_failure_status_is_a_request_error() {
    assert_eq!(
        parse_device_grant(404, "nothing here"),
        Err(ApiError::RequestError(404, "nothing here".to_string()))
    );
    assert_eq!(parse_device_grant(500, GRANT), Err(ApiError::RequestError(500, GRANT.to_string())));
    assert_eq!(parse_device_grant(199, GRANT), Err(ApiError::RequestError(199, GRANT.to_string())));
    assert_eq!(parse_device_grant(300, GRANT), Err(ApiError::RequestError(300, GRANT.to_string())));
    assert!(parse_device_grant(299, GRANT).is_ok());
}

#[test]
fn two_pending_replies_then_a_token_give_a_session() {
    let mut flow = started();
    assert_eq!(flow.interval(), 5);
    assert_eq!(flow.waited(), 0);

    assert_eq!(flow.next_wait(), Ok(5));
    assert_eq!(flow.on_response(200, PENDING), PollStep::Continue);
    assert_eq!(flow.next_wait(), Ok(5));
    assert_eq!(flow.on_response(200, PENDING), PollStep::Continue);
    assert_eq!(flow.next_wait(), Ok(5));
    let step = flow.on_response(200, TOKEN);
    assert_eq!(
        step,
        PollStep::Success(AuthSession {
            provider: Provider::DeviceCode,
            access_token: "tok123".to_string(),
            refresh_token: None,
            expires_at: None,
            scopes: Some(vec!["repo".to_string(), "user:email".to_string()]),
        })
    );
    assert_eq!(flow.waited(), 15);
}

#[test]
fn slow_down_lengthens_the_wait_before_the_next_poll() {
    let mut flow = started();
    assert_eq!(flow.next_wait(), Ok(5));
    assert_eq!(flow.on_response(200, PENDING), PollStep::Continue);
    assert_eq!(flow.next_wait(), Ok(5));
    assert_eq!(flow.on_response(200, PENDING), PollStep::Continue);
    assert_eq!(flow.next_wait(), Ok(5));
    assert_eq!(flow.on_response(200, SLOW_DOWN), PollStep::Continue);
    assert_eq!(flow.next_wait(), Ok(5 + 6));
    assert!(matches!(flow.on_response(200, TOKEN), PollStep::Success(_)));
}

#[test]
fn slow_down_adds_six_seconds_each_time() {
    let mut flow = started();
    let mut last = flow.interval();
    for n in 1..=20u64 {
        assert_eq!(flow.on_response(200, SLOW_DOWN), PollStep::Continue);
        assert_eq!(flow.interval(), 5 + SLOW_DOWN_SECONDS * n);
        assert!(flow.interval() >= last);
        last = flow.interval();
        assert_eq!(flow.on_response(200, PENDING), PollStep::Continue);
        assert_eq!(flow.interval(), last);
    }
    assert_eq!(flow.interval(), 125);
    assert_eq!(flow.next_wait(), Ok(125));
}

#[test]
fn slow_down_counts_under_a_failure_status_too() {
    let mut flow = started();
    assert_eq!(flow.on_response(400, SLOW_DOWN), PollStep::Continue);
    assert_eq!(flow.interval(), 11);
    assert_eq!(flow.on_response(428, PENDING), PollStep::Continue);
    assert_eq!(flow.interval(), 11);
}

#[test]
fn expired_token_ends_the_attempt() {
    let mut fresh = started();
    assert_eq!(fresh.on_response(200, EXPIRED), PollStep::Failure(expired()));

    let mut flow = started();
    assert_eq!(flow.on_response(200, PENDING), PollStep::Continue);
    assert_eq!(flow.on_response(200, SLOW_DOWN), PollStep::Continue);
    assert_eq!(flow.on_response(200, SLOW_DOWN), PollStep::Continue);
    assert_eq!(flow.on_response(200, PENDING), PollStep::Continue);
    assert_eq!(flow.on_response(400, EXPIRED), PollStep::Failure(expired()));
}

#[test]
fn other_refusals_carry_kind_and_description() {
    let mut flow = started();
    assert_eq!(
        flow.on_response(200, DENIED),
        PollStep::Failure(ApiError::AuthenticationError("AccessDenied: The user said no".to_string()))
    );
    let labels = [
        ("incorrect_client_credentials", "IncorrectClientCredentials"),
        ("unsupported_grant_type", "UnsupportedGrantType"),
        ("incorrect_device_code", "IncorrectDeviceCode"),
        ("device_flow_disabled", "DeviceFlowDisabled"),
    ];
    for (name, label) in labels {
        let body = DENIED.replace("access_denied", name);
        let mut flow = started();
        assert_eq!(
            flow.on_response(200, &body),
            PollStep::Failure(ApiError::AuthenticationError(format!("{}: The user said no", label)))
        );
    }
}

#[test]
fn failure_status_with_an_unreadable_body_is_a_request_error() {
    let mut flow = started();
    assert_eq!(
        flow.on_response(503, "<html>down</html>"),
        PollStep::Failure(ApiError::RequestError(503, "<html>down</html>".to_string()))
    );
    let mut flow = started();
    assert_eq!(
        flow.on_response(500, "{\"message\":\"no\"}"),
        PollStep::Failure(ApiError::RequestError(500, "{\"message\":\"no\"}".to_string()))
    );
    let mut flow = started();
    assert_eq!(
        flow.on_response(401, TOKEN),
        PollStep::Failure(ApiError::RequestError(401, TOKEN.to_string()))
    );
}

#[test]
fn success_status_with_an_unreadable_body_is_a_parse_error() {
    let mut flow = started();
    assert!(matches!(
        flow.on_response(200, "<html>"),
        PollStep::Failure(ApiError::ParseError(_))
    ));
    let mut flow = started();
    assert!(matches!(
        flow.on_response(200, "{\"error\":\"something_new\",\"error_description\":\"d\",\"error_uri\":\"u\"}"),
        PollStep::Failure(ApiError::ParseError(_))
    ));
    let mut flow = started();
    assert!(matches!(
        flow.on_response(200, "{\"access_token\":\"t\",\"token_type\":\"bearer\"}"),
        PollStep::Failure(ApiError::ParseError(_))
    ));
}

#[test]
fn poll_replies_are_told_apart() {
    assert_eq!(
        parse_poll_response(200, TOKEN),
        PollReply::Token {
            access_token: "tok123".to_string(),
            token_type: "bearer".to_string(),
            scope: "repo user:email".to_string(),
        }
    );
    assert_eq!(
        parse_poll_response(200, SLOW_DOWN),
        PollReply::Refused {
            kind: ProviderErrorKind::SlowDown,
            description: "too fast".to_string(),
            uri: "https://example.com/docs".to_string(),
        }
    );
    assert_eq!(
        parse_poll_response(502, "bad gateway"),
        PollReply::Rejected { status: 502, body: "bad gateway".to_string() }
    );
    assert!(matches!(parse_poll_response(200, "bad gateway"), PollReply::Malformed { .. }));
}

#[test]
fn advance_on_given_replies() {
    let mut flow = started();
    let step = flow.advance(PollReply::Token {
        access_token: "t".to_string(),
        token_type: "bearer".to_string(),
        scope: "".to_string(),
    });
    assert_eq!(
        step,
        PollStep::Success(AuthSession {
            provider: Provider::DeviceCode,
            access_token: "t".to_string(),
            refresh_token: None,
            expires_at: None,
            scopes: Some(vec!["".to_string()]),
        })
    );
    let step = flow.advance(PollReply::Malformed { detail: "why".to_string() });
    assert_eq!(step, PollStep::Failure(ApiError::ParseError("why".to_string())));
    assert_eq!(flow.interval(), 5);
}

#[test]
fn scope_string_keeps_empty_pieces() {
    let mut flow = started();
    let step = flow.advance(PollReply::Token {
        access_token: "t".to_string(),
        token_type: "bearer".to_string(),
        scope: "a  b ".to_string(),
    });
    match step {
        PollStep::Success(session) => {
            let expected: Vec<String> =
                ["a", "", "b", ""].iter().map(|s| s.to_string()).collect();
            assert_eq!(session.scopes, Some(expected));
        }
        other => panic!("unexpected step {:?}", other),
    }
}

#[test]
fn waiting_stops_when_the_codes_run_out() {
    let grant = DeviceAuthorizationGrant {
        device_code: "d".to_string(),
        user_code: "u".to_string(),
        verification_uri: "v".to_string(),
        expires_in: 12,
        interval: 5,
    };
    let mut flow = DeviceFlow::begin(grant);
    assert_eq!(flow.next_wait(), Ok(5));
    assert_eq!(flow.next_wait(), Ok(5));
    assert_eq!(flow.waited(), 10);
    assert_eq!(flow.next_wait(), Err(expired()));
    assert_eq!(flow.waited(), 10);
}

#[test]
fn waiting_may_use_the_whole_time() {
    let grant = DeviceAuthorizationGrant {
        device_code: "d".to_string(),
        user_code: "u".to_string(),
        verification_uri: "v".to_string(),
        expires_in: 10,
        interval: 5,
    };
    let mut flow = DeviceFlow::begin(grant);
    assert_eq!(flow.next_wait(), Ok(5));
    assert_eq!(flow.next_wait(), Ok(5));
    assert_eq!(flow.next_wait(), Err(expired()));
}

#[test]
fn an_interval_that_cannot_grow_ends_the_attempt() {
    let grant = DeviceAuthorizationGrant {
        device_code: "d".to_string(),
        user_code: "u".to_string(),
        verification_uri: "v".to_string(),
        expires_in: u64::MAX,
        interval: u64::MAX - 5,
    };
    let mut flow = DeviceFlow::begin(grant);
    assert_eq!(flow.on_response(200, SLOW_DOWN), PollStep::Failure(expired()));
    assert_eq!(flow.interval(), u64::MAX - 5);

    let grant = DeviceAuthorizationGrant {
        device_code: "d".to_string(),
        user_code: "u".to_string(),
        verification_uri: "v".to_string(),
        expires_in: u64::MAX,
        interval: u64::MAX - 6,
    };
    let mut flow = DeviceFlow::begin(grant);
    assert_eq!(flow.on_response(200, SLOW_DOWN), PollStep::Continue);
    assert_eq!(flow.interval(), u64::MAX);
}

#[test]
fn instructions_show_address_and_user_code_only() {
    let grant = parse_device_grant(200, GRANT).unwrap();
    let lines = grant.instructions();
    assert_eq!(
        lines,
        vec![
            "Please open the following URL in your browser to authenticate:".to_string(),
            "https://example.com/device".to_string(),
            "Enter the user code: ABCD-1234".to_string(),
            "Time limit: 900 seconds".to_string(),
            "Interval for polling: 5 seconds".to_string(),
        ]
    );
    assert!(lines.iter().all(|line| !line.contains("d1")));
}

#[test]
fn device_code_form_names_the_client() {
    assert_eq!(device_code_form("client-1"), vec![("client_id".to_string(), "client-1".to_string())]);
}

#[test]
fn poll_form_names_client_code_and_grant_type() {
    let flow = started();
    assert_eq!(flow.grant().device_code, "d1");
    assert_eq!(
        flow.poll_form("client-1"),
        vec![
            ("client_id".to_string(), "client-1".to_string()),
            ("device_code".to_string(), "d1".to_string()),
            ("grant_type".to_string(), "urn:ietf:params:oauth:grant-type:device_code".to_string()),
        ]
    );
    assert_eq!(DEVICE_GRANT_TYPE, "urn:ietf:params:oauth:grant-type:device_code");
}

#[test]
fn error_kinds_by_name() {
    assert_eq!(ProviderErrorKind::from_name("slow_down"), Some(ProviderErrorKind::SlowDown));
    assert_eq!(
        ProviderErrorKind::from_name("authorization_pending"),
        Some(ProviderErrorKind::AuthorizationPending)
    );
    assert_eq!(ProviderErrorKind::from_name("expired_token"), Some(ProviderErrorKind::ExpiredToken));
    assert_eq!(ProviderErrorKind::from_name("SlowDown"), None);
    assert_eq!(ProviderErrorKind::from_name(""), None);
    assert_eq!(ProviderErrorKind::ExpiredToken.label(), "ExpiredToken");
}
