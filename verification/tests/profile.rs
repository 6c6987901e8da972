use tsukimi::error::ApiError;
use tsukimi::profile::{parse_user_profile, profile_from_document};
use tsukimi::session::{AuthSession, Provider, UserInfo};

const PROFILE: &str = "{\"login\":\"octocat\",\"id\":583231,\"avatar_url\":\"https://avatars.example/u/583231\",\"html_url\":\"https://github.com/octocat\",\"name\":\"The Octocat\",\"email\":\"octocat@example.com\",\"company\":null}";

fn octocat() -> UserInfo {
    UserInfo {
        login: "octocat".to_string(),
        id: 583231,
        avatar_url: "https://avatars.example/u/583231".to_string(),
        html_url: "https://github.com/octocat".to_string(),
        name: Some("The Octocat".to_string()),
        email: Some("octocat@example.com".to_string()),
    }
}

#[test]
fn profile_is_read() {
    assert_eq!(parse_user_profile(200, PROFILE), Ok(octocat()));
    let document: serde_json::Value = serde_json::from_str(PROFILE).unwrap();
    assert_eq!(profile_from_document(&document), Some(octocat()));
}

#[test]
fn name_and_email_may_be_missing_or_null() {
    let body = "{\"login\":\"octocat\",\"id\":1,\"avatar_url\":\"a\",\"html_url\":\"h\",\"name\":null}";
    assert_eq!(
        parse_user_profile(200, body),
        Ok(UserInfo {
            login: "octocat".to_string(),
            id: 1,
            avatar_url: "a".to_string(),
            html_url: "h".to_string(),
            name: None,
            email: None,
        })
    );
}

#[test]
fn malformed_profiles_are_parse_errors() {
    let bodies = [
        "",
        "[]",
        "{\"id\":1,\"avatar_url\":\"a\",\"html_url\":\"h\"}",
        "{\"login\":\"o\",\"id\":\"1\",\"avatar_url\":\"a\",\"html_url\":\"h\"}",
        "{\"login\":\"o\",\"id\":1.5,\"avatar_url\":\"a\",\"html_url\":\"h\"}",
        "{\"login\":\"o\",\"id\":1,\"avatar_url\":\"a\",\"html_url\":\"h\",\"name\":3}",
        "{\"login\":\"o\",\"id\":1,\"avatar_url\":\"a\",\"html_url\":\"h\",\"email\":[]}",
        "{\"message\":\"Bad credentials\"}",
        "null",
    ];
    for body in bodies {
        assert!(matches!(parse_user_profile(200, body), Err(ApiError::ParseError(_))), "{}", body);
    }
}

#[test]
fn failure_status_of_the_profile_endpoint_is_a_request_error() {
    let refused = "{\"message\":\"Bad credentials\"}";
    assert_eq!(
        parse_user_profile(401, refused),
        Err(ApiError::RequestError(401, refused.to_string()))
    );
    assert_eq!(
        parse_user_profile(403, "rate limited"),
        Err(ApiError::RequestError(403, "rate limited".to_string()))
    );
    assert_eq!(parse_user_profile(500, PROFILE), Err(ApiError::RequestError(500, PROFILE.to_string())));
    assert_eq!(parse_user_profile(199, PROFILE), Err(ApiError::RequestError(199, PROFILE.to_string())));
    assert_eq!(parse_user_profile(300, PROFILE), Err(ApiError::RequestError(300, PROFILE.to_string())));
    assert_eq!(parse_user_profile(299, PROFILE), Ok(octocat()));
}

#[test]
fn user_is_shown_with_name_and_email() {
    assert_eq!(octocat().format(), "The Octocat <octocat@example.com>");
    let unnamed = UserInfo { name: None, ..octocat() };
    assert_eq!(unnamed.format(), "octocat <octocat@example.com>");
    let hidden = UserInfo { email: None, ..octocat() };
    assert_eq!(hidden.format(), "The Octocat <No email>");
    let neither = UserInfo { name: None, email: None, ..octocat() };
    assert_eq!(neither.format(), "octocat <No email>");
}

#[test]
fn session_presents_itself_as_bearer() {
    let session = AuthSession {
        provider: Provider::DeviceCode,
        access_token: "tok123".to_string(),
        refresh_token: None,
        expires_at: None,
        scopes: None,
    };
    assert_eq!(session.bearer(), "Bearer tok123");
}

#[test]
fn flows_are_offered_by_their_lines() {
    assert_eq!(Provider::DeviceCode.str_select(), "Login with a web browser (Device Code)");
    assert_eq!(Provider::OAuth.str_select(), "Login with OAuth (not implemented yet)");
}
