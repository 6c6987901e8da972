use tsukimi::error::{status_is_success, ApiError, CredentialsError};
use tsukimi::login::{
    already_logged_in, chosen_flow, confirmation, flow_choices, flow_ended, plan_login, CliError,
    CliResult, LoginPlan,
};
use tsukimi::plugin::{NotFoundType, PluginError};
use tsukimi::session::{AuthSession, Provider, UserInfo};

fn session() -> AuthSession {
    AuthSession {
        provider: Provider::DeviceCode,
        access_token: "tok123".to_string(),
        refresh_token: None,
        expires_at: None,
        scopes: Some(vec!["repo".to_string()]),
    }
}

fn user() -> UserInfo {
    UserInfo {
        login: "octocat".to_string(),
        id: 1,
        avatar_url: "a".to_string(),
        html_url: "h".to_string(),
        name: None,
        email: Some("o@example.com".to_string()),
    }
}

#[test]
fn stored_session_stops_the_login() {
    assert_eq!(plan_login(Ok(session())), LoginPlan::AlreadyAuthenticated(session()));
    assert_eq!(already_logged_in(Ok(user())), CliError::AlreadyLoggedIn(user()));
    assert_eq!(
        already_logged_in(Ok(user())).message(),
        "You are already logged in as octocat <o@example.com>"
    );
    let failure = ApiError::NetworkError("offline".to_string());
    assert_eq!(already_logged_in(Err(failure.clone())), CliError::WebError(failure));
}

#[test]
fn no_session_offers_the_flows() {
    assert_eq!(plan_login(Err(CredentialsError::TokenNotFound)), LoginPlan::ChooseFlow);
    assert_eq!(plan_login(Err(CredentialsError::TokenReadError)), LoginPlan::ChooseFlow);
    assert_eq!(flow_choices(), vec![Provider::DeviceCode, Provider::OAuth]);
}

#[test]
fn choice_is_taken_or_missed() {
    assert_eq!(chosen_flow(Some(Provider::OAuth)), Ok(Provider::OAuth));
    assert_eq!(chosen_flow(Some(Provider::DeviceCode)), Ok(Provider::DeviceCode));
    assert_eq!(
        chosen_flow(None),
        Err(CliError::WebError(ApiError::AuthenticationError(
            "Failed to select authentication method".to_string()
        )))
    );
}

#[test]
fn flow_failure_is_passed_on_unchanged() {
    assert_eq!(flow_ended(Ok(session())), Ok(session()));
    let failures = [
        ApiError::AuthenticationError("Device code expired".to_string()),
        ApiError::RequestError(500, "oops".to_string()),
        ApiError::ParseError("eof".to_string()),
        ApiError::NetworkError("refused".to_string()),
    ];
    for failure in failures {
        assert_eq!(flow_ended(Err(failure.clone())), Err(CliError::WebError(failure)));
    }
}

#[test]
fn login_is_confirmed_with_the_user() {
    assert_eq!(confirmation(Ok(user())), Ok("Connected as: octocat <o@example.com>".to_string()));
    let failure = ApiError::ParseError("eof".to_string());
    assert_eq!(confirmation(Err(failure.clone())), Err(CliError::WebError(failure)));
}

#[test]
fn api_errors_have_messages() {
    assert_eq!(ApiError::NetworkError("refused".to_string()).message(), "Network error: refused");
    assert_eq!(
        ApiError::RequestError(404, "gone".to_string()).message(),
        "Request error: 404 - gone"
    );
    assert_eq!(ApiError::ParseError("eof".to_string()).message(), "Parse error: eof");
    assert_eq!(
        ApiError::AuthenticationError("denied".to_string()).message(),
        "Authentication error: denied"
    );
    assert_eq!(ApiError::NotFound("x".to_string()).message(), "Authorization error: x");
    assert_eq!(
        ApiError::InternalServerError("x".to_string()).message(),
        "Internal server error: x"
    );
    assert_eq!(ApiError::Unauthorized("x".to_string()).message(), "Service unavailable: x");
    assert_eq!(ApiError::Forbidden("x".to_string()).message(), "Forbidden: x");
    assert_eq!(ApiError::BadRequest("x".to_string()).message(), "Bad request: x");
}

#[test]
fn cli_errors_show_what_they_wrap() {
    assert_eq!(
        CliError::WebError(ApiError::ParseError("eof".to_string())).message(),
        "Parse error: eof"
    );
    assert_eq!(
        CliError::CredentialsError(CredentialsError::TokenReadError).message(),
        "Failed to read token"
    );
    assert_eq!(
        CliError::PluginError(PluginError::NotFound(NotFoundType::ProjectPath)).message(),
        "project path not found"
    );
    let done: CliResult = Ok(());
    assert!(done.is_ok());
}

#[test]
fn transport_failures_are_classified() {
    assert_eq!(
        ApiError::from_transport(Some(502), "bad gateway".to_string()),
        ApiError::RequestError(502, "bad gateway".to_string())
    );
    assert_eq!(
        ApiError::from_transport(None, "connection refused".to_string()),
        ApiError::NetworkError("connection refused".to_string())
    );
    assert_eq!(
        ApiError::from_decoding("eof".to_string()),
        ApiError::ParseError("eof".to_string())
    );
}

#[test]
fn success_is_two_hundred_to_two_ninety_nine() {
    assert!(!status_is_success(0));
    assert!(!status_is_success(199));
    assert!(status_is_success(200));
    assert!(status_is_success(204));
    assert!(status_is_success(299));
    assert!(!status_is_success(300));
    assert!(!status_is_success(428));
    assert!(!status_is_success(u16::MAX));
}
