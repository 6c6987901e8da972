//! The device authorization grant: the request for a device code, and the
//! polling of the token endpoint until the user has decided.
//!
//! The library decides and the caller acts. The caller posts the requests and
//! sleeps; it hands each response to the functions of this module and does
//! what they return.

use crate::error::{is_success, status_is_success, ApiError, ApiErrorView};
use crate::json::{
    error_detail, get_number, get_text, json_document, number_member, parse_document, text_member,
};
use crate::session::{split_scopes, AuthSession, Provider, SessionView};
use crate::text::{push_decimal, push_text, split_on, str_eq};
use vstd::prelude::*;

verus! {

/// The grant type that the token endpoint is polled with.
pub const DEVICE_GRANT_TYPE: &'static str = "urn:ietf:params:oauth:grant-type:device_code";

/// The seconds by which a `slow_down` lengthens the wait between two polls.
pub const SLOW_DOWN_SECONDS: u64 = 6;

/// What the provider grants to a device that asks to be authorized.
#[derive(Debug, Clone, PartialEq, Eq)]
pub struct DeviceAuthorizationGrant {
    /// Identifies this attempt to the provider. Never shown.
    pub device_code: String,
    /// The code that the user enters at `verification_uri`.
    pub user_code: String,
    pub verification_uri: String,
    /// The seconds for which the codes are valid.
    pub expires_in: u64,
    /// The least number of seconds between two polls.
    pub interval: u64,
}

/// A `DeviceAuthorizationGrant` with its texts as sequences of characters.
pub struct GrantView {
    pub device_code: Seq<char>,
    pub user_code: Seq<char>,
    pub verification_uri: Seq<char>,
    pub expires_in: u64,
    pub interval: u64,
}

impl View for DeviceAuthorizationGrant {
    type V = GrantView;

    open spec fn view(&self) -> GrantView {
        GrantView {
            device_code: self.device_code@,
            user_code: self.user_code@,
            verification_uri: self.verification_uri@,
            expires_in: self.expires_in,
            interval: self.interval,
        }
    }
}

/// The grant that a document holds: every one of the five members must be
/// there, the codes and the address as texts, the two spans as numbers.
pub open spec fn grant_in(document: serde_json::Value) -> Option<GrantView> {
    if text_member(document, "device_code"@) is Some && text_member(document, "user_code"@) is Some
        && text_member(document, "verification_uri"@) is Some && number_member(
        document,
        "expires_in"@,
    ) is Some && number_member(document, "interval"@) is Some {
        Some(
            GrantView {
                device_code: text_member(document, "device_code"@)->Some_0,
                user_code: text_member(document, "user_code"@)->Some_0,
                verification_uri: text_member(document, "verification_uri"@)->Some_0,
                expires_in: number_member(document, "expires_in"@)->Some_0,
                interval: number_member(document, "interval"@)->Some_0,
            },
        )
    } else {
        None
    }
}

/// The grant that the text of a response holds.
pub open spec fn grant_in_body(body: Seq<char>) -> Option<GrantView> {
    match json_document(body) {
        Some(document) => grant_in(document),
        None => None,
    }
}

/// Reads a grant from a parsed response.
pub fn grant_from_document(document: &serde_json::Value) -> (r: Option<DeviceAuthorizationGrant>)
    ensures
        r is Some <==> grant_in(*document) is Some,
        r is Some ==> r->Some_0@ == grant_in(*document)->Some_0,
{
    let device_code = get_text(document, "device_code");
    let user_code = get_text(document, "user_code");
    let verification_uri = get_text(document, "verification_uri");
    let expires_in = get_number(document, "expires_in");
    let interval = get_number(document, "interval");
    match (device_code, user_code, verification_uri, expires_in, interval) {
        (
            Some(device_code),
            Some(user_code),
            Some(verification_uri),
            Some(expires_in),
            Some(interval),
        ) => Some(
            DeviceAuthorizationGrant {
                device_code,
                user_code,
                verification_uri,
                expires_in,
                interval,
            },
        ),
        _ => None,
    }
}

/// Reads the response of the device-code endpoint.
///
/// A status that reports a failure gives a `RequestError` with that status
/// and the body. Otherwise the body must hold a grant: where it does, the
/// grant is returned with all its fields; where a member is missing or has
/// the wrong type, or the body is no JSON at all, the result is a `ParseError`.
pub fn parse_device_grant(status: u16, body: &str) -> (r: Result<
    DeviceAuthorizationGrant,
    ApiError,
>)
    ensures
        !is_success(status) ==> r is Err && r->Err_0@ == ApiErrorView::RequestError(status, body@),
        is_success(status) && grant_in_body(body@) is Some ==> r is Ok && r->Ok_0@ == grant_in_body(
            body@,
        )->Some_0,
        is_success(status) && grant_in_body(body@) is None ==> r is Err && r->Err_0@ is ParseError,
{
    if !status_is_success(status) {
        return Err(ApiError::RequestError(status, body.to_owned()));
    }
    match parse_document(body) {
        Ok(document) => match grant_from_document(&document) {
            Some(grant) => Ok(grant),
            None => Err(ApiError::ParseError(String::from_str("missing field in device grant"))),
        },
        Err(e) => Err(ApiError::ParseError(error_detail(&e))),
    }
}

impl GrantView {
    /// The lines that tell the user where to go and what to enter.
    pub open spec fn instructions(self) -> Seq<Seq<char>> {
        seq![
            "Please open the following URL in your browser to authenticate:"@,
            self.verification_uri,
            "Enter the user code: "@ + self.user_code,
            "Time limit: "@ + crate::text::decimal(self.expires_in as nat) + " seconds"@,
            "Interval for polling: "@ + crate::text::decimal(self.interval as nat) + " seconds"@,
        ]
    }
}

/// `head`, `n` in decimal, `tail`.
fn counted(head: &str, n: u64, tail: &str) -> (s: String)
    ensures
        s@ == head@ + crate::text::decimal(n as nat) + tail@,
{
    let mut s = String::new();
    push_text(&mut s, head);
    push_decimal(&mut s, n);
    push_text(&mut s, tail);
    proof {
        assert(s@ =~= head@ + crate::text::decimal(n as nat) + tail@);
    }
    s
}

impl DeviceAuthorizationGrant {
    /// The lines that tell the user where to go and what to enter. The device
    /// code is not among them.
    pub fn instructions(&self) -> (lines: Vec<String>)
        ensures
            crate::text::texts(lines@) == self@.instructions(),
    {
        let mut code = String::new();
        push_text(&mut code, "Enter the user code: ");
        push_text(&mut code, self.user_code.as_str());
        let lines = vec![
            String::from_str("Please open the following URL in your browser to authenticate:"),
            self.verification_uri.clone(),
            code,
            counted("Time limit: ", self.expires_in, " seconds"),
            counted("Interval for polling: ", self.interval, " seconds"),
        ];
        proof {
            assert(code@ =~= "Enter the user code: "@ + self.user_code@);
            assert(crate::text::texts(lines@) =~= self@.instructions());
        }
        lines
    }
}

/// The fields of the form that asks for a device code.
pub fn device_code_form(client_id: &str) -> (form: Vec<(String, String)>)
    ensures
        form@.len() == 1,
        form@[0].0@ == "client_id"@ && form@[0].1@ == client_id@,
{
    vec![(String::from_str("client_id"), client_id.to_owned())]
}

/// The kinds of refusal that the token endpoint reports.
#[derive(Debug, Clone, Copy, PartialEq, Eq, Structural)]
pub enum ProviderErrorKind {
    IncorrectClientCredentials,
    AuthorizationPending,
    SlowDown,
    ExpiredToken,
    UnsupportedGrantType,
    IncorrectDeviceCode,
    AccessDenied,
    DeviceFlowDisabled,
}

impl ProviderErrorKind {
    /// The kind that the provider writes as `name`.
    pub open spec fn spec_from_name(name: Seq<char>) -> Option<ProviderErrorKind> {
        if name == "incorrect_client_credentials"@ {
            Some(ProviderErrorKind::IncorrectClientCredentials)
        } else if name == "authorization_pending"@ {
            Some(ProviderErrorKind::AuthorizationPending)
        } else if name == "slow_down"@ {
            Some(ProviderErrorKind::SlowDown)
        } else if name == "expired_token"@ {
            Some(ProviderErrorKind::ExpiredToken)
        } else if name == "unsupported_grant_type"@ {
            Some(ProviderErrorKind::UnsupportedGrantType)
        } else if name == "incorrect_device_code"@ {
            Some(ProviderErrorKind::IncorrectDeviceCode)
        } else if name == "access_denied"@ {
            Some(ProviderErrorKind::AccessDenied)
        } else if name == "device_flow_disabled"@ {
            Some(ProviderErrorKind::DeviceFlowDisabled)
        } else {
            None
        }
    }

    /// The kind that the provider writes as `name`, if it is one of the known kinds.
    pub fn from_name(name: &str) -> (r: Option<ProviderErrorKind>)
        ensures
            r == Self::spec_from_name(name@),
    {
        if str_eq(name, "incorrect_client_credentials") {
            Some(ProviderErrorKind::IncorrectClientCredentials)
        } else if str_eq(name, "authorization_pending") {
            Some(ProviderErrorKind::AuthorizationPending)
        } else if str_eq(name, "slow_down") {
            Some(ProviderErrorKind::SlowDown)
        } else if str_eq(name, "expired_token") {
            Some(ProviderErrorKind::ExpiredToken)
        } else if str_eq(name, "unsupported_grant_type") {
            Some(ProviderErrorKind::UnsupportedGrantType)
        } else if str_eq(name, "incorrect_device_code") {
            Some(ProviderErrorKind::IncorrectDeviceCode)
        } else if str_eq(name, "access_denied") {
            Some(ProviderErrorKind::AccessDenied)
        } else if str_eq(name, "device_flow_disabled") {
            Some(ProviderErrorKind::DeviceFlowDisabled)
        } else {
            None
        }
    }

    /// The name under which a failure shows this kind.
    pub open spec fn spec_label(self) -> Seq<char> {
        match self {
            ProviderErrorKind::IncorrectClientCredentials => "IncorrectClientCredentials"@,
            ProviderErrorKind::AuthorizationPending => "AuthorizationPending"@,
            ProviderErrorKind::SlowDown => "SlowDown"@,
            ProviderErrorKind::ExpiredToken => "ExpiredToken"@,
            ProviderErrorKind::UnsupportedGrantType => "UnsupportedGrantType"@,
            ProviderErrorKind::IncorrectDeviceCode => "IncorrectDeviceCode"@,
            ProviderErrorKind::AccessDenied => "AccessDenied"@,
            ProviderErrorKind::DeviceFlowDisabled => "DeviceFlowDisabled"@,
        }
    }

    /// The name under which a failure shows this kind.
    pub fn label(&self) -> (s: &'static str)
        ensures
            s@ == self.spec_label(),
    {
        match self {
            ProviderErrorKind::IncorrectClientCredentials => "IncorrectClientCredentials",
            ProviderErrorKind::AuthorizationPending => "AuthorizationPending",
            ProviderErrorKind::SlowDown => "SlowDown",
            ProviderErrorKind::ExpiredToken => "ExpiredToken",
            ProviderErrorKind::UnsupportedGrantType => "UnsupportedGrantType",
            ProviderErrorKind::IncorrectDeviceCode => "IncorrectDeviceCode",
            ProviderErrorKind::AccessDenied => "AccessDenied",
            ProviderErrorKind::DeviceFlowDisabled => "DeviceFlowDisabled",
        }
    }
}

/// What one poll of the token endpoint brought.
#[derive(Debug, Clone, PartialEq, Eq)]
pub enum PollReply {
    /// The token: the user has approved.
    Token { access_token: String, token_type: String, scope: String },
    /// An error object of the provider.
    Refused { kind: ProviderErrorKind, description: String, uri: String },
    /// A failure status whose body is neither of the two.
    Rejected { status: u16, body: String },
    /// A success status whose body is neither of the two.
    Malformed { detail: String },
}

/// A `PollReply` with its texts as sequences of characters.
pub enum PollReplyView {
    Token { access_token: Seq<char>, token_type: Seq<char>, scope: Seq<char> },
    Refused { kind: ProviderErrorKind, description: Seq<char>, uri: Seq<char> },
    Rejected { status: u16, body: Seq<char> },
    Malformed { detail: Seq<char> },
}

impl View for PollReply {
    type V = PollReplyView;

    open spec fn view(&self) -> PollReplyView {
        match self {
            PollReply::Token { access_token, token_type, scope } => PollReplyView::Token {
                access_token: access_token@,
                token_type: token_type@,
                scope: scope@,
            },
            PollReply::Refused { kind, description, uri } => PollReplyView::Refused {
                kind: *kind,
                description: description@,
                uri: uri@,
            },
            PollReply::Rejected { status, body } => PollReplyView::Rejected {
                status: *status,
                body: body@,
            },
            PollReply::Malformed { detail } => PollReplyView::Malformed { detail: detail@ },
        }
    }
}

/// Whether a document is a token payload: `access_token`, `token_type` and
/// `scope` are all there, as texts.
pub open spec fn is_token_payload(document: serde_json::Value) -> bool {
    text_member(document, "access_token"@) is Some && text_member(document, "token_type"@) is Some
        && text_member(document, "scope"@) is Some
}

/// Whether a document is an error object: `error` names a known kind, and
/// `error_description` and `error_uri` are there, as texts.
pub open spec fn is_error_object(document: serde_json::Value) -> bool {
    text_member(document, "error"@) is Some && ProviderErrorKind::spec_from_name(
        text_member(document, "error"@)->Some_0,
    ) is Some && text_member(document, "error_description"@) is Some && text_member(
        document,
        "error_uri"@,
    ) is Some
}

/// What a response of the token endpoint means, but for the wording of
/// `Malformed`, which is left open.
///
/// A token payload counts only under a success status. An error object
/// counts under any status. A body that is neither is `Malformed` under a
/// success status and `Rejected` under any other.
pub open spec fn reply_in(status: u16, body: Seq<char>) -> PollReplyView {
    let neither = if is_success(status) {
        PollReplyView::Malformed { detail: Seq::empty() }
    } else {
        PollReplyView::Rejected { status, body }
    };
    match json_document(body) {
        Some(document) => if is_token_payload(document) {
            if is_success(status) {
                PollReplyView::Token {
                    access_token: text_member(document, "access_token"@)->Some_0,
                    token_type: text_member(document, "token_type"@)->Some_0,
                    scope: text_member(document, "scope"@)->Some_0,
                }
            } else {
                PollReplyView::Rejected { status, body }
            }
        } else if is_error_object(document) {
            PollReplyView::Refused {
                kind: ProviderErrorKind::spec_from_name(
                    text_member(document, "error"@)->Some_0,
                )->Some_0,
                description: text_member(document, "error_description"@)->Some_0,
                uri: text_member(document, "error_uri"@)->Some_0,
            }
        } else {
            neither
        },
        None => neither,
    }
}

/// Whether two replies are the same, the wording of `Malformed` aside.
pub open spec fn same_reply(a: PollReplyView, b: PollReplyView) -> bool {
    if a is Malformed {
        b is Malformed
    } else {
        a == b
    }
}

/// The token payload in a parsed response, if it is one.
fn token_from_document(document: &serde_json::Value) -> (r: Option<PollReply>)
    ensures
        r is Some <==> is_token_payload(*document),
        r is Some ==> r->Some_0@ == (PollReplyView::Token {
            access_token: text_member(*document, "access_token"@)->Some_0,
            token_type: text_member(*document, "token_type"@)->Some_0,
            scope: text_member(*document, "scope"@)->Some_0,
        }),
{
    let access_token = get_text(document, "access_token");
    let token_type = get_text(document, "token_type");
    let scope = get_text(document, "scope");
    match (access_token, token_type, scope) {
        (Some(access_token), Some(token_type), Some(scope)) => Some(
            PollReply::Token { access_token, token_type, scope },
        ),
        _ => None,
    }
}

/// The error object in a parsed response, if it is one.
fn refusal_from_document(document: &serde_json::Value) -> (r: Option<PollReply>)
    ensures
        r is Some <==> is_error_object(*document),
        r is Some ==> r->Some_0@ == (PollReplyView::Refused {
            kind: ProviderErrorKind::spec_from_name(
                text_member(*document, "error"@)->Some_0,
            )->Some_0,
            description: text_member(*document, "error_description"@)->Some_0,
            uri: text_member(*document, "error_uri"@)->Some_0,
        }),
{
    let name = get_text(document, "error");
    let description = get_text(document, "error_description");
    let uri = get_text(document, "error_uri");
    match (name, description, uri) {
        (Some(name), Some(description), Some(uri)) => match ProviderErrorKind::from_name(
            name.as_str(),
        ) {
            Some(kind) => Some(PollReply::Refused { kind, description, uri }),
            None => None,
        },
        _ => None,
    }
}

/// Reads one response of the token endpoint.
pub fn parse_poll_response(status: u16, body: &str) -> (r: PollReply)
    ensures
        same_reply(reply_in(status, body@), r@),
{
    let ok = status_is_success(status);
    match parse_document(body) {
        Ok(document) => {
            match token_from_document(&document) {
                Some(token) => {
                    if ok {
                        token
                    } else {
                        PollReply::Rejected { status, body: body.to_owned() }
                    }
                },
                None => match refusal_from_document(&document) {
                    Some(refusal) => refusal,
                    None => {
                        if ok {
                            PollReply::Malformed {
                                detail: String::from_str(
                                    "neither a token nor an error of the provider",
                                ),
                            }
                        } else {
                            PollReply::Rejected { status, body: body.to_owned() }
                        }
                    },
                },
            }
        },
        Err(e) => {
            if ok {
                PollReply::Malformed { detail: error_detail(&e) }
            } else {
                PollReply::Rejected { status, body: body.to_owned() }
            }
        },
    }
}

/// What the caller does after a reply.
#[derive(Debug, Clone, PartialEq, Eq)]
pub enum PollStep {
    /// Wait and poll again.
    Continue,
    /// The flow has ended with a session.
    Success(AuthSession),
    /// The flow has ended with a failure.
    Failure(ApiError),
}

/// A `PollStep` with its texts as sequences of characters.
pub enum PollStepView {
    Continue,
    Success(SessionView),
    Failure(ApiErrorView),
}

impl View for PollStep {
    type V = PollStepView;

    open spec fn view(&self) -> PollStepView {
        match self {
            PollStep::Continue => PollStepView::Continue,
            PollStep::Success(s) => PollStepView::Success(s@),
            PollStep::Failure(e) => PollStepView::Failure(e@),
        }
    }
}

/// The state of one attempt, as contracts see it.
pub struct FlowView {
    pub grant: GrantView,
    /// The seconds to wait before the next poll.
    pub interval: u64,
    /// The seconds waited so far.
    pub waited: u64,
}

/// The failure with which an attempt ends once its codes are no longer valid.
pub open spec fn expired() -> ApiErrorView {
    ApiErrorView::AuthenticationError("Device code expired"@)
}

/// The session that a token payload gives: of the device flow, with the
/// scopes of the space-delimited scope string, and without refresh token or
/// expiry.
pub open spec fn device_session(access_token: Seq<char>, scope: Seq<char>) -> SessionView {
    SessionView {
        provider: Provider::DeviceCode,
        access_token,
        refresh_token: None,
        expires_at: None,
        scopes: Some(split_on(scope, ' ')),
    }
}

impl FlowView {
    /// No more has been waited than the codes are valid for.
    pub open spec fn wf(self) -> bool {
        self.waited <= self.grant.expires_in
    }

    /// The state and the step after `reply`.
    ///
    /// Only `slow_down` changes the state: it lengthens the interval by
    /// `SLOW_DOWN_SECONDS`, for the rest of the attempt. An interval that can
    /// no longer be lengthened ends the attempt as expired.
    pub open spec fn advance(self, reply: PollReplyView) -> (FlowView, PollStepView) {
        match reply {
            PollReplyView::Token { access_token, token_type, scope } => (
                self,
                PollStepView::Success(device_session(access_token, scope)),
            ),
            PollReplyView::Refused { kind, description, uri } => match kind {
                ProviderErrorKind::AuthorizationPending => (self, PollStepView::Continue),
                ProviderErrorKind::SlowDown => if self.interval + SLOW_DOWN_SECONDS <= u64::MAX {
                    (
                        FlowView {
                            interval: (self.interval + SLOW_DOWN_SECONDS) as u64,
                            ..self
                        },
                        PollStepView::Continue,
                    )
                } else {
                    (self, PollStepView::Failure(expired()))
                },
                ProviderErrorKind::ExpiredToken => (self, PollStepView::Failure(expired())),
                _ => (
                    self,
                    PollStepView::Failure(
                        ApiErrorView::AuthenticationError(kind.spec_label() + ": "@ + description),
                    ),
                ),
            },
            PollReplyView::Rejected { status, body } => (
                self,
                PollStepView::Failure(ApiErrorView::RequestError(status, body)),
            ),
            PollReplyView::Malformed { detail } => (
                self,
                PollStepView::Failure(ApiErrorView::ParseError(detail)),
            ),
        }
    }

    /// The state and the step after a run of replies, which ends with the
    /// first reply that ends the attempt.
    pub open spec fn run(self, replies: Seq<PollReplyView>) -> (FlowView, PollStepView)
        decreases replies.len(),
    {
        if replies.len() == 0 {
            (self, PollStepView::Continue)
        } else {
            let (next, step) = self.advance(replies[0]);
            if step is Continue {
                next.run(replies.drop_first())
            } else {
                (next, step)
            }
        }
    }
}

/// Whether a reply is the provider's `authorization_pending`.
pub open spec fn is_pending(reply: PollReplyView) -> bool {
    reply is Refused && reply->kind == ProviderErrorKind::AuthorizationPending
}

/// Whether a reply is the provider's `slow_down`.
pub open spec fn is_slow_down(reply: PollReplyView) -> bool {
    reply is Refused && reply->kind == ProviderErrorKind::SlowDown
}

/// Whether a reply is the provider's `expired_token`.
pub open spec fn is_expired_token(reply: PollReplyView) -> bool {
    reply is Refused && reply->kind == ProviderErrorKind::ExpiredToken
}

/// The number of `slow_down` replies among `replies`.
pub open spec fn slow_downs(replies: Seq<PollReplyView>) -> nat
    decreases replies.len(),
{
    if replies.len() == 0 {
        0
    } else {
        slow_downs(replies.drop_first()) + if is_slow_down(replies[0]) {
            1nat
        } else {
            0nat
        }
    }
}

/// An attempt that is still polling after a run of replies waits, from then
/// on, six seconds longer for each `slow_down` that the run held, and has
/// changed in nothing else.
pub proof fn lemma_slow_down_lengthens_interval(flow: FlowView, replies: Seq<PollReplyView>)
    requires
        flow.run(replies).1 is Continue,
    ensures
        flow.run(replies).0.interval == flow.interval + SLOW_DOWN_SECONDS * slow_downs(replies),
        flow.run(replies).0.waited == flow.waited,
        flow.run(replies).0.grant == flow.grant,
    decreases replies.len(),
{
    if replies.len() > 0 {
        let (next, step) = flow.advance(replies[0]);
        lemma_slow_down_lengthens_interval(next, replies.drop_first());
    }
}

/// No reply shortens the interval: after any run of replies it is at least
/// what it was before.
pub proof fn lemma_interval_never_shrinks(flow: FlowView, replies: Seq<PollReplyView>)
    ensures
        flow.run(replies).0.interval >= flow.interval,
    decreases replies.len(),
{
    if replies.len() > 0 {
        let (next, step) = flow.advance(replies[0]);
        if step is Continue {
            lemma_interval_never_shrinks(next, replies.drop_first());
        }
    }
}

/// An `expired_token` ends the attempt with the failure `expired()`, however
/// many `authorization_pending` and `slow_down` replies came before it.
pub proof fn lemma_expired_token_ends_attempt(
    flow: FlowView,
    replies: Seq<PollReplyView>,
    at: int,
)
    requires
        0 <= at < replies.len(),
        is_expired_token(replies[at]),
        forall|i: int|
            0 <= i < at ==> is_pending(#[trigger] replies[i]) || is_slow_down(replies[i]),
    ensures
        flow.run(replies).1 == PollStepView::Failure(expired()),
    decreases at,
{
    let (next, step) = flow.advance(replies[0]);
    if at > 0 {
        assert(is_pending(replies[0]) || is_slow_down(replies[0]));
        if step is Continue {
            let rest = replies.drop_first();
            assert(rest[at - 1] == replies[at]);
            assert forall|i: int| 0 <= i < at - 1 implies is_pending(#[trigger] rest[i])
                || is_slow_down(rest[i]) by {
                assert(rest[i] == replies[i + 1]);
            }
            lemma_expired_token_ends_attempt(next, rest, at - 1);
        }
    }
}

/// One attempt to log in by the device flow.
#[derive(Debug, Clone, PartialEq, Eq)]
pub struct DeviceFlow {
    grant: DeviceAuthorizationGrant,
    interval: u64,
    waited: u64,
}

impl View for DeviceFlow {
    type V = FlowView;

    closed spec fn view(&self) -> FlowView {
        FlowView { grant: self.grant@, interval: self.interval, waited: self.waited }
    }
}

impl DeviceFlow {
    /// Starts an attempt: nothing has been waited yet, and the interval is
    /// the one that the provider asked for.
    pub fn begin(grant: DeviceAuthorizationGrant) -> (flow: DeviceFlow)
        ensures
            flow@ == (FlowView { grant: grant@, interval: grant.interval, waited: 0 }),
            flow@.wf(),
    {
        let interval = grant.interval;
        DeviceFlow { grant, interval, waited: 0 }
    }

    /// The grant that this attempt polls for.
    pub fn grant(&self) -> (g: &DeviceAuthorizationGrant)
        ensures
            g@ == self@.grant,
    {
        &self.grant
    }

    /// The seconds to wait before the next poll.
    pub fn interval(&self) -> (seconds: u64)
        ensures
            seconds == self@.interval,
    {
        self.interval
    }

    /// The seconds waited so far.
    pub fn waited(&self) -> (seconds: u64)
        ensures
            seconds == self@.waited,
    {
        self.waited
    }

    /// The fields of the form that one poll posts.
    pub fn poll_form(&self, client_id: &str) -> (form: Vec<(String, String)>)
        ensures
            form@.len() == 3,
            form@[0].0@ == "client_id"@ && form@[0].1@ == client_id@,
            form@[1].0@ == "device_code"@ && form@[1].1@ == self@.grant.device_code,
            form@[2].0@ == "grant_type"@ && form@[2].1@ == DEVICE_GRANT_TYPE@,
    {
        vec![
            (String::from_str("client_id"), client_id.to_owned()),
            (String::from_str("device_code"), self.grant.device_code.clone()),
            (String::from_str("grant_type"), String::from_str(DEVICE_GRANT_TYPE)),
        ]
    }

    /// The seconds to sleep before the next poll: the current interval, never
    /// less. The attempt ends as expired where that wait would pass the time
    /// for which the codes are valid.
    pub fn next_wait(&mut self) -> (r: Result<u64, ApiError>)
        ensures
            old(self)@.waited + old(self)@.interval <= old(self)@.grant.expires_in ==> r == Ok::<
                u64,
                ApiError,
            >(old(self)@.interval) && final(self)@ == (FlowView {
                waited: (old(self)@.waited + old(self)@.interval) as u64,
                ..old(self)@
            }),
            old(self)@.waited + old(self)@.interval > old(self)@.grant.expires_in ==> r is Err
                && r->Err_0@ == expired() && final(self)@ == old(self)@,
            old(self)@.wf() ==> final(self)@.wf(),
    {
        match self.waited.checked_add(self.interval) {
            Some(total) => {
                if total <= self.grant.expires_in {
                    self.waited = total;
                    return Ok(self.interval);
                }
            },
            None => {},
        }
        Err(ApiError::AuthenticationError(String::from_str("Device code expired")))
    }

    /// Takes one reply of the token endpoint and says what to do next.
    pub fn advance(&mut self, reply: PollReply) -> (step: PollStep)
        ensures
            (final(self)@, step@) == old(self)@.advance(reply@),
            old(self)@.wf() ==> final(self)@.wf(),
    {
        match reply {
            PollReply::Token { access_token, token_type, scope } => {
                let scopes = split_scopes(scope.as_str());
                PollStep::Success(
                    AuthSession {
                        provider: Provider::DeviceCode,
                        access_token,
                        refresh_token: None,
                        expires_at: None,
                        scopes: Some(scopes),
                    },
                )
            },
            PollReply::Refused { kind, description, uri } => match kind {
                ProviderErrorKind::AuthorizationPending => PollStep::Continue,
                ProviderErrorKind::SlowDown => match self.interval.checked_add(SLOW_DOWN_SECONDS) {
                    Some(longer) => {
                        self.interval = longer;
                        PollStep::Continue
                    },
                    None => PollStep::Failure(
                        ApiError::AuthenticationError(String::from_str("Device code expired")),
                    ),
                },
                ProviderErrorKind::ExpiredToken => PollStep::Failure(
                    ApiError::AuthenticationError(String::from_str("Device code expired")),
                ),
                _ => {
                    let mut detail = String::new();
                    push_text(&mut detail, kind.label());
                    push_text(&mut detail, ": ");
                    push_text(&mut detail, description.as_str());
                    proof {
                        assert(detail@ =~= kind.spec_label() + ": "@ + description@);
                    }
                    PollStep::Failure(ApiError::AuthenticationError(detail))
                },
            },
            PollReply::Rejected { status, body } => PollStep::Failure(
                ApiError::RequestError(status, body),
            ),
            PollReply::Malformed { detail } => PollStep::Failure(ApiError::ParseError(detail)),
        }
    }

    /// Takes one response of the token endpoint and says what to do next.
    pub fn on_response(&mut self, status: u16, body: &str) -> (step: PollStep)
        ensures
            exists|reply: PollReplyView| #[trigger]
                same_reply(reply_in(status, body@), reply) && (final(self)@, step@) == old(
                    self,
                )@.advance(reply),
            old(self)@.wf() ==> final(self)@.wf(),
    {
        let reply = parse_poll_response(status, body);
        self.advance(reply)
    }
}

} // verus!
