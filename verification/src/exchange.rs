//! The answer of the backend to the exchange of an authorization code, and
//! the session that is made of it.

use crate::error::{is_success, status_is_success, ApiError, ApiErrorView};
use crate::json::{
    error_detail, get_number, get_present, get_text, items_of, json_document, json_items,
    json_number, json_text, number_member, number_of, parse_document, present, text_member,
    text_of,
};
use crate::session::{AuthSession, Lifetime, Provider, Timestamp, NANOS_PER_SECOND};
use crate::text::texts;
use vstd::prelude::*;

verus! {

/// What the backend returns for an authorization code.
#[derive(Debug, Clone, PartialEq, Eq)]
pub struct OauthExchangeCodeResponse {
    pub access_token: String,
    pub refresh_token: Option<String>,
    /// The span for which the access token is valid, if the provider said.
    pub expires_in: Option<Lifetime>,
    pub scopes: Option<Vec<String>>,
}

/// An `OauthExchangeCodeResponse` with its texts as sequences of characters.
pub struct PayloadView {
    pub access_token: Seq<char>,
    pub refresh_token: Option<Seq<char>>,
    pub expires_in: Option<Lifetime>,
    pub scopes: Option<Seq<Seq<char>>>,
}

impl View for OauthExchangeCodeResponse {
    type V = PayloadView;

    open spec fn view(&self) -> PayloadView {
        PayloadView {
            access_token: self.access_token@,
            refresh_token: match self.refresh_token {
                Some(t) => Some(t@),
                None => None,
            },
            expires_in: self.expires_in,
            scopes: match self.scopes {
                Some(v) => Some(texts(v@)),
                None => None,
            },
        }
    }
}

impl PayloadView {
    /// The lifetime, where there is one, has less than a second of nanoseconds.
    pub open spec fn wf(self) -> bool {
        self.expires_in is Some ==> self.expires_in->Some_0.wf()
    }
}

/// The texts of a list of values, where every one of them is a text.
pub open spec fn all_texts(items: Seq<serde_json::Value>) -> Option<Seq<Seq<char>>> {
    if forall|i: int| 0 <= i < items.len() ==> json_text(#[trigger] items[i]) is Some {
        Some(Seq::new(items.len(), |i: int| json_text(items[i])->Some_0))
    } else {
        None
    }
}

/// The lifetime of so many seconds and nanoseconds. The nanoseconds must be
/// in the range of `u32`; whole seconds among them are carried over, and a
/// sum of seconds beyond `u64` is no lifetime.
pub open spec fn lifetime_of(secs: u64, nanos: u64) -> Option<Lifetime> {
    if nanos <= u32::MAX && secs + nanos / (NANOS_PER_SECOND as u64) <= u64::MAX {
        Some(
            Lifetime {
                seconds: (secs + nanos / (NANOS_PER_SECOND as u64)) as u64,
                nanos: (nanos % (NANOS_PER_SECOND as u64)) as u32,
            },
        )
    } else {
        None
    }
}

/// The lifetime that a value holds, in either of the two forms in which a
/// span of time is written: an object with the numbers `secs` and `nanos`,
/// or a list of exactly these two numbers, seconds first. Other members of
/// the object are passed over.
pub open spec fn lifetime_in(value: serde_json::Value) -> Option<Lifetime> {
    match json_items(value) {
        Some(items) => if items.len() == 2 {
            match (json_number(items[0]), json_number(items[1])) {
                (Some(secs), Some(nanos)) => lifetime_of(secs, nanos),
                _ => None,
            }
        } else {
            None
        },
        None => match (number_member(value, "secs"@), number_member(value, "nanos"@)) {
            (Some(secs), Some(nanos)) => lifetime_of(secs, nanos),
            _ => None,
        },
    }
}

/// The payload that a document holds.
///
/// `access_token` must be there, as a text. Each of `refresh_token`,
/// `expires_in` and `scopes` may be missing or `null`, and is then absent
/// from the payload; where it is there, it must be a text, a lifetime and a
/// list of texts.
pub open spec fn payload_in(document: serde_json::Value) -> Option<PayloadView> {
    let refresh = present(document, "refresh_token"@);
    let expires = present(document, "expires_in"@);
    let scopes = present(document, "scopes"@);
    if text_member(document, "access_token"@) is None {
        None
    } else if refresh is Some && json_text(refresh->Some_0) is None {
        None
    } else if expires is Some && lifetime_in(expires->Some_0) is None {
        None
    } else if scopes is Some && (json_items(scopes->Some_0) is None || all_texts(
        json_items(scopes->Some_0)->Some_0,
    ) is None) {
        None
    } else {
        Some(
            PayloadView {
                access_token: text_member(document, "access_token"@)->Some_0,
                refresh_token: match refresh {
                    Some(m) => json_text(m),
                    None => None,
                },
                expires_in: match expires {
                    Some(m) => lifetime_in(m),
                    None => None,
                },
                scopes: match scopes {
                    Some(m) => all_texts(json_items(m)->Some_0),
                    None => None,
                },
            },
        )
    }
}

/// The payload that the text of a response holds.
pub open spec fn payload_in_body(body: Seq<char>) -> Option<PayloadView> {
    match json_document(body) {
        Some(document) => payload_in(document),
        None => None,
    }
}

/// The texts of `items`, where every one of them is a text.
fn texts_from(items: &Vec<serde_json::Value>) -> (r: Option<Vec<String>>)
    ensures
        r is Some <==> all_texts(items@) is Some,
        r is Some ==> texts(r->Some_0@) == all_texts(items@)->Some_0,
{
    let mut found: Vec<String> = Vec::new();
    let mut i: usize = 0;
    while i < items.len()
        invariant
            i <= items.len(),
            found@.len() == i,
            forall|j: int| 0 <= j < i ==> json_text(#[trigger] items@[j]) == Some(found@[j]@),
        decreases items.len() - i,
    {
        match text_of(&items[i]) {
            Some(t) => {
                found.push(t.to_owned());
            },
            None => {
                return None;
            },
        }
        i += 1;
    }
    proof {
        assert(texts(found@) =~= all_texts(items@)->Some_0);
    }
    Some(found)
}

/// The lifetime of so many seconds and nanoseconds.
fn lifetime_from_numbers(secs: u64, nanos: u64) -> (r: Option<Lifetime>)
    ensures
        r == lifetime_of(secs, nanos),
        r is Some ==> r->Some_0.wf(),
{
    if nanos > u32::MAX as u64 {
        return None;
    }
    let carry: u64 = nanos / (NANOS_PER_SECOND as u64);
    let rest: u64 = nanos % (NANOS_PER_SECOND as u64);
    match secs.checked_add(carry) {
        Some(seconds) => Some(Lifetime { seconds, nanos: rest as u32 }),
        None => None,
    }
}

/// The lifetime that `value` holds.
fn lifetime_from(value: &serde_json::Value) -> (r: Option<Lifetime>)
    ensures
        r == lifetime_in(*value),
        r is Some ==> r->Some_0.wf(),
{
    let numbers = match items_of(value) {
        Some(items) => {
            if items.len() == 2 {
                (number_of(&items[0]), number_of(&items[1]))
            } else {
                return None;
            }
        },
        None => (get_number(value, "secs"), get_number(value, "nanos")),
    };
    match numbers {
        (Some(secs), Some(nanos)) => lifetime_from_numbers(secs, nanos),
        _ => None,
    }
}

/// Reads the payload from a parsed response.
pub fn payload_from_document(document: &serde_json::Value) -> (r: Option<OauthExchangeCodeResponse>)
    ensures
        r is Some <==> payload_in(*document) is Some,
        r is Some ==> r->Some_0@ == payload_in(*document)->Some_0 && r->Some_0@.wf(),
{
    let access_token = match get_text(document, "access_token") {
        Some(t) => t,
        None => {
            return None;
        },
    };
    let refresh_token = match get_present(document, "refresh_token") {
        Some(m) => match text_of(m) {
            Some(t) => Some(t.to_owned()),
            None => {
                return None;
            },
        },
        None => None,
    };
    let expires_in = match get_present(document, "expires_in") {
        Some(m) => match lifetime_from(m) {
            Some(l) => Some(l),
            None => {
                return None;
            },
        },
        None => None,
    };
    let scopes = match get_present(document, "scopes") {
        Some(m) => match items_of(m) {
            Some(items) => match texts_from(items) {
                Some(v) => Some(v),
                None => {
                    return None;
                },
            },
            None => {
                return None;
            },
        },
        None => None,
    };
    Some(OauthExchangeCodeResponse { access_token, refresh_token, expires_in, scopes })
}

/// Reads the response of the backend's exchange endpoint.
///
/// A status that reports a failure gives a `RequestError` with that status
/// and the body. Otherwise the body must hold a payload; where it does not,
/// the result is a `ParseError`.
pub fn parse_exchange_response(status: u16, body: &str) -> (r: Result<
    OauthExchangeCodeResponse,
    ApiError,
>)
    ensures
        !is_success(status) ==> r is Err && r->Err_0@ == ApiErrorView::RequestError(status, body@),
        is_success(status) && payload_in_body(body@) is Some ==> r is Ok && r->Ok_0@
            == payload_in_body(body@)->Some_0 && r->Ok_0@.wf(),
        is_success(status) && payload_in_body(body@) is None ==> r is Err
            && r->Err_0@ is ParseError,
{
    if !status_is_success(status) {
        return Err(ApiError::RequestError(status, body.to_owned()));
    }
    match parse_document(body) {
        Ok(document) => match payload_from_document(&document) {
            Some(payload) => Ok(payload),
            None => Err(
                ApiError::ParseError(String::from_str("unexpected shape of the exchange response")),
            ),
        },
        Err(e) => Err(ApiError::ParseError(error_detail(&e))),
    }
}

/// Makes the session of a payload that was received at the time `now`.
///
/// The session expires the payload's lifetime after `now`, and never where
/// the payload has none. The result is `None` only where that point in time
/// lies beyond what a `Timestamp` can hold.
pub fn session_from_exchange(payload: OauthExchangeCodeResponse, now: Timestamp) -> (r: Option<
    AuthSession,
>)
    requires
        now.wf(),
        payload@.wf(),
    ensures
        r is None <==> payload@.expires_in is Some && !now.can_add(payload@.expires_in->Some_0),
        r is Some ==> r->Some_0@.provider == Provider::OAuth && r->Some_0@.access_token
            == payload@.access_token && r->Some_0@.refresh_token == payload@.refresh_token
            && r->Some_0@.scopes == payload@.scopes,
        r is Some && payload@.expires_in is None ==> r->Some_0@.expires_at is None,
        r is Some && payload@.expires_in is Some ==> r->Some_0@.expires_at is Some
            && r->Some_0@.expires_at->Some_0.wf() && r->Some_0@.expires_at->Some_0.total_nanos()
            == now.total_nanos() + payload@.expires_in->Some_0.total_nanos(),
{
    let expires_at = match payload.expires_in {
        Some(lifetime) => match now.checked_after(lifetime) {
            Some(at) => Some(at),
            None => {
                return None;
            },
        },
        None => None,
    };
    Some(
        AuthSession {
            provider: Provider::OAuth,
            access_token: payload.access_token,
            refresh_token: payload.refresh_token,
            expires_at,
            scopes: payload.scopes,
        },
    )
}

} // verus!
