//! The authorization-code grant with PKCE: the request that is sent through
//! the browser, the callback that comes back on a local port, and the
//! exchange of the code for a token at the backend.
//!
//! The library decides and the caller acts. The caller opens the browser,
//! listens on the port and posts the exchange; it hands what it received to
//! the functions of this module.

use crate::config::AuthConfig;
use crate::error::{ApiError, ApiErrorView};
use crate::json::{json_quoted, quote};
use crate::text::{
    decimal, push_char, push_decimal, push_text, split_words, str_eq, texts, words,
};
use vstd::prelude::*;

verus! {

#[verifier::external_type_specification]
#[verifier::external_body]
pub struct ExUrl(url::Url);

/// The PKCE challenge that `oauth2` derives from a code verifier by the
/// method S256.
pub uninterp spec fn pkce_challenge(verifier: Seq<char>) -> Seq<char>;

/// The address that `Url::parse_with_params` makes of `base` and `pairs`, if
/// `base` is an absolute URL.
pub uninterp spec fn url_with_params(base: Seq<char>, pairs: Seq<(Seq<char>, Seq<char>)>) -> Option<
    Seq<char>,
>;

/// The URL that `Url::parse` reads from `text`, if it is one.
pub uninterp spec fn url_parsed(text: Seq<char>) -> Option<url::Url>;

/// The decoded names and values of the query of `url`, as `Url::query_pairs`
/// yields them.
pub uninterp spec fn url_query_pairs(url: url::Url) -> Seq<(Seq<char>, Seq<char>)>;

/// Whether a code verifier has a length that PKCE admits. The library only
/// takes verifiers of ASCII characters, so that characters are bytes.
pub open spec fn verifier_ok(verifier: Seq<char>) -> bool {
    vstd::utf8::is_ascii_chars(verifier) && 43 <= verifier.len() <= 128
}

/// `PkceCodeChallenge::new_random_sha256`: a fresh random verifier of 43
/// characters of the URL-safe base64 alphabet, and the challenge derived
/// from it. The pair is returned as (challenge, verifier).
#[verifier::external_body]
fn random_pkce_pair() -> (pair: (String, String))
    ensures
        pair.0@ == pkce_challenge(pair.1@),
        vstd::utf8::is_ascii_chars(pair.1@),
        pair.1@.len() == 43,
{
    let (challenge, verifier) = oauth2::PkceCodeChallenge::new_random_sha256();
    (challenge.as_str().to_owned(), verifier.into_secret())
}

/// `PkceCodeChallenge::from_code_verifier_sha256`: the challenge depends on
/// the verifier alone. The call panics on a verifier shorter than 43 or
/// longer than 128 bytes, which the precondition leaves out.
#[verifier::external_body]
fn pkce_challenge_of(verifier: &str) -> (challenge: String)
    requires
        verifier_ok(verifier@),
    ensures
        challenge@ == pkce_challenge(verifier@),
{
    let verifier = oauth2::PkceCodeVerifier::new(verifier.to_owned());
    oauth2::PkceCodeChallenge::from_code_verifier_sha256(&verifier).as_str().to_owned()
}

/// `CsrfToken::new_random`: a fresh random token, 16 random bytes written as
/// 22 characters of the URL-safe base64 alphabet.
#[verifier::external_body]
fn random_csrf_state() -> (state: String)
    ensures
        vstd::utf8::is_ascii_chars(state@),
        state@.len() == 22,
{
    oauth2::CsrfToken::new_random().into_secret()
}

/// `Url::parse_with_params`: `base` with `pairs` appended to its query,
/// form-encoded; `None` where `base` is no absolute URL.
#[verifier::external_body]
fn compose_url(base: &str, pairs: &Vec<(String, String)>) -> (r: Option<String>)
    ensures
        r is Some <==> url_with_params(base@, pair_views(pairs@)) is Some,
        r is Some ==> url_with_params(base@, pair_views(pairs@)) == Some(r->Some_0@),
{
    url::Url::parse_with_params(base, pairs.iter()).ok().map(String::from)
}

/// `Url::parse`: the outcome depends on `text` alone.
#[verifier::external_body]
fn parse_url(text: &str) -> (r: Option<url::Url>)
    ensures
        r == url_parsed(text@),
{
    url::Url::parse(text).ok()
}

/// `Url::query_pairs`: the names and values of the query, decoded, in the
/// order in which they stand in the URL.
#[verifier::external_body]
fn query_pairs_of(url: &url::Url) -> (pairs: Vec<(String, String)>)
    ensures
        pair_views(pairs@) == url_query_pairs(*url),
{
    url.query_pairs().into_owned().collect()
}

/// The views of the pairs of `v`, in order.
pub open spec fn pair_views(v: Seq<(String, String)>) -> Seq<(Seq<char>, Seq<char>)> {
    v.map_values(|p: (String, String)| (p.0@, p.1@))
}

/// `parts` in one text, with `sep` between each two of them.
pub open spec fn joined(parts: Seq<Seq<char>>, sep: char) -> Seq<char>
    decreases parts.len(),
{
    if parts.len() == 0 {
        Seq::empty()
    } else if parts.len() == 1 {
        parts[0]
    } else {
        joined(parts.drop_last(), sep).push(sep) + parts.last()
    }
}

/// `parts` in one text, with a space between each two of them.
pub fn join_scopes(parts: &Vec<String>) -> (s: String)
    ensures
        s@ == joined(texts(parts@), ' '),
{
    let mut s = String::new();
    let mut i: usize = 0;
    while i < parts.len()
        invariant
            i <= parts.len(),
            s@ == joined(texts(parts@).take(i as int), ' '),
        decreases parts.len() - i,
    {
        let ghost before = s@;
        if i > 0 {
            push_char(&mut s, ' ');
        }
        push_text(&mut s, parts[i].as_str());
        proof {
            let upto = texts(parts@).take(i + 1);
            assert(upto.drop_last() =~= texts(parts@).take(i as int));
            assert(upto.last() == parts[i as int]@);
            if i == 0 {
                assert(s@ =~= parts[i as int]@);
            }
        }
        i += 1;
    }
    proof {
        assert(texts(parts@).take(parts.len() as int) =~= texts(parts@));
    }
    s
}

/// One attempt to log in through the browser, as contracts see it.
pub struct RequestView {
    /// The token that the provider must echo in the callback.
    pub csrf_state: Seq<char>,
    /// The secret that proves, at the exchange, who started the attempt.
    pub code_verifier: Seq<char>,
    /// What the provider is shown of the verifier.
    pub code_challenge: Seq<char>,
    /// The local address to which the provider sends the browser back.
    pub redirect_uri: Seq<char>,
}

/// The address on this machine to which the provider sends the browser back.
pub open spec fn redirect_uri(port: u16) -> Seq<char> {
    "http://localhost:"@ + decimal(port as nat) + "/callback"@
}

impl RequestView {
    /// The challenge belongs to the verifier, and the verifier is admissible.
    pub open spec fn wf(self) -> bool {
        verifier_ok(self.code_verifier) && self.code_challenge == pkce_challenge(
            self.code_verifier,
        )
    }

    /// The parameters of the authorization URL, in the order in which they
    /// are written. The scopes are left out where there are none to name.
    pub open spec fn params(self, client_id: Seq<char>, scopes: Seq<Seq<char>>) -> Seq<
        (Seq<char>, Seq<char>),
    > {
        let fixed = seq![
            ("response_type"@, "code"@),
            ("client_id"@, client_id),
            ("state"@, self.csrf_state),
            ("code_challenge"@, self.code_challenge),
            ("code_challenge_method"@, "S256"@),
            ("redirect_uri"@, self.redirect_uri),
        ];
        if joined(scopes, ' ').len() == 0 {
            fixed
        } else {
            fixed.push(("scope"@, joined(scopes, ' ')))
        }
    }
}

/// One attempt to log in through the browser. It cannot be changed once it
/// is made: the verifier sent at the exchange is the one that the challenge
/// was derived from.
#[derive(Debug, Clone, PartialEq, Eq)]
pub struct AuthorizationRequest {
    csrf_state: String,
    code_verifier: String,
    code_challenge: String,
    redirect_uri: String,
}

impl View for AuthorizationRequest {
    type V = RequestView;

    closed spec fn view(&self) -> RequestView {
        RequestView {
            csrf_state: self.csrf_state@,
            code_verifier: self.code_verifier@,
            code_challenge: self.code_challenge@,
            redirect_uri: self.redirect_uri@,
        }
    }
}

/// The redirect address for `port`.
fn redirect_uri_for(port: u16) -> (s: String)
    ensures
        s@ == redirect_uri(port),
{
    let mut s = String::new();
    push_text(&mut s, "http://localhost:");
    push_decimal(&mut s, port as u64);
    push_text(&mut s, "/callback");
    proof {
        assert(s@ =~= redirect_uri(port));
    }
    s
}

/// The code and the state that a callback carries.
#[derive(Debug, Clone, PartialEq, Eq)]
pub struct Callback {
    pub code: String,
    pub state: String,
}

/// A `Callback` with its texts as sequences of characters.
pub struct CallbackView {
    pub code: Seq<char>,
    pub state: Seq<char>,
}

impl View for Callback {
    type V = CallbackView;

    open spec fn view(&self) -> CallbackView {
        CallbackView { code: self.code@, state: self.state@ }
    }
}

/// What is sent to the backend to exchange the code.
#[derive(Debug, Clone, PartialEq, Eq)]
pub struct OauthExchangeCodeRequest {
    pub code: String,
    pub pkce_code_verifier: String,
}

/// An `OauthExchangeCodeRequest` with its texts as sequences of characters.
pub struct ExchangeRequestView {
    pub code: Seq<char>,
    pub pkce_code_verifier: Seq<char>,
}

impl View for OauthExchangeCodeRequest {
    type V = ExchangeRequestView;

    open spec fn view(&self) -> ExchangeRequestView {
        ExchangeRequestView { code: self.code@, pkce_code_verifier: self.pkce_code_verifier@ }
    }
}

impl ExchangeRequestView {
    /// The JSON object that is posted to the backend.
    pub open spec fn body(self) -> Seq<char> {
        "{\"code\":"@ + json_quoted(self.code) + ",\"pkce_code_verifier\":"@ + json_quoted(
            self.pkce_code_verifier,
        ) + "}"@
    }
}

impl OauthExchangeCodeRequest {
    /// The JSON object that is posted to the backend.
    pub fn body(&self) -> (s: String)
        ensures
            s@ == self@.body(),
    {
        let code = quote(self.code.as_str());
        let verifier = quote(self.pkce_code_verifier.as_str());
        let mut s = String::new();
        push_text(&mut s, "{\"code\":");
        push_text(&mut s, code.as_str());
        push_text(&mut s, ",\"pkce_code_verifier\":");
        push_text(&mut s, verifier.as_str());
        push_text(&mut s, "}");
        proof {
            assert(s@ =~= self@.body());
        }
        s
    }
}

/// The failure for a callback that does not carry a code and a state.
pub open spec fn invalid_callback() -> ApiErrorView {
    ApiErrorView::AuthenticationError("invalid callback"@)
}

/// The failure for a callback whose state is not the one that was sent.
pub open spec fn csrf_failed() -> ApiErrorView {
    ApiErrorView::AuthenticationError("CSRF validation failed"@)
}

/// The value of the first pair named `key`.
pub open spec fn first_value(pairs: Seq<(Seq<char>, Seq<char>)>, key: Seq<char>) -> Option<
    Seq<char>,
>
    decreases pairs.len(),
{
    if pairs.len() == 0 {
        None
    } else if pairs[0].0 == key {
        Some(pairs[0].1)
    } else {
        first_value(pairs.drop_first(), key)
    }
}

/// The value of the first pair named `key`.
pub fn find_value(pairs: &Vec<(String, String)>, key: &str) -> (r: Option<String>)
    ensures
        r is Some <==> first_value(pair_views(pairs@), key@) is Some,
        r is Some ==> first_value(pair_views(pairs@), key@) == Some(r->Some_0@),
{
    let mut i: usize = 0;
    proof {
        assert(pair_views(pairs@).skip(0) =~= pair_views(pairs@));
    }
    while i < pairs.len()
        invariant
            i <= pairs.len(),
            first_value(pair_views(pairs@), key@) == first_value(
                pair_views(pairs@).skip(i as int),
                key@,
            ),
        decreases pairs.len() - i,
    {
        proof {
            let rest = pair_views(pairs@).skip(i as int);
            assert(rest[0] == (pairs[i as int].0@, pairs[i as int].1@));
            assert(rest.drop_first() =~= pair_views(pairs@).skip(i + 1));
        }
        if str_eq(pairs[i].0.as_str(), key) {
            return Some(pairs[i].1.clone());
        }
        i += 1;
    }
    proof {
        assert(pair_views(pairs@).skip(pairs.len() as int) =~= Seq::empty());
    }
    None
}

/// The callback that a query holds: the first `code` and the first `state`.
pub open spec fn callback_in_pairs(pairs: Seq<(Seq<char>, Seq<char>)>) -> Option<CallbackView> {
    match (first_value(pairs, "code"@), first_value(pairs, "state"@)) {
        (Some(code), Some(state)) => Some(CallbackView { code, state }),
        _ => None,
    }
}

/// The callback that a request line holds. Its second word is the target of
/// the request, and the query of that target must name a code and a state.
pub open spec fn callback_in(request_line: Seq<char>) -> Option<CallbackView> {
    let found = words(request_line);
    if found.len() < 2 {
        None
    } else {
        match url_parsed("http://localhost"@ + found[1]) {
            Some(url) => callback_in_pairs(url_query_pairs(url)),
            None => None,
        }
    }
}

/// Reads the callback from the pairs of a query.
pub fn callback_from_pairs(pairs: &Vec<(String, String)>) -> (r: Option<Callback>)
    ensures
        r is Some <==> callback_in_pairs(pair_views(pairs@)) is Some,
        r is Some ==> r->Some_0@ == callback_in_pairs(pair_views(pairs@))->Some_0,
{
    match (find_value(pairs, "code"), find_value(pairs, "state")) {
        (Some(code), Some(state)) => Some(Callback { code, state }),
        _ => None,
    }
}

/// Reads the callback from the first line of the request that the browser
/// made. A line without a target, a target that is no URL path, and a query
/// without code or state all give the failure `invalid_callback()`.
pub fn parse_callback(request_line: &str) -> (r: Result<Callback, ApiError>)
    ensures
        r is Ok <==> callback_in(request_line@) is Some,
        r is Ok ==> r->Ok_0@ == callback_in(request_line@)->Some_0,
        r is Err ==> r->Err_0@ == invalid_callback(),
{
    let found = split_words(request_line);
    if found.len() >= 2 {
        let mut address = String::new();
        push_text(&mut address, "http://localhost");
        push_text(&mut address, found[1].as_str());
        proof {
            assert(address@ =~= "http://localhost"@ + words(request_line@)[1]);
        }
        match parse_url(address.as_str()) {
            Some(url) => {
                let pairs = query_pairs_of(&url);
                match callback_from_pairs(&pairs) {
                    Some(callback) => {
                        return Ok(callback);
                    },
                    None => {},
                }
            },
            None => {},
        }
    }
    Err(ApiError::AuthenticationError(String::from_str("invalid callback")))
}

/// The response that the browser is given, whatever the callback held:
/// status 200, the length of `page` in bytes, and `page`.
pub open spec fn callback_response_of(page: Seq<char>) -> Seq<char> {
    "HTTP/1.1 200 OK\r\ncontent-length: "@ + decimal(vstd::utf8::encode_utf8(page).len())
        + "\r\n\r\n"@ + page
}

/// The response that the browser is given, whatever the callback held.
pub fn callback_response(page: &str) -> (response: String)
    ensures
        response@ == callback_response_of(page@),
{
    let mut s = String::new();
    push_text(&mut s, "HTTP/1.1 200 OK\r\ncontent-length: ");
    push_decimal(&mut s, page.as_bytes().len() as u64);
    push_text(&mut s, "\r\n\r\n");
    push_text(&mut s, page);
    proof {
        assert(s@ =~= callback_response_of(page@));
    }
    s
}

impl AuthorizationRequest {
    /// Starts an attempt with a fresh random state and a fresh random
    /// verifier.
    pub fn generate(port: u16) -> (request: AuthorizationRequest)
        ensures
            request@.wf(),
            request@.redirect_uri == redirect_uri(port),
            request@.code_verifier.len() == 43,
            vstd::utf8::is_ascii_chars(request@.csrf_state),
            request@.csrf_state.len() == 22,
    {
        let (code_challenge, code_verifier) = random_pkce_pair();
        let csrf_state = random_csrf_state();
        AuthorizationRequest {
            csrf_state,
            code_verifier,
            code_challenge,
            redirect_uri: redirect_uri_for(port),
        }
    }

    /// Starts an attempt with the given state and verifier. `None` where the
    /// verifier is not admissible.
    pub fn with_secrets(csrf_state: String, code_verifier: String, port: u16) -> (r: Option<
        AuthorizationRequest,
    >)
        ensures
            r is Some <==> verifier_ok(code_verifier@),
            r is Some ==> r->Some_0@.wf() && r->Some_0@ == (RequestView {
                csrf_state: csrf_state@,
                code_verifier: code_verifier@,
                code_challenge: pkce_challenge(code_verifier@),
                redirect_uri: redirect_uri(port),
            }),
    {
        let length = code_verifier.as_str().unicode_len();
        if code_verifier.as_str().is_ascii() && 43 <= length && length <= 128 {
            let code_challenge = pkce_challenge_of(code_verifier.as_str());
            Some(
                AuthorizationRequest {
                    csrf_state,
                    code_verifier,
                    code_challenge,
                    redirect_uri: redirect_uri_for(port),
                },
            )
        } else {
            None
        }
    }

    /// The token that the provider must echo in the callback.
    pub fn csrf_state(&self) -> (s: &str)
        ensures
            s@ == self@.csrf_state,
    {
        self.csrf_state.as_str()
    }

    /// The secret that is sent at the exchange.
    pub fn code_verifier(&self) -> (s: &str)
        ensures
            s@ == self@.code_verifier,
    {
        self.code_verifier.as_str()
    }

    /// What the provider is shown of the verifier.
    pub fn code_challenge(&self) -> (s: &str)
        ensures
            s@ == self@.code_challenge,
    {
        self.code_challenge.as_str()
    }

    /// The local address to which the provider sends the browser back.
    pub fn redirect_uri(&self) -> (s: &str)
        ensures
            s@ == self@.redirect_uri,
    {
        self.redirect_uri.as_str()
    }

    /// The address to open in the browser: the provider's authorization
    /// endpoint with the parameters of this attempt. `None` where the
    /// configured endpoint is no absolute URL.
    pub fn authorization_url(&self, config: &AuthConfig) -> (r: Option<String>)
        ensures
            r is Some <==> url_with_params(
                config@.authorize_url,
                self@.params(config@.client_id, config@.scopes),
            ) is Some,
            r is Some ==> url_with_params(
                config@.authorize_url,
                self@.params(config@.client_id, config@.scopes),
            ) == Some(r->Some_0@),
    {
        let scope = join_scopes(&config.scopes);
        let mut pairs: Vec<(String, String)> = vec![
            (String::from_str("response_type"), String::from_str("code")),
            (String::from_str("client_id"), config.client_id.clone()),
            (String::from_str("state"), self.csrf_state.clone()),
            (String::from_str("code_challenge"), self.code_challenge.clone()),
            (String::from_str("code_challenge_method"), String::from_str("S256")),
            (String::from_str("redirect_uri"), self.redirect_uri.clone()),
        ];
        if scope.as_str().unicode_len() > 0 {
            pairs.push((String::from_str("scope"), scope));
        }
        proof {
            assert(pair_views(pairs@) =~= self@.params(config@.client_id, config@.scopes));
        }
        compose_url(config.authorize_url.as_str(), &pairs)
    }

    /// Checks a callback against this attempt.
    ///
    /// A callback with the state of this attempt gives the request for the
    /// exchange: its code, and the verifier of this attempt. Any other state
    /// gives the failure `csrf_failed()`, and no request: the code is not
    /// exchanged.
    pub fn exchange_for(&self, callback: Callback) -> (r: Result<
        OauthExchangeCodeRequest,
        ApiError,
    >)
        ensures
            callback@.state == self@.csrf_state ==> r is Ok && r->Ok_0@ == (ExchangeRequestView {
                code: callback@.code,
                pkce_code_verifier: self@.code_verifier,
            }),
            callback@.state != self@.csrf_state ==> r is Err && r->Err_0@ == csrf_failed(),
    {
        if str_eq(callback.state.as_str(), self.csrf_state.as_str()) {
            Ok(
                OauthExchangeCodeRequest {
                    code: callback.code,
                    pkce_code_verifier: self.code_verifier.clone(),
                },
            )
        } else {
            Err(ApiError::AuthenticationError(String::from_str("CSRF validation failed")))
        }
    }

    /// Takes the first line of the request that the browser made and says
    /// what to exchange, or why not.
    pub fn on_callback(&self, request_line: &str) -> (r: Result<OauthExchangeCodeRequest, ApiError>)
        ensures
            decision_of(r) == self@.after_callback(callback_in(request_line@)),
    {
        match parse_callback(request_line) {
            Ok(callback) => self.exchange_for(callback),
            Err(e) => Err(e),
        }
    }
}

/// What `on_callback` decides.
pub enum ExchangeDecision {
    Exchange(ExchangeRequestView),
    Refuse(ApiErrorView),
}

/// The decision that a result of `on_callback` stands for.
pub open spec fn decision_of(r: Result<OauthExchangeCodeRequest, ApiError>) -> ExchangeDecision {
    match r {
        Ok(request) => ExchangeDecision::Exchange(request@),
        Err(e) => ExchangeDecision::Refuse(e@),
    }
}

impl RequestView {
    /// What follows from the callback that was read, if one was.
    pub open spec fn after_callback(self, callback: Option<CallbackView>) -> ExchangeDecision {
        match callback {
            None => ExchangeDecision::Refuse(invalid_callback()),
            Some(c) => if c.state == self.csrf_state {
                ExchangeDecision::Exchange(
                    ExchangeRequestView { code: c.code, pkce_code_verifier: self.code_verifier },
                )
            } else {
                ExchangeDecision::Refuse(csrf_failed())
            },
        }
    }
}

/// Whatever the callback holds, a code is only ever exchanged under the state
/// of the attempt and with its verifier; a callback under another state is
/// refused with an `AuthenticationError`.
pub proof fn lemma_state_mismatch_is_refused(request: RequestView, callback: CallbackView)
    ensures
        callback.state != request.csrf_state ==> request.after_callback(Some(callback))
            == ExchangeDecision::Refuse(csrf_failed()),
        request.after_callback(Some(callback)) is Exchange ==> callback.state
            == request.csrf_state && request.after_callback(Some(callback))->Exchange_0
            == (ExchangeRequestView {
            code: callback.code,
            pkce_code_verifier: request.code_verifier,
        }),
{
}

} // verus!
