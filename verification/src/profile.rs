//! The request for the profile of the authenticated user, and its answer.

use crate::error::{is_success, status_is_success, ApiError, ApiErrorView};
use crate::json::{
    error_detail, get_number, get_optional_text, get_text, json_document, number_member,
    optional_text, parse_document, text_member,
};
use crate::session::{UserInfo, UserView};
use vstd::prelude::*;

verus! {

/// The profile that a document holds.
///
/// `login`, `avatar_url` and `html_url` must be there, as texts, and `id` as
/// a number. Each of `name` and `email` may be missing or `null`, and is then
/// absent from the profile; where it is there, it must be a text.
pub open spec fn profile_in(document: serde_json::Value) -> Option<UserView> {
    if text_member(document, "login"@) is Some && number_member(document, "id"@) is Some
        && text_member(document, "avatar_url"@) is Some && text_member(document, "html_url"@)
        is Some && optional_text(document, "name"@) is Some && optional_text(document, "email"@)
        is Some {
        Some(
            UserView {
                login: text_member(document, "login"@)->Some_0,
                id: number_member(document, "id"@)->Some_0,
                avatar_url: text_member(document, "avatar_url"@)->Some_0,
                html_url: text_member(document, "html_url"@)->Some_0,
                name: optional_text(document, "name"@)->Some_0,
                email: optional_text(document, "email"@)->Some_0,
            },
        )
    } else {
        None
    }
}

/// The profile that the text of a response holds.
pub open spec fn profile_in_body(body: Seq<char>) -> Option<UserView> {
    match json_document(body) {
        Some(document) => profile_in(document),
        None => None,
    }
}

/// Reads the profile from a parsed response.
pub fn profile_from_document(document: &serde_json::Value) -> (r: Option<UserInfo>)
    ensures
        r is Some <==> profile_in(*document) is Some,
        r is Some ==> r->Some_0@ == profile_in(*document)->Some_0,
{
    let login = get_text(document, "login");
    let id = get_number(document, "id");
    let avatar_url = get_text(document, "avatar_url");
    let html_url = get_text(document, "html_url");
    let name = get_optional_text(document, "name");
    let email = get_optional_text(document, "email");
    match (login, id, avatar_url, html_url, name, email) {
        (Some(login), Some(id), Some(avatar_url), Some(html_url), Some(name), Some(email)) => Some(
            UserInfo { login, id, avatar_url, html_url, name, email },
        ),
        _ => None,
    }
}

/// Reads the response of the provider's profile endpoint.
///
/// A status that reports a failure gives a `RequestError` with that status
/// and the body. Otherwise the body must hold a profile; where it does not,
/// the result is a `ParseError`.
pub fn parse_user_profile(status: u16, body: &str) -> (r: Result<UserInfo, ApiError>)
    ensures
        !is_success(status) ==> r is Err && r->Err_0@ == ApiErrorView::RequestError(status, body@),
        is_success(status) && profile_in_body(body@) is Some ==> r is Ok && r->Ok_0@
            == profile_in_body(body@)->Some_0,
        is_success(status) && profile_in_body(body@) is None ==> r is Err
            && r->Err_0@ is ParseError,
{
    if !status_is_success(status) {
        return Err(ApiError::RequestError(status, body.to_owned()));
    }
    match parse_document(body) {
        Ok(document) => match profile_from_document(&document) {
            Some(user) => Ok(user),
            None => Err(ApiError::ParseError(String::from_str("unexpected shape of the profile"))),
        },
        Err(e) => Err(ApiError::ParseError(error_detail(&e))),
    }
}

} // verus!
