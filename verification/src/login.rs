//! The login command: what it does with a stored session, with the user's
//! choice of a flow, and with what the flow brought.
//!
//! The caller reads the store, asks the user, runs the flow and fetches the
//! profile; after each of these it asks this module what follows.

use crate::error::{ApiError, ApiErrorView, CredentialsError};
use crate::plugin::PluginError;
use crate::session::{AuthSession, Provider, UserInfo, UserView};
use crate::text::push_text;
use vstd::prelude::*;

verus! {

/// A failure of a command.
#[derive(Debug, Clone, PartialEq, Eq)]
pub enum CliError {
    WebError(ApiError),
    CredentialsError(CredentialsError),
    PluginError(PluginError),
    /// A login was asked for while a session is stored.
    AlreadyLoggedIn(UserInfo),
}

/// What a command returns.
pub type CliResult = Result<(), CliError>;

impl CliError {
    /// The line shown to the user for this failure.
    pub open spec fn spec_message(self) -> Seq<char> {
        match self {
            CliError::WebError(e) => e@.message(),
            CliError::CredentialsError(e) => e.spec_message(),
            CliError::PluginError(e) => e.spec_message(),
            CliError::AlreadyLoggedIn(user) => "You are already logged in as "@ + user@.format(),
        }
    }

    /// The line shown to the user for this failure.
    pub fn message(&self) -> (s: String)
        ensures
            s@ == self.spec_message(),
    {
        match self {
            CliError::WebError(e) => e.message(),
            CliError::CredentialsError(e) => e.message(),
            CliError::PluginError(e) => e.message(),
            CliError::AlreadyLoggedIn(user) => {
                let mut s = String::new();
                let who = user.format();
                push_text(&mut s, "You are already logged in as ");
                push_text(&mut s, who.as_str());
                proof {
                    assert(s@ =~= "You are already logged in as "@ + user@.format());
                }
                s
            },
        }
    }
}

/// What the login does first.
#[derive(Debug, Clone, PartialEq, Eq)]
pub enum LoginPlan {
    /// A session is stored: fetch its user and refuse to log in again.
    AlreadyAuthenticated(AuthSession),
    /// No session can be read: offer the flows.
    ChooseFlow,
}

/// The flows that the user is offered, in the order in which they are shown.
pub fn flow_choices() -> (choices: Vec<Provider>)
    ensures
        choices@ == seq![Provider::DeviceCode, Provider::OAuth],
{
    let choices = vec![Provider::DeviceCode, Provider::OAuth];
    proof {
        assert(choices@ =~= seq![Provider::DeviceCode, Provider::OAuth]);
    }
    choices
}

/// Decides, from what the store gave, whether there is anything to do. Any
/// failure to read a session counts as having none.
pub fn plan_login(stored: Result<AuthSession, CredentialsError>) -> (plan: LoginPlan)
    ensures
        match stored {
            Ok(session) => plan == LoginPlan::AlreadyAuthenticated(session),
            Err(_) => plan is ChooseFlow,
        },
{
    match stored {
        Ok(session) => LoginPlan::AlreadyAuthenticated(session),
        Err(_) => LoginPlan::ChooseFlow,
    }
}

/// The failure with which a login ends where a session is stored already:
/// it names the user of that session, or says why the user could not be
/// fetched.
pub fn already_logged_in(profile: Result<UserInfo, ApiError>) -> (e: CliError)
    ensures
        match profile {
            Ok(user) => e == CliError::AlreadyLoggedIn(user),
            Err(failure) => e == CliError::WebError(failure),
        },
{
    match profile {
        Ok(user) => CliError::AlreadyLoggedIn(user),
        Err(failure) => CliError::WebError(failure),
    }
}

/// The failure for a choice that the user did not make.
pub open spec fn no_choice() -> ApiErrorView {
    ApiErrorView::AuthenticationError("Failed to select authentication method"@)
}

/// Takes the user's choice of a flow; `None` stands for a prompt that was
/// abandoned.
pub fn chosen_flow(choice: Option<Provider>) -> (r: Result<Provider, CliError>)
    ensures
        match choice {
            Some(provider) => r is Ok && r->Ok_0 == provider,
            None => r is Err && r->Err_0 is WebError && r->Err_0->WebError_0@ == no_choice(),
        },
{
    match choice {
        Some(provider) => Ok(provider),
        None => Err(
            CliError::WebError(
                ApiError::AuthenticationError(
                    String::from_str("Failed to select authentication method"),
                ),
            ),
        ),
    }
}

/// Takes what the chosen flow brought: its session, to be stored, or its
/// failure, unchanged.
pub fn flow_ended(outcome: Result<AuthSession, ApiError>) -> (r: Result<AuthSession, CliError>)
    ensures
        match outcome {
            Ok(session) => r == Ok::<AuthSession, CliError>(session),
            Err(failure) => r == Err::<AuthSession, CliError>(CliError::WebError(failure)),
        },
{
    match outcome {
        Ok(session) => Ok(session),
        Err(failure) => Err(CliError::WebError(failure)),
    }
}

/// The line that confirms a login.
pub open spec fn connected_as(user: UserView) -> Seq<char> {
    "Connected as: "@ + user.format()
}

/// Takes the profile that was fetched with the new session: the line that
/// confirms the login, or the failure to fetch it.
pub fn confirmation(profile: Result<UserInfo, ApiError>) -> (r: Result<String, CliError>)
    ensures
        match profile {
            Ok(user) => r is Ok && r->Ok_0@ == connected_as(user@),
            Err(failure) => r == Err::<String, CliError>(CliError::WebError(failure)),
        },
{
    match profile {
        Ok(user) => {
            let mut s = String::new();
            let who = user.format();
            push_text(&mut s, "Connected as: ");
            push_text(&mut s, who.as_str());
            proof {
                assert(s@ =~= connected_as(user@));
            }
            Ok(s)
        },
        Err(failure) => Err(CliError::WebError(failure)),
    }
}

} // verus!
