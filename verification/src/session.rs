//! The session that a completed login yields, and the profile of its user.

use crate::text::{push_text, split_on, split_text, texts};
use vstd::prelude::*;

verus! {

/// The flow that produced a session.
#[derive(Debug, Clone, Copy, PartialEq, Eq, Structural)]
pub enum Provider {
    DeviceCode,
    OAuth,
}

impl Provider {
    /// The line that offers this flow to the user.
    pub open spec fn spec_str_select(self) -> Seq<char> {
        match self {
            Provider::DeviceCode => "Login with a web browser (Device Code)"@,
            Provider::OAuth => "Login with OAuth (not implemented yet)"@,
        }
    }

    /// The line that offers this flow to the user.
    pub fn str_select(&self) -> (s: &'static str)
        ensures
            s@ == self.spec_str_select(),
    {
        match self {
            Provider::DeviceCode => "Login with a web browser (Device Code)",
            Provider::OAuth => "Login with OAuth (not implemented yet)",
        }
    }
}

/// The number of nanoseconds in a second.
pub const NANOS_PER_SECOND: u32 = 1_000_000_000;

/// A point in time: seconds and nanoseconds since the Unix epoch.
#[derive(Debug, Clone, Copy, PartialEq, Eq, Structural)]
pub struct Timestamp {
    pub seconds: u64,
    pub nanos: u32,
}

/// A span of time, as a provider reports the lifetime of a token.
#[derive(Debug, Clone, Copy, PartialEq, Eq, Structural)]
pub struct Lifetime {
    pub seconds: u64,
    pub nanos: u32,
}

impl Lifetime {
    /// The nanoseconds are less than a second.
    pub open spec fn wf(self) -> bool {
        self.nanos < NANOS_PER_SECOND
    }

    /// The span in nanoseconds.
    pub open spec fn total_nanos(self) -> nat {
        (self.seconds * NANOS_PER_SECOND + self.nanos) as nat
    }
}

impl Timestamp {
    /// The nanoseconds are less than a second.
    pub open spec fn wf(self) -> bool {
        self.nanos < NANOS_PER_SECOND
    }

    /// Nanoseconds since the epoch.
    pub open spec fn total_nanos(self) -> nat {
        (self.seconds * NANOS_PER_SECOND + self.nanos) as nat
    }

    /// Whether `self` plus `lifetime` is still a `Timestamp`.
    pub open spec fn can_add(self, lifetime: Lifetime) -> bool {
        self.total_nanos() + lifetime.total_nanos() < (u64::MAX as nat + 1) * (
        NANOS_PER_SECOND as nat)
    }

    /// The point in time that lies `lifetime` after `self`, or `None` where
    /// its seconds do not fit.
    pub fn checked_after(self, lifetime: Lifetime) -> (r: Option<Timestamp>)
        requires
            self.wf(),
            lifetime.wf(),
        ensures
            r is Some <==> self.can_add(lifetime),
            r is Some ==> r->Some_0.wf() && r->Some_0.total_nanos() == self.total_nanos()
                + lifetime.total_nanos(),
    {
        let sum: u32 = self.nanos + lifetime.nanos;
        let carry: u64 = if sum >= NANOS_PER_SECOND {
            1
        } else {
            0
        };
        let nanos: u32 = if sum >= NANOS_PER_SECOND {
            sum - NANOS_PER_SECOND
        } else {
            sum
        };
        assert(self.total_nanos() + lifetime.total_nanos() == (self.seconds + lifetime.seconds
            + carry) * NANOS_PER_SECOND + nanos) by (nonlinear_arith)
            requires
                self.nanos + lifetime.nanos == carry * NANOS_PER_SECOND + nanos,
        ;
        assert(self.can_add(lifetime) <==> self.seconds + lifetime.seconds + carry <= u64::MAX)
            by (nonlinear_arith)
            requires
                self.total_nanos() + lifetime.total_nanos() == (self.seconds + lifetime.seconds
                    + carry) * NANOS_PER_SECOND + nanos,
                nanos < NANOS_PER_SECOND,
                NANOS_PER_SECOND == 1_000_000_000,
                self.can_add(lifetime) <==> self.total_nanos() + lifetime.total_nanos() < (
                u64::MAX as nat + 1) * (NANOS_PER_SECOND as nat),
        ;
        match self.seconds.checked_add(lifetime.seconds) {
            Some(s) => match s.checked_add(carry) {
                Some(seconds) => Some(Timestamp { seconds, nanos }),
                None => None,
            },
            None => None,
        }
    }
}

/// The authentication state that is kept between invocations.
#[derive(Debug, Clone, PartialEq, Eq)]
pub struct AuthSession {
    pub provider: Provider,
    pub access_token: String,
    pub refresh_token: Option<String>,
    pub expires_at: Option<Timestamp>,
    pub scopes: Option<Vec<String>>,
}

/// An `AuthSession` with its texts as sequences of characters.
pub struct SessionView {
    pub provider: Provider,
    pub access_token: Seq<char>,
    pub refresh_token: Option<Seq<char>>,
    pub expires_at: Option<Timestamp>,
    pub scopes: Option<Seq<Seq<char>>>,
}

impl View for AuthSession {
    type V = SessionView;

    open spec fn view(&self) -> SessionView {
        SessionView {
            provider: self.provider,
            access_token: self.access_token@,
            refresh_token: match self.refresh_token {
                Some(t) => Some(t@),
                None => None,
            },
            expires_at: self.expires_at,
            scopes: match self.scopes {
                Some(v) => Some(texts(v@)),
                None => None,
            },
        }
    }
}

impl AuthSession {
    /// The value of the `Authorization` header that presents this session.
    pub fn bearer(&self) -> (s: String)
        ensures
            s@ == "Bearer "@ + self@.access_token,
    {
        let mut s = String::new();
        push_text(&mut s, "Bearer ");
        push_text(&mut s, self.access_token.as_str());
        proof {
            assert(s@ =~= "Bearer "@ + self@.access_token);
        }
        s
    }
}

/// The scopes named in a provider's space-delimited scope string.
pub fn split_scopes(scope: &str) -> (scopes: Vec<String>)
    ensures
        texts(scopes@) == split_on(scope@, ' '),
{
    split_text(scope, ' ')
}

/// The profile of the authenticated user.
#[derive(Debug, Clone, PartialEq, Eq)]
pub struct UserInfo {
    pub login: String,
    pub id: u64,
    pub avatar_url: String,
    pub html_url: String,
    pub name: Option<String>,
    pub email: Option<String>,
}

/// A `UserInfo` with its texts as sequences of characters.
pub struct UserView {
    pub login: Seq<char>,
    pub id: u64,
    pub avatar_url: Seq<char>,
    pub html_url: Seq<char>,
    pub name: Option<Seq<char>>,
    pub email: Option<Seq<char>>,
}

impl UserView {
    /// The user in one line: the display name, or the login where there is
    /// none, and the email address in angle brackets.
    pub open spec fn format(self) -> Seq<char> {
        let name = match self.name {
            Some(n) => n,
            None => self.login,
        };
        let email = match self.email {
            Some(e) => e,
            None => "No email"@,
        };
        name + " <"@ + email + ">"@
    }
}

impl View for UserInfo {
    type V = UserView;

    open spec fn view(&self) -> UserView {
        UserView {
            login: self.login@,
            id: self.id,
            avatar_url: self.avatar_url@,
            html_url: self.html_url@,
            name: match self.name {
                Some(n) => Some(n@),
                None => None,
            },
            email: match self.email {
                Some(e) => Some(e@),
                None => None,
            },
        }
    }
}

impl UserInfo {
    /// The user in one line, as `login` and `whoami` print it.
    pub fn format(&self) -> (s: String)
        ensures
            s@ == self@.format(),
    {
        let mut s = String::new();
        match &self.name {
            Some(n) => push_text(&mut s, n.as_str()),
            None => push_text(&mut s, self.login.as_str()),
        }
        push_text(&mut s, " <");
        match &self.email {
            Some(e) => push_text(&mut s, e.as_str()),
            None => push_text(&mut s, "No email"),
        }
        push_text(&mut s, ">");
        proof {
            assert(s@ =~= self@.format());
        }
        s
    }
}

} // verus!
