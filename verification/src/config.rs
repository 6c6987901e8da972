//! The fixed inputs of the login flows, and the settings of the backend.

use crate::text::{push_text, str_eq, texts};
use vstd::prelude::*;

verus! {

/// The provider's endpoints and the identity of this client.
#[derive(Debug, Clone, PartialEq, Eq)]
pub struct AuthConfig {
    pub client_id: String,
    /// Where a device asks for its codes.
    pub device_code_url: String,
    /// Where the device flow polls for the token.
    pub token_url: String,
    /// Where the browser is sent to ask the user for consent.
    pub authorize_url: String,
    /// The backend endpoint that exchanges an authorization code.
    pub exchange_url: String,
    /// Where the profile of the authenticated user is fetched.
    pub user_url: String,
    /// The `User-Agent` that the provider requires on profile requests.
    pub user_agent: String,
    /// The local port on which the callback is awaited.
    pub callback_port: u16,
    /// The scopes that the authorization-code flow asks for.
    pub scopes: Vec<String>,
}

/// An `AuthConfig` with its texts as sequences of characters.
pub struct AuthConfigView {
    pub client_id: Seq<char>,
    pub device_code_url: Seq<char>,
    pub token_url: Seq<char>,
    pub authorize_url: Seq<char>,
    pub exchange_url: Seq<char>,
    pub user_url: Seq<char>,
    pub user_agent: Seq<char>,
    pub callback_port: u16,
    pub scopes: Seq<Seq<char>>,
}

impl View for AuthConfig {
    type V = AuthConfigView;

    open spec fn view(&self) -> AuthConfigView {
        AuthConfigView {
            client_id: self.client_id@,
            device_code_url: self.device_code_url@,
            token_url: self.token_url@,
            authorize_url: self.authorize_url@,
            exchange_url: self.exchange_url@,
            user_url: self.user_url@,
            user_agent: self.user_agent@,
            callback_port: self.callback_port,
            scopes: texts(self.scopes@),
        }
    }
}

impl AuthConfig {
    /// The settings for GitHub, with the backend on this machine.
    pub open spec fn spec_github() -> AuthConfigView {
        AuthConfigView {
            client_id: "Iv23li6unikd56cFZ6zX"@,
            device_code_url: "https://github.com/login/device/code"@,
            token_url: "https://github.com/login/oauth/access_token"@,
            authorize_url: "https://github.com/login/oauth/authorize"@,
            exchange_url: "http://localhost:3000/oauth/github/exchange-code"@,
            user_url: "https://api.github.com/user"@,
            user_agent: "MyRustApp"@,
            callback_port: 7777,
            scopes: seq!["public_repo"@, "user:email"@],
        }
    }

    /// The settings for GitHub, with the backend on this machine.
    pub fn github() -> (config: AuthConfig)
        ensures
            config@ == Self::spec_github(),
    {
        let scopes = vec![String::from_str("public_repo"), String::from_str("user:email")];
        proof {
            assert(texts(scopes@) =~= seq!["public_repo"@, "user:email"@]);
        }
        AuthConfig {
            client_id: String::from_str("Iv23li6unikd56cFZ6zX"),
            device_code_url: String::from_str("https://github.com/login/device/code"),
            token_url: String::from_str("https://github.com/login/oauth/access_token"),
            authorize_url: String::from_str("https://github.com/login/oauth/authorize"),
            exchange_url: String::from_str("http://localhost:3000/oauth/github/exchange-code"),
            user_url: String::from_str("https://api.github.com/user"),
            user_agent: String::from_str("MyRustApp"),
            callback_port: 7777,
            scopes,
        }
    }
}

/// Where the backend runs.
#[derive(Debug, Clone, Copy, PartialEq, Eq, Structural)]
pub enum Environment {
    Development,
    Production,
    Testing,
    Staging,
}

impl Environment {
    /// Whether this is the production environment.
    pub fn is_production(&self) -> (r: bool)
        ensures
            r == (*self == Environment::Production),
    {
        match self {
            Environment::Production => true,
            _ => false,
        }
    }

    /// The environment that a setting names, by its full or its short name.
    pub open spec fn named(name: Seq<char>) -> Option<Environment> {
        if name == "development"@ || name == "dev"@ {
            Some(Environment::Development)
        } else if name == "testing"@ || name == "test"@ {
            Some(Environment::Testing)
        } else if name == "staging"@ {
            Some(Environment::Staging)
        } else if name == "production"@ || name == "prod"@ {
            Some(Environment::Production)
        } else {
            None
        }
    }

    /// Reads the environment that a setting names. Any other name is
    /// refused, with a message that quotes it.
    pub fn from_name(name: &str) -> (r: Result<Environment, String>)
        ensures
            match Self::named(name@) {
                Some(e) => r == Ok::<Environment, String>(e),
                None => r is Err && r->Err_0@ == "Unknown environment: "@ + name@,
            },
    {
        if str_eq(name, "development") || str_eq(name, "dev") {
            Ok(Environment::Development)
        } else if str_eq(name, "testing") || str_eq(name, "test") {
            Ok(Environment::Testing)
        } else if str_eq(name, "staging") {
            Ok(Environment::Staging)
        } else if str_eq(name, "production") || str_eq(name, "prod") {
            Ok(Environment::Production)
        } else {
            let mut message = String::new();
            push_text(&mut message, "Unknown environment: ");
            push_text(&mut message, name);
            proof {
                assert(message@ =~= "Unknown environment: "@ + name@);
            }
            Err(message)
        }
    }
}

/// How the backend reaches its database.
#[derive(Debug, Clone, PartialEq, Eq)]
pub struct DatabaseConfiguration {
    name: String,
    password: String,
    username: String,
}

impl DatabaseConfiguration {
    pub closed spec fn spec_name(&self) -> Seq<char> {
        self.name@
    }

    pub closed spec fn spec_password(&self) -> Seq<char> {
        self.password@
    }

    pub closed spec fn spec_username(&self) -> Seq<char> {
        self.username@
    }

    /// The settings for the database `name` and the given user.
    pub fn new(name: String, password: String, username: String) -> (c: DatabaseConfiguration)
        ensures
            c.spec_name() == name@,
            c.spec_password() == password@,
            c.spec_username() == username@,
    {
        DatabaseConfiguration { name, password, username }
    }

    /// The address under which the database is opened.
    pub open spec fn spec_connection_string(&self) -> Seq<char> {
        "postgres://"@ + self.spec_username() + ":"@ + self.spec_password() + "@postgres/"@
            + self.spec_name() + "?currentSchema=my_schema"@
    }

    /// The address under which the database is opened.
    pub fn connection_string(&self) -> (s: String)
        ensures
            s@ == self.spec_connection_string(),
    {
        let mut s = String::new();
        push_text(&mut s, "postgres://");
        push_text(&mut s, self.username.as_str());
        push_text(&mut s, ":");
        push_text(&mut s, self.password.as_str());
        push_text(&mut s, "@postgres/");
        push_text(&mut s, self.name.as_str());
        push_text(&mut s, "?currentSchema=my_schema");
        proof {
            assert(s@ =~= self.spec_connection_string());
        }
        s
    }
}

/// The settings of the backend.
#[derive(Debug, Clone, PartialEq, Eq)]
pub struct Configuration {
    port: u16,
    database: DatabaseConfiguration,
    env: Environment,
}

impl Configuration {
    pub closed spec fn spec_port(&self) -> u16 {
        self.port
    }

    pub closed spec fn spec_database(&self) -> DatabaseConfiguration {
        self.database
    }

    pub closed spec fn spec_env(&self) -> Environment {
        self.env
    }

    /// The settings with the given parts.
    pub fn new(port: u16, database: DatabaseConfiguration, env: Environment) -> (c: Configuration)
        ensures
            c.spec_port() == port,
            c.spec_database() == database,
            c.spec_env() == env,
    {
        Configuration { port, database, env }
    }

    /// The port on which the backend listens.
    pub fn port(&self) -> (port: u16)
        ensures
            port == self.spec_port(),
    {
        self.port
    }

    /// How the backend reaches its database.
    pub fn database(&self) -> (database: &DatabaseConfiguration)
        ensures
            *database == self.spec_database(),
    {
        &self.database
    }

    /// Where the backend runs.
    pub fn env(&self) -> (env: &Environment)
        ensures
            *env == self.spec_env(),
    {
        &self.env
    }
}

/// The page of the catalog that a request asks for.
#[derive(Debug, Clone, PartialEq, Eq)]
pub struct ApiPagination {
    /// The text that the names must hold.
    pub query: String,
    /// The number of the page, from 1.
    pub page: u32,
    /// The number of entries on a page.
    pub per_page: u32,
}

/// The query of a request that names none: the empty text.
pub fn default_query() -> (query: String)
    ensures
        query@ == Seq::<char>::empty(),
{
    String::new()
}

/// The page of a request that names none: the first.
pub fn default_page() -> (page: u32)
    ensures
        page == 1,
{
    1
}

/// The page size of a request that names none.
pub fn default_per_page() -> (per_page: u32)
    ensures
        per_page == 10,
{
    10
}

impl ApiPagination {
    /// The request that names nothing: every name, first page, ten entries.
    pub fn unfiltered() -> (p: ApiPagination)
        ensures
            p.query@ == Seq::<char>::empty(),
            p.page == 1,
            p.per_page == 10,
    {
        ApiPagination { query: default_query(), page: default_page(), per_page: default_per_page() }
    }

    /// The pattern that the names are matched against: the query between
    /// two percent signs.
    pub fn pattern(&self) -> (s: String)
        ensures
            s@ == "%"@ + self.query@ + "%"@,
    {
        let mut s = String::new();
        push_text(&mut s, "%");
        push_text(&mut s, self.query.as_str());
        push_text(&mut s, "%");
        proof {
            assert(s@ =~= "%"@ + self.query@ + "%"@);
        }
        s
    }

    /// The most entries that the page holds.
    pub fn limit(&self) -> (n: i64)
        ensures
            n == self.per_page,
    {
        self.per_page as i64
    }

    /// The number of entries that stand before the page, where it fits.
    pub fn offset(&self) -> (n: Option<i64>)
        ensures
            n is Some <==> (self.page - 1) * self.per_page <= i64::MAX,
            n is Some ==> n->Some_0 == (self.page - 1) * self.per_page,
    {
        let before: i64 = self.page as i64 - 1;
        let per_page: i64 = self.per_page as i64;
        assert(before * per_page >= i64::MIN) by (nonlinear_arith)
            requires
                -1 <= before,
                0 <= per_page <= 0xFFFF_FFFF,
        ;
        before.checked_mul(per_page)
    }
}

} // verus!
