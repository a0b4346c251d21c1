//! What a session is configured with, and which server it ends up talking to.

use vstd::prelude::*;

verus! {

/// The server that a session talks to when nothing else names one.
pub const DEFAULT_ENDPOINT: &'static str = "http://localhost:8000";

/// The environment variable that is asked first for the server's address.
pub const ENDPOINT_VARIABLE: &'static str = "CHROMA_HOST";

/// The environment variable that is asked second for the server's address.
pub const FALLBACK_ENDPOINT_VARIABLE: &'static str = "CHROMA_URL";

/// The tenant of a session that names none.
pub const DEFAULT_TENANT: &'static str = "default_tenant";

/// The database of a session that names none.
pub const DEFAULT_DATABASE: &'static str = "default_database";

/// The number of connections of a session that asks for no other.
pub const DEFAULT_CONNECTIONS: usize = 4;

/// The header in which a token travels.
#[derive(Debug, Clone, Copy, PartialEq, Eq, Structural)]
pub enum ChromaTokenHeader {
    /// `Authorization: Bearer <token>`.
    Authorization,
    /// `X-Chroma-Token: <token>`.
    XChromaToken,
}

/// How a session proves to the server who it is.
#[derive(Debug)]
pub enum ChromaAuthMethod {
    /// No authentication.
    NoAuth,
    /// A token, sent in the given header.
    TokenAuth { header: ChromaTokenHeader, token: String },
}

/// What a [`ChromaAuthMethod`] is in contracts.
pub enum AuthView {
    NoAuth,
    TokenAuth { header: ChromaTokenHeader, token: Seq<char> },
}

impl View for ChromaAuthMethod {
    type V = AuthView;

    open spec fn view(&self) -> AuthView {
        match *self {
            ChromaAuthMethod::NoAuth => AuthView::NoAuth,
            ChromaAuthMethod::TokenAuth { header, token } => AuthView::TokenAuth {
                header,
                token: token@,
            },
        }
    }
}

impl Clone for ChromaAuthMethod {
    fn clone(&self) -> (copy: Self)
        ensures
            copy == *self,
    {
        match self {
            ChromaAuthMethod::NoAuth => ChromaAuthMethod::NoAuth,
            ChromaAuthMethod::TokenAuth { header, token } => ChromaAuthMethod::TokenAuth {
                header: *header,
                token: token.clone(),
            },
        }
    }
}

/// The options for a session.
#[derive(Debug)]
pub struct ChromaClientOptions {
    /// The address of the server, where the caller names one.
    pub url: Option<String>,
    /// How the session authenticates.
    pub auth: ChromaAuthMethod,
    /// The tenant that the session works in.
    pub tenant: String,
    /// The database that the session works in.
    pub database: String,
    /// The number of connections that the session keeps open to the server.
    pub connections: usize,
}

/// What a [`ChromaClientOptions`] is in contracts.
pub struct OptionsView {
    pub url: Option<Seq<char>>,
    pub auth: AuthView,
    pub tenant: Seq<char>,
    pub database: Seq<char>,
    pub connections: usize,
}

impl View for ChromaClientOptions {
    type V = OptionsView;

    open spec fn view(&self) -> OptionsView {
        OptionsView {
            url: text_of(self.url),
            auth: self.auth@,
            tenant: self.tenant@,
            database: self.database@,
            connections: self.connections,
        }
    }
}

/// The characters of an optional string.
pub open spec fn text_of(text: Option<String>) -> Option<Seq<char>> {
    match text {
        Some(t) => Some(t@),
        None => None,
    }
}

/// The options of a session that was told nothing: no address, no
/// authentication, the default tenant and database, four connections.
pub open spec fn default_options() -> OptionsView {
    OptionsView {
        url: None,
        auth: AuthView::NoAuth,
        tenant: DEFAULT_TENANT@,
        database: DEFAULT_DATABASE@,
        connections: DEFAULT_CONNECTIONS,
    }
}

impl Default for ChromaClientOptions {
    fn default() -> (options: Self)
        ensures
            options@ == default_options(),
    {
        ChromaClientOptions {
            url: None,
            auth: ChromaAuthMethod::NoAuth,
            tenant: DEFAULT_TENANT.to_owned(),
            database: DEFAULT_DATABASE.to_owned(),
            connections: DEFAULT_CONNECTIONS,
        }
    }
}

impl ChromaClientOptions {
    /// The default options.
    pub fn new() -> (options: Self)
        ensures
            options@ == default_options(),
    {
        ChromaClientOptions {
            url: None,
            auth: ChromaAuthMethod::NoAuth,
            tenant: DEFAULT_TENANT.to_owned(),
            database: DEFAULT_DATABASE.to_owned(),
            connections: DEFAULT_CONNECTIONS,
        }
    }

    /// Names the server's address.
    pub fn url(self, url: &str) -> (options: Self)
        ensures
            options@ == (OptionsView { url: Some(url@), ..self@ }),
    {
        let mut options = self;
        options.url = Some(url.to_owned());
        options
    }

    /// Sets how the session authenticates.
    pub fn auth(self, auth: ChromaAuthMethod) -> (options: Self)
        ensures
            options@ == (OptionsView { auth: auth@, ..self@ }),
    {
        let mut options = self;
        options.auth = auth;
        options
    }

    /// Names the tenant.
    pub fn tenant(self, tenant: &str) -> (options: Self)
        ensures
            options@ == (OptionsView { tenant: tenant@, ..self@ }),
    {
        let mut options = self;
        options.tenant = tenant.to_owned();
        options
    }

    /// Names the database.
    pub fn database(self, database: &str) -> (options: Self)
        ensures
            options@ == (OptionsView { database: database@, ..self@ }),
    {
        let mut options = self;
        options.database = database.to_owned();
        options
    }

    /// Sets the number of connections.
    pub fn connections(self, connections: usize) -> (options: Self)
        ensures
            options@ == (OptionsView { connections, ..self@ }),
    {
        let mut options = self;
        options.connections = connections;
        options
    }

    /// Authenticates with a token in the `Authorization` header.
    pub fn token_auth(self, token: &str) -> (options: Self)
        ensures
            options@ == (OptionsView {
                auth: AuthView::TokenAuth { header: ChromaTokenHeader::Authorization, token: token@ },
                ..self@
            }),
    {
        self.auth(
            ChromaAuthMethod::TokenAuth {
                header: ChromaTokenHeader::Authorization,
                token: token.to_owned(),
            },
        )
    }

    /// Authenticates with a token in the `X-Chroma-Token` header.
    pub fn x_chroma_token(self, token: &str) -> (options: Self)
        ensures
            options@ == (OptionsView {
                auth: AuthView::TokenAuth { header: ChromaTokenHeader::XChromaToken, token: token@ },
                ..self@
            }),
    {
        self.auth(
            ChromaAuthMethod::TokenAuth {
                header: ChromaTokenHeader::XChromaToken,
                token: token.to_owned(),
            },
        )
    }
}

/// The address that a session talks to: the one the caller named; else the
/// value of the first environment variable; else that of the second; else
/// [`DEFAULT_ENDPOINT`].
pub open spec fn resolved_endpoint(
    url: Option<Seq<char>>,
    chroma_host: Option<Seq<char>>,
    chroma_url: Option<Seq<char>>,
) -> Seq<char> {
    match url {
        Some(named) => named,
        None => match chroma_host {
            Some(first) => first,
            None => match chroma_url {
                Some(second) => second,
                None => DEFAULT_ENDPOINT@,
            },
        },
    }
}

/// Picks the server's address. `chroma_host` and `chroma_url` are the values
/// of [`ENDPOINT_VARIABLE`] and [`FALLBACK_ENDPOINT_VARIABLE`], `None` where
/// the variable is not set.
pub fn resolve_endpoint(
    url: Option<String>,
    chroma_host: Option<String>,
    chroma_url: Option<String>,
) -> (endpoint: String)
    ensures
        endpoint@ == resolved_endpoint(text_of(url), text_of(chroma_host), text_of(chroma_url)),
{
    match url {
        Some(named) => named,
        None => match chroma_host {
            Some(first) => first,
            None => match chroma_url {
                Some(second) => second,
                None => DEFAULT_ENDPOINT.to_owned(),
            },
        },
    }
}

} // verus!
