//! Client configuration and the secrets it holds.

use vstd::prelude::*;

use crate::error::Error;
use crate::text::{fits_url, occurs_at, replace_first, url_set_path, url_with_path, MAX_URL_CHARS};

verus! {

/// Name of the client, as its user agent states it.
pub const SDK_NAME: &'static str = "freta";

/// Version of the client, as its user agent states it.
pub const SDK_VERSION: &'static str = "0.1.0";

/// The service's public endpoint.
pub const DEFAULT_API_URL: &'static str = "https://freta.microsoft.com/";

/// The client id of the public app registration.
pub const DEFAULT_CLIENT_ID: &'static str = "574efb07-14a8-4232-a200-89714a0324c9";

/// The tenant used when none is configured.
pub const DEFAULT_TENANT_ID: &'static str = "common";

/// The token scope of the public service.
pub const DEFAULT_SCOPE: &'static str = "api://a934fc14-92d7-4127-aecd-bddab35935da/.default";

/// The path that turns the API URL into a token scope.
pub const SCOPE_PATH: &'static str = ".default";

/// Client secret: an opaque value, so that secrets are not logged by accident.
pub struct Secret(String);

impl Clone for Secret {
    fn clone(&self) -> (r: Self)
        ensures
            r == *self,
    {
        Secret(self.0.clone())
    }
}

impl View for Secret {
    type V = Seq<char>;

    closed spec fn view(&self) -> Seq<char> {
        self.0@
    }
}

impl Secret {
    /// Create a new `Secret`.
    pub fn new(secret: String) -> (r: Self)
        ensures
            r@ == secret@,
    {
        Secret(secret)
    }

    /// The secret itself; asking for it is a deliberate act.
    pub fn get_secret(&self) -> (r: &str)
        ensures
            r@ == self@,
    {
        self.0.as_str()
    }
}

impl From<String> for Secret {
    fn from(secret: String) -> (r: Self) {
        Secret(secret)
    }
}

impl vstd::std_specs::convert::FromSpecImpl<String> for Secret {
    open spec fn obeys_from_spec() -> bool {
        true
    }

    closed spec fn from_spec(v: String) -> Self {
        Secret(v)
    }
}

/// Client id of an app registration.
#[derive(Debug)]
pub struct ClientId(String);

impl Clone for ClientId {
    fn clone(&self) -> (r: Self)
        ensures
            r == *self,
    {
        ClientId(self.0.clone())
    }
}

impl View for ClientId {
    type V = Seq<char>;

    closed spec fn view(&self) -> Seq<char> {
        self.0@
    }
}

impl ClientId {
    /// Create a new `ClientId`.
    pub fn new(id: String) -> (r: Self)
        ensures
            r@ == id@,
    {
        ClientId(id)
    }

    /// The client id as text.
    pub fn as_str(&self) -> (r: &str)
        ensures
            r@ == self@,
    {
        self.0.as_str()
    }
}

impl PartialEq for ClientId {
    fn eq(&self, o: &ClientId) -> (r: bool) {
        self.0 == o.0
    }
}

impl vstd::std_specs::cmp::PartialEqSpecImpl for ClientId {
    open spec fn obeys_eq_spec() -> bool {
        true
    }

    open spec fn eq_spec(&self, o: &ClientId) -> bool {
        self@ == o@
    }
}

/// Client configuration; fixed for the lifetime of a client.
pub struct Config {
    /// URL of the service's API, as text.
    pub api_url: String,
    /// App registration client id.
    pub client_id: ClientId,
    /// Tenant of the app registration.
    pub tenant_id: String,
    /// Client secret of a custom app registration.
    pub client_secret: Option<Secret>,
    /// Token scope; derived from `api_url` when absent.
    pub scope: Option<String>,
    /// Neither read nor write the local credential cache.
    pub ignore_login_cache: bool,
}

impl Clone for Config {
    fn clone(&self) -> (r: Self)
        ensures
            r == *self,
    {
        Config {
            api_url: self.api_url.clone(),
            client_id: self.client_id.clone(),
            tenant_id: self.tenant_id.clone(),
            client_secret: match &self.client_secret {
                Some(s) => Some(s.clone()),
                None => None,
            },
            scope: match &self.scope {
                Some(s) => Some(s.clone()),
                None => None,
            },
            ignore_login_cache: self.ignore_login_cache,
        }
    }
}

impl Config {
    /// The configuration of the public service.
    pub fn new() -> (r: Self)
        ensures
            r.api_url@ == DEFAULT_API_URL@,
            r.client_id@ == DEFAULT_CLIENT_ID@,
            r.tenant_id@ == DEFAULT_TENANT_ID@,
            r.client_secret is None,
            r.scope matches Some(s) && s@ == DEFAULT_SCOPE@,
            !r.ignore_login_cache,
    {
        Config {
            api_url: DEFAULT_API_URL.to_owned(),
            client_id: ClientId::new(DEFAULT_CLIENT_ID.to_owned()),
            tenant_id: DEFAULT_TENANT_ID.to_owned(),
            client_secret: None,
            scope: Some(DEFAULT_SCOPE.to_owned()),
            ignore_login_cache: false,
        }
    }
}

/// The token scope derived from an API URL: the URL with its path set to
/// `.default`, its `https://` scheme prefix written `api://`.
pub open spec fn derived_scope(api_url: Seq<char>, with_path: Seq<char>) -> bool {
    url_with_path(api_url, SCOPE_PATH@) == Some(with_path)
}

impl Config {
    /// The token scope: the configured one, else one derived from `api_url`.
    pub fn get_scope(&self) -> (r: Result<String, Error>)
        ensures
            self.scope matches Some(s) ==> r matches Ok(t) && t@ == s@,
            self.scope is None && self.api_url@.len() + SCOPE_PATH@.len() > MAX_URL_CHARS ==> r is Err,
            self.scope is None && url_with_path(self.api_url@, SCOPE_PATH@) is None ==> r is Err,
            self.scope is None && self.api_url@.len() + SCOPE_PATH@.len() <= MAX_URL_CHARS
                && url_with_path(self.api_url@, SCOPE_PATH@) is Some ==> r is Ok,
            self.scope is None ==> (r matches Ok(t) ==> exists|u: Seq<char>|
                #[trigger] derived_scope(self.api_url@, u) && (occurs_at(u, "https://"@, 0)
                    ==> t@ == "api://"@ + u.subrange(8, u.len() as int))
                    && ((forall|i: int| !occurs_at(u, "https://"@, i)) ==> t@ == u)),
    {
        match &self.scope {
            Some(s) => Ok(s.clone()),
            None => {
                if !fits_url(self.api_url.as_str(), SCOPE_PATH) {
                    return Err(Error::Other("URL too long", self.api_url.clone()));
                }
                match url_set_path(self.api_url.as_str(), SCOPE_PATH) {
                Some(u) => {
                    proof {
                        reveal_strlit("https://");
                    }
                    let t = replace_first(u.as_str(), "https://", "api://");
                    assert(derived_scope(self.api_url@, u@));
                    Ok(t)
                },
                    None => Err(Error::Other("unable to parse URL", self.api_url.clone())),
                }
            },
        }
    }
}

} // verus!
