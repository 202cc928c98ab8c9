//! Credential lifetime: which credential a client starts with, when it must
//! be refreshed, and how a refresh result replaces it without changing its
//! kind. The exchanges with the identity provider are performed by the caller.

use vstd::prelude::*;

use crate::config::{ClientId, Config, Secret};
use crate::error::Error;

verus! {

/// Origin of a local development instance of the service, which performs no
/// authentication.
pub const LOCAL_DEVELOPMENT_ENDPOINT: &'static str = "http://localhost:7071";

/// The same origin as the text of a parsed URL, with its root path.
pub const LOCAL_DEVELOPMENT_URL: &'static str = "http://localhost:7071/";

/// Client id recorded for the credential of a local development instance.
pub const DEVELOPMENT_CLIENT_ID: &'static str = "development";

/// Lifetime, in seconds, of the credential of a local development instance.
pub const UNAUTHENTICATED_LIFETIME: u64 = 31_536_000;

/// `url` names the local development instance.
pub open spec fn is_local_endpoint(url: Seq<char>) -> bool {
    url == LOCAL_DEVELOPMENT_ENDPOINT@ || url == LOCAL_DEVELOPMENT_URL@
}

/// The instant `secs` seconds after `now`, held at the largest instant.
pub open spec fn expiry(now: i64, secs: u64) -> i64 {
    if now as int + secs as int > i64::MAX as int {
        i64::MAX
    } else {
        (now as int + secs as int) as i64
    }
}

/// Seconds since the epoch `secs` seconds after `now`, held at the largest
/// instant.
pub fn expiry_after(now: i64, secs: u64) -> (r: i64)
    ensures
        r == expiry(now, secs),
{
    let sum: i128 = now as i128 + secs as i128;
    if sum > i64::MAX as i128 {
        i64::MAX
    } else {
        sum as i64
    }
}

/// The kind of credential, with its tokens.
pub enum TokenType {
    /// Service-to-service credential: an access token and the secret that
    /// obtains the next one.
    ClientCredentials(String, Secret),
    /// Interactive credential: an access token and a refresh token.
    DeviceCode(String, String),
    /// No authentication; used with a local development instance.
    Unauthenticated,
}

/// Both credentials are of the same kind.
pub open spec fn same_kind(a: TokenType, b: TokenType) -> bool {
    match (a, b) {
        (TokenType::ClientCredentials(..), TokenType::ClientCredentials(..)) => true,
        (TokenType::DeviceCode(..), TokenType::DeviceCode(..)) => true,
        (TokenType::Unauthenticated, TokenType::Unauthenticated) => true,
        _ => false,
    }
}

/// The bearer token that a credential presents.
pub open spec fn bearer(t: TokenType) -> Option<Seq<char>> {
    match t {
        TokenType::ClientCredentials(access, _) => Some(access@),
        TokenType::DeviceCode(access, _) => Some(access@),
        TokenType::Unauthenticated => None,
    }
}

/// The credential held by a client.
pub struct Auth {
    /// The client id of the app registration that obtained the credential.
    pub client_id: ClientId,
    /// The credential.
    pub token: TokenType,
    /// Seconds since the epoch at which the credential expires.
    pub expires_on: i64,
}

/// How a new credential is obtained.
pub enum Flow {
    /// The client-credentials exchange with this secret.
    ClientCredentials(Secret),
    /// The interactive device-code flow.
    DeviceCode,
}

/// What a client does first to hold a credential.
pub enum Startup {
    /// Use no credential: the endpoint performs no authentication.
    NoAuth,
    /// Adopt the cached credential.
    Cached(Auth),
    /// Obtain a new credential, after deleting the cache when it belonged to
    /// another client id.
    Acquire { clear_cache: bool, flow: Flow },
}

/// The flow that a configuration calls for.
pub open spec fn flow_of(config: Config) -> Flow {
    match config.client_secret {
        Some(s) => Flow::ClientCredentials(s),
        None => Flow::DeviceCode,
    }
}

/// A step towards a bearer token.
pub enum TokenStep {
    /// The token to present, if any; no network access is needed.
    Ready(Option<String>),
    /// The credential has expired and must be refreshed once.
    Refresh(RefreshPlan),
}

/// How an expired credential is refreshed.
pub enum RefreshPlan {
    /// Run the client-credentials exchange again with this secret.
    ClientCredentials(Secret),
    /// Exchange this refresh token; on failure run the device-code flow again.
    DeviceCode(String),
}

/// The step that `token_step` takes for a credential at instant `now`.
pub open spec fn token_step_spec(a: Auth, now: i64) -> TokenStep {
    if now >= a.expires_on {
        match a.token {
            TokenType::ClientCredentials(_, secret) => TokenStep::Refresh(
                RefreshPlan::ClientCredentials(secret),
            ),
            TokenType::DeviceCode(_, refresh) => TokenStep::Refresh(
                RefreshPlan::DeviceCode(refresh),
            ),
            TokenType::Unauthenticated => TokenStep::Ready(None),
        }
    } else {
        match a.token {
            TokenType::ClientCredentials(access, _) => TokenStep::Ready(Some(access)),
            TokenType::DeviceCode(access, _) => TokenStep::Ready(Some(access)),
            TokenType::Unauthenticated => TokenStep::Ready(None),
        }
    }
}

/// The credential after a refresh that produced `fresh`: the tokens and the
/// expiry of `fresh`, the client id of `a`.
pub open spec fn after_refresh(a: Auth, fresh: Auth) -> Auth {
    Auth { client_id: a.client_id, token: fresh.token, expires_on: fresh.expires_on }
}

/// What the identity provider answered to a client-credentials exchange.
pub struct ClientCredentialsGrant {
    /// The access token.
    pub access_token: String,
    /// The absolute expiry, if the provider gave one.
    pub expires_on: Option<i64>,
    /// The lifetime in seconds.
    pub expires_in: u64,
}

/// What the identity provider answered to a device-code or refresh exchange.
pub struct DeviceCodeGrant {
    /// The access token.
    pub access_token: String,
    /// The refresh token, if the provider gave one.
    pub refresh_token: Option<String>,
    /// The lifetime in seconds.
    pub expires_in: u64,
}

/// One answer of the identity provider while the device-code flow is polled.
pub enum PollEvent {
    /// The user authorized the client.
    Authorized(DeviceCodeGrant),
    /// This poll failed; the flow goes on.
    Pending,
    /// The flow ended without authorization.
    Exhausted,
}

impl Auth {
    /// The credential used with a local development instance: no token, a
    /// year of validity from `now`.
    pub fn new_without_auth(now: i64) -> (r: Auth)
        ensures
            r.client_id@ == DEVELOPMENT_CLIENT_ID@,
            r.token is Unauthenticated,
            r.expires_on == expiry(now, UNAUTHENTICATED_LIFETIME),
    {
        Auth {
            client_id: ClientId::new(DEVELOPMENT_CLIENT_ID.to_owned()),
            token: TokenType::Unauthenticated,
            expires_on: expiry_after(now, UNAUTHENTICATED_LIFETIME),
        }
    }

    /// The credential cache is read only where the endpoint authenticates
    /// and the configuration does not disable the cache.
    pub fn reads_cache(config: &Config) -> (r: bool)
        ensures
            r == (!is_local_endpoint(config.api_url@) && !config.ignore_login_cache),
    {
        let local = LOCAL_DEVELOPMENT_ENDPOINT.to_owned();
        let local_url = LOCAL_DEVELOPMENT_URL.to_owned();
        !(config.api_url == local || config.api_url == local_url) && !config.ignore_login_cache
    }

    /// Decide how a client comes by its credential, given the one read from
    /// the cache (`None` where the cache is missing, unreadable or ignored).
    pub fn startup(config: &Config, cached: Option<Auth>) -> (r: Startup)
        ensures
            is_local_endpoint(config.api_url@) ==> r is NoAuth,
            !is_local_endpoint(config.api_url@) ==> match cached {
                Some(a) => if !config.ignore_login_cache && a.client_id@ == config.client_id@ {
                    r == Startup::Cached(a)
                } else {
                    r == (Startup::Acquire {
                        clear_cache: !config.ignore_login_cache,
                        flow: flow_of(*config),
                    })
                },
                None => r == (Startup::Acquire { clear_cache: false, flow: flow_of(*config) }),
            },
    {
        let local = LOCAL_DEVELOPMENT_ENDPOINT.to_owned();
        let local_url = LOCAL_DEVELOPMENT_URL.to_owned();
        if config.api_url == local || config.api_url == local_url {
            return Startup::NoAuth;
        }
        let flow = match &config.client_secret {
            Some(s) => Flow::ClientCredentials(s.clone()),
            None => Flow::DeviceCode,
        };
        match cached {
            Some(a) => {
                if !config.ignore_login_cache && a.client_id == config.client_id {
                    Startup::Cached(a)
                } else {
                    Startup::Acquire { clear_cache: !config.ignore_login_cache, flow }
                }
            },
            None => Startup::Acquire { clear_cache: false, flow },
        }
    }

    /// The credential obtained by a client-credentials exchange at `now`.
    pub fn with_client_secret(
        config: &Config,
        client_secret: &Secret,
        now: i64,
        grant: ClientCredentialsGrant,
    ) -> (r: Auth)
        ensures
            r.client_id@ == config.client_id@,
            r.token matches TokenType::ClientCredentials(access, secret) && access@
                == grant.access_token@ && secret@ == client_secret@,
            r.expires_on == match grant.expires_on {
                Some(e) => e,
                None => expiry(now, grant.expires_in),
            },
    {
        let expires_on = match grant.expires_on {
            Some(e) => e,
            None => expiry_after(now, grant.expires_in),
        };
        Auth {
            client_id: config.client_id.clone(),
            token: TokenType::ClientCredentials(grant.access_token, client_secret.clone()),
            expires_on,
        }
    }

    /// The credential obtained by the device-code flow, or by a refresh-token
    /// exchange, at `now`; a grant without a refresh token is refused.
    pub fn with_device_code(config: &Config, now: i64, grant: DeviceCodeGrant) -> (r: Result<
        Auth,
        Error,
    >)
        ensures
            grant.refresh_token is None <==> r is Err,
            r matches Err(e) ==> e == Error::InvalidToken("missing refresh token"),
            r matches Ok(a) ==> {
                &&& a.client_id@ == config.client_id@
                &&& a.token matches TokenType::DeviceCode(access, refresh)
                &&& access@ == grant.access_token@
                &&& grant.refresh_token matches Some(t)
                &&& refresh@ == t@
                &&& a.expires_on == expiry(now, grant.expires_in)
            },
    {
        match grant.refresh_token {
            Some(refresh) => Ok(
                Auth {
                    client_id: config.client_id.clone(),
                    token: TokenType::DeviceCode(grant.access_token, refresh),
                    expires_on: expiry_after(now, grant.expires_in),
                },
            ),
            None => Err(Error::InvalidToken("missing refresh token")),
        }
    }

    /// One answer of the device-code poll: `Ok(Some(grant))` ends the flow
    /// with an authorization, `Ok(None)` polls again, an exhausted flow fails.
    pub fn device_code_poll(event: PollEvent) -> (r: Result<Option<DeviceCodeGrant>, Error>)
        ensures
            match event {
                PollEvent::Authorized(g) => r == Ok::<Option<DeviceCodeGrant>, Error>(Some(g)),
                PollEvent::Pending => r == Ok::<Option<DeviceCodeGrant>, Error>(None),
                PollEvent::Exhausted => r == Err::<Option<DeviceCodeGrant>, Error>(
                    Error::Auth("device code flow failed"),
                ),
            },
    {
        match event {
            PollEvent::Authorized(g) => Ok(Some(g)),
            PollEvent::Pending => Ok(None),
            PollEvent::Exhausted => Err(Error::Auth("device code flow failed")),
        }
    }

    /// The bearer token that the credential presents.
    pub fn current_token(&self) -> (r: Option<String>)
        ensures
            match r {
                Some(t) => bearer(self.token) == Some(t@),
                None => bearer(self.token) is None,
            },
    {
        match &self.token {
            TokenType::ClientCredentials(access, _) => Some(access.clone()),
            TokenType::DeviceCode(access, _) => Some(access.clone()),
            TokenType::Unauthenticated => None,
        }
    }

    /// The step towards a token at instant `now`: the token as it stands
    /// while `now` is before the expiry, else the one refresh to perform.
    pub fn token_step(&self, now: i64) -> (r: TokenStep)
        ensures
            match (r, token_step_spec(*self, now)) {
                (TokenStep::Ready(Some(t)), TokenStep::Ready(Some(u))) => t@ == u@,
                (TokenStep::Ready(None), TokenStep::Ready(None)) => true,
                (
                    TokenStep::Refresh(RefreshPlan::ClientCredentials(s)),
                    TokenStep::Refresh(RefreshPlan::ClientCredentials(u)),
                ) => s@ == u@,
                (
                    TokenStep::Refresh(RefreshPlan::DeviceCode(s)),
                    TokenStep::Refresh(RefreshPlan::DeviceCode(u)),
                ) => s@ == u@,
                _ => false,
            },
    {
        if now >= self.expires_on {
            match &self.token {
                TokenType::ClientCredentials(_, secret) => TokenStep::Refresh(
                    RefreshPlan::ClientCredentials(secret.clone()),
                ),
                TokenType::DeviceCode(_, refresh) => TokenStep::Refresh(
                    RefreshPlan::DeviceCode(refresh.clone()),
                ),
                TokenType::Unauthenticated => TokenStep::Ready(None),
            }
        } else {
            TokenStep::Ready(self.current_token())
        }
    }

    /// A refresh-token exchange may be attempted only for the client id that
    /// obtained the credential.
    pub fn can_exchange(&self, config: &Config) -> (r: bool)
        ensures
            r == (self.client_id@ == config.client_id@),
    {
        self.client_id == config.client_id
    }

    /// The credential after a refresh-token exchange at `now`; `None` when
    /// the exchange may not be attempted, failed, or lacked a refresh token,
    /// in which case the device-code flow runs again instead of failing.
    pub fn device_refresh_outcome(
        &self,
        config: &Config,
        now: i64,
        exchange: Option<DeviceCodeGrant>,
    ) -> (r: Option<Auth>)
        ensures
            r is Some <==> (self.client_id@ == config.client_id@ && (exchange matches Some(g)
                && g.refresh_token is Some)),
            r matches Some(a) ==> exchange matches Some(g) && {
                &&& a.client_id@ == config.client_id@
                &&& a.token matches TokenType::DeviceCode(access, refresh)
                &&& access@ == g.access_token@
                &&& g.refresh_token matches Some(t)
                &&& refresh@ == t@
                &&& a.expires_on == expiry(now, g.expires_in)
            },
    {
        if !self.can_exchange(config) {
            return None;
        }
        match exchange {
            Some(g) => match Auth::with_device_code(config, now, g) {
                Ok(a) => Some(a),
                Err(_) => None,
            },
            None => None,
        }
    }

    /// Take the result of a refresh and return the token to present. A
    /// result of another kind of credential is refused and changes nothing.
    pub fn complete_refresh(&mut self, fresh: Auth) -> (r: Result<Option<String>, Error>)
        ensures
            same_kind(old(self).token, fresh.token) ==> {
                &&& *final(self) == after_refresh(*old(self), fresh)
                &&& r matches Ok(t) && match t {
                    Some(t) => bearer(fresh.token) == Some(t@),
                    None => bearer(fresh.token) is None,
                }
            },
            !same_kind(old(self).token, fresh.token) ==> {
                &&& *final(self) == *old(self)
                &&& r == Err::<Option<String>, Error>(
                    Error::Auth("credential kind changed during refresh"),
                )
            },
    {
        let same = match (&self.token, &fresh.token) {
            (TokenType::ClientCredentials(..), TokenType::ClientCredentials(..)) => true,
            (TokenType::DeviceCode(..), TokenType::DeviceCode(..)) => true,
            (TokenType::Unauthenticated, TokenType::Unauthenticated) => true,
            _ => false,
        };
        if !same {
            return Err(Error::Auth("credential kind changed during refresh"));
        }
        let t = fresh.current_token();
        self.token = fresh.token;
        self.expires_on = fresh.expires_on;
        Ok(t)
    }
}

/// A credential presented before its expiry needs no refresh: the token is
/// handed out as it stands, without any network access.
pub proof fn lemma_unexpired_token_is_ready(a: Auth, now: i64)
    requires
        now < a.expires_on,
    ensures
        token_step_spec(a, now) matches TokenStep::Ready(t) && match t {
            Some(t) => bearer(a.token) == Some(t@),
            None => bearer(a.token) is None,
        },
{
}

/// A credential presented at or after its expiry is refreshed exactly once:
/// the step asks for one refresh by the credential's own protocol, and the
/// refreshed credential keeps its kind and hands out its new token without
/// a further step.
pub proof fn lemma_expired_token_refreshes_once(a: Auth, now: i64, fresh: Auth)
    requires
        now >= a.expires_on,
        !(a.token is Unauthenticated),
        same_kind(a.token, fresh.token),
    ensures
        token_step_spec(a, now) matches TokenStep::Refresh(plan) && match a.token {
            TokenType::ClientCredentials(_, secret) => plan == RefreshPlan::ClientCredentials(
                secret,
            ),
            TokenType::DeviceCode(_, refresh) => plan == RefreshPlan::DeviceCode(refresh),
            TokenType::Unauthenticated => false,
        },
        same_kind(after_refresh(a, fresh).token, a.token),
        after_refresh(a, fresh).client_id == a.client_id,
        bearer(after_refresh(a, fresh).token) == bearer(fresh.token),
        after_refresh(a, fresh).expires_on == fresh.expires_on,
{
}

} // verus!
