use freta::auth::{
    Auth, ClientCredentialsGrant, DeviceCodeGrant, Flow, PollEvent, RefreshPlan, Startup,
    TokenStep, TokenType,
};
use freta::{ClientId, Config, Error, Secret};

fn config(url: &str, secret: Option<&str>, ignore: bool) -> Config {
    let mut c = Config::new();
    c.api_url = url.to_string();
    c.client_secret = secret.map(|s| Secret::new(s.to_string()));
    c.ignore_login_cache = ignore;
    c
}

fn device_auth(client: &str, access: &str, refresh: &str, expires_on: i64) -> Auth {
    Auth {
        client_id: ClientId::new(client.to_string()),
        token: TokenType::DeviceCode(access.to_string(), refresh.to_string()),
        expires_on,
    }
}

#[test]
fn local_endpoint_needs_no_auth() {
    let c = config("http://localhost:7071/", None, false);
    assert!(matches!(Auth::startup(&c, None), Startup::NoAuth));
    let a = Auth::new_without_auth(100);
    assert_eq!(a.current_token(), None);
    assert_eq!(a.expires_on, 100 + 31_536_000);
    assert!(matches!(a.token_step(i64::MAX), TokenStep::Ready(None)));
}

#[test]
fn cached_credential_adopted_for_same_client() {
    let c = config("https://freta.microsoft.com/", None, false);
    let id = c.client_id.as_str().to_string();
    let cached = device_auth(&id, "a", "r", 10);
    match Auth::startup(&c, Some(cached)) {
        Startup::Cached(a) => assert_eq!(a.current_token(), Some("a".to_string())),
        _ => panic!("expected the cached credential"),
    }
}

#[test]
fn cached_credential_of_other_client_is_cleared() {
    let c = config("https://freta.microsoft.com/", Some("s3"), false);
    let cached = device_auth("someone-else", "a", "r", 10);
    match Auth::startup(&c, Some(cached)) {
        Startup::Acquire { clear_cache, flow } => {
            assert!(clear_cache);
            match flow {
                Flow::ClientCredentials(s) => assert_eq!(s.get_secret(), "s3"),
                Flow::DeviceCode => panic!("expected client credentials"),
            }
        }
        _ => panic!("expected a new credential"),
    }
}

#[test]
fn ignored_cache_is_never_adopted() {
    let c = config("https://freta.microsoft.com/", None, true);
    let id = c.client_id.as_str().to_string();
    match Auth::startup(&c, Some(device_auth(&id, "a", "r", 10))) {
        Startup::Acquire { clear_cache, flow } => {
            assert!(!clear_cache);
            assert!(matches!(flow, Flow::DeviceCode));
        }
        _ => panic!("expected a new credential"),
    }
}

#[test]
fn unexpired_token_needs_no_refresh() {
    let a = device_auth("c", "access", "refresh", 1000);
    match a.token_step(999) {
        TokenStep::Ready(Some(t)) => assert_eq!(t, "access"),
        _ => panic!("expected the token as it stands"),
    }
}

#[test]
fn expired_token_is_refreshed_once() {
    let c = config("https://freta.microsoft.com/", None, false);
    let id = c.client_id.as_str().to_string();
    let mut a = device_auth(&id, "old", "refresh-1", 1000);
    match a.token_step(1000) {
        TokenStep::Refresh(RefreshPlan::DeviceCode(r)) => assert_eq!(r, "refresh-1"),
        _ => panic!("expected one refresh"),
    }
    let grant = DeviceCodeGrant {
        access_token: "new".to_string(),
        refresh_token: Some("refresh-2".to_string()),
        expires_in: 3600,
    };
    let fresh = a.device_refresh_outcome(&c, 1000, Some(grant)).expect("refreshed");
    let token = a.complete_refresh(fresh).ok().expect("same kind");
    assert_eq!(token, Some("new".to_string()));
    assert_eq!(a.expires_on, 4600);
    assert!(matches!(a.token, TokenType::DeviceCode(_, ref r) if r == "refresh-2"));
}

#[test]
fn failed_device_refresh_restarts_the_flow() {
    let c = config("https://freta.microsoft.com/", None, false);
    let id = c.client_id.as_str().to_string();
    let a = device_auth(&id, "old", "refresh", 0);
    assert!(a.device_refresh_outcome(&c, 5, None).is_none());
    let other = device_auth("other", "old", "refresh", 0);
    let grant = DeviceCodeGrant {
        access_token: "n".to_string(),
        refresh_token: Some("r".to_string()),
        expires_in: 1,
    };
    assert!(!other.can_exchange(&c));
    assert!(other.device_refresh_outcome(&c, 5, Some(grant)).is_none());
}

#[test]
fn refresh_of_other_kind_is_refused() {
    let mut a = device_auth("c", "old", "refresh", 0);
    let fresh = Auth {
        client_id: ClientId::new("c".to_string()),
        token: TokenType::ClientCredentials("x".to_string(), Secret::new("s".to_string())),
        expires_on: 50,
    };
    assert!(matches!(a.complete_refresh(fresh), Err(Error::Auth(_))));
    assert_eq!(a.expires_on, 0);
    assert_eq!(a.current_token(), Some("old".to_string()));
}

#[test]
fn client_credentials_expiry() {
    let c = config("https://freta.microsoft.com/", Some("s"), false);
    let secret = Secret::new("s".to_string());
    let given = ClientCredentialsGrant {
        access_token: "t".to_string(),
        expires_on: Some(77),
        expires_in: 10,
    };
    assert_eq!(Auth::with_client_secret(&c, &secret, 5, given).expires_on, 77);
    let derived = ClientCredentialsGrant {
        access_token: "t".to_string(),
        expires_on: None,
        expires_in: 10,
    };
    let a = Auth::with_client_secret(&c, &secret, 5, derived);
    assert_eq!(a.expires_on, 15);
    match a.token_step(15) {
        TokenStep::Refresh(RefreshPlan::ClientCredentials(s)) => assert_eq!(s.get_secret(), "s"),
        _ => panic!("expected a client-credentials refresh"),
    }
    let late = ClientCredentialsGrant {
        access_token: "t".to_string(),
        expires_on: None,
        expires_in: u64::MAX,
    };
    assert_eq!(Auth::with_client_secret(&c, &secret, 5, late).expires_on, i64::MAX);
}

#[test]
fn device_code_poll_and_grant() {
    assert!(matches!(Auth::device_code_poll(PollEvent::Pending), Ok(None)));
    assert!(matches!(
        Auth::device_code_poll(PollEvent::Exhausted),
        Err(Error::Auth("device code flow failed"))
    ));
    let g = DeviceCodeGrant {
        access_token: "a".to_string(),
        refresh_token: None,
        expires_in: 1,
    };
    let got = Auth::device_code_poll(PollEvent::Authorized(g)).ok().flatten().expect("grant");
    let c = Config::new();
    assert!(matches!(
        Auth::with_device_code(&c, 0, got),
        Err(Error::InvalidToken("missing refresh token"))
    ));
}
