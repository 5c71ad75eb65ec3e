//! Session decisions taken before each call to the server: which access token
//! to send, when to refresh it, and how a refresh outcome changes the config.
use vstd::prelude::*;
use vstd::string::*;
use crate::config::{Config, tokens_cleared, tokens_recorded};

verus! {

/// Seconds before its expiry at which an access token counts as expired.
pub const EXPIRY_MARGIN_SECS: i64 = 30;

/// What `ensure_token` decides, as text.
pub enum TokenPlan {
    /// Send this access token.
    Use(Seq<char>),
    /// Ask the server for new tokens with this refresh token.
    Refresh(Seq<char>),
    /// No usable session: the user must log in.
    NotLoggedIn,
}

/// The next step towards an access token.
#[derive(Debug)]
pub enum TokenStep {
    /// Send this access token.
    Use(String),
    /// Ask the server for new tokens with this refresh token.
    Refresh(String),
    /// No usable session: the user must log in.
    NotLoggedIn,
}

impl View for TokenStep {
    type V = TokenPlan;

    open spec fn view(&self) -> TokenPlan {
        match self {
            TokenStep::Use(t) => TokenPlan::Use(t@),
            TokenStep::Refresh(t) => TokenPlan::Refresh(t@),
            TokenStep::NotLoggedIn => TokenPlan::NotLoggedIn,
        }
    }
}

/// Why no access token could be had.
#[derive(Debug, Clone, Copy, PartialEq, Eq, Structural)]
pub enum SessionError {
    /// The server refused the refresh token.
    SessionExpired,
    /// There is no session to use or refresh.
    NotLoggedIn,
}

impl SessionError {
    /// The message shown to the user.
    pub fn message(&self) -> (m: String)
        ensures
            m@ == match self {
                SessionError::SessionExpired => "Session expired. Run 'kuren login' to re-authenticate."@,
                SessionError::NotLoggedIn => "Not logged in. Run 'kuren login' first."@,
            },
    {
        match self {
            SessionError::SessionExpired => crate::text::owned(
                "Session expired. Run 'kuren login' to re-authenticate.",
            ),
            SessionError::NotLoggedIn => crate::text::owned("Not logged in. Run 'kuren login' first."),
        }
    }
}

/// The kept access token may still be sent at time `now`: no expiry is known,
/// or `now` is more than the margin before it.
pub open spec fn token_fresh(c: Config, now: int) -> bool {
    match c.token_expires_at {
        None => true,
        Some(e) => now < e - EXPIRY_MARGIN_SECS,
    }
}

/// The step `ensure_token` takes for `c` at time `now`.
pub open spec fn planned_step(c: Config, now: int) -> TokenPlan {
    if c.access_token is Some && token_fresh(c, now) {
        TokenPlan::Use(c.access_token->0@)
    } else if c.refresh_token is Some {
        TokenPlan::Refresh(c.refresh_token->0@)
    } else {
        TokenPlan::NotLoggedIn
    }
}

/// Whether the access token expiring at `expires_at` is expired at `now`
/// (or within the margin of it).
pub fn token_expired(expires_at: i64, now: i64) -> (res: bool)
    ensures
        res == (now >= expires_at - EXPIRY_MARGIN_SECS),
{
    let n = now as i128;
    let e = expires_at as i128;
    n >= e - 30
}

/// Decides how to obtain an access token at time `now` (seconds since the
/// Unix epoch): send the kept one while it is fresh, else refresh with the
/// refresh token, else report that no session exists.
pub fn ensure_token(config: &Config, now: i64) -> (step: TokenStep)
    ensures
        step@ == planned_step(*config, now as int),
{
    if let Some(token) = &config.access_token {
        match config.token_expires_at {
            Some(expires_at) => {
                if !token_expired(expires_at, now) {
                    return TokenStep::Use(token.clone());
                }
            },
            None => {
                return TokenStep::Use(token.clone());
            },
        }
    }
    match &config.refresh_token {
        Some(r) => TokenStep::Refresh(r.clone()),
        None => TokenStep::NotLoggedIn,
    }
}

/// The error the user sees for a step, if the step ends the command: only
/// the lack of any session does.
pub fn step_error(step: &TokenStep) -> (e: Option<SessionError>)
    ensures
        e == match step@ {
            TokenPlan::NotLoggedIn => Some(SessionError::NotLoggedIn),
            _ => None::<SessionError>,
        },
{
    match step {
        TokenStep::NotLoggedIn => Some(SessionError::NotLoggedIn),
        _ => None,
    }
}

/// The server granted new tokens at `now`: keep them and hand back the new
/// access token.
pub fn refresh_succeeded(
    config: &mut Config,
    now: i64,
    access: String,
    refresh: String,
    expires_in: i64,
) -> (token: String)
    requires
        i64::MIN <= now + expires_in <= i64::MAX,
    ensures
        token@ == access@,
        tokens_recorded(*old(config), *final(config), now as int, access@, refresh@, expires_in as int),
{
    let token = access.clone();
    config.record_tokens(now, access, refresh, expires_in);
    token
}

/// The server refused the refresh token: forget the session.
pub fn refresh_failed(config: &mut Config) -> (e: SessionError)
    ensures
        e == SessionError::SessionExpired,
        tokens_cleared(*old(config), *final(config)),
{
    config.clear_tokens();
    SessionError::SessionExpired
}

/// The value of the `authorization` header that carries `token`.
pub fn authorization_value(token: &str) -> (v: String)
    ensures
        v@ == "Bearer "@ + token@,
{
    let mut v = crate::text::owned("Bearer ");
    v.append(token);
    v
}

/// Whether the connection to `url` is made over TLS: it is for `https://` URLs.
pub fn uses_tls(url: &str) -> (res: bool)
    ensures
        res == ("https://"@.len() <= url@.len() && url@.subrange(0, "https://"@.len() as int) == "https://"@),
{
    crate::text::starts_with_text(url, "https://")
}

// ---------------------------------------------------------------------------
// Laws
// ---------------------------------------------------------------------------

/// After logging out (clearing the tokens) no session exists, and the next
/// call asks the user to log in.
pub proof fn law_cleared_config_needs_login(before: Config, after: Config, now: int)
    requires
        tokens_cleared(before, after),
    ensures
        !after.logged_in(),
        planned_step(after, now) == TokenPlan::NotLoggedIn,
{
}

/// Without a session, every call asks the user to log in.
pub proof fn law_logged_out_needs_login(c: Config, now: int)
    requires
        !c.logged_in(),
    ensures
        planned_step(c, now) == TokenPlan::NotLoggedIn,
{
}

/// Tokens just granted for more than the margin are sent as they are, with no
/// further refresh, until the margin before their expiry.
pub proof fn law_recorded_token_is_used(
    before: Config,
    after: Config,
    granted_at: int,
    access: Seq<char>,
    refresh: Seq<char>,
    expires_in: int,
    now: int,
)
    requires
        i64::MIN <= granted_at + expires_in <= i64::MAX,
        tokens_recorded(before, after, granted_at, access, refresh, expires_in),
        now < granted_at + expires_in - EXPIRY_MARGIN_SECS,
    ensures
        after.logged_in(),
        planned_step(after, now) == TokenPlan::Use(access),
{
}

/// A kept access token with no known expiry is always sent.
pub proof fn law_token_without_expiry_is_used(c: Config, now: int)
    requires
        c.access_token is Some,
        c.token_expires_at is None,
    ensures
        planned_step(c, now) == TokenPlan::Use(c.access_token->0@),
{
}

/// An expired access token is never sent: the refresh token is used when one
/// is kept, else the user must log in.
pub proof fn law_expired_token_is_not_used(c: Config, now: int)
    requires
        c.token_expires_at matches Some(e) && now >= e - EXPIRY_MARGIN_SECS,
    ensures
        planned_step(c, now) == match c.refresh_token {
            Some(r) => TokenPlan::Refresh(r@),
            None => TokenPlan::NotLoggedIn,
        },
{
}

} // verus!
