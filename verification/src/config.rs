//! The client's configuration: where it lives, the server it talks to and the
//! session tokens it keeps.
use vstd::prelude::*;
use vstd::string::*;

verus! {

/// Name of the directory under the home directory that holds keys and config.
pub const KUREN_DIR: &'static str = ".kuren";

/// Name of the configuration file inside that directory.
pub const CONFIG_FILE: &'static str = "config.toml";

/// Server used when the configuration names none.
pub const DEFAULT_SERVER_URL: &'static str = "https://kya.kuren.ai";

/// Why a location could not be worked out.
#[derive(Debug, Clone, Copy, PartialEq, Eq, Structural)]
pub enum ConfigError {
    /// The user's home directory is unknown.
    NoHomeDirectory,
}

impl ConfigError {
    /// The message shown to the user.
    pub fn message(&self) -> (m: String)
        ensures
            m@ == "Could not find home directory"@,
    {
        crate::text::owned("Could not find home directory")
    }
}

/// `name` placed under the directory `base` (`Path::join` of a relative
/// component, with `/` as separator): no separator is added after an empty
/// base or one that already ends in `/`.
pub open spec fn join_path(base: Seq<char>, name: Seq<char>) -> Seq<char> {
    if base.len() == 0 {
        name
    } else if base.last() == '/' {
        base + name
    } else {
        base + seq!['/'] + name
    }
}

/// The configuration directory for the home directory `home`.
pub open spec fn config_dir_of(home: Seq<char>) -> Seq<char> {
    join_path(home, KUREN_DIR@)
}

/// The configuration file for the home directory `home`.
pub open spec fn config_path_of(home: Seq<char>) -> Seq<char> {
    join_path(config_dir_of(home), CONFIG_FILE@)
}

/// `name` placed under the directory `base`.
pub fn join_path_text(base: &str, name: &str) -> (res: String)
    ensures
        res@ == join_path(base@, name@),
{
    let b = crate::text::chars_of(base);
    let mut r = crate::text::owned(base);
    if b.len() > 0 && b[b.len() - 1] != '/' {
        crate::text::push_char(&mut r, '/');
    }
    r.append(name);
    r
}

/// The user's home directory as text (`dirs::home_dir`, shown lossily as UTF-8).
/// It depends on the environment, so nothing is promised about it.
#[verifier::external_body]
pub(crate) fn home_dir() -> Option<String> {
    match dirs::home_dir() {
        Some(p) => Some(p.to_string_lossy().into_owned()),
        None => None,
    }
}

/// The client's settings and session, as kept in `~/.kuren/config.toml`.
#[derive(Debug, Clone)]
pub struct Config {
    pub server_url: Option<String>,
    pub access_token: Option<String>,
    pub refresh_token: Option<String>,
    pub token_expires_at: Option<i64>,
    pub handle: Option<String>,
}

impl Default for Config {
    fn default() -> (c: Config)
        ensures
            c.server_url is None,
            c.access_token is None,
            c.refresh_token is None,
            c.token_expires_at is None,
            c.handle is None,
    {
        Config {
            server_url: None,
            access_token: None,
            refresh_token: None,
            token_expires_at: None,
            handle: None,
        }
    }
}

/// The text of an optional string, if any.
pub open spec fn opt_view(o: Option<String>) -> Option<Seq<char>> {
    match o {
        Some(s) => Some(s@),
        None => None,
    }
}

/// `new` is `old` with its three token fields emptied and nothing else changed.
pub open spec fn tokens_cleared(old: Config, new: Config) -> bool {
    &&& new.access_token is None
    &&& new.refresh_token is None
    &&& new.token_expires_at is None
    &&& opt_view(new.server_url) == opt_view(old.server_url)
    &&& opt_view(new.handle) == opt_view(old.handle)
}

/// `new` is `old` holding the tokens `access` and `refresh`, granted at `now`
/// for `expires_in` seconds, and nothing else changed.
pub open spec fn tokens_recorded(
    old: Config,
    new: Config,
    now: int,
    access: Seq<char>,
    refresh: Seq<char>,
    expires_in: int,
) -> bool {
    &&& opt_view(new.access_token) == Some(access)
    &&& opt_view(new.refresh_token) == Some(refresh)
    &&& new.token_expires_at == Some((now + expires_in) as i64)
    &&& opt_view(new.server_url) == opt_view(old.server_url)
    &&& opt_view(new.handle) == opt_view(old.handle)
}

impl Config {
    /// A session exists: an access token or a refresh token is kept.
    pub open spec fn logged_in(&self) -> bool {
        self.access_token is Some || self.refresh_token is Some
    }

    /// The server URL in effect.
    pub open spec fn effective_server_url(&self) -> Seq<char> {
        match self.server_url {
            Some(u) => u@,
            None => DEFAULT_SERVER_URL@,
        }
    }

    /// The configuration directory for a known or unknown home directory.
    pub fn dir_from_home(home: Option<String>) -> (res: Result<String, ConfigError>)
        ensures
            match home {
                Some(h) => res matches Ok(d) && d@ == config_dir_of(h@),
                None => res == Err::<String, ConfigError>(ConfigError::NoHomeDirectory),
            },
    {
        match home {
            Some(h) => Ok(join_path_text(h.as_str(), KUREN_DIR)),
            None => Err(ConfigError::NoHomeDirectory),
        }
    }

    /// The configuration file for a known or unknown home directory.
    pub fn path_from_home(home: Option<String>) -> (res: Result<String, ConfigError>)
        ensures
            match home {
                Some(h) => res matches Ok(p) && p@ == config_path_of(h@),
                None => res == Err::<String, ConfigError>(ConfigError::NoHomeDirectory),
            },
    {
        let dir = Self::dir_from_home(home)?;
        Ok(join_path_text(dir.as_str(), CONFIG_FILE))
    }

    /// The configuration directory, `~/.kuren`. It is found exactly when the
    /// environment gives a home directory (`dirs::home_dir`), which no contract
    /// can foresee; `dir_from_home` states the result for a given home.
    pub fn dir() -> (res: Result<String, ConfigError>)
        ensures
            res matches Ok(d) ==> exists|h: Seq<char>| d@ == config_dir_of(h),
            res is Err ==> res == Err::<String, ConfigError>(ConfigError::NoHomeDirectory),
    {
        Self::dir_from_home(home_dir())
    }

    /// The configuration file, `~/.kuren/config.toml`; found exactly when the
    /// environment gives a home directory (see `path_from_home`).
    pub fn path() -> (res: Result<String, ConfigError>)
        ensures
            res matches Ok(p) ==> exists|h: Seq<char>| p@ == config_path_of(h),
            res is Err ==> res == Err::<String, ConfigError>(ConfigError::NoHomeDirectory),
    {
        Self::path_from_home(home_dir())
    }

    /// The server URL, or the default server when none is set.
    pub fn server_url(&self) -> (url: String)
        ensures
            url@ == self.effective_server_url(),
    {
        match &self.server_url {
            Some(u) => u.clone(),
            None => crate::text::owned(DEFAULT_SERVER_URL),
        }
    }

    /// Forgets the session tokens (logout).
    pub fn clear_tokens(&mut self)
        ensures
            tokens_cleared(*old(self), *final(self)),
    {
        self.access_token = None;
        self.refresh_token = None;
        self.token_expires_at = None;
    }

    /// Whether a session exists (an access token or a refresh token is kept).
    pub fn is_logged_in(&self) -> (res: bool)
        ensures
            res == self.logged_in(),
    {
        self.access_token.is_some() || self.refresh_token.is_some()
    }

    /// Keeps the tokens granted at `now` for `expires_in` seconds.
    pub fn record_tokens(&mut self, now: i64, access: String, refresh: String, expires_in: i64)
        requires
            i64::MIN <= now + expires_in <= i64::MAX,
        ensures
            tokens_recorded(*old(self), *final(self), now as int, access@, refresh@, expires_in as int),
    {
        self.access_token = Some(access);
        self.refresh_token = Some(refresh);
        self.token_expires_at = Some(now + expires_in);
    }
}

} // verus!
