//! Logging out: forgetting the session tokens.
use vstd::prelude::*;
use vstd::string::*;
use crate::config::{Config, tokens_cleared};

verus! {

/// The line shown once the command has run.
pub fn outcome_line(logged_out: bool) -> (line: String)
    ensures
        line@ == if logged_out { "Logged out successfully."@ } else { "Not logged in."@ },
{
    if logged_out {
        crate::text::owned("Logged out successfully.")
    } else {
        crate::text::owned("Not logged in.")
    }
}

/// Logs out: forgets the tokens of a session. Returns whether there was a
/// session (the configuration must then be saved); without one nothing changes.
pub fn run(config: &mut Config) -> (logged_out: bool)
    ensures
        logged_out == old(config).logged_in(),
        logged_out ==> tokens_cleared(*old(config), *final(config)),
        !logged_out ==> *final(config) == *old(config),
        !final(config).logged_in(),
{
    if !config.is_logged_in() {
        return false;
    }
    config.clear_tokens();
    true
}

} // verus!
