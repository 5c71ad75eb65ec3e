//! Profiles: the visibility chosen on the command line, the update that is
//! refused when empty, and the lines that show a profile.
use vstd::prelude::*;
use vstd::string::*;
use crate::text::owned;

verus! {

/// The visibility asked for by `--public` / `--private`; none when neither.
pub fn visibility(public: bool, private: bool) -> (v: Option<bool>)
    ensures
        v == if public { Some(true) } else if private { Some(false) } else { None::<bool> },
{
    if public {
        Some(true)
    } else if private {
        Some(false)
    } else {
        None
    }
}

/// The handle whose profile to view, without its leading `@` signs; the
/// empty handle (one's own profile) when none is given.
pub fn profile_handle(handle: Option<String>) -> (h: String)
    ensures
        h@ == match handle {
            Some(x) => crate::text::strip_ats(x@),
            None => Seq::empty(),
        },
{
    match handle {
        Some(x) => crate::text::strip_at_prefix(x.as_str()),
        None => String::new(),
    }
}

/// Why a profile update was refused.
#[derive(Debug, Clone, Copy, PartialEq, Eq, Structural)]
pub enum ProfileError {
    /// Nothing to change was given.
    NothingToUpdate,
}

impl ProfileError {
    /// The message shown to the user.
    pub fn message(&self) -> (m: String)
        ensures
            m@ == "At least one of --name, --bio, --public, or --private is required"@,
    {
        owned("At least one of --name, --bio, --public, or --private is required")
    }
}

/// A profile update: refused when it changes nothing.
pub fn check_update(name: &Option<String>, bio: &Option<String>, is_public: Option<bool>) -> (res: Result<(), ProfileError>)
    ensures
        res is Err <==> (name is None && bio is None && is_public is None),
{
    if name.is_none() && bio.is_none() && is_public.is_none() {
        Err(ProfileError::NothingToUpdate)
    } else {
        Ok(())
    }
}

/// A value, or `(not set)` when it is empty.
pub open spec fn or_not_set(s: Seq<char>) -> Seq<char> {
    if s.len() == 0 { "(not set)"@ } else { s }
}

/// A profile as shown.
pub struct Profile {
    pub handle: String,
    pub name: String,
    pub bio: String,
    pub is_public: bool,
    pub created_at: String,
}

/// The lines that show a profile; `since` adds when the member joined.
pub open spec fn profile_lines(p: Profile, since: bool) -> Seq<Seq<char>> {
    let lines = seq![
        "Name: "@ + or_not_set(p.name@),
        "Handle: @"@ + p.handle@,
        "Bio: "@ + or_not_set(p.bio@),
        "Account: "@ + if p.is_public { "Public"@ } else { "Private"@ },
    ];
    if since { lines.push("Member since: "@ + p.created_at@) } else { lines }
}

/// A profile says on its fourth line whether the account is public
/// (`Account: Public`) or private (`Account: Private`), and adds when the
/// member joined as a fifth line exactly when that is asked for.
pub proof fn law_profile_account_line(p: Profile, since: bool)
    ensures
        profile_lines(p, since)[3] == "Account: "@ + if p.is_public { "Public"@ } else { "Private"@ },
        profile_lines(p, since)[3].len() == if p.is_public { 15int } else { 16int },
        profile_lines(p, since).len() == if since { 5int } else { 4int },
        since ==> profile_lines(p, since)[4] == "Member since: "@ + p.created_at@,
{
    reveal_strlit("Account: ");
    reveal_strlit("Public");
    reveal_strlit("Private");
}

/// `label` followed by the value, or by `(not set)` when it is empty.
fn field_line(label: &str, value: &str) -> (line: String)
    ensures
        line@ == label@ + or_not_set(value@),
{
    let mut r = owned(label);
    if value.is_empty() {
        r.append("(not set)");
    } else {
        r.append(value);
    }
    r
}

/// The lines that show a profile (`profile view` adds the join date,
/// `profile set` does not).
pub fn format_profile(p: &Profile, since: bool) -> (lines: Vec<String>)
    ensures
        crate::text::texts(lines@) == profile_lines(*p, since),
{
    let mut lines: Vec<String> = Vec::new();
    lines.push(field_line("Name: ", p.name.as_str()));
    let mut h = owned("Handle: @");
    h.append(p.handle.as_str());
    lines.push(h);
    lines.push(field_line("Bio: ", p.bio.as_str()));
    let mut a = owned("Account: ");
    if p.is_public {
        a.append("Public");
    } else {
        a.append("Private");
    }
    lines.push(a);
    if since {
        let mut m = owned("Member since: ");
        m.append(p.created_at.as_str());
        lines.push(m);
    }
    assert(crate::text::texts(lines@) =~= profile_lines(*p, since));
    lines
}

} // verus!
