//! Registering a new identity: which handles are accepted, and how a
//! container is recognised.
use vstd::prelude::*;
use vstd::string::*;
use vstd::utf8::*;
use crate::text::{byte_len, at_sign, strip_ats, occurs_in};

verus! {

/// Fewest bytes in a handle.
pub const MIN_HANDLE_LEN: usize = 3;

/// Most bytes in a handle.
pub const MAX_HANDLE_LEN: usize = 64;

/// Why a handle was refused.
#[derive(Debug, Clone, Copy, PartialEq, Eq, Structural)]
pub enum HandleError {
    /// Fewer than 3 or more than 64 bytes.
    Length,
    /// A character other than an ASCII letter, digit, `_` or `-`.
    Characters,
}

impl HandleError {
    /// The message shown to the user.
    pub fn message(&self) -> (m: String)
        ensures
            m@ == match self {
                HandleError::Length => "Handle must be 3-64 characters"@,
                HandleError::Characters => "Handle must contain only alphanumeric characters and underscores"@,
            },
    {
        match self {
            HandleError::Length => crate::text::owned("Handle must be 3-64 characters"),
            HandleError::Characters => crate::text::owned(
                "Handle must contain only alphanumeric characters and underscores",
            ),
        }
    }
}

/// An ASCII letter or digit, `_` or `-` (as in `@research-bot`).
pub open spec fn is_handle_char(c: char) -> bool {
    ('a' <= c && c <= 'z') || ('A' <= c && c <= 'Z') || ('0' <= c && c <= '9') || c == '_' || c == '-'
}

/// What `validate_handle` gives for `handle`: the handle without its leading
/// `@` signs, refused when its UTF-8 length is outside 3..=64 bytes, else
/// when it holds a character that is not a letter, digit, `_` or `-`.
pub open spec fn checked_handle(handle: Seq<char>) -> Result<Seq<char>, HandleError> {
    let h = strip_ats(handle);
    if byte_len(h) < MIN_HANDLE_LEN || byte_len(h) > MAX_HANDLE_LEN {
        Err(HandleError::Length)
    } else if exists|i: int| 0 <= i < h.len() && !is_handle_char(#[trigger] h[i]) {
        Err(HandleError::Characters)
    } else {
        Ok(h)
    }
}

/// The view of a validation result.
pub open spec fn handle_result_view(r: Result<String, HandleError>) -> Result<Seq<char>, HandleError> {
    match r {
        Ok(s) => Ok(s@),
        Err(e) => Err(e),
    }
}

/// `char::is_ascii_alphanumeric(c) || c == '_' || c == '-'`.
pub fn handle_char(c: char) -> (res: bool)
    ensures
        res == is_handle_char(c),
{
    ('a' <= c && c <= 'z') || ('A' <= c && c <= 'Z') || ('0' <= c && c <= '9') || c == '_' || c == '-'
}

/// Checks a handle given at signup and returns it without its leading `@`s.
pub fn validate_handle(handle: &str) -> (res: Result<String, HandleError>)
    ensures
        handle_result_view(res) == checked_handle(handle@),
{
    let h = crate::text::strip_at_prefix(handle);
    let n = h.as_str().as_bytes().len();
    if n < MIN_HANDLE_LEN || n > MAX_HANDLE_LEN {
        return Err(HandleError::Length);
    }
    let v = crate::text::chars_of(h.as_str());
    let mut i: usize = 0;
    while i < v.len()
        invariant
            i <= v.len(),
            v@ == h@,
            h@ == strip_ats(handle@),
            MIN_HANDLE_LEN <= byte_len(h@) <= MAX_HANDLE_LEN,
            forall|j: int| 0 <= j < i ==> is_handle_char(#[trigger] v@[j]),
        decreases v.len() - i,
    {
        if !handle_char(v[i]) {
            assert(!is_handle_char(h@[i as int]));
            return Err(HandleError::Characters);
        }
        i = i + 1;
    }
    Ok(h)
}

/// Why signup was refused before anything was generated or sent.
#[derive(Debug, Clone, Copy, PartialEq, Eq, Structural)]
pub enum SignupError {
    /// A keypair is already stored.
    KeysExist,
    /// The handle was refused.
    Handle(HandleError),
}

impl SignupError {
    /// The message shown to the user.
    pub fn message(&self) -> (m: String)
        ensures
            m@ == match self {
                SignupError::KeysExist => "Keys already exist. Use 'kuren login' to authenticate, or delete ~/.kuren to start fresh."@,
                SignupError::Handle(HandleError::Length) => "Handle must be 3-64 characters"@,
                SignupError::Handle(HandleError::Characters) => "Handle must contain only alphanumeric characters and underscores"@,
            },
    {
        match self {
            SignupError::KeysExist => crate::text::owned(
                "Keys already exist. Use 'kuren login' to authenticate, or delete ~/.kuren to start fresh.",
            ),
            SignupError::Handle(e) => e.message(),
        }
    }
}

/// The checks made before a keypair is generated: refused when keys are
/// already stored, then the handle is validated; on success the handle to
/// register (without its leading `@`s).
pub fn signup_precheck(keys_exist: bool, handle: &str) -> (res: Result<String, SignupError>)
    ensures
        keys_exist ==> res == Err::<String, SignupError>(SignupError::KeysExist),
        !keys_exist ==> match checked_handle(handle@) {
            Ok(h) => res matches Ok(r) && r@ == h,
            Err(e) => res == Err::<String, SignupError>(SignupError::Handle(e)),
        },
{
    if keys_exist {
        return Err(SignupError::KeysExist);
    }
    match validate_handle(handle) {
        Ok(h) => Ok(h),
        Err(e) => Err(SignupError::Handle(e)),
    }
}

/// Whether the contents of `/proc/1/cgroup` show a container (Docker,
/// Kubernetes or containerd).
pub fn cgroup_indicates_container(cgroup: &str) -> (res: bool)
    ensures
        res == (occurs_in(cgroup@, "docker"@) || occurs_in(cgroup@, "kubepods"@) || occurs_in(
            cgroup@,
            "containerd"@,
        )),
{
    crate::text::contains_text(cgroup, "docker") || crate::text::contains_text(cgroup, "kubepods")
        || crate::text::contains_text(cgroup, "containerd")
}

// ---------------------------------------------------------------------------
// Laws
// ---------------------------------------------------------------------------

/// A text that does not start with `@` keeps all its characters.
pub proof fn lemma_no_leading_at(s: Seq<char>)
    requires
        s.len() == 0 || s[0] != '@',
    ensures
        strip_ats(s) == s,
{
    crate::text::lemma_drop_leading(s, at_sign(), 0);
    assert(s.subrange(0, s.len() as int) =~= s);
}

/// An accepted handle is accepted again unchanged: validation is idempotent.
pub proof fn law_validate_handle_idempotent(handle: Seq<char>, h: Seq<char>)
    requires
        checked_handle(handle) == Ok::<Seq<char>, HandleError>(h),
    ensures
        checked_handle(h) == Ok::<Seq<char>, HandleError>(h),
{
    let s = strip_ats(handle);
    assert(h == s);
    if h.len() > 0 {
        assert(is_handle_char(h[0]));
    }
    lemma_no_leading_at(h);
}

/// An accepted handle is plain ASCII of 3 to 64 characters, none of them `@`.
pub proof fn law_valid_handle_shape(handle: Seq<char>, h: Seq<char>)
    requires
        checked_handle(handle) == Ok::<Seq<char>, HandleError>(h),
    ensures
        MIN_HANDLE_LEN <= h.len() <= MAX_HANDLE_LEN,
        forall|i: int| 0 <= i < h.len() ==> is_handle_char(#[trigger] h[i]) && h[i] != '@',
{
    assert(is_ascii_chars(h)) by {
        assert forall|i: int| 0 <= i < h.len() implies '\0' <= #[trigger] h[i] <= '\u{7f}' by {
            assert(is_handle_char(h[i]));
        }
    }
    is_ascii_chars_encode_utf8(h);
}

} // verus!
