//! Approving a third-party application: the user code as the server expects it.
use vstd::prelude::*;
use vstd::string::*;
use crate::text::{replace_char, replace_all_char};

verus! {

/// The upper-case form of `s` as `str::to_uppercase` gives it (Unicode case
/// mapping; it depends on the text alone).
pub uninterp spec fn unicode_uppercase(s: Seq<char>) -> Seq<char>;

/// `str::to_uppercase`.
#[verifier::external_body]
fn to_uppercase(s: &str) -> (res: String)
    ensures
        res@ == unicode_uppercase(s@),
{
    s.to_uppercase()
}

/// The user code in upper case with its spaces turned into dashes.
pub open spec fn normalized_user_code(code: Seq<char>) -> Seq<char> {
    replace_char(unicode_uppercase(code), ' ', '-')
}

/// Normalizes a user code typed by the user (upper case, `-` for spaces).
pub fn normalize_user_code(code: &str) -> (res: String)
    ensures
        res@ == normalized_user_code(code@),
{
    let upper = to_uppercase(code);
    dash_spaces(upper.as_str())
}

/// Turns the spaces of an upper-cased code into dashes: the step that follows
/// upper-casing, for a given upper-case text.
pub fn dash_spaces(upper: &str) -> (res: String)
    ensures
        res@ == replace_char(upper@, ' ', '-'),
{
    replace_all_char(upper, ' ', '-')
}

} // verus!
