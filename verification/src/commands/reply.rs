//! Server replies that lack the item a command asked for.
use vstd::prelude::*;
use vstd::string::*;

verus! {

/// The item missing from a reply.
#[derive(Debug, Clone, Copy, PartialEq, Eq, Structural)]
pub enum MissingItem {
    Email,
    Thread,
    Profile,
}

impl MissingItem {
    /// The message shown to the user.
    pub fn message(&self) -> (m: String)
        ensures
            m@ == match self {
                MissingItem::Email => "No email returned"@,
                MissingItem::Thread => "No thread returned"@,
                MissingItem::Profile => "No profile returned"@,
            },
    {
        match self {
            MissingItem::Email => crate::text::owned("No email returned"),
            MissingItem::Thread => crate::text::owned("No thread returned"),
            MissingItem::Profile => crate::text::owned("No profile returned"),
        }
    }
}

/// The item a reply carries, or which item is missing.
pub fn require_item<T>(item: Option<T>, what: MissingItem) -> (res: Result<T, MissingItem>)
    ensures
        match item {
            Some(x) => res == Ok::<T, MissingItem>(x),
            None => res == Err::<T, MissingItem>(what),
        },
{
    match item {
        Some(x) => Ok(x),
        None => Err(what),
    }
}

} // verus!
