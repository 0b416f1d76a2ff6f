use vstd::prelude::*;

use crate::state::{CanonicalAddr, Pool};

verus! {

/// Administrative requests. The abbreviated names are those that clients send.
#[derive(Clone, Copy, Debug, PartialEq, Eq, Structural)]
pub enum HandleMsg {
    /// Open a new pool.
    CrtePool {},
    /// Lock the OPEN pool.
    LockPool {},
    /// Close the LOCKED pool.
    ClsePool {},
}

/// Read-only requests.
#[derive(Clone, Copy, Debug, PartialEq, Eq, Structural)]
pub enum QueryMsg {
    /// The owner's address.
    GetOwner {},
    /// A snapshot of the current pool, if any.
    GetCurrentPool {},
}

/// The answer to a [`QueryMsg`].
#[derive(Debug)]
pub enum QueryAnswer {
    /// The owner, in canonical form.
    Owner(CanonicalAddr),
    /// The current pool, or `None` when no pool was ever created.
    CurrentPool(Option<Pool>),
}

} // verus!
