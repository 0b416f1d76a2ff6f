use vstd::prelude::*;

verus! {

/// Why a call was refused.
#[derive(Clone, Copy, Debug, PartialEq, Eq, Structural)]
pub enum ContractError {
    /// The sender is not the owner recorded at initialization.
    Unauthorized,
    /// No administrative record was stored: the contract was never initialized.
    ConfigNotFound,
    /// A pool exists and is not CLOSED.
    CannotCreate,
    /// Lock was asked of a pool that is absent or not OPEN.
    NotOpen,
    /// Close was asked of a pool that is absent or not LOCKED.
    NotLocked,
    /// The pool has not been OPEN for one day.
    OpenDwell,
    /// The pool has not been LOCKED for twenty-one days.
    LockedDwell,
}

/// The text that clients observe for each error.
pub open spec fn message_of(e: ContractError) -> Seq<char> {
    match e {
        ContractError::Unauthorized => "Unauthorized"@,
        ContractError::ConfigNotFound => "State not found"@,
        ContractError::CannotCreate => "Cannot create"@,
        ContractError::NotOpen => "Pool must be in OPEN status to be locked."@,
        ContractError::NotLocked => "Pool is not LOCKED."@,
        ContractError::OpenDwell => "Pool has to be OPEN for 1 day"@,
        ContractError::LockedDwell => "Pool has to be LOCKED for 21 day"@,
    }
}

impl ContractError {
    /// Unauthorized is its own kind of failure; every other error is a
    /// generic one that carries its message.
    pub fn is_unauthorized(&self) -> (r: bool)
        ensures
            r == (*self == ContractError::Unauthorized),
    {
        match self {
            ContractError::Unauthorized => true,
            _ => false,
        }
    }

    /// The text of this error.
    pub fn message(&self) -> (r: String)
        ensures
            r@ == message_of(*self),
    {
        match self {
            ContractError::Unauthorized => "Unauthorized".to_owned(),
            ContractError::ConfigNotFound => "State not found".to_owned(),
            ContractError::CannotCreate => "Cannot create".to_owned(),
            ContractError::NotOpen => "Pool must be in OPEN status to be locked.".to_owned(),
            ContractError::NotLocked => "Pool is not LOCKED.".to_owned(),
            ContractError::OpenDwell => "Pool has to be OPEN for 1 day".to_owned(),
            ContractError::LockedDwell => "Pool has to be LOCKED for 21 day".to_owned(),
        }
    }
}

} // verus!
