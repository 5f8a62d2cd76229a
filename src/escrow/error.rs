use vstd::prelude::*;

verus! {

/// Why an escrow call was rejected.
#[derive(Debug, PartialEq, Eq)]
pub enum ContractError {
    /// The store or the host failed, with its message.
    Std(String),
    Unauthorized {},
    InvalidAmount {},
    InvalidTimelock {},
    TimelockExpired {},
    TimelockNotExpired {},
    InvalidPreimage {},
    EscrowNotActive {},
    /// Declared for a create that would overwrite a record; not raised.
    EscrowAlreadyExists {},
    EscrowNotFound {},
}

} // verus!
