use vstd::prelude::*;

verus! {

/// Why a resolver call was rejected.
#[derive(Debug, PartialEq, Eq)]
pub enum ContractError {
    /// The store or the host failed, with its message.
    Std(String),
    Unauthorized {},
    InvalidOrder {},
    OrderNotFound {},
    /// Declared for a deploy that would overwrite an order; not raised.
    OrderAlreadyExists {},
    /// Ownership transfer is not implemented.
    OwnershipUnsupported {},
    /// The escrow that a withdraw or cancel was relayed to refused it.
    Escrow(crate::escrow::error::ContractError),
}

} // verus!
