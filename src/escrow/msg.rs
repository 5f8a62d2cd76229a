use vstd::prelude::*;
use crate::escrow::state::Escrow;

verus! {

/// Configuration of a new escrow component.
#[derive(Debug)]
pub struct InstantiateMsg {
    pub owner: String,
}

/// The escrow component's commands.
#[derive(Debug)]
pub enum ExecuteMsg {
    CreateEscrow { escrow: Escrow },
    Claim { order_hash: String, preimage: String },
    Refund { order_hash: String },
}

/// The escrow component's read-only queries.
#[derive(Debug)]
pub enum QueryMsg {
    GetEscrow { order_hash: String },
    ListEscrows { start_after: Option<String>, limit: Option<u32> },
}

/// Answer to a query.
#[derive(Debug)]
pub enum QueryResponse {
    Escrow(Escrow),
    Escrows(Vec<Escrow>),
}

/// Configuration of a migration; carries nothing.
#[derive(Debug)]
pub struct MigrateMsg {}

} // verus!
