use vstd::prelude::*;
use crate::resolver::state::Order;

verus! {

/// Configuration of a new resolver: the one identity allowed to drive it.
#[derive(Debug)]
pub struct InstantiateMsg {
    pub resolver_address: String,
}

/// The resolver's commands.
#[derive(Debug)]
pub enum ExecuteMsg {
    DeploySrcEscrow { order: Order },
    DeployDstEscrow { order: Order },
    Withdraw { side: String, escrow_address: String, secret: String, immutables: String },
    Cancel { side: String, escrow_address: String, immutables: String },
    UpdateOwnership(String),
}

/// The resolver's read-only queries.
#[derive(Debug)]
pub enum QueryMsg {
    GetOrder { order_hash: String },
    Ownership {},
}

/// Answer to a query.
#[derive(Debug)]
pub enum QueryResponse {
    Order(Order),
    Ownership(String),
}

/// Configuration of a migration; carries nothing.
#[derive(Debug)]
pub struct MigrateMsg {}

} // verus!
