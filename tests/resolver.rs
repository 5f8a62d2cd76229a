use cosmos_swap::escrow::error::ContractError as EscrowError;
use cosmos_swap::escrow::execute_create_escrow;
use cosmos_swap::escrow::query_escrow;
use cosmos_swap::escrow::state::{Escrow, Escrows};
use cosmos_swap::host::{BankMsg, Env, MessageInfo};
use cosmos_swap::resolver::error::ContractError;
use cosmos_swap::resolver::msg::{ExecuteMsg, InstantiateMsg, QueryMsg, QueryResponse};
use cosmos_swap::resolver::state::{Order, ResolverState};
use cosmos_swap::resolver::{execute, instantiate, query, query_order};
use sha2::{Digest, Sha256};

fn mock_env() -> Env {
    let env = cosmwasm_std::testing::mock_env();
    Env {
        block_time: env.block.time.seconds(),
        contract_address: env.contract.address.to_string(),
    }
}

fn info(sender: &str) -> MessageInfo {
    MessageInfo { sender: sender.to_string() }
}

fn order(order_hash: &str, timelock: u64) -> Order {
    Order {
        order_hash: order_hash.to_string(),
        maker: "maker".to_string(),
        taker: "taker".to_string(),
        token: "ujuno".to_string(),
        amount: 1000,
        hashlock: vec![1, 2, 3, 4],
        timelock,
    }
}

#[test]
fn test_deploy_src_escrow() {
    let env = mock_env();
    let info = info("resolver");
    let order = Order {
        order_hash: "test_hash".to_string(),
        maker: "maker".to_string(),
        taker: "taker".to_string(),
        token: "ujuno".to_string(),
        amount: 1000,
        hashlock: vec![1, 2, 3, 4],
        timelock: env.block_time + 3600,
    };
    // Set resolver address
    let mut deps = ResolverState::new("resolver".to_string());
    let mut escrows = Escrows::new();
    let msg = ExecuteMsg::DeploySrcEscrow { order };
    let res = execute(&mut deps, &mut escrows, &env, &info, msg).unwrap();
    assert_eq!(res.attributes.len(), 4);
}

#[test]
fn instantiate_sets_resolver() {
    let env = mock_env();
    let (deps, res) = instantiate(&env, &info("admin"), InstantiateMsg { resolver_address: "r".to_string() });
    assert_eq!(deps.resolver_address, "r");
    assert_eq!(res.attributes[1].key, "resolver");
    assert_eq!(res.attributes[1].value, "r");
}

#[test]
fn deploy_books_orders_and_overwrites() {
    let env = mock_env();
    let mut deps = ResolverState::new("r".to_string());
    let mut escrows = Escrows::new();
    execute(&mut deps, &mut escrows, &env, &info("r"), ExecuteMsg::DeploySrcEscrow { order: order("a", 5) }).unwrap();
    let res = execute(&mut deps, &mut escrows, &env, &info("r"), ExecuteMsg::DeployDstEscrow { order: order("a", 9) }).unwrap();
    assert_eq!(res.attributes[0].value, "deploy_dst_escrow");
    assert_eq!(query_order(&deps, "a".to_string()).unwrap().timelock, 9);
    assert_eq!(deps.orders.len(), 1);
    assert_eq!(query_order(&deps, "b".to_string()).unwrap_err(), ContractError::OrderNotFound {});
}

#[test]
fn others_are_unauthorized() {
    let env = mock_env();
    let mut deps = ResolverState::new("r".to_string());
    let mut escrows = Escrows::new();
    let msgs = vec![
        ExecuteMsg::DeploySrcEscrow { order: order("a", 5) },
        ExecuteMsg::DeployDstEscrow { order: order("a", 5) },
        ExecuteMsg::Withdraw { side: "src".to_string(), escrow_address: "e".to_string(), secret: "s".to_string(), immutables: "a".to_string() },
        ExecuteMsg::Cancel { side: "dst".to_string(), escrow_address: "e".to_string(), immutables: "a".to_string() },
    ];
    for msg in msgs {
        let r = execute(&mut deps, &mut escrows, &env, &info("mallory"), msg);
        assert_eq!(r.unwrap_err(), ContractError::Unauthorized {});
    }
    assert!(deps.orders.is_empty());
}

#[test]
fn update_ownership_is_unsupported() {
    let env = mock_env();
    let mut deps = ResolverState::new("r".to_string());
    let mut escrows = Escrows::new();
    let r = execute(&mut deps, &mut escrows, &env, &info("r"), ExecuteMsg::UpdateOwnership("x".to_string()));
    assert_eq!(r.unwrap_err(), ContractError::OwnershipUnsupported {});
    match query(&deps, &env, QueryMsg::Ownership {}) {
        Ok(QueryResponse::Ownership(s)) => assert_eq!(s, "owner"),
        _ => panic!("expected the placeholder"),
    }
}

fn escrow_for_resolver(env: &Env, timelock: u64) -> Escrow {
    Escrow {
        order_hash: "abc".to_string(),
        maker: env.contract_address.clone(),
        taker: env.contract_address.clone(),
        token: "utoken".to_string(),
        amount: 1000,
        hashlock: Sha256::digest(b"secret").to_vec(),
        timelock,
        is_active: true,
        is_claimed: false,
        is_refunded: false,
    }
}

#[test]
fn withdraw_relays_claim() {
    let env = mock_env();
    let deps0 = ResolverState::new("r".to_string());
    let mut deps = deps0;
    let mut escrows = Escrows::new();
    execute_create_escrow(&mut escrows, &env, &info("m"), escrow_for_resolver(&env, env.block_time + 60)).unwrap();
    let wrong = ExecuteMsg::Withdraw { side: "src".to_string(), escrow_address: "e".to_string(), secret: "nope".to_string(), immutables: "abc".to_string() };
    let r = execute(&mut deps, &mut escrows, &env, &info("r"), wrong);
    assert_eq!(r.unwrap_err(), ContractError::Escrow(EscrowError::InvalidPreimage {}));
    let msg = ExecuteMsg::Withdraw { side: "src".to_string(), escrow_address: "e".to_string(), secret: "secret".to_string(), immutables: "abc".to_string() };
    let res = execute(&mut deps, &mut escrows, &env, &info("r"), msg).unwrap();
    assert_eq!(res.messages.len(), 1);
    match &res.messages[0] {
        BankMsg::Send { to_address, amount } => {
            assert_eq!(to_address, &env.contract_address);
            assert_eq!(amount[0].amount, 1000);
            assert_eq!(amount[0].denom, "utoken");
        }
    }
    assert_eq!(res.attributes[0].value, "withdraw");
    assert_eq!(res.attributes[3].value, "secret");
    assert!(query_escrow(&escrows, "abc".to_string()).unwrap().is_claimed);
}

#[test]
fn cancel_relays_refund() {
    let env = mock_env();
    let mut deps = ResolverState::new("r".to_string());
    let mut escrows = Escrows::new();
    execute_create_escrow(&mut escrows, &env, &info("m"), escrow_for_resolver(&env, env.block_time + 60)).unwrap();
    let msg = || ExecuteMsg::Cancel { side: "dst".to_string(), escrow_address: "e".to_string(), immutables: "abc".to_string() };
    let r = execute(&mut deps, &mut escrows, &env, &info("r"), msg());
    assert_eq!(r.unwrap_err(), ContractError::Escrow(EscrowError::TimelockNotExpired {}));
    let later = Env { block_time: env.block_time + 60, contract_address: env.contract_address.clone() };
    let res = execute(&mut deps, &mut escrows, &later, &info("r"), msg()).unwrap();
    assert_eq!(res.messages.len(), 1);
    assert_eq!(res.attributes.len(), 3);
    assert!(query_escrow(&escrows, "abc".to_string()).unwrap().is_refunded);
    let r = execute(&mut deps, &mut escrows, &later, &info("r"), msg());
    assert_eq!(r.unwrap_err(), ContractError::Escrow(EscrowError::EscrowNotActive {}));
}
