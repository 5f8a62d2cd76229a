use cosmos_swap::escrow::error::ContractError;
use cosmos_swap::escrow::msg::{ExecuteMsg, InstantiateMsg, QueryMsg, QueryResponse};
use cosmos_swap::escrow::state::{Escrow, Escrows};
use cosmos_swap::escrow::{
    check_claim, check_refund, execute, execute_claim, execute_create_escrow, execute_refund,
    instantiate, query, query_escrow, query_list_escrows,
};
use cosmos_swap::host::{BankMsg, Env, MessageInfo};
use sha2::{Digest, Sha256};

fn mock_env() -> Env {
    let env = cosmwasm_std::testing::mock_env();
    Env {
        block_time: env.block.time.seconds(),
        contract_address: env.contract.address.to_string(),
    }
}

fn info(sender: &str) -> MessageInfo {
    MessageInfo { sender: sender.to_string() }
}

fn at(env: &Env, time: u64) -> Env {
    Env { block_time: time, contract_address: env.contract_address.clone() }
}

fn sha256(s: &str) -> Vec<u8> {
    Sha256::digest(s.as_bytes()).to_vec()
}

fn escrow(order_hash: &str, amount: u128, hashlock: Vec<u8>, timelock: u64) -> Escrow {
    Escrow {
        order_hash: order_hash.to_string(),
        maker: "maker".to_string(),
        taker: "taker".to_string(),
        token: "ujuno".to_string(),
        amount,
        hashlock,
        timelock,
        is_active: true,
        is_claimed: false,
        is_refunded: false,
    }
}

fn transfer_of(msg: &BankMsg) -> (String, String, u128) {
    match msg {
        BankMsg::Send { to_address, amount } => {
            assert_eq!(amount.len(), 1);
            (to_address.clone(), amount[0].denom.clone(), amount[0].amount)
        }
    }
}

#[test]
fn test_create_escrow() {
    let env = mock_env();
    let (mut deps, _) = instantiate(&env, &info("creator"), InstantiateMsg { owner: "creator".to_string() });
    let escrow = Escrow {
        order_hash: "test_hash".to_string(),
        maker: "maker".to_string(),
        taker: "taker".to_string(),
        token: "ujuno".to_string(),
        amount: 1000,
        hashlock: vec![1, 2, 3, 4],
        timelock: env.block_time + 3600,
        is_active: true,
        is_claimed: false,
        is_refunded: false,
    };
    let msg = ExecuteMsg::CreateEscrow { escrow };
    let res = execute(&mut deps, &env, &info("creator"), msg).unwrap();
    assert_eq!(res.attributes.len(), 5);
}

#[test]
fn create_reports_its_attributes() {
    let env = mock_env();
    let mut deps = Escrows::new();
    let res = execute_create_escrow(&mut deps, &env, &info("creator"), escrow("h", 1000, vec![9], env.block_time + 1)).unwrap();
    let pairs: Vec<(String, String)> = res.attributes.iter().map(|a| (a.key.clone(), a.value.clone())).collect();
    assert_eq!(
        pairs,
        vec![
            ("method".to_string(), "create_escrow".to_string()),
            ("order_hash".to_string(), "h".to_string()),
            ("maker".to_string(), "maker".to_string()),
            ("taker".to_string(), "taker".to_string()),
            ("amount".to_string(), "1000".to_string()),
        ]
    );
    assert!(res.messages.is_empty());
}

#[test]
fn create_stores_record_active_whatever_flags_it_carries() {
    let env = mock_env();
    let mut deps = Escrows::new();
    let mut e = escrow("h", 5, vec![1], env.block_time + 10);
    e.is_active = false;
    e.is_claimed = true;
    e.is_refunded = true;
    execute_create_escrow(&mut deps, &env, &info("creator"), e).unwrap();
    let stored = query_escrow(&deps, "h".to_string()).unwrap();
    assert!(stored.is_active);
    assert!(!stored.is_claimed);
    assert!(!stored.is_refunded);
    assert_eq!(stored.amount, 5);
}

#[test]
fn create_rejects_zero_amount() {
    let env = mock_env();
    let mut deps = Escrows::new();
    let r = execute_create_escrow(&mut deps, &env, &info("creator"), escrow("h", 0, vec![1], env.block_time + 10));
    assert_eq!(r.unwrap_err(), ContractError::InvalidAmount {});
    assert_eq!(query_escrow(&deps, "h".to_string()).unwrap_err(), ContractError::EscrowNotFound {});
}

#[test]
fn create_rejects_timelock_not_in_future() {
    let env = mock_env();
    let mut deps = Escrows::new();
    let r = execute_create_escrow(&mut deps, &env, &info("creator"), escrow("h", 10, vec![1], env.block_time));
    assert_eq!(r.unwrap_err(), ContractError::InvalidTimelock {});
}

#[test]
fn end_to_end_claim_then_refund_fails() {
    let env = mock_env();
    let now = env.block_time;
    let mut deps = Escrows::new();
    let e = Escrow {
        order_hash: "abc".to_string(),
        maker: "M".to_string(),
        taker: "T".to_string(),
        token: "utoken".to_string(),
        amount: 1000,
        hashlock: sha256("secret"),
        timelock: now + 3600,
        is_active: true,
        is_claimed: false,
        is_refunded: false,
    };
    execute_create_escrow(&mut deps, &env, &info("M"), e).unwrap();
    let res = execute_claim(&mut deps, &at(&env, now + 10), &info("T"), "abc".to_string(), "secret".to_string()).unwrap();
    assert_eq!(res.messages.len(), 1);
    assert_eq!(transfer_of(&res.messages[0]), ("T".to_string(), "utoken".to_string(), 1000));
    let stored = query_escrow(&deps, "abc".to_string()).unwrap();
    assert!(stored.is_claimed);
    assert!(!stored.is_active);
    let r = execute_refund(&mut deps, &at(&env, now + 3600), &info("M"), "abc".to_string());
    assert_eq!(r.unwrap_err(), ContractError::EscrowNotActive {});
}

#[test]
fn end_to_end_refund_after_expiry() {
    let env = mock_env();
    let now = env.block_time;
    let mut deps = Escrows::new();
    let mut e = escrow("abc", 1000, sha256("secret"), now + 3600);
    e.maker = "M".to_string();
    e.token = "utoken".to_string();
    execute_create_escrow(&mut deps, &env, &info("M"), e).unwrap();
    let res = execute_refund(&mut deps, &at(&env, now + 3600), &info("M"), "abc".to_string()).unwrap();
    assert_eq!(transfer_of(&res.messages[0]), ("M".to_string(), "utoken".to_string(), 1000));
    let stored = query_escrow(&deps, "abc".to_string()).unwrap();
    assert!(stored.is_refunded);
    assert!(!stored.is_active);
    let r = execute_claim(&mut deps, &at(&env, now + 1), &info("taker"), "abc".to_string(), "secret".to_string());
    assert_eq!(r.unwrap_err(), ContractError::EscrowNotActive {});
}

#[test]
fn claim_errors_in_order() {
    let env = mock_env();
    let now = env.block_time;
    let mut deps = Escrows::new();
    execute_create_escrow(&mut deps, &env, &info("maker"), escrow("h", 7, sha256("s"), now + 100)).unwrap();
    let r = execute_claim(&mut deps, &at(&env, now + 100), &info("other"), "h".to_string(), "wrong".to_string());
    assert_eq!(r.unwrap_err(), ContractError::TimelockExpired {});
    let r = execute_claim(&mut deps, &at(&env, now), &info("other"), "h".to_string(), "wrong".to_string());
    assert_eq!(r.unwrap_err(), ContractError::InvalidPreimage {});
    let r = execute_claim(&mut deps, &at(&env, now), &info("other"), "h".to_string(), "s".to_string());
    assert_eq!(r.unwrap_err(), ContractError::Unauthorized {});
    let r = execute_claim(&mut deps, &at(&env, now), &info("taker"), "missing".to_string(), "s".to_string());
    assert_eq!(r.unwrap_err(), ContractError::EscrowNotFound {});
    assert!(query_escrow(&deps, "h".to_string()).unwrap().is_active);
}

#[test]
fn refund_errors_in_order() {
    let env = mock_env();
    let now = env.block_time;
    let mut deps = Escrows::new();
    execute_create_escrow(&mut deps, &env, &info("maker"), escrow("h", 7, sha256("s"), now + 100)).unwrap();
    let r = execute_refund(&mut deps, &at(&env, now + 99), &info("taker"), "h".to_string());
    assert_eq!(r.unwrap_err(), ContractError::TimelockNotExpired {});
    let r = execute_refund(&mut deps, &at(&env, now + 100), &info("taker"), "h".to_string());
    assert_eq!(r.unwrap_err(), ContractError::Unauthorized {});
    let r = execute_refund(&mut deps, &at(&env, now + 100), &info("maker"), "nope".to_string());
    assert_eq!(r.unwrap_err(), ContractError::EscrowNotFound {});
}

#[test]
fn check_claim_takes_the_digest() {
    let e = escrow("h", 1, vec![1, 2, 3], 50);
    assert_eq!(check_claim(&e, 49, &"taker".to_string(), &[1, 2, 3]), Ok(()));
    assert_eq!(check_claim(&e, 49, &"taker".to_string(), &[1, 2]), Err(ContractError::InvalidPreimage {}));
    assert_eq!(check_claim(&e, 50, &"taker".to_string(), &[1, 2, 3]), Err(ContractError::TimelockExpired {}));
    assert_eq!(check_refund(&e, 50, &"maker".to_string()), Ok(()));
    assert_eq!(check_refund(&e, 49, &"maker".to_string()), Err(ContractError::TimelockNotExpired {}));
}

#[test]
fn claim_with_the_preimage_itself_as_hashlock_fails() {
    // The hashlock commits to the digest, not to the secret's own bytes.
    let env = mock_env();
    let now = env.block_time;
    let mut deps = Escrows::new();
    execute_create_escrow(&mut deps, &env, &info("maker"), escrow("h", 7, b"secret".to_vec(), now + 100)).unwrap();
    let r = execute_claim(&mut deps, &env, &info("taker"), "h".to_string(), "secret".to_string());
    assert_eq!(r.unwrap_err(), ContractError::InvalidPreimage {});
}

#[test]
fn create_overwrites_existing_record() {
    let env = mock_env();
    let mut deps = Escrows::new();
    execute_create_escrow(&mut deps, &env, &info("m"), escrow("h", 1, vec![1], env.block_time + 5)).unwrap();
    execute_create_escrow(&mut deps, &env, &info("m"), escrow("h", 2, vec![1], env.block_time + 5)).unwrap();
    assert_eq!(query_escrow(&deps, "h".to_string()).unwrap().amount, 2);
    assert_eq!(query_list_escrows(&deps, None, None).len(), 1);
}

fn store_with(keys: &[&str]) -> Escrows {
    let env = mock_env();
    let mut deps = Escrows::new();
    for k in keys {
        execute_create_escrow(&mut deps, &env, &info("m"), escrow(k, 1, vec![1], env.block_time + 5)).unwrap();
    }
    deps
}

fn hashes(v: &[Escrow]) -> Vec<String> {
    v.iter().map(|e| e.order_hash.clone()).collect()
}

#[test]
fn list_is_ascending_and_paged() {
    let deps = store_with(&["c", "a", "bb", "b", "ab"]);
    assert_eq!(hashes(&query_list_escrows(&deps, None, None)), vec!["a", "ab", "b", "bb", "c"]);
    assert_eq!(hashes(&query_list_escrows(&deps, None, Some(2))), vec!["a", "ab"]);
    assert_eq!(hashes(&query_list_escrows(&deps, Some("ab".to_string()), Some(2))), vec!["b", "bb"]);
    assert_eq!(hashes(&query_list_escrows(&deps, Some("b0".to_string()), None)), vec!["bb", "c"]);
    assert!(query_list_escrows(&deps, Some("c".to_string()), None).is_empty());
    assert!(query_list_escrows(&deps, None, Some(0)).is_empty());
}

#[test]
fn list_default_and_cap() {
    let keys: Vec<String> = (0..120).map(|i| format!("k{:03}", i)).collect();
    let refs: Vec<&str> = keys.iter().map(|s| s.as_str()).collect();
    let deps = store_with(&refs);
    assert_eq!(query_list_escrows(&deps, None, None).len(), 30);
    assert_eq!(query_list_escrows(&deps, None, Some(1000)).len(), 100);
    assert_eq!(query_list_escrows(&deps, None, Some(100)).len(), 100);
    let page = query_list_escrows(&deps, Some("k100".to_string()), Some(50));
    assert_eq!(page.len(), 19);
    assert_eq!(page[0].order_hash, "k101");
}

#[test]
fn list_orders_by_bytes() {
    let deps = store_with(&["é", "z", "Z", ""]);
    assert_eq!(hashes(&query_list_escrows(&deps, None, None)), vec!["", "Z", "z", "é"]);
}

#[test]
fn query_dispatch() {
    let deps = store_with(&["x", "y"]);
    let env = mock_env();
    match query(&deps, &env, QueryMsg::GetEscrow { order_hash: "y".to_string() }) {
        Ok(QueryResponse::Escrow(e)) => assert_eq!(e.order_hash, "y"),
        _ => panic!("expected the record"),
    }
    assert!(matches!(
        query(&deps, &env, QueryMsg::GetEscrow { order_hash: "q".to_string() }),
        Err(ContractError::EscrowNotFound {})
    ));
    match query(&deps, &env, QueryMsg::ListEscrows { start_after: Some("x".to_string()), limit: None }) {
        Ok(QueryResponse::Escrows(v)) => assert_eq!(hashes(&v), vec!["y"]),
        _ => panic!("expected a page"),
    }
}
