use cosmos_swap::host::{Env, MessageInfo};
use cosmos_swap::simple_test::{execute, instantiate, query, ExecuteMsg, InstantiateMsg, QueryMsg};

fn env() -> Env {
    Env { block_time: 1, contract_address: "c".to_string() }
}

#[test]
fn ping_pong() {
    let info = MessageInfo { sender: "s".to_string() };
    let res = instantiate(&env(), &info, InstantiateMsg {});
    assert_eq!(res.attributes[0].value, "instantiate");
    let res = execute(&env(), &info, ExecuteMsg::Ping {});
    assert_eq!(res.attributes.len(), 1);
    assert_eq!(res.attributes[0].key, "method");
    assert_eq!(res.attributes[0].value, "ping");
    assert_eq!(query(&env(), QueryMsg::GetPing {}), "pong");
}
