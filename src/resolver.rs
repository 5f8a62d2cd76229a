//! The resolver: an order registry and a relay to the escrow component,
//! both open to one configured identity only.
pub mod error;
pub mod msg;
pub mod state;

use vstd::prelude::*;
use vstd::string::StringExecFns;
use vstd::utf8::encode_utf8;
use crate::digest::sha256_of;
use crate::escrow::error::ContractError as EscrowError;
use crate::escrow::state::{Escrow, Escrows};
use crate::escrow::{claim_post, execute_claim, execute_refund, refund_post};
use crate::host::{attr, attrs_of, Env, MessageInfo, Response};
use self::error::ContractError;
use self::msg::{ExecuteMsg, InstantiateMsg, QueryMsg, QueryResponse};
use self::state::{order_key, Order, ResolverState};
use crate::table::lemma_as_map_index;

verus! {

/// Sets up a resolver driven by the configured identity, with no orders.
pub fn instantiate(env: &Env, info: &MessageInfo, msg: InstantiateMsg) -> (r: (
    ResolverState,
    Response,
))
    ensures
        r.0.wf(),
        r.0.resolver_address@ == msg.resolver_address@,
        r.0@ == Map::<Seq<char>, Order>::empty(),
        r.1.messages@.len() == 0,
        attrs_of(r.1.attributes@) == seq![
            ("method"@, "instantiate"@),
            ("resolver"@, msg.resolver_address@),
        ],
{
    let address = msg.resolver_address.clone();
    let state = ResolverState::new(msg.resolver_address);
    let mut attributes = Vec::new();
    attributes.push(attr("method", String::from_str("instantiate")));
    attributes.push(attr("resolver", address));
    proof {
        assert(attrs_of(attributes@) =~= seq![
            ("method"@, "instantiate"@),
            ("resolver"@, msg.resolver_address@),
        ]);
    }
    (state, Response { messages: Vec::new(), attributes })
}

/// What booking `order` on behalf of `sender` does to the state `pre`,
/// giving `post` and `r`; `method` names the command.
pub open spec fn deploy_post(
    pre: ResolverState,
    post: ResolverState,
    sender: Seq<char>,
    order: Order,
    method: Seq<char>,
    r: Result<Response, ContractError>,
) -> bool {
    &&& post.resolver_address == pre.resolver_address
    &&& if sender != pre.resolver_address@ {
        r == Err::<Response, ContractError>(ContractError::Unauthorized {  }) && post@ == pre@
    } else {
        &&& post@ == pre@.insert(order.order_hash@, order)
        &&& r matches Ok(resp) && resp.messages@.len() == 0 && attrs_of(resp.attributes@) == seq![
            ("method"@, method),
            ("order_hash"@, order.order_hash@),
            ("maker"@, order.maker@),
            ("taker"@, order.taker@),
        ]
    }
}

fn deploy(deps: &mut ResolverState, info: &MessageInfo, order: Order, method: &str) -> (r: Result<
    Response,
    ContractError,
>)
    requires
        old(deps).wf(),
    ensures
        final(deps).wf(),
        deploy_post(*old(deps), *final(deps), info.sender@, order, method@, r),
{
    if info.sender != deps.resolver_address {
        return Err(ContractError::Unauthorized {  });
    }
    let order_hash = order.order_hash.clone();
    let maker = order.maker.clone();
    let taker = order.taker.clone();
    let ghost given = order;
    deps.put(order);
    let mut attributes = Vec::new();
    attributes.push(attr("method", String::from_str(method)));
    attributes.push(attr("order_hash", order_hash));
    attributes.push(attr("maker", maker));
    attributes.push(attr("taker", taker));
    proof {
        assert(attrs_of(attributes@) =~= seq![
            ("method"@, method@),
            ("order_hash"@, given.order_hash@),
            ("maker"@, given.maker@),
            ("taker"@, given.taker@),
        ]);
    }
    Ok(Response { messages: Vec::new(), attributes })
}

/// Books the source leg of a swap.
pub fn execute_deploy_src_escrow(
    deps: &mut ResolverState,
    env: &Env,
    info: &MessageInfo,
    order: Order,
) -> (r: Result<Response, ContractError>)
    requires
        old(deps).wf(),
    ensures
        final(deps).wf(),
        deploy_post(*old(deps), *final(deps), info.sender@, order, "deploy_src_escrow"@, r),
{
    deploy(deps, info, order, "deploy_src_escrow")
}

/// Books the destination leg of a swap.
pub fn execute_deploy_dst_escrow(
    deps: &mut ResolverState,
    env: &Env,
    info: &MessageInfo,
    order: Order,
) -> (r: Result<Response, ContractError>)
    requires
        old(deps).wf(),
    ensures
        final(deps).wf(),
        deploy_post(*old(deps), *final(deps), info.sender@, order, "deploy_dst_escrow"@, r),
{
    deploy(deps, info, order, "deploy_dst_escrow")
}

/// `r` hands on what the escrow answered (`inner`): its refusal, or its
/// transfers together with the attributes `attrs`.
pub open spec fn relayed(
    inner: Result<Response, EscrowError>,
    r: Result<Response, ContractError>,
    attrs: Seq<(Seq<char>, Seq<char>)>,
) -> bool {
    match inner {
        Err(e) => r == Err::<Response, ContractError>(ContractError::Escrow(e)),
        Ok(resp) => r matches Ok(out) && out.messages == resp.messages && attrs_of(out.attributes@)
            == attrs,
    }
}

/// What a withdraw does: a caller other than the resolver is refused and
/// nothing changes; otherwise the escrow store goes from `pre` to `post` by
/// a claim of the record `immutables` names, made by this contract at
/// `env`'s time with `secret` as preimage, and `r` relays its answer.
pub open spec fn withdraw_post(
    deps: ResolverState,
    pre: Map<Seq<char>, Escrow>,
    post: Map<Seq<char>, Escrow>,
    env: Env,
    sender: Seq<char>,
    side: Seq<char>,
    escrow_address: Seq<char>,
    secret: Seq<char>,
    immutables: Seq<char>,
    r: Result<Response, ContractError>,
) -> bool {
    if sender != deps.resolver_address@ {
        r == Err::<Response, ContractError>(ContractError::Unauthorized {  }) && post == pre
    } else {
        exists|inner: Result<Response, EscrowError>|
            #[trigger] claim_post(
                pre,
                post,
                env.block_time,
                env.contract_address@,
                immutables,
                sha256_of(encode_utf8(secret)),
                inner,
            ) && relayed(
                inner,
                r,
                seq![
                    ("method"@, "withdraw"@),
                    ("side"@, side),
                    ("escrow"@, escrow_address),
                    ("secret"@, secret),
                ],
            )
    }
}

/// What a cancel does: as a withdraw, with a refund in place of the claim.
pub open spec fn cancel_post(
    deps: ResolverState,
    pre: Map<Seq<char>, Escrow>,
    post: Map<Seq<char>, Escrow>,
    env: Env,
    sender: Seq<char>,
    side: Seq<char>,
    escrow_address: Seq<char>,
    immutables: Seq<char>,
    r: Result<Response, ContractError>,
) -> bool {
    if sender != deps.resolver_address@ {
        r == Err::<Response, ContractError>(ContractError::Unauthorized {  }) && post == pre
    } else {
        exists|inner: Result<Response, EscrowError>|
            #[trigger] refund_post(
                pre,
                post,
                env.block_time,
                env.contract_address@,
                immutables,
                inner,
            ) && relayed(
                inner,
                r,
                seq![("method"@, "cancel"@), ("side"@, side), ("escrow"@, escrow_address)],
            )
    }
}

/// Claims, on behalf of this contract, the escrow record that `immutables`
/// names (its order hash) in the escrow component at `escrow_address`,
/// with `secret` as preimage; only the resolver may ask for it.
pub fn execute_withdraw(
    deps: &ResolverState,
    escrows: &mut Escrows,
    env: &Env,
    info: &MessageInfo,
    side: String,
    escrow_address: String,
    secret: String,
    immutables: String,
) -> (r: Result<Response, ContractError>)
    requires
        old(escrows).wf(),
    ensures
        final(escrows).wf(),
        withdraw_post(
            *deps,
            old(escrows)@,
            final(escrows)@,
            *env,
            info.sender@,
            side@,
            escrow_address@,
            secret@,
            immutables@,
            r,
        ),
{
    if info.sender != deps.resolver_address {
        return Err(ContractError::Unauthorized {  });
    }
    let caller = MessageInfo { sender: env.contract_address.clone() };
    let inner = execute_claim(escrows, env, &caller, immutables, secret.clone());
    let ghost inner_ghost = inner;
    let r = match inner {
        Err(e) => Err(ContractError::Escrow(e)),
        Ok(resp) => {
            let mut attributes = Vec::new();
            attributes.push(attr("method", String::from_str("withdraw")));
            attributes.push(attr("side", side));
            attributes.push(attr("escrow", escrow_address));
            attributes.push(attr("secret", secret));
            proof {
                assert(attrs_of(attributes@) =~= seq![
                    ("method"@, "withdraw"@),
                    ("side"@, side@),
                    ("escrow"@, escrow_address@),
                    ("secret"@, secret@),
                ]);
            }
            Ok(Response { messages: resp.messages, attributes })
        },
    };
    assert(relayed(
        inner_ghost,
        r,
        seq![
            ("method"@, "withdraw"@),
            ("side"@, side@),
            ("escrow"@, escrow_address@),
            ("secret"@, secret@),
        ],
    ));
    r
}

/// Refunds, on behalf of this contract, the escrow record that `immutables`
/// names (its order hash) in the escrow component at `escrow_address`; only
/// the resolver may ask for it.
pub fn execute_cancel(
    deps: &ResolverState,
    escrows: &mut Escrows,
    env: &Env,
    info: &MessageInfo,
    side: String,
    escrow_address: String,
    immutables: String,
) -> (r: Result<Response, ContractError>)
    requires
        old(escrows).wf(),
    ensures
        final(escrows).wf(),
        cancel_post(
            *deps,
            old(escrows)@,
            final(escrows)@,
            *env,
            info.sender@,
            side@,
            escrow_address@,
            immutables@,
            r,
        ),
{
    if info.sender != deps.resolver_address {
        return Err(ContractError::Unauthorized {  });
    }
    let caller = MessageInfo { sender: env.contract_address.clone() };
    let inner = execute_refund(escrows, env, &caller, immutables);
    let ghost inner_ghost = inner;
    let r = match inner {
        Err(e) => Err(ContractError::Escrow(e)),
        Ok(resp) => {
            let mut attributes = Vec::new();
            attributes.push(attr("method", String::from_str("cancel")));
            attributes.push(attr("side", side));
            attributes.push(attr("escrow", escrow_address));
            proof {
                assert(attrs_of(attributes@) =~= seq![
                    ("method"@, "cancel"@),
                    ("side"@, side@),
                    ("escrow"@, escrow_address@),
                ]);
            }
            Ok(Response { messages: resp.messages, attributes })
        },
    };
    assert(relayed(
        inner_ghost,
        r,
        seq![("method"@, "cancel"@), ("side"@, side@), ("escrow"@, escrow_address@)],
    ));
    r
}

/// The order booked under `order_hash`.
pub fn query_order(deps: &ResolverState, order_hash: String) -> (r: Result<Order, ContractError>)
    requires
        deps.wf(),
    ensures
        deps@.contains_key(order_hash@) ==> (r matches Ok(o) && o@ == deps@[order_hash@]@),
        !deps@.contains_key(order_hash@) ==> r == Err::<Order, ContractError>(
            ContractError::OrderNotFound {  },
        ),
{
    match deps.find(&order_hash) {
        Some(i) => {
            proof {
                lemma_as_map_index(deps.orders@, order_key(), i as int);
            }
            Ok(deps.orders[i].clone_record())
        },
        None => Err(ContractError::OrderNotFound {  }),
    }
}

/// What a command does to the resolver state and to the escrow store that
/// withdraw and cancel are relayed to.
pub open spec fn execute_post(
    pre: ResolverState,
    post: ResolverState,
    escrows_pre: Map<Seq<char>, Escrow>,
    escrows_post: Map<Seq<char>, Escrow>,
    env: Env,
    info: MessageInfo,
    msg: ExecuteMsg,
    r: Result<Response, ContractError>,
) -> bool {
    match msg {
        ExecuteMsg::DeploySrcEscrow { order } => deploy_post(
            pre,
            post,
            info.sender@,
            order,
            "deploy_src_escrow"@,
            r,
        ) && escrows_post == escrows_pre,
        ExecuteMsg::DeployDstEscrow { order } => deploy_post(
            pre,
            post,
            info.sender@,
            order,
            "deploy_dst_escrow"@,
            r,
        ) && escrows_post == escrows_pre,
        ExecuteMsg::Withdraw { side, escrow_address, secret, immutables } => post == pre
            && withdraw_post(
            pre,
            escrows_pre,
            escrows_post,
            env,
            info.sender@,
            side@,
            escrow_address@,
            secret@,
            immutables@,
            r,
        ),
        ExecuteMsg::Cancel { side, escrow_address, immutables } => post == pre && cancel_post(
            pre,
            escrows_pre,
            escrows_post,
            env,
            info.sender@,
            side@,
            escrow_address@,
            immutables@,
            r,
        ),
        ExecuteMsg::UpdateOwnership(_) => post == pre && escrows_post == escrows_pre && r
            == Err::<Response, ContractError>(ContractError::OwnershipUnsupported {  }),
    }
}

/// Runs one command; withdraw and cancel act on `escrows`.
pub fn execute(
    deps: &mut ResolverState,
    escrows: &mut Escrows,
    env: &Env,
    info: &MessageInfo,
    msg: ExecuteMsg,
) -> (r: Result<Response, ContractError>)
    requires
        old(deps).wf(),
        old(escrows).wf(),
    ensures
        final(deps).wf(),
        final(escrows).wf(),
        execute_post(*old(deps), *final(deps), old(escrows)@, final(escrows)@, *env, *info, msg, r),
{
    match msg {
        ExecuteMsg::DeploySrcEscrow { order } => execute_deploy_src_escrow(deps, env, info, order),
        ExecuteMsg::DeployDstEscrow { order } => execute_deploy_dst_escrow(deps, env, info, order),
        ExecuteMsg::Withdraw { side, escrow_address, secret, immutables } => execute_withdraw(
            deps,
            escrows,
            env,
            info,
            side,
            escrow_address,
            secret,
            immutables,
        ),
        ExecuteMsg::Cancel { side, escrow_address, immutables } => execute_cancel(
            deps,
            escrows,
            env,
            info,
            side,
            escrow_address,
            immutables,
        ),
        ExecuteMsg::UpdateOwnership(_action) => Err(ContractError::OwnershipUnsupported {  }),
    }
}

/// Answers one query; ownership is a fixed placeholder.
pub fn query(deps: &ResolverState, env: &Env, msg: QueryMsg) -> (r: Result<
    QueryResponse,
    ContractError,
>)
    requires
        deps.wf(),
    ensures
        match msg {
            QueryMsg::GetOrder { order_hash } => if deps@.contains_key(order_hash@) {
                r matches Ok(QueryResponse::Order(o)) && o@ == deps@[order_hash@]@
            } else {
                r == Err::<QueryResponse, ContractError>(ContractError::OrderNotFound {  })
            },
            QueryMsg::Ownership {  } => r matches Ok(QueryResponse::Ownership(s)) && s@ == "owner"@,
        },
{
    match msg {
        QueryMsg::GetOrder { order_hash } => match query_order(deps, order_hash) {
            Ok(o) => Ok(QueryResponse::Order(o)),
            Err(e) => Err(e),
        },
        QueryMsg::Ownership {  } => Ok(QueryResponse::Ownership(String::from_str("owner"))),
    }
}

/// Every command that deploys, withdraws or cancels is refused with
/// `Unauthorized`, and changes nothing, when its caller is not the
/// configured resolver, whatever it carries.
pub proof fn lemma_only_resolver_acts(
    pre: ResolverState,
    post: ResolverState,
    escrows_pre: Map<Seq<char>, Escrow>,
    escrows_post: Map<Seq<char>, Escrow>,
    env: Env,
    info: MessageInfo,
    msg: ExecuteMsg,
    r: Result<Response, ContractError>,
)
    requires
        execute_post(pre, post, escrows_pre, escrows_post, env, info, msg, r),
        info.sender@ != pre.resolver_address@,
        !(msg is UpdateOwnership),
    ensures
        r == Err::<Response, ContractError>(ContractError::Unauthorized {  }),
        post@ == pre@,
        escrows_post == escrows_pre,
{
}

} // verus!
