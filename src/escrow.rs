//! The hashed-timelock escrow component.
//!
//! An escrow is created active and leaves that state exactly once: to
//! claimed, when the taker reveals the preimage of its hashlock before the
//! timelock, or to refunded, when the maker asks for it from the timelock on.
pub mod error;
pub mod msg;
pub mod state;

use vstd::prelude::*;
use vstd::string::StringExecFns;
use vstd::utf8::encode_utf8;
use crate::digest::{bytes_equal, sha256_digest, sha256_of};
use crate::host::{
    attr, attrs_of, decimal, is_transfer, transfer, u128_to_string, BankMsg, Env, MessageInfo,
    Response,
};
use crate::keys::{key_less, key_lt, lemma_key_lt_transitive};
use crate::table::lemma_as_map_index;
use self::error::ContractError;
use self::msg::{ExecuteMsg, InstantiateMsg, QueryMsg, QueryResponse};
use self::state::{escrow_key, lemma_sorted_unique, status_ok, Escrow, Escrows};

verus! {

/// Why a claim of `e` at time `now` by `sender`, with a preimage whose
/// digest is `digest`, is refused; checked in this order.
pub open spec fn claim_error(e: Escrow, now: u64, sender: Seq<char>, digest: Seq<u8>) -> Option<
    ContractError,
> {
    if !e.is_active {
        Some(ContractError::EscrowNotActive {  })
    } else if now >= e.timelock {
        Some(ContractError::TimelockExpired {  })
    } else if digest != e.hashlock@ {
        Some(ContractError::InvalidPreimage {  })
    } else if sender != e.taker@ {
        Some(ContractError::Unauthorized {  })
    } else {
        None
    }
}

/// Why a refund of `e` at time `now` by `sender` is refused; checked in
/// this order.
pub open spec fn refund_error(e: Escrow, now: u64, sender: Seq<char>) -> Option<ContractError> {
    if !e.is_active {
        Some(ContractError::EscrowNotActive {  })
    } else if now < e.timelock {
        Some(ContractError::TimelockNotExpired {  })
    } else if sender != e.maker@ {
        Some(ContractError::Unauthorized {  })
    } else {
        None
    }
}

/// `e` after a successful claim.
pub open spec fn claimed(e: Escrow) -> Escrow {
    Escrow { is_active: false, is_claimed: true, ..e }
}

/// `e` after a successful refund.
pub open spec fn refunded(e: Escrow) -> Escrow {
    Escrow { is_active: false, is_refunded: true, ..e }
}

/// `e` as it is stored by a create: active, neither claimed nor refunded.
pub open spec fn activated(e: Escrow) -> Escrow {
    Escrow { is_active: true, is_claimed: false, is_refunded: false, ..e }
}

/// `r` is `Err(err)` for `Some(err)` and `Ok(())` for `None`.
pub open spec fn outcome_is(r: Result<(), ContractError>, err: Option<ContractError>) -> bool {
    match err {
        Some(x) => r == Err::<(), ContractError>(x),
        None => r is Ok,
    }
}

/// Decides a claim of `escrow` by `sender` at time `now`, given the digest
/// of the preimage that was presented.
pub fn check_claim(escrow: &Escrow, now: u64, sender: &String, digest: &[u8]) -> (r: Result<
    (),
    ContractError,
>)
    ensures
        outcome_is(r, claim_error(*escrow, now, sender@, digest@)),
{
    if !escrow.is_active {
        return Err(ContractError::EscrowNotActive {  });
    }
    if now >= escrow.timelock {
        return Err(ContractError::TimelockExpired {  });
    }
    if !bytes_equal(digest, escrow.hashlock.as_slice()) {
        return Err(ContractError::InvalidPreimage {  });
    }
    if *sender != escrow.taker {
        return Err(ContractError::Unauthorized {  });
    }
    Ok(())
}

/// Decides a refund of `escrow` by `sender` at time `now`.
pub fn check_refund(escrow: &Escrow, now: u64, sender: &String) -> (r: Result<(), ContractError>)
    ensures
        outcome_is(r, refund_error(*escrow, now, sender@)),
{
    if !escrow.is_active {
        return Err(ContractError::EscrowNotActive {  });
    }
    if now < escrow.timelock {
        return Err(ContractError::TimelockNotExpired {  });
    }
    if *sender != escrow.maker {
        return Err(ContractError::Unauthorized {  });
    }
    Ok(())
}

/// What a create of `escrow` at time `now` does to the store `pre`,
/// giving `post` and `r`.
pub open spec fn create_post(
    pre: Map<Seq<char>, Escrow>,
    post: Map<Seq<char>, Escrow>,
    now: u64,
    escrow: Escrow,
    r: Result<Response, ContractError>,
) -> bool {
    if escrow.amount == 0 {
        r == Err::<Response, ContractError>(ContractError::InvalidAmount {  }) && post == pre
    } else if escrow.timelock <= now {
        r == Err::<Response, ContractError>(ContractError::InvalidTimelock {  }) && post == pre
    } else {
        &&& post == pre.insert(escrow.order_hash@, activated(escrow))
        &&& r matches Ok(resp) && resp.messages@.len() == 0 && attrs_of(resp.attributes@) == seq![
            ("method"@, "create_escrow"@),
            ("order_hash"@, escrow.order_hash@),
            ("maker"@, escrow.maker@),
            ("taker"@, escrow.taker@),
            ("amount"@, decimal(escrow.amount as nat)),
        ]
    }
}

/// What a claim of `order_hash` by `sender` at time `now`, with a preimage
/// whose digest is `digest`, does to the store `pre`, giving `post` and `r`.
pub open spec fn claim_post(
    pre: Map<Seq<char>, Escrow>,
    post: Map<Seq<char>, Escrow>,
    now: u64,
    sender: Seq<char>,
    order_hash: Seq<char>,
    digest: Seq<u8>,
    r: Result<Response, ContractError>,
) -> bool {
    if !pre.contains_key(order_hash) {
        r == Err::<Response, ContractError>(ContractError::EscrowNotFound {  }) && post == pre
    } else {
        let e = pre[order_hash];
        match claim_error(e, now, sender, digest) {
            Some(err) => r == Err::<Response, ContractError>(err) && post == pre,
            None => {
                &&& post == pre.insert(order_hash, claimed(e))
                &&& r matches Ok(resp) && resp.messages@.len() == 1 && is_transfer(
                    resp.messages@[0],
                    e.taker@,
                    e.token@,
                    e.amount,
                ) && attrs_of(resp.attributes@) == seq![
                    ("method"@, "claim"@),
                    ("order_hash"@, order_hash),
                    ("claimer"@, sender),
                ]
            },
        }
    }
}

/// What a refund of `order_hash` by `sender` at time `now` does to the
/// store `pre`, giving `post` and `r`.
pub open spec fn refund_post(
    pre: Map<Seq<char>, Escrow>,
    post: Map<Seq<char>, Escrow>,
    now: u64,
    sender: Seq<char>,
    order_hash: Seq<char>,
    r: Result<Response, ContractError>,
) -> bool {
    if !pre.contains_key(order_hash) {
        r == Err::<Response, ContractError>(ContractError::EscrowNotFound {  }) && post == pre
    } else {
        let e = pre[order_hash];
        match refund_error(e, now, sender) {
            Some(err) => r == Err::<Response, ContractError>(err) && post == pre,
            None => {
                &&& post == pre.insert(order_hash, refunded(e))
                &&& r matches Ok(resp) && resp.messages@.len() == 1 && is_transfer(
                    resp.messages@[0],
                    e.maker@,
                    e.token@,
                    e.amount,
                ) && attrs_of(resp.attributes@) == seq![
                    ("method"@, "refund"@),
                    ("order_hash"@, order_hash),
                    ("refunder"@, sender),
                ]
            },
        }
    }
}

/// Sets up an empty escrow store.
pub fn instantiate(env: &Env, info: &MessageInfo, msg: InstantiateMsg) -> (r: (Escrows, Response))
    ensures
        r.0.wf(),
        r.0@ == Map::<Seq<char>, Escrow>::empty(),
        r.1.messages@.len() == 0,
        attrs_of(r.1.attributes@) == seq![("method"@, "instantiate"@)],
{
    let store = Escrows::new();
    let mut attributes = Vec::new();
    attributes.push(attr("method", String::from_str("instantiate")));
    proof {
        assert(attrs_of(attributes@) =~= seq![("method"@, "instantiate"@)]);
    }
    (store, Response { messages: Vec::new(), attributes })
}

/// Stores a new active escrow under its order hash.
pub fn execute_create_escrow(deps: &mut Escrows, env: &Env, info: &MessageInfo, escrow: Escrow) -> (r:
    Result<Response, ContractError>)
    requires
        old(deps).wf(),
    ensures
        final(deps).wf(),
        create_post(old(deps)@, final(deps)@, env.block_time, escrow, r),
{
    if escrow.amount == 0 {
        return Err(ContractError::InvalidAmount {  });
    }
    if escrow.timelock <= env.block_time {
        return Err(ContractError::InvalidTimelock {  });
    }
    let ghost given = escrow;
    let mut escrow = escrow;
    escrow.is_active = true;
    escrow.is_claimed = false;
    escrow.is_refunded = false;
    assert(escrow == activated(given));
    let order_hash = escrow.order_hash.clone();
    let maker = escrow.maker.clone();
    let taker = escrow.taker.clone();
    let amount = u128_to_string(escrow.amount);
    deps.put(escrow);
    let mut attributes = Vec::new();
    attributes.push(attr("method", String::from_str("create_escrow")));
    attributes.push(attr("order_hash", order_hash));
    attributes.push(attr("maker", maker));
    attributes.push(attr("taker", taker));
    attributes.push(attr("amount", amount));
    proof {
        assert(attrs_of(attributes@) =~= seq![
            ("method"@, "create_escrow"@),
            ("order_hash"@, given.order_hash@),
            ("maker"@, given.maker@),
            ("taker"@, given.taker@),
            ("amount"@, decimal(given.amount as nat)),
        ]);
    }
    Ok(Response { messages: Vec::new(), attributes })
}

/// Claims the escrow under `order_hash` for its taker, who presents the
/// preimage of its hashlock before the timelock.
pub fn execute_claim(
    deps: &mut Escrows,
    env: &Env,
    info: &MessageInfo,
    order_hash: String,
    preimage: String,
) -> (r: Result<Response, ContractError>)
    requires
        old(deps).wf(),
    ensures
        final(deps).wf(),
        claim_post(
            old(deps)@,
            final(deps)@,
            env.block_time,
            info.sender@,
            order_hash@,
            sha256_of(encode_utf8(preimage@)),
            r,
        ),
{
    let i = match deps.find(&order_hash) {
        Some(i) => i,
        None => {
            return Err(ContractError::EscrowNotFound {  });
        },
    };
    proof {
        lemma_sorted_unique(deps.records@);
        lemma_as_map_index(deps.records@, escrow_key(), i as int);
    }
    let digest = sha256_digest(preimage.as_str());
    if let Err(err) = check_claim(&deps.records[i], env.block_time, &info.sender, digest.as_slice()) {
        return Err(err);
    }
    let taker = deps.records[i].taker.clone();
    let token = deps.records[i].token.clone();
    let amount = deps.records[i].amount;
    deps.settle(i, true);
    let mut messages: Vec<BankMsg> = Vec::new();
    messages.push(transfer(taker, token, amount));
    let mut attributes = Vec::new();
    attributes.push(attr("method", String::from_str("claim")));
    attributes.push(attr("order_hash", order_hash));
    attributes.push(attr("claimer", info.sender.clone()));
    proof {
        assert(attrs_of(attributes@) =~= seq![
            ("method"@, "claim"@),
            ("order_hash"@, order_hash@),
            ("claimer"@, info.sender@),
        ]);
    }
    Ok(Response { messages, attributes })
}

/// Refunds the escrow under `order_hash` to its maker, from the timelock on.
pub fn execute_refund(deps: &mut Escrows, env: &Env, info: &MessageInfo, order_hash: String) -> (r:
    Result<Response, ContractError>)
    requires
        old(deps).wf(),
    ensures
        final(deps).wf(),
        refund_post(old(deps)@, final(deps)@, env.block_time, info.sender@, order_hash@, r),
{
    let i = match deps.find(&order_hash) {
        Some(i) => i,
        None => {
            return Err(ContractError::EscrowNotFound {  });
        },
    };
    proof {
        lemma_sorted_unique(deps.records@);
        lemma_as_map_index(deps.records@, escrow_key(), i as int);
    }
    if let Err(err) = check_refund(&deps.records[i], env.block_time, &info.sender) {
        return Err(err);
    }
    let maker = deps.records[i].maker.clone();
    let token = deps.records[i].token.clone();
    let amount = deps.records[i].amount;
    deps.settle(i, false);
    let mut messages: Vec<BankMsg> = Vec::new();
    messages.push(transfer(maker, token, amount));
    let mut attributes = Vec::new();
    attributes.push(attr("method", String::from_str("refund")));
    attributes.push(attr("order_hash", order_hash));
    attributes.push(attr("refunder", info.sender.clone()));
    proof {
        assert(attrs_of(attributes@) =~= seq![
            ("method"@, "refund"@),
            ("order_hash"@, order_hash@),
            ("refunder"@, info.sender@),
        ]);
    }
    Ok(Response { messages, attributes })
}

/// The answer to a lookup of `k` in the store `m`.
pub open spec fn get_post(m: Map<Seq<char>, Escrow>, k: Seq<char>, r: Result<Escrow, ContractError>) -> bool {
    if m.contains_key(k) {
        r matches Ok(e) && e@ == m[k]@
    } else {
        r == Err::<Escrow, ContractError>(ContractError::EscrowNotFound {  })
    }
}

/// The record under `order_hash`.
pub fn query_escrow(deps: &Escrows, order_hash: String) -> (r: Result<Escrow, ContractError>)
    requires
        deps.wf(),
    ensures
        get_post(deps@, order_hash@, r),
{
    match deps.find(&order_hash) {
        Some(i) => {
            proof {
                lemma_sorted_unique(deps.records@);
                lemma_as_map_index(deps.records@, escrow_key(), i as int);
            }
            Ok(deps.records[i].clone_record())
        },
        None => Err(ContractError::EscrowNotFound {  }),
    }
}

/// How many records one page holds: `limit`, 30 by default, at most 100.
pub open spec fn page_limit(limit: Option<u32>) -> int {
    let l = match limit {
        Some(l) => l as int,
        None => 30,
    };
    if l < 100 {
        l
    } else {
        100
    }
}

/// `k` comes after the cursor; every key does when there is none.
pub open spec fn after_cursor(cursor: Option<String>, k: Seq<char>) -> bool {
    match cursor {
        Some(c) => key_lt(c@, k),
        None => true,
    }
}

/// The records before position `p` of `s` are at or before the cursor,
/// those from `p` on after it.
pub open spec fn cursor_split(s: Seq<Escrow>, cursor: Option<String>, p: int) -> bool {
    &&& 0 <= p <= s.len()
    &&& forall|i: int| 0 <= i < p ==> !after_cursor(cursor, #[trigger] s[i].order_hash@)
    &&& forall|i: int| p <= i < s.len() ==> after_cursor(cursor, #[trigger] s[i].order_hash@)
}

/// `page` is the first `page_limit(limit)` records of `s` after the cursor.
pub open spec fn list_post(s: Seq<Escrow>, cursor: Option<String>, limit: Option<u32>, page: Seq<
    Escrow,
>) -> bool {
    exists|p: int|
        #[trigger] cursor_split(s, cursor, p) && page.len() == (if page_limit(limit) < s.len() - p {
            page_limit(limit)
        } else {
            s.len() - p
        }) && forall|j: int| 0 <= j < page.len() ==> #[trigger] page[j]@ == s[p + j]@
}

/// One page of records in ascending order of order hash, after the
/// exclusive cursor `start_after` when it is given.
pub fn query_list_escrows(deps: &Escrows, start_after: Option<String>, limit: Option<u32>) -> (r:
    Vec<Escrow>)
    requires
        deps.wf(),
    ensures
        list_post(deps.records@, start_after, limit, r@),
        r@.len() <= page_limit(limit),
        forall|j: int, k: int|
            0 <= j < k < r@.len() ==> key_lt(#[trigger] r@[j].order_hash@, #[trigger] r@[k].order_hash@),
        forall|j: int| 0 <= j < r@.len() ==> after_cursor(start_after, #[trigger] r@[j].order_hash@),
{
    let ghost s = deps.records@;
    let lim: usize = match limit {
        Some(l) => if l < 100 {
            l as usize
        } else {
            100
        },
        None => 30,
    };
    let mut p: usize = 0;
    if let Some(c) = &start_after {
        while p < deps.records.len() && !key_less(c, &deps.records[p].order_hash)
            invariant
                deps.wf(),
                s == deps.records@,
                p <= s.len(),
                forall|i: int| 0 <= i < p ==> !key_lt(c@, #[trigger] s[i].order_hash@),
            decreases s.len() - p,
        {
            p = p + 1;
        }
        assert forall|i: int| p <= i < s.len() implies key_lt(c@, #[trigger] s[i].order_hash@) by {
            if i > p {
                lemma_key_lt_transitive(c@, s[p as int].order_hash@, s[i].order_hash@);
            }
        }
    }
    assert(cursor_split(s, start_after, p as int));
    let n: usize = if lim < deps.records.len() - p {
        lim
    } else {
        deps.records.len() - p
    };
    let mut page: Vec<Escrow> = Vec::new();
    let mut j: usize = 0;
    while j < n
        invariant
            deps.wf(),
            s == deps.records@,
            p + n <= deps.records.len(),
            j <= n,
            page@.len() == j,
            forall|t: int| 0 <= t < j ==> #[trigger] page@[t]@ == s[p + t]@,
        decreases n - j,
    {
        page.push(deps.records[p + j].clone_record());
        j = j + 1;
    }
    assert forall|a: int, b: int| 0 <= a < b < page@.len() implies key_lt(
        #[trigger] page@[a].order_hash@,
        #[trigger] page@[b].order_hash@,
    ) by {
        assert(page@[a]@ == s[p + a]@);
        assert(page@[b]@ == s[p + b]@);
    }
    assert forall|a: int| 0 <= a < page@.len() implies after_cursor(
        start_after,
        #[trigger] page@[a].order_hash@,
    ) by {
        assert(page@[a]@ == s[p + a]@);
    }
    page
}

/// What a command does to the store `pre`, giving `post` and `r`.
pub open spec fn execute_post(
    pre: Map<Seq<char>, Escrow>,
    post: Map<Seq<char>, Escrow>,
    env: Env,
    info: MessageInfo,
    msg: ExecuteMsg,
    r: Result<Response, ContractError>,
) -> bool {
    match msg {
        ExecuteMsg::CreateEscrow { escrow } => create_post(pre, post, env.block_time, escrow, r),
        ExecuteMsg::Claim { order_hash, preimage } => claim_post(
            pre,
            post,
            env.block_time,
            info.sender@,
            order_hash@,
            sha256_of(encode_utf8(preimage@)),
            r,
        ),
        ExecuteMsg::Refund { order_hash } => refund_post(
            pre,
            post,
            env.block_time,
            info.sender@,
            order_hash@,
            r,
        ),
    }
}

/// Runs one command.
pub fn execute(deps: &mut Escrows, env: &Env, info: &MessageInfo, msg: ExecuteMsg) -> (r: Result<
    Response,
    ContractError,
>)
    requires
        old(deps).wf(),
    ensures
        final(deps).wf(),
        execute_post(old(deps)@, final(deps)@, *env, *info, msg, r),
{
    match msg {
        ExecuteMsg::CreateEscrow { escrow } => execute_create_escrow(deps, env, info, escrow),
        ExecuteMsg::Claim { order_hash, preimage } => execute_claim(
            deps,
            env,
            info,
            order_hash,
            preimage,
        ),
        ExecuteMsg::Refund { order_hash } => execute_refund(deps, env, info, order_hash),
    }
}

/// Answers one query.
pub fn query(deps: &Escrows, env: &Env, msg: QueryMsg) -> (r: Result<QueryResponse, ContractError>)
    requires
        deps.wf(),
    ensures
        match msg {
            QueryMsg::GetEscrow { order_hash } => if deps@.contains_key(order_hash@) {
                r matches Ok(QueryResponse::Escrow(e)) && e@ == deps@[order_hash@]@
            } else {
                r == Err::<QueryResponse, ContractError>(ContractError::EscrowNotFound {  })
            },
            QueryMsg::ListEscrows { start_after, limit } => r matches Ok(QueryResponse::Escrows(v))
                && list_post(deps.records@, start_after, limit, v@),
        },
{
    match msg {
        QueryMsg::GetEscrow { order_hash } => match query_escrow(deps, order_hash) {
            Ok(e) => Ok(QueryResponse::Escrow(e)),
            Err(err) => Err(err),
        },
        QueryMsg::ListEscrows { start_after, limit } => Ok(
            QueryResponse::Escrows(query_list_escrows(deps, start_after, limit)),
        ),
    }
}

/// A create with a positive amount and a timelock after the current time
/// stores its record active, neither claimed nor refunded.
pub proof fn lemma_create_stores_active(
    pre: Map<Seq<char>, Escrow>,
    post: Map<Seq<char>, Escrow>,
    now: u64,
    escrow: Escrow,
    r: Result<Response, ContractError>,
)
    requires
        create_post(pre, post, now, escrow, r),
        escrow.amount > 0,
        escrow.timelock > now,
    ensures
        r is Ok,
        post.contains_key(escrow.order_hash@),
        post[escrow.order_hash@].is_active,
        !post[escrow.order_hash@].is_claimed,
        !post[escrow.order_hash@].is_refunded,
{
}

/// A claim of a stored escrow succeeds exactly when it is active, the
/// timelock has not passed, the preimage's digest is the hashlock and the
/// caller is the taker; otherwise it fails with the first of these that
/// does not hold.
pub proof fn lemma_claim_succeeds_iff(
    pre: Map<Seq<char>, Escrow>,
    post: Map<Seq<char>, Escrow>,
    now: u64,
    sender: Seq<char>,
    order_hash: Seq<char>,
    digest: Seq<u8>,
    r: Result<Response, ContractError>,
)
    requires
        claim_post(pre, post, now, sender, order_hash, digest, r),
        pre.contains_key(order_hash),
    ensures
        ({
            let e = pre[order_hash];
            &&& (r is Ok) == (e.is_active && now < e.timelock && digest == e.hashlock@ && sender
                == e.taker@)
            &&& !e.is_active ==> r == Err::<Response, ContractError>(
                ContractError::EscrowNotActive {  },
            )
            &&& e.is_active && now >= e.timelock ==> r == Err::<Response, ContractError>(
                ContractError::TimelockExpired {  },
            )
            &&& e.is_active && now < e.timelock && digest != e.hashlock@ ==> r == Err::<
                Response,
                ContractError,
            >(ContractError::InvalidPreimage {  })
            &&& e.is_active && now < e.timelock && digest == e.hashlock@ && sender != e.taker@
                ==> r == Err::<Response, ContractError>(ContractError::Unauthorized {  })
        }),
{
}

/// A refund of a stored escrow succeeds exactly when it is active, the
/// timelock has been reached and the caller is the maker; otherwise it
/// fails with the first of these that does not hold.
pub proof fn lemma_refund_succeeds_iff(
    pre: Map<Seq<char>, Escrow>,
    post: Map<Seq<char>, Escrow>,
    now: u64,
    sender: Seq<char>,
    order_hash: Seq<char>,
    r: Result<Response, ContractError>,
)
    requires
        refund_post(pre, post, now, sender, order_hash, r),
        pre.contains_key(order_hash),
    ensures
        ({
            let e = pre[order_hash];
            &&& (r is Ok) == (e.is_active && now >= e.timelock && sender == e.maker@)
            &&& !e.is_active ==> r == Err::<Response, ContractError>(
                ContractError::EscrowNotActive {  },
            )
            &&& e.is_active && now < e.timelock ==> r == Err::<Response, ContractError>(
                ContractError::TimelockNotExpired {  },
            )
            &&& e.is_active && now >= e.timelock && sender != e.maker@ ==> r == Err::<
                Response,
                ContractError,
            >(ContractError::Unauthorized {  })
        }),
{
}

/// Every record of a well-formed store is in exactly one state.
pub proof fn lemma_stored_status_ok(store: Escrows, k: Seq<char>)
    requires
        store.wf(),
        store@.contains_key(k),
    ensures
        status_ok(store@[k]),
{
    let i = choose|i: int| 0 <= i < store.records@.len() && store.records@[i].order_hash@ == k;
    lemma_sorted_unique(store.records@);
    lemma_as_map_index(store.records@, escrow_key(), i);
}

/// A successful claim or refund leaves the record claimed or refunded.
pub proof fn lemma_settlement_is_recorded(
    pre: Map<Seq<char>, Escrow>,
    post_claim: Map<Seq<char>, Escrow>,
    post_refund: Map<Seq<char>, Escrow>,
    now: u64,
    sender: Seq<char>,
    order_hash: Seq<char>,
    digest: Seq<u8>,
    r_claim: Result<Response, ContractError>,
    r_refund: Result<Response, ContractError>,
)
    requires
        claim_post(pre, post_claim, now, sender, order_hash, digest, r_claim),
        refund_post(pre, post_refund, now, sender, order_hash, r_refund),
    ensures
        r_claim is Ok ==> post_claim.contains_key(order_hash) && post_claim[order_hash].is_claimed,
        r_refund is Ok ==> post_refund.contains_key(order_hash)
            && post_refund[order_hash].is_refunded,
{
}

/// Once an escrow is claimed or refunded, every further claim and refund
/// of it fails with `EscrowNotActive` and changes nothing.
pub proof fn lemma_settled_escrow_is_final(
    store: Escrows,
    post_claim: Map<Seq<char>, Escrow>,
    post_refund: Map<Seq<char>, Escrow>,
    now: u64,
    sender: Seq<char>,
    order_hash: Seq<char>,
    digest: Seq<u8>,
    r_claim: Result<Response, ContractError>,
    r_refund: Result<Response, ContractError>,
)
    requires
        store.wf(),
        store@.contains_key(order_hash),
        store@[order_hash].is_claimed || store@[order_hash].is_refunded,
        claim_post(store@, post_claim, now, sender, order_hash, digest, r_claim),
        refund_post(store@, post_refund, now, sender, order_hash, r_refund),
    ensures
        r_claim == Err::<Response, ContractError>(ContractError::EscrowNotActive {  }),
        r_refund == Err::<Response, ContractError>(ContractError::EscrowNotActive {  }),
        post_claim == store@,
        post_refund == store@,
{
    lemma_stored_status_ok(store, order_hash);
}

} // verus!
