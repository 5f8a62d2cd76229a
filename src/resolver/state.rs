use vstd::prelude::*;
use crate::escrow::state::copy_bytes;
use crate::table::{as_map, lemma_as_map_insert, lemma_as_map_update, unique_keys};

verus! {

/// One leg of a swap as the resolver books it, keyed by its order hash.
#[derive(Debug)]
pub struct Order {
    pub order_hash: String,
    pub maker: String,
    pub taker: String,
    pub token: String,
    pub amount: u128,
    pub hashlock: Vec<u8>,
    pub timelock: u64,
}

/// An order as plain values.
pub struct OrderView {
    pub order_hash: Seq<char>,
    pub maker: Seq<char>,
    pub taker: Seq<char>,
    pub token: Seq<char>,
    pub amount: u128,
    pub hashlock: Seq<u8>,
    pub timelock: u64,
}

impl View for Order {
    type V = OrderView;

    open spec fn view(&self) -> OrderView {
        OrderView {
            order_hash: self.order_hash@,
            maker: self.maker@,
            taker: self.taker@,
            token: self.token@,
            amount: self.amount,
            hashlock: self.hashlock@,
            timelock: self.timelock,
        }
    }
}

impl Order {
    /// A copy of the order.
    pub fn clone_record(&self) -> (r: Order)
        ensures
            r@ == self@,
    {
        Order {
            order_hash: self.order_hash.clone(),
            maker: self.maker.clone(),
            taker: self.taker.clone(),
            token: self.token.clone(),
            amount: self.amount,
            hashlock: copy_bytes(&self.hashlock),
            timelock: self.timelock,
        }
    }
}

/// The key of an order.
pub open spec fn order_key() -> spec_fn(Order) -> Seq<char> {
    |o: Order| o.order_hash@
}

/// The resolver's state: the identity allowed to drive it, fixed when it is
/// set up, and its order registry.
#[derive(Debug)]
pub struct ResolverState {
    pub resolver_address: String,
    pub orders: Vec<Order>,
}

impl View for ResolverState {
    type V = Map<Seq<char>, Order>;

    /// Each order hash mapped to its order.
    open spec fn view(&self) -> Map<Seq<char>, Order> {
        as_map(self.orders@, order_key())
    }
}

impl ResolverState {
    /// No two orders share an order hash.
    pub open spec fn wf(&self) -> bool {
        unique_keys(self.orders@, order_key())
    }

    /// A resolver driven by `resolver_address`, with no orders.
    pub fn new(resolver_address: String) -> (r: ResolverState)
        ensures
            r.wf(),
            r.resolver_address == resolver_address,
            r.orders@.len() == 0,
            r@ == Map::<Seq<char>, Order>::empty(),
    {
        let r = ResolverState { resolver_address, orders: Vec::new() };
        assert(r@ =~= Map::<Seq<char>, Order>::empty());
        r
    }

    /// The position of the order with order hash `k`, if there is one.
    pub fn find(&self, k: &String) -> (r: Option<usize>)
        requires
            self.wf(),
        ensures
            r matches Some(i) ==> i < self.orders@.len() && self.orders@[i as int].order_hash@ == k@,
            r is None ==> !self@.contains_key(k@),
    {
        let mut i: usize = 0;
        while i < self.orders.len()
            invariant
                i <= self.orders@.len(),
                forall|j: int| 0 <= j < i ==> #[trigger] self.orders@[j].order_hash@ != k@,
            decreases self.orders@.len() - i,
        {
            if self.orders[i].order_hash == *k {
                return Some(i);
            }
            i = i + 1;
        }
        None
    }

    /// Books `o` under its order hash, replacing any order held there.
    pub fn put(&mut self, o: Order)
        requires
            old(self).wf(),
        ensures
            final(self).wf(),
            final(self).resolver_address == old(self).resolver_address,
            final(self)@ == old(self)@.insert(o.order_hash@, o),
    {
        let ghost s = self.orders@;
        match self.find(&o.order_hash) {
            Some(i) => {
                proof {
                    lemma_as_map_update(s, order_key(), i as int, o);
                }
                self.orders.set(i, o);
            },
            None => {
                proof {
                    lemma_as_map_insert(s, order_key(), s.len() as int, o);
                }
                self.orders.push(o);
                assert(self.orders@ == s.insert(s.len() as int, o));
            },
        }
    }
}

} // verus!
