use vstd::prelude::*;
use crate::keys::key_lt;
use crate::keys::{key_less, lemma_key_lt_irreflexive, lemma_key_lt_total, lemma_key_lt_transitive};
use crate::table::{as_map, has_key, lemma_as_map_index, lemma_as_map_insert, lemma_as_map_update, unique_keys};

verus! {

/// One hashed-timelock escrow, keyed by its order hash.
#[derive(Debug)]
pub struct Escrow {
    pub order_hash: String,
    pub maker: String,
    pub taker: String,
    pub token: String,
    pub amount: u128,
    pub hashlock: Vec<u8>,
    pub timelock: u64,
    pub is_active: bool,
    pub is_claimed: bool,
    pub is_refunded: bool,
}

/// An escrow record as plain values.
pub struct EscrowView {
    pub order_hash: Seq<char>,
    pub maker: Seq<char>,
    pub taker: Seq<char>,
    pub token: Seq<char>,
    pub amount: u128,
    pub hashlock: Seq<u8>,
    pub timelock: u64,
    pub is_active: bool,
    pub is_claimed: bool,
    pub is_refunded: bool,
}

impl View for Escrow {
    type V = EscrowView;

    open spec fn view(&self) -> EscrowView {
        EscrowView {
            order_hash: self.order_hash@,
            maker: self.maker@,
            taker: self.taker@,
            token: self.token@,
            amount: self.amount,
            hashlock: self.hashlock@,
            timelock: self.timelock,
            is_active: self.is_active,
            is_claimed: self.is_claimed,
            is_refunded: self.is_refunded,
        }
    }
}

/// Exactly one of active, claimed and refunded holds.
pub open spec fn status_ok(e: Escrow) -> bool {
    (e.is_active && !e.is_claimed && !e.is_refunded) || (!e.is_active && e.is_claimed
        && !e.is_refunded) || (!e.is_active && !e.is_claimed && e.is_refunded)
}

/// The key of an escrow record.
pub open spec fn escrow_key() -> spec_fn(Escrow) -> Seq<char> {
    |e: Escrow| e.order_hash@
}

/// Records strictly ascending by order hash.
pub open spec fn sorted(s: Seq<Escrow>) -> bool {
    forall|i: int, j: int|
        0 <= i < j < s.len() ==> key_lt(#[trigger] s[i].order_hash@, #[trigger] s[j].order_hash@)
}

impl Escrow {
    /// A copy of the record.
    pub fn clone_record(&self) -> (r: Escrow)
        ensures
            r@ == self@,
    {
        Escrow {
            order_hash: self.order_hash.clone(),
            maker: self.maker.clone(),
            taker: self.taker.clone(),
            token: self.token.clone(),
            amount: self.amount,
            hashlock: copy_bytes(&self.hashlock),
            timelock: self.timelock,
            is_active: self.is_active,
            is_claimed: self.is_claimed,
            is_refunded: self.is_refunded,
        }
    }
}

/// A copy of a byte vector.
pub fn copy_bytes(v: &Vec<u8>) -> (r: Vec<u8>)
    ensures
        r@ == v@,
{
    let mut r: Vec<u8> = Vec::new();
    let mut i: usize = 0;
    while i < v.len()
        invariant
            i <= v@.len(),
            r@ == v@.subrange(0, i as int),
        decreases v@.len() - i,
    {
        r.push(v[i]);
        i = i + 1;
        assert(r@ =~= v@.subrange(0, i as int));
    }
    assert(v@.subrange(0, v@.len() as int) =~= v@);
    r
}

/// The escrow store: every record, in ascending order of order hash.
#[derive(Debug)]
pub struct Escrows {
    pub records: Vec<Escrow>,
}

impl View for Escrows {
    type V = Map<Seq<char>, Escrow>;

    /// Each order hash mapped to its record.
    open spec fn view(&self) -> Map<Seq<char>, Escrow> {
        as_map(self.records@, escrow_key())
    }
}

impl Escrows {
    /// The records are strictly ascending by order hash, and each is in
    /// exactly one state.
    pub open spec fn wf(&self) -> bool {
        &&& sorted(self.records@)
        &&& forall|i: int| 0 <= i < self.records@.len() ==> status_ok(#[trigger] self.records@[i])
    }

    /// An empty store.
    pub fn new() -> (r: Escrows)
        ensures
            r.wf(),
            r.records@.len() == 0,
            r@ == Map::<Seq<char>, Escrow>::empty(),
    {
        let r = Escrows { records: Vec::new() };
        assert(r@ =~= Map::<Seq<char>, Escrow>::empty());
        r
    }
}

impl Escrows {
    /// The first position whose key does not sort below `k`.
    pub fn lower_bound(&self, k: &String) -> (p: usize)
        requires
            self.wf(),
        ensures
            p <= self.records@.len(),
            forall|i: int| 0 <= i < p ==> key_lt(#[trigger] self.records@[i].order_hash@, k@),
            forall|i: int|
                p <= i < self.records@.len() ==> !key_lt(#[trigger] self.records@[i].order_hash@, k@),
    {
        let mut p: usize = 0;
        while p < self.records.len() && key_less(&self.records[p].order_hash, k)
            invariant
                self.wf(),
                p <= self.records@.len(),
                forall|i: int| 0 <= i < p ==> key_lt(#[trigger] self.records@[i].order_hash@, k@),
            decreases self.records@.len() - p,
        {
            p = p + 1;
        }
        let ghost s = self.records@;
        assert forall|i: int| p <= i < s.len() implies !key_lt(#[trigger] s[i].order_hash@, k@) by {
            if i > p && key_lt(s[i].order_hash@, k@) {
                lemma_key_lt_transitive(s[p as int].order_hash@, s[i].order_hash@, k@);
            }
        }
        p
    }

    /// The position of the record with order hash `k`, if there is one.
    pub fn find(&self, k: &String) -> (r: Option<usize>)
        requires
            self.wf(),
        ensures
            r matches Some(i) ==> i < self.records@.len() && self.records@[i as int].order_hash@
                == k@,
            r is None ==> !self@.contains_key(k@),
    {
        let p = self.lower_bound(k);
        if p < self.records.len() && self.records[p].order_hash == *k {
            Some(p)
        } else {
            let ghost s = self.records@;
            assert forall|i: int| 0 <= i < s.len() implies #[trigger] s[i].order_hash@ != k@ by {
                if i < p {
                    lemma_key_lt_irreflexive(k@);
                } else if i > p && s[i].order_hash@ == k@ {
                    assert(key_lt(s[p as int].order_hash@, s[i].order_hash@));
                }
            }
            None
        }
    }

    /// Stores `e` under its order hash, replacing any record held there.
    pub fn put(&mut self, e: Escrow)
        requires
            old(self).wf(),
            status_ok(e),
        ensures
            final(self).wf(),
            final(self)@ == old(self)@.insert(e.order_hash@, e),
    {
        let ghost s = self.records@;
        let ghost k = e.order_hash@;
        proof {
            lemma_sorted_unique(s);
        }
        let p = self.lower_bound(&e.order_hash);
        if p < self.records.len() && self.records[p].order_hash == e.order_hash {
            self.records.set(p, e);
            proof {
                lemma_as_map_update(s, escrow_key(), p as int, e);
                assert(self.records@ == s.update(p as int, e));
                let t = self.records@;
                assert forall|i: int, j: int| 0 <= i < j < t.len() implies key_lt(
                    #[trigger] t[i].order_hash@,
                    #[trigger] t[j].order_hash@,
                ) by {
                    assert(s[i].order_hash@ == t[i].order_hash@);
                    assert(s[j].order_hash@ == t[j].order_hash@);
                }
            }
        } else {
            proof {
                if p < s.len() {
                    lemma_key_lt_total(s[p as int].order_hash@, k);
                }
                assert forall|i: int| p <= i < s.len() implies key_lt(
                    k,
                    #[trigger] s[i].order_hash@,
                ) by {
                    if i > p {
                        lemma_key_lt_transitive(k, s[p as int].order_hash@, s[i].order_hash@);
                    }
                }
                assert forall|i: int| 0 <= i < s.len() implies #[trigger] s[i].order_hash@ != k by {
                    if i < p {
                        lemma_key_lt_irreflexive(k);
                    } else {
                        lemma_key_lt_irreflexive(k);
                    }
                }
                lemma_as_map_insert(s, escrow_key(), p as int, e);
            }
            self.records.insert(p, e);
            proof {
                let t = self.records@;
                assert(t == s.insert(p as int, e));
                assert forall|i: int, j: int| 0 <= i < j < t.len() implies key_lt(
                    #[trigger] t[i].order_hash@,
                    #[trigger] t[j].order_hash@,
                ) by {
                    if j < p {
                        assert(t[i] == s[i] && t[j] == s[j]);
                    } else if j == p {
                        assert(t[i] == s[i]);
                    } else if i < p {
                        assert(t[i] == s[i] && t[j] == s[j - 1]);
                        lemma_key_lt_transitive(t[i].order_hash@, k, t[j].order_hash@);
                    } else if i == p {
                        assert(t[j] == s[j - 1]);
                    } else {
                        assert(t[i] == s[i - 1] && t[j] == s[j - 1]);
                    }
                }
                assert forall|i: int| 0 <= i < t.len() implies status_ok(#[trigger] t[i]) by {
                    if i < p {
                        assert(t[i] == s[i]);
                    } else if i > p {
                        assert(t[i] == s[i - 1]);
                    }
                }
            }
        }
    }
}

impl Escrows {
    /// Moves the active record at position `i` to claimed (`claim`) or to
    /// refunded.
    pub fn settle(&mut self, i: usize, claim: bool)
        requires
            old(self).wf(),
            i < old(self).records@.len(),
            old(self).records@[i as int].is_active,
        ensures
            final(self).wf(),
            final(self).records@.len() == old(self).records@.len(),
            ({
                let e = old(self).records@[i as int];
                let n = if claim {
                    Escrow { is_active: false, is_claimed: true, ..e }
                } else {
                    Escrow { is_active: false, is_refunded: true, ..e }
                };
                final(self)@ == old(self)@.insert(e.order_hash@, n)
            }),
    {
        let ghost s = self.records@;
        proof {
            lemma_sorted_unique(s);
        }
        let mut rec = self.records.remove(i);
        rec.is_active = false;
        if claim {
            rec.is_claimed = true;
        } else {
            rec.is_refunded = true;
        }
        self.records.insert(i, rec);
        proof {
            assert(self.records@ =~= s.update(i as int, rec));
            lemma_as_map_update(s, escrow_key(), i as int, rec);
            let t = self.records@;
            assert forall|a: int, b: int| 0 <= a < b < t.len() implies key_lt(
                #[trigger] t[a].order_hash@,
                #[trigger] t[b].order_hash@,
            ) by {
                assert(s[a].order_hash@ == t[a].order_hash@);
                assert(s[b].order_hash@ == t[b].order_hash@);
            }
            assert forall|a: int| 0 <= a < t.len() implies status_ok(#[trigger] t[a]) by {
                if a != i {
                    assert(t[a] == s[a]);
                }
            }
        }
    }
}

pub proof fn lemma_sorted_unique(s: Seq<Escrow>)
    requires
        sorted(s),
    ensures
        unique_keys(s, escrow_key()),
{
    assert forall|i: int, j: int| 0 <= i < s.len() && 0 <= j < s.len() && i != j implies
        escrow_key()(s[i]) != escrow_key()(s[j]) by {
        if i < j {
            crate::keys::lemma_key_lt_irreflexive(s[i].order_hash@);
        } else {
            crate::keys::lemma_key_lt_irreflexive(s[j].order_hash@);
        }
    }
}

/// The records of a well-formed store list its map in ascending order of
/// order hash: each record is the map's entry under its key, and each key of
/// the map is held by a record.
pub proof fn lemma_records_list_the_map(store: Escrows)
    requires
        store.wf(),
    ensures
        forall|i: int|
            0 <= i < store.records@.len() ==> store@.contains_key(
                #[trigger] store.records@[i].order_hash@,
            ) && store@[store.records@[i].order_hash@] == store.records@[i],
        forall|k: Seq<char>|
            #[trigger] store@.contains_key(k) ==> exists|i: int|
                0 <= i < store.records@.len() && store.records@[i].order_hash@ == k,
        store.records@.len() == store@.dom().len(),
{
    let s = store.records@;
    lemma_sorted_unique(s);
    assert forall|i: int| 0 <= i < s.len() implies store@.contains_key(
        #[trigger] s[i].order_hash@,
    ) && store@[s[i].order_hash@] == s[i] by {
        lemma_as_map_index(s, escrow_key(), i);
    }
    lemma_keys_len(s);
}

proof fn lemma_keys_len(s: Seq<Escrow>)
    requires
        unique_keys(s, escrow_key()),
    ensures
        as_map(s, escrow_key()).dom().finite(),
        s.len() == as_map(s, escrow_key()).dom().len(),
    decreases s.len(),
{
    if s.len() == 0 {
        assert(as_map(s, escrow_key()).dom() =~= Set::<Seq<char>>::empty());
    } else {
        let t = s.drop_last();
        let e = s.last();
        assert(unique_keys(t, escrow_key()));
        lemma_keys_len(t);
        assert(!has_key(t, escrow_key(), e.order_hash@));
        lemma_as_map_insert(t, escrow_key(), t.len() as int, e);
        assert(t.insert(t.len() as int, e) =~= s);
        vstd::set::axiom_set_insert_finite(as_map(t, escrow_key()).dom(), e.order_hash@);
        vstd::set::axiom_set_insert_len(as_map(t, escrow_key()).dom(), e.order_hash@);
    }
}

} // verus!
