use vstd::prelude::*;
use crate::pool::{BetPool, PoolKey};

verus! {

/// The pools, each under the key of its proposition; a key is used once.
#[derive(Debug)]
pub struct PoolRegistry {
    pools: Vec<BetPool>,
}

impl View for PoolRegistry {
    type V = Seq<BetPool>;

    closed spec fn view(&self) -> Seq<BetPool> {
        self.pools@
    }
}

impl PoolRegistry {
    /// No two pools share a key.
    pub open spec fn wf(&self) -> bool {
        forall|i: int, j: int|
            0 <= i < j < self@.len() ==> #[trigger] self@[i].pool_key() != #[trigger] self@[j].pool_key()
    }

    pub open spec fn contains_key(&self, key: PoolKey) -> bool {
        exists|i: int| 0 <= i < self@.len() && #[trigger] self@[i].pool_key() == key
    }

    pub fn new() -> (r: PoolRegistry)
        ensures
            r@ == Seq::<BetPool>::empty(),
            r.wf(),
    {
        PoolRegistry { pools: Vec::new() }
    }

    pub fn len(&self) -> (r: usize)
        ensures
            r == self@.len(),
    {
        self.pools.len()
    }

    pub fn get(&self, i: usize) -> (r: &BetPool)
        requires
            i < self@.len(),
        ensures
            *r == self@[i as int],
    {
        &self.pools[i]
    }

    /// The position of the pool under `key`, if there is one.
    pub fn find(&self, key: &PoolKey) -> (r: Option<usize>)
        ensures
            match r {
                Some(i) => i < self@.len() && self@[i as int].pool_key() == *key,
                None => !self.contains_key(*key),
            },
    {
        let mut i: usize = 0;
        while i < self.pools.len()
            invariant
                0 <= i <= self@.len(),
                forall|j: int| 0 <= j < i ==> self@[j].pool_key() != *key,
            decreases self@.len() - i,
        {
            let k = self.pools[i].key();
            if k == *key {
                return Some(i);
            }
            i += 1;
        }
        None
    }

    /// Adds a pool whose key is not in use yet.
    pub(crate) fn insert(&mut self, pool: BetPool)
        requires
            !old(self).contains_key(pool.pool_key()),
        ensures
            final(self)@ == old(self)@.push(pool),
            old(self).wf() ==> final(self).wf(),
    {
        self.pools.push(pool);
        proof {
            assert forall|i: int| 0 <= i < old(self)@.len() implies #[trigger] final(self)@[i]
                == old(self)@[i] by {}
            if old(self).wf() {
                assert forall|i: int, j: int|
                    0 <= i < j < final(self)@.len() implies #[trigger] final(self)@[i].pool_key()
                    != #[trigger] final(self)@[j].pool_key() by {
                    if j == old(self)@.len() {
                        assert(old(self)@[i].pool_key() != pool.pool_key());
                    }
                }
            }
        }
    }
}

} // verus!
