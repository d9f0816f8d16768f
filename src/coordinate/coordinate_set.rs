use std::collections::{HashMap, HashSet};

use vstd::prelude::*;

use crate::coordinate::{spatial_equal, Coordinate, Ordinates};
use crate::ieee::{canonical, canonical_bits, lemma_canonical_bits_exact};

verus! {

broadcast use vstd::std_specs::hash::group_hash_axioms;

/// The hashing key of a coordinate: each ordinate with -0.0 folded onto +0.0.
pub open spec fn key_of(m: Ordinates) -> Ordinates {
    (canonical_bits(m.0), canonical_bits(m.1), canonical_bits(m.2))
}

/// Two coordinates are structurally equal exactly when their keys are equal.
pub proof fn lemma_key_of_exact(a: Ordinates, b: Ordinates)
    ensures
        spatial_equal(a, b) <==> key_of(a) == key_of(b),
{
    lemma_canonical_bits_exact(a.0, b.0);
    lemma_canonical_bits_exact(a.1, b.1);
    lemma_canonical_bits_exact(a.2, b.2);
}

/// Two 64-bit halves packed into one 128-bit word, `hi` above `lo`.
pub open spec fn pack(hi: u64, lo: u64) -> u128 {
    ((hi as u128) << 64u128) | (lo as u128)
}

proof fn lemma_pack_parts(hi: u64, lo: u64)
    ensures
        pack(hi, lo) >> 64u128 == hi as u128,
{
    assert((((hi as u128) << 64u128) | (lo as u128)) >> 64u128 == hi as u128) by (bit_vector);
}

proof fn lemma_pack_injective(a: u64, b: u64, c: u64, d: u64)
    ensures
        pack(a, b) == pack(c, d) ==> a == c && b == d,
{
    assert((((a as u128) << 64u128) | (b as u128)) == (((c as u128) << 64u128) | (d as u128))
        ==> a == c && b == d) by (bit_vector);
}

fn pack_exec(hi: u64, lo: u64) -> (r: u128)
    ensures
        r == pack(hi, lo),
{
    ((hi as u128) << 64u128) | (lo as u128)
}

/// A set of coordinates under structural equality, with constant expected
/// time per operation.
///
/// Each distinct planar position `(x, y)` gets a small id; a coordinate is
/// then recorded as the pair of its position's id and its z.
pub struct CoordinateSet {
    planar_ids: HashMap<u128, u64>,
    keys: HashSet<u128>,
    next_id: u64,
}

impl View for CoordinateSet {
    type V = Set<Ordinates>;

    /// The keys (see [`key_of`]) of the coordinates held.
    closed spec fn view(&self) -> Set<Ordinates> {
        Set::new(
            |k: Ordinates|
                self.planar_ids@.contains_key(pack(k.0, k.1)) && self.keys@.contains(
                    pack(self.planar_ids@[pack(k.0, k.1)], k.2),
                ),
        )
    }
}

impl CoordinateSet {
    /// The internal tables agree: ids are distinct and below `next_id`, and
    /// every recorded pair uses an id already handed out.
    pub closed spec fn wf(&self) -> bool {
        &&& forall|p: u128| #[trigger]
            self.planar_ids@.contains_key(p) ==> self.planar_ids@[p] < self.next_id
        &&& forall|p: u128, q: u128|
            #![trigger self.planar_ids@[p], self.planar_ids@[q]]
            self.planar_ids@.contains_key(p) && self.planar_ids@.contains_key(q)
                && self.planar_ids@[p] == self.planar_ids@[q] ==> p == q
        &&& forall|k: u128| #[trigger] self.keys@.contains(k) ==> (k >> 64u128) < self.next_id as u128
    }

    /// How many distinct planar positions have been recorded; grows by at
    /// most one with each insertion.
    pub closed spec fn planar_positions(&self) -> nat {
        self.next_id as nat
    }

    /// An empty set, with room reserved for `capacity` coordinates.
    pub fn with_capacity(capacity: usize) -> (r: CoordinateSet)
        ensures
            r.wf(),
            r@ == Set::<Ordinates>::empty(),
            r.planar_positions() == 0,
    {
        let r = CoordinateSet {
            planar_ids: HashMap::with_capacity(capacity),
            keys: HashSet::with_capacity(capacity),
            next_id: 0,
        };
        assert(r@ =~= Set::<Ordinates>::empty());
        r
    }

    /// Whether a coordinate structurally equal to `c` is in the set.
    pub fn contains(&self, c: &Coordinate) -> (r: bool)
        requires
            self.wf(),
        ensures
            r == self@.contains(key_of(c@)),
    {
        let xy = pack_exec(canonical(c.x()), canonical(c.y()));
        match self.planar_ids.get(&xy) {
            Some(id) => self.keys.contains(&pack_exec(*id, canonical(c.z()))),
            None => false,
        }
    }

    /// Adds `c`; returns whether no coordinate structurally equal to it was
    /// there before.
    pub fn insert(&mut self, c: &Coordinate) -> (r: bool)
        requires
            old(self).wf(),
            old(self).planar_positions() < u64::MAX,
        ensures
            final(self).wf(),
            final(self)@ == old(self)@.insert(key_of(c@)),
            r == !old(self)@.contains(key_of(c@)),
            final(self).planar_positions() <= old(self).planar_positions() + 1,
    {
        let ghost k = key_of(c@);
        let ghost old_set = *self;
        let xy = pack_exec(canonical(c.x()), canonical(c.y()));
        let id: u64 = match self.planar_ids.get(&xy) {
            Some(id) => *id,
            None => {
                let fresh = self.next_id;
                self.planar_ids.insert(xy, fresh);
                self.next_id = fresh + 1;
                fresh
            },
        };
        let key = pack_exec(id, canonical(c.z()));
        let r = self.keys.insert(key);
        proof {
            lemma_pack_parts(id, k.2);
            assert forall|q: Ordinates| #[trigger]
                self@.contains(q) == (old_set@.contains(q) || q == k) by {
                lemma_pack_injective(q.0, q.1, k.0, k.1);
                if self.planar_ids@.contains_key(pack(q.0, q.1)) {
                    lemma_pack_injective(self.planar_ids@[pack(q.0, q.1)], q.2, id, k.2);
                    lemma_pack_parts(old_set.next_id, q.2);
                }
            }
            assert(self@ =~= old_set@.insert(k));
            assert forall|kk: u128| #[trigger] self.keys@.contains(kk) implies (kk >> 64u128)
                < self.next_id as u128 by {
                if kk != key {
                    assert(old_set.keys@.contains(kk));
                }
            }
            if old_set@.contains(k) {
                assert(old_set.planar_ids@.contains_key(xy));
            } else if old_set.planar_ids@.contains_key(xy) {
                assert(!old_set.keys@.contains(key));
            } else {
                if old_set.keys@.contains(key) {
                    assert(key >> 64u128 == old_set.next_id as u128);
                }
            }
        }
        r
    }
}

} // verus!
