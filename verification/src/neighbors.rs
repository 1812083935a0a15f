//! The set of neighbours a drone has a channel to.
//!
//! It is kept as a list without repeats rather than as a hash set: the
//! drones relay floods to their neighbours one by one, and a list fixes that
//! order, so that each drone's contract says which packets go out and in
//! which order. A hash set is walked in an order that differs from process
//! to process, which no contract could state.
use vstd::prelude::*;
use crate::packet::NodeId;

verus! {

/// Ids of the neighbours, each once, in the order they were added.
pub struct NeighborSet {
    ids: Vec<NodeId>,
}

impl View for NeighborSet {
    type V = Seq<NodeId>;

    closed spec fn view(&self) -> Seq<NodeId> {
        self.ids@
    }
}

/// The neighbours after `node` is added.
pub open spec fn seq_add(s: Seq<NodeId>, node: NodeId) -> Seq<NodeId> {
    if s.contains(node) {
        s
    } else {
        s.push(node)
    }
}

/// The neighbours after `node` is removed.
pub open spec fn seq_remove(s: Seq<NodeId>, node: NodeId) -> Seq<NodeId> {
    if s.contains(node) {
        s.remove(s.index_of(node))
    } else {
        s
    }
}

/// Whether `v` holds the node `x`.
pub fn contains_node(v: &Vec<NodeId>, x: NodeId) -> (r: bool)
    ensures
        r == v@.contains(x),
{
    let mut i: usize = 0;
    while i < v.len()
        invariant
            i <= v.len(),
            forall|j: int| 0 <= j < i ==> v@[j] != x,
        decreases v.len() - i,
    {
        if v[i] == x {
            return true;
        }
        i = i + 1;
    }
    false
}

impl NeighborSet {
    /// Well-formedness: each neighbour is listed once.
    pub open spec fn inv(&self) -> bool {
        self@.no_duplicates()
    }

    /// No neighbour.
    pub fn empty() -> (r: NeighborSet)
        ensures
            r.inv(),
            r@ == Seq::<NodeId>::empty(),
    {
        NeighborSet { ids: Vec::new() }
    }

    /// The neighbours listed in `ids`, each once, in the order of their
    /// first occurrence.
    pub fn from_ids(ids: &Vec<NodeId>) -> (r: NeighborSet)
        ensures
            r.inv(),
            forall|x: NodeId| r@.contains(x) <==> ids@.contains(x),
            ids@.no_duplicates() ==> r@ == ids@,
    {
        let mut d = NeighborSet::empty();
        let mut i: usize = 0;
        while i < ids.len()
            invariant
                i <= ids.len(),
                d.inv(),
                forall|x: NodeId| d@.contains(x) <==> ids@.take(i as int).contains(x),
                ids@.no_duplicates() ==> d@ == ids@.take(i as int),
            decreases ids.len() - i,
        {
            d.add(ids[i]);
            proof {
                broadcast use vstd::seq_lib::group_seq_properties;
                let t = ids@.take(i + 1);
                assert(t =~= ids@.take(i as int).push(ids@[i as int]));
                assert(ids@.no_duplicates() ==> !ids@.take(i as int).contains(ids@[i as int]));
            }
            i = i + 1;
        }
        assert(ids@.take(i as int) =~= ids@);
        d
    }

    /// Number of neighbours.
    pub fn len(&self) -> (r: usize)
        ensures
            r == self@.len(),
    {
        self.ids.len()
    }

    /// The `i`-th neighbour.
    pub fn get(&self, i: usize) -> (r: NodeId)
        requires
            i < self@.len(),
        ensures
            r == self@[i as int],
    {
        self.ids[i]
    }

    /// Whether `node` is a neighbour.
    pub fn contains(&self, node: NodeId) -> (r: bool)
        ensures
            r == self@.contains(node),
    {
        contains_node(&self.ids, node)
    }

    /// The neighbours' ids.
    pub fn to_vec(&self) -> (r: Vec<NodeId>)
        ensures
            r@ == self@,
    {
        crate::packet::copy_hops(&self.ids)
    }

    /// Adds `node` if it is not a neighbour already.
    pub fn add(&mut self, node: NodeId)
        requires
            old(self).inv(),
        ensures
            final(self).inv(),
            final(self)@ == seq_add(old(self)@, node),
            final(self)@.contains(node),
            forall|m: NodeId| m != node ==> (final(self)@.contains(m) <==> old(self)@.contains(m)),
    {
        proof {
            assert forall|m: NodeId| m != node implies (seq_add(old(self)@, node).contains(m) <==> old(self)@.contains(m)) by {
                crate::laws::law_neighbor_membership(old(self)@, node, m);
            }
            crate::laws::law_neighbor_membership(old(self)@, node, node);
        }
        if !contains_node(&self.ids, node) {
            self.ids.push(node);
        }
    }

    /// Removes `node` if it is a neighbour.
    pub fn remove(&mut self, node: NodeId)
        requires
            old(self).inv(),
        ensures
            final(self).inv(),
            final(self)@ == seq_remove(old(self)@, node),
            !final(self)@.contains(node),
            forall|m: NodeId| m != node ==> (final(self)@.contains(m) <==> old(self)@.contains(m)),
    {
        proof {
            assert forall|m: NodeId| m != node implies (seq_remove(old(self)@, node).contains(m) <==> old(self)@.contains(m)) by {
                crate::laws::law_neighbor_membership(old(self)@, node, m);
            }
            crate::laws::law_neighbor_membership(old(self)@, node, node);
        }
        let mut i: usize = 0;
        while i < self.ids.len()
            invariant
                i <= self.ids.len(),
                self.ids@ == old(self).ids@,
                self.ids@.no_duplicates(),
                forall|j: int| 0 <= j < i ==> self.ids@[j] != node,
                !seq_remove(old(self)@, node).contains(node),
                forall|m: NodeId| m != node ==> (seq_remove(old(self)@, node).contains(m) <==> old(self)@.contains(m)),
            decreases self.ids.len() - i,
        {
            if self.ids[i] == node {
                proof {
                    assert(self.ids@[i as int] == node);
                    assert(self.ids@.contains(node));
                    let k = self.ids@.index_of(node);
                    assert(0 <= k < self.ids@.len() && self.ids@[k] == node);
                    assert(k == i);
                }
                let ghost before = self.ids@;
                self.ids.remove(i);
                assert(self.ids@.no_duplicates()) by {
                    assert forall|a: int, b: int|
                        0 <= a < self.ids@.len() && 0 <= b < self.ids@.len() && a != b
                        implies self.ids@[a] != self.ids@[b] by {
                        let a0 = if a < i { a } else { a + 1 };
                        let b0 = if b < i { b } else { b + 1 };
                        assert(self.ids@[a] == before[a0]);
                        assert(self.ids@[b] == before[b0]);
                    }
                }
                return;
            }
            i = i + 1;
        }
    }

    /// Removes every neighbour.
    pub fn clear(&mut self)
        ensures
            final(self).inv(),
            final(self)@ == Seq::<NodeId>::empty(),
    {
        self.ids = Vec::new();
    }
}

} // verus!
