//! Paint order: the painter's rule over object centroids.
//!
//! The draw order of the stored objects is their order by descending
//! centroid Z: in this engine's convention, objects farther along +Z are
//! nearer and must be drawn last, so the list starts with the farthest Z.
//! This is a full re-sort per frame over one depth value per object — a
//! coarse, documented approximation, not a true per-polygon painter's
//! algorithm; the order of objects with equal depth is left open.

use crate::engine::Engine;
use crate::world::NamedObject;
use vstd::multiset::Multiset;
use vstd::prelude::*;

verus! {

broadcast use {vstd::seq_lib::group_to_multiset_ensures, vstd::multiset::group_multiset_axioms};

/// One object's entry in the paint order: its name and the Z depth of its
/// centroid.
#[derive(PartialEq)]
pub struct PaintObject {
    pub name: String,
    pub mid_z: i64,
}

impl PaintObject {
    pub fn new(name: String, mid_z: i64) -> (r: Self)
        ensures
            r.name == name,
            r.mid_z == mid_z,
    {
        PaintObject { name, mid_z }
    }
}

/// The paint entry of a stored object: its name and its centroid's Z.
pub open spec fn paint_entry(e: NamedObject) -> PaintObject {
    PaintObject { name: e.name, mid_z: e.object.mid_point.z }
}

/// The depths never increase along the list: farthest Z first.
pub open spec fn sorted_by_depth(s: Seq<PaintObject>) -> bool {
    forall|i: int, j: int| 0 <= i < j < s.len() ==>
        (#[trigger] s[i]).mid_z >= (#[trigger] s[j]).mid_z
}

impl Engine {
    /// Computes the paint order of all stored objects: exactly one entry
    /// per object, sorted by descending centroid Z.
    pub fn paint_order(&self) -> (r: Vec<PaintObject>)
        ensures
            sorted_by_depth(r@),
            r@.to_multiset() == self.world_space.entries@.map_values(
                |e: NamedObject| paint_entry(e),
            ).to_multiset(),
    {
        let ghost full = self.world_space.entries@.map_values(
            |e: NamedObject| paint_entry(e),
        ).to_multiset();

        // Collect one (name, centroid Z) entry per object.
        let mut raw: Vec<PaintObject> = Vec::new();
        let mut i: usize = 0;
        while i < self.world_space.entries.len()
            invariant
                i <= self.world_space.entries.len(),
                raw.len() == i,
                forall|j: int| 0 <= j < i ==>
                    #[trigger] raw[j] == paint_entry(self.world_space.entries[j]),
            decreases self.world_space.entries.len() - i,
        {
            let entry = &self.world_space.entries[i];
            raw.push(PaintObject::new(entry.name.clone(), entry.object.mid_point.z));
            i = i + 1;
        }
        proof {
            assert(raw@ =~= self.world_space.entries@.map_values(
                |e: NamedObject| paint_entry(e),
            ));
        }

        // Selection sort by descending depth: repeatedly move the deepest
        // remaining entry over.
        let mut out: Vec<PaintObject> = Vec::new();
        while raw.len() > 0
            invariant
                sorted_by_depth(out@),
                out@.to_multiset().add(raw@.to_multiset()) == full,
                forall|a: int, b: int|
                    0 <= a < out.len() && 0 <= b < raw.len() ==>
                        (#[trigger] out[a]).mid_z >= (#[trigger] raw[b]).mid_z,
            decreases raw.len(),
        {
            let mut best: usize = 0;
            let mut k: usize = 1;
            while k < raw.len()
                invariant
                    raw.len() > 0,
                    best < raw.len(),
                    k <= raw.len(),
                    forall|t: int| 0 <= t < k ==>
                        raw[best as int].mid_z >= (#[trigger] raw[t]).mid_z,
                decreases raw.len() - k,
            {
                if raw[k].mid_z > raw[best].mid_z {
                    best = k;
                }
                k = k + 1;
            }
            let ghost raw_before = raw@;
            let p = raw.remove(best);
            proof {
                assert(raw_before.contains(p)) by {
                    assert(raw_before[best as int] == p);
                }
                assert(raw_before.to_multiset().count(p) > 0);
                assert(raw@.to_multiset() == raw_before.remove(best as int).to_multiset());
                assert(raw_before.remove(best as int).to_multiset()
                    =~= raw_before.to_multiset().remove(p));
                assert(out@.push(p).to_multiset() =~= out@.to_multiset().insert(p));
                assert(out@.push(p).to_multiset().add(raw@.to_multiset()) =~= full);
            }
            out.push(p);
        }
        proof {
            assert(out@.to_multiset().add(raw@.to_multiset()) =~= out@.to_multiset()) by {
                assert(raw@ =~= Seq::<PaintObject>::empty());
                assert(raw@.to_multiset() =~= Multiset::<PaintObject>::empty());
            }
        }
        out
    }
}

} // verus!
