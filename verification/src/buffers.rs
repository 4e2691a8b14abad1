//! Staging and capacity policy for the frame's geometry buffers.
//!
//! The device-resident vertex and index buffers live with the host-side
//! driver; what is decided here is their contents and their size. Each frame
//! is a whole overwrite: the staging area is rebuilt as the concatenation of
//! every draw list's vertex and index data, in list order, and the recorded
//! buffer capacities grow when a frame needs more than they hold. Growth at
//! least doubles, so buffers are not reallocated every frame when sizes
//! fluctuate near a threshold, and capacities never shrink.

use vstd::prelude::*;

use crate::model::{DrawList, Vertex};

verus! {

/// The vertex data of `lists`, concatenated in list order.
pub open spec fn staged_vertices(lists: Seq<DrawList>) -> Seq<Vertex>
    decreases lists.len(),
{
    if lists.len() == 0 {
        Seq::empty()
    } else {
        staged_vertices(lists.drop_last()) + lists.last().vertices@
    }
}

/// The index data of `lists`, concatenated in list order.
pub open spec fn staged_indices(lists: Seq<DrawList>) -> Seq<u16>
    decreases lists.len(),
{
    if lists.len() == 0 {
        Seq::empty()
    } else {
        staged_indices(lists.drop_last()) + lists.last().indices@
    }
}

/// The staged geometry of one frame and the capacities, in records, of the
/// device buffers backing it.
pub struct GeometryBuffers {
    /// Vertex records staged for upload, all lists concatenated.
    pub vertices: Vec<Vertex>,
    /// Index values staged for upload, all lists concatenated.
    pub indices: Vec<u16>,
    /// Capacity of the device vertex buffer, in vertex records.
    pub vertex_capacity: usize,
    /// Capacity of the device index buffer, in index values.
    pub index_capacity: usize,
}

impl GeometryBuffers {
    /// The staged data fits the recorded device capacities.
    pub open spec fn staged_fits(self) -> bool {
        &&& self.vertices@.len() <= self.vertex_capacity
        &&& self.indices@.len() <= self.index_capacity
    }

    /// An empty staging area over empty device buffers.
    pub fn new() -> (b: GeometryBuffers)
        ensures
            b.vertices@ == Seq::<Vertex>::empty(),
            b.indices@ == Seq::<u16>::empty(),
            b.vertex_capacity == 0,
            b.index_capacity == 0,
            b.staged_fits(),
    {
        GeometryBuffers {
            vertices: Vec::new(),
            indices: Vec::new(),
            vertex_capacity: 0,
            index_capacity: 0,
        }
    }

    /// Whole-frame geometry upload: replace the staged data with the
    /// concatenation of every list's vertex and index data, and grow the
    /// recorded capacities when the frame needs more than they hold. A
    /// capacity that suffices is left alone; one that does not grows to at
    /// least the required size, and to at least double unless doubling
    /// cannot be represented.
    pub fn upload(&mut self, lists: &Vec<DrawList>)
        ensures
            final(self).vertices@ == staged_vertices(lists@),
            final(self).indices@ == staged_indices(lists@),
            final(self).staged_fits(),
            final(self).vertex_capacity >= old(self).vertex_capacity,
            final(self).index_capacity >= old(self).index_capacity,
            final(self).vertices@.len() <= old(self).vertex_capacity
                ==> final(self).vertex_capacity == old(self).vertex_capacity,
            final(self).indices@.len() <= old(self).index_capacity
                ==> final(self).index_capacity == old(self).index_capacity,
    {
        self.vertices.clear();
        self.indices.clear();
        let mut k: usize = 0;
        while k < lists.len()
            invariant
                0 <= k <= lists@.len(),
                self.vertices@ == staged_vertices(lists@.take(k as int)),
                self.indices@ == staged_indices(lists@.take(k as int)),
                self.vertex_capacity == old(self).vertex_capacity,
                self.index_capacity == old(self).index_capacity,
            decreases lists@.len() - k,
        {
            let list = &lists[k];
            proof {
                assert(staged_vertices(lists@.take(k as int)) + list.vertices@.take(0)
                    =~= staged_vertices(lists@.take(k as int)));
            }
            let mut j: usize = 0;
            while j < list.vertices.len()
                invariant
                    0 <= j <= list.vertices@.len(),
                    0 <= k < lists@.len(),
                    list == lists@[k as int],
                    self.vertices@ == staged_vertices(lists@.take(k as int))
                        + list.vertices@.take(j as int),
                    self.indices@ == staged_indices(lists@.take(k as int)),
                    self.vertex_capacity == old(self).vertex_capacity,
                    self.index_capacity == old(self).index_capacity,
                decreases list.vertices@.len() - j,
            {
                self.vertices.push(list.vertices[j]);
                proof {
                    assert(list.vertices@.take(j as int + 1) =~= list.vertices@.take(
                        j as int,
                    ).push(list.vertices@[j as int]));
                }
                j = j + 1;
            }
            proof {
                assert(list.vertices@.take(list.vertices@.len() as int) =~= list.vertices@);
                assert(staged_indices(lists@.take(k as int)) + list.indices@.take(0)
                    =~= staged_indices(lists@.take(k as int)));
            }
            let mut j: usize = 0;
            while j < list.indices.len()
                invariant
                    0 <= j <= list.indices@.len(),
                    0 <= k < lists@.len(),
                    list == lists@[k as int],
                    self.vertices@ == staged_vertices(lists@.take(k as int)) + list.vertices@,
                    self.indices@ == staged_indices(lists@.take(k as int))
                        + list.indices@.take(j as int),
                    self.vertex_capacity == old(self).vertex_capacity,
                    self.index_capacity == old(self).index_capacity,
                decreases list.indices@.len() - j,
            {
                self.indices.push(list.indices[j]);
                proof {
                    assert(list.indices@.take(j as int + 1) =~= list.indices@.take(j as int).push(
                        list.indices@[j as int],
                    ));
                }
                j = j + 1;
            }
            k = k + 1;
            proof {
                assert(lists@.take(k as int).drop_last() =~= lists@.take(k as int - 1));
                assert(self.vertices@ =~= staged_vertices(lists@.take(k as int)));
                assert(self.indices@ =~= staged_indices(lists@.take(k as int)));
            }
        }
        proof {
            assert(lists@.take(lists@.len() as int) =~= lists@);
        }
        if self.vertices.len() > self.vertex_capacity {
            self.vertex_capacity = grown_capacity(self.vertex_capacity, self.vertices.len());
        }
        if self.indices.len() > self.index_capacity {
            self.index_capacity = grown_capacity(self.index_capacity, self.indices.len());
        }
    }
}

/// The new capacity for a buffer of `current` records that must now hold
/// `needed`: at least `needed`, at least double the current capacity where a
/// double is representable, and never smaller than before.
pub fn grown_capacity(current: usize, needed: usize) -> (grown: usize)
    ensures
        grown >= needed,
        grown >= current,
        current * 2 <= usize::MAX ==> grown >= current * 2,
{
    let doubled: usize = if current <= usize::MAX / 2 {
        current * 2
    } else {
        usize::MAX
    };
    if doubled >= needed {
        doubled
    } else {
        needed
    }
}

} // verus!
