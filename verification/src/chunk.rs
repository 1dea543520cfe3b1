//! A dense fixed-shape 3D buffer of voxels with linear-index addressing and
//! axis-aligned sub-region bulk fill.
//!
//! The shape is fixed at 16 x 256 x 16 cells. Storage order is row-major with
//! x varying fastest: `index = x + width * (y + height * z)`. The mapping is a
//! total bijection between valid coordinates and `[0, volume)`, consistent
//! between `voxel_at`, `fill_extent` and the inverse used during enumeration.

use vstd::prelude::*;
use crate::voxel::{EMPTY_BLOCK_ID, Voxel};

verus! {

/// Horizontal edge length of a chunk, in cells, along both x and z.
pub const CHUNK_LENGTH: u32 = 16;

/// Vertical extent of a chunk, in cells.
pub const CHUNK_HEIGHT: u32 = 256;

/// Number of cells in one chunk: `CHUNK_LENGTH * CHUNK_HEIGHT * CHUNK_LENGTH`.
pub const CHUNK_VOLUME: u32 = 65536;

/// An unsigned 3D coordinate or per-axis size.
#[derive(Copy, Clone, Debug, Hash, PartialEq, Eq, Structural)]
pub struct UVec3 {
    pub x: u32,
    pub y: u32,
    pub z: u32,
}

impl UVec3 {
    pub fn new(x: u32, y: u32, z: u32) -> (v: UVec3)
        ensures
            v == (UVec3 { x, y, z }),
    {
        UVec3 { x, y, z }
    }
}

/// An axis-aligned sub-region of a chunk: a minimum corner and a per-axis
/// size. The region need not cover the whole buffer; partial, offset
/// sub-regions are the primary use case.
#[derive(Copy, Clone, Debug, Hash, PartialEq, Eq, Structural)]
pub struct Extent {
    pub minimum: UVec3,
    pub shape: UVec3,
}

impl Extent {
    pub fn from_min_and_shape(minimum: UVec3, shape: UVec3) -> (e: Extent)
        ensures
            e == (Extent { minimum, shape }),
    {
        Extent { minimum, shape }
    }
}

/// Whether a coordinate lies inside the fixed chunk shape.
pub open spec fn valid_coord(p: UVec3) -> bool {
    p.x < CHUNK_LENGTH && p.y < CHUNK_HEIGHT && p.z < CHUNK_LENGTH
}

/// Whether an extent lies entirely inside the fixed chunk shape. An extent
/// that reaches outside the buffer is a precondition violation of
/// `fill_extent`, not a validated error.
pub open spec fn extent_in_bounds(e: Extent) -> bool {
    &&& e.minimum.x + e.shape.x <= CHUNK_LENGTH
    &&& e.minimum.y + e.shape.y <= CHUNK_HEIGHT
    &&& e.minimum.z + e.shape.z <= CHUNK_LENGTH
}

/// Whether a coordinate lies inside an extent.
pub open spec fn extent_contains(e: Extent, p: UVec3) -> bool {
    &&& e.minimum.x <= p.x < e.minimum.x + e.shape.x
    &&& e.minimum.y <= p.y < e.minimum.y + e.shape.y
    &&& e.minimum.z <= p.z < e.minimum.z + e.shape.z
}

/// The fixed linearization: row-major with x varying fastest.
pub open spec fn linearize_spec(p: UVec3) -> int {
    p.x + CHUNK_LENGTH * (p.y + CHUNK_HEIGHT * p.z)
}

/// The inverse mapping from a storage index back to a coordinate.
pub open spec fn delinearize_spec(i: int) -> UVec3 {
    UVec3 {
        x: (i % (CHUNK_LENGTH as int)) as u32,
        y: ((i / (CHUNK_LENGTH as int)) % (CHUNK_HEIGHT as int)) as u32,
        z: (i / ((CHUNK_LENGTH * CHUNK_HEIGHT) as int)) as u32,
    }
}

/// Chunk bijection, one direction: a valid coordinate maps into `[0,
/// CHUNK_VOLUME)` and is recovered exactly by the inverse mapping.
pub proof fn lemma_delinearize_linearize(p: UVec3)
    requires
        valid_coord(p),
    ensures
        0 <= linearize_spec(p) < CHUNK_VOLUME,
        delinearize_spec(linearize_spec(p)) == p,
{
    let xv = p.x;
    let yv = p.y;
    let zv = p.z;
    assert(xv < 16 && yv < 256 && zv < 16 ==> {
        &&& xv + 16 * (yv + 256 * zv) < 65536
        &&& (xv + 16 * (yv + 256 * zv)) % 16 == xv
        &&& ((xv + 16 * (yv + 256 * zv)) / 16) % 256 == yv
        &&& (xv + 16 * (yv + 256 * zv)) / 4096 == zv
    }) by (bit_vector);
}

/// Chunk bijection, the other direction: every storage index in `[0,
/// CHUNK_VOLUME)` comes from exactly the valid coordinate the inverse mapping
/// yields.
pub proof fn lemma_linearize_delinearize(i: int)
    requires
        0 <= i < CHUNK_VOLUME,
    ensures
        valid_coord(delinearize_spec(i)),
        linearize_spec(delinearize_spec(i)) == i,
{
    let iv = i as u32;
    assert(iv < 65536 ==> {
        &&& iv % 16 < 16
        &&& (iv / 16) % 256 < 256
        &&& iv / 4096 < 16
        &&& (iv % 16) + 16 * (((iv / 16) % 256) + 256 * (iv / 4096)) == iv
    }) by (bit_vector);
}

/// The fixed coordinate/index bijection for a chunk's volume.
#[derive(Copy, Clone, Debug, PartialEq, Eq, Structural)]
pub struct ChunkShape {}

impl ChunkShape {
    /// The number of cells addressed by this shape.
    pub fn size(&self) -> (n: u32)
        ensures
            n == CHUNK_VOLUME,
    {
        CHUNK_VOLUME
    }

    /// Maps a coordinate inside the shape to its storage index.
    pub fn linearize(&self, p: UVec3) -> (i: u32)
        requires
            valid_coord(p),
        ensures
            i == linearize_spec(p),
            i < CHUNK_VOLUME,
    {
        proof {
            lemma_delinearize_linearize(p);
        }
        p.x + CHUNK_LENGTH * (p.y + CHUNK_HEIGHT * p.z)
    }

    /// Maps a storage index back to the coordinate it stores.
    pub fn delinearize(&self, i: u32) -> (p: UVec3)
        requires
            i < CHUNK_VOLUME,
        ensures
            p == delinearize_spec(i as int),
            valid_coord(p),
    {
        proof {
            lemma_linearize_delinearize(i as int);
        }
        UVec3 {
            x: i % CHUNK_LENGTH,
            y: (i / CHUNK_LENGTH) % CHUNK_HEIGHT,
            z: i / (CHUNK_LENGTH * CHUNK_HEIGHT),
        }
    }
}

/// The coordinates already overwritten by `fill_extent`'s loops when they
/// stand at position `(x, y, z)`: everything strictly earlier in the z-major,
/// then y, then x traversal order.
spec fn filled_before(q: UVec3, z: u32, y: u32, x: u32) -> bool {
    q.z < z || (q.z == z && (q.y < y || (q.y == y && q.x < x)))
}

/// One chunk's worth of world data: a dense array holding exactly one voxel
/// per coordinate of the fixed shape, plus the shape descriptor that maps
/// coordinates to storage indices.
#[derive(Clone)]
pub struct ChunkBuffer {
    data: Vec<Voxel>,
    shape: ChunkShape,
}

impl View for ChunkBuffer {
    type V = Seq<Voxel>;

    closed spec fn view(&self) -> Seq<Voxel> {
        self.data@
    }
}

impl ChunkBuffer {
    /// The buffer's storage length always equals the shape's volume.
    pub open spec fn wf(&self) -> bool {
        self@.len() == CHUNK_VOLUME
    }

    /// Allocates a chunk with every cell set to the given initial voxel.
    pub fn new(initial: Voxel) -> (c: ChunkBuffer)
        ensures
            c.wf(),
            forall|i: int| 0 <= i < CHUNK_VOLUME ==> c@[i] == initial,
    {
        let mut data: Vec<Voxel> = Vec::new();
        let mut n: usize = 0;
        while n < CHUNK_VOLUME as usize
            invariant
                n == data@.len(),
                n <= CHUNK_VOLUME,
                forall|i: int| 0 <= i < n ==> data@[i] == initial,
            decreases CHUNK_VOLUME - n,
        {
            data.push(initial);
            n += 1;
        }
        ChunkBuffer { data, shape: ChunkShape {} }
    }

    /// Shorthand for a chunk filled with the empty voxel.
    pub fn new_empty() -> (c: ChunkBuffer)
        ensures
            c.wf(),
            forall|i: int| 0 <= i < CHUNK_VOLUME ==> c@[i] == (Voxel { block_id: EMPTY_BLOCK_ID }),
    {
        ChunkBuffer::new(Voxel::empty())
    }

    /// O(1) lookup of the voxel at a coordinate. Out-of-range coordinates are
    /// a precondition violation: the mapping is defined only over the fixed
    /// extent.
    pub fn voxel_at(&self, pos: UVec3) -> (v: &Voxel)
        requires
            self.wf(),
            valid_coord(pos),
        ensures
            *v == self@[linearize_spec(pos)],
    {
        let i = self.shape.linearize(pos);
        &self.data[i as usize]
    }

    /// A read-only view of all cells in storage order, for consumers that
    /// enumerate every cell together with its delinearized coordinate.
    pub fn slice(&self) -> (s: &[Voxel])
        ensures
            s@ == self@,
    {
        self.data.as_slice()
    }

    /// The coordinate/index bijection backing this buffer, for external
    /// enumeration code.
    pub fn shape(&self) -> (s: &ChunkShape)
        ensures
            *s == (ChunkShape {}),
    {
        &self.shape
    }

    /// Overwrites every cell of an axis-aligned sub-region with the given
    /// voxel, leaving every cell outside the region untouched. The region may
    /// be any sub-box of the buffer; it is not required to cover it.
    #[verifier::loop_isolation(false)]
    pub fn fill_extent(&mut self, extent: Extent, val: Voxel)
        requires
            old(self).wf(),
            extent_in_bounds(extent),
        ensures
            final(self).wf(),
            forall|i: int|
                0 <= i < CHUNK_VOLUME ==> final(self)@[i] == (if extent_contains(
                    extent,
                    delinearize_spec(i),
                ) {
                    val
                } else {
                    old(self)@[i]
                }),
            forall|p: UVec3|
                valid_coord(p) && extent_contains(extent, p) ==> #[trigger] final(self)@[linearize_spec(
                    p,
                )] == val,
            forall|p: UVec3|
                valid_coord(p) && !extent_contains(extent, p) ==> #[trigger] final(self)@[linearize_spec(
                    p,
                )] == old(self)@[linearize_spec(p)],
    {
        let mut z = extent.minimum.z;
        while z < extent.minimum.z + extent.shape.z
            invariant
                extent.minimum.z <= z <= extent.minimum.z + extent.shape.z,
                self@.len() == CHUNK_VOLUME,
                forall|i: int|
                    0 <= i < CHUNK_VOLUME ==> self@[i] == (if extent_contains(
                        extent,
                        delinearize_spec(i),
                    ) && filled_before(delinearize_spec(i), z, extent.minimum.y, extent.minimum.x) {
                        val
                    } else {
                        old(self)@[i]
                    }),
            decreases extent.minimum.z + extent.shape.z - z,
        {
            let mut y = extent.minimum.y;
            while y < extent.minimum.y + extent.shape.y
                invariant
                    extent.minimum.y <= y <= extent.minimum.y + extent.shape.y,
                    extent.minimum.z <= z < extent.minimum.z + extent.shape.z,
                    self@.len() == CHUNK_VOLUME,
                    forall|i: int|
                        0 <= i < CHUNK_VOLUME ==> self@[i] == (if extent_contains(
                            extent,
                            delinearize_spec(i),
                        ) && filled_before(delinearize_spec(i), z, y, extent.minimum.x) {
                            val
                        } else {
                            old(self)@[i]
                        }),
                decreases extent.minimum.y + extent.shape.y - y,
            {
                let mut x = extent.minimum.x;
                while x < extent.minimum.x + extent.shape.x
                    invariant
                        extent.minimum.x <= x <= extent.minimum.x + extent.shape.x,
                        extent.minimum.y <= y < extent.minimum.y + extent.shape.y,
                        extent.minimum.z <= z < extent.minimum.z + extent.shape.z,
                        self@.len() == CHUNK_VOLUME,
                        forall|i: int|
                            0 <= i < CHUNK_VOLUME ==> self@[i] == (if extent_contains(
                                extent,
                                delinearize_spec(i),
                            ) && filled_before(delinearize_spec(i), z, y, x) {
                                val
                            } else {
                                old(self)@[i]
                            }),
                    decreases extent.minimum.x + extent.shape.x - x,
                {
                    let p = UVec3 { x, y, z };
                    let idx = self.shape.linearize(p);
                    self.data[idx as usize] = val;
                    proof {
                        lemma_delinearize_linearize(p);
                        assert forall|i: int| 0 <= i < CHUNK_VOLUME implies self@[i] == (
                        if extent_contains(extent, delinearize_spec(i)) && filled_before(
                            delinearize_spec(i),
                            z,
                            y,
                            (x + 1) as u32,
                        ) {
                            val
                        } else {
                            old(self)@[i]
                        }) by {
                            lemma_linearize_delinearize(i);
                        }
                    }
                    x += 1;
                }
                y += 1;
            }
            z += 1;
        }
        proof {
            assert forall|p: UVec3| valid_coord(p) implies 0 <= linearize_spec(p) < CHUNK_VOLUME
                && delinearize_spec(linearize_spec(p)) == p by {
                lemma_delinearize_linearize(p);
            }
        }
    }

    /// Every cell that holds a non-empty voxel, paired with its coordinate,
    /// in storage order. This is the enumeration consumers perform over
    /// `slice` with the shape's inverse mapping, with empty cells skipped.
    pub fn occupied_cells(&self) -> (out: Vec<(UVec3, Voxel)>)
        requires
            self.wf(),
        ensures
            forall|k: int|
                0 <= k < out@.len() ==> valid_coord(#[trigger] out@[k].0) && out@[k].1
                    == self@[linearize_spec(out@[k].0)] && out@[k].1.block_id != EMPTY_BLOCK_ID,
            forall|i: int|
                0 <= i < CHUNK_VOLUME && (#[trigger] self@[i]).block_id != EMPTY_BLOCK_ID
                    ==> exists|k: int|
                    0 <= k < out@.len() && out@[k] == (delinearize_spec(i), self@[i]),
            forall|k1: int, k2: int|
                0 <= k1 < k2 < out@.len() ==> linearize_spec(out@[k1].0) < linearize_spec(
                    out@[k2].0,
                ),
    {
        let mut out: Vec<(UVec3, Voxel)> = Vec::new();
        let mut i: usize = 0;
        while i < CHUNK_VOLUME as usize
            invariant
                i <= CHUNK_VOLUME,
                self.wf(),
                forall|k: int|
                    0 <= k < out@.len() ==> valid_coord(#[trigger] out@[k].0) && out@[k].1
                        == self@[linearize_spec(out@[k].0)] && out@[k].1.block_id
                        != EMPTY_BLOCK_ID,
                forall|k: int| 0 <= k < out@.len() ==> linearize_spec(#[trigger] out@[k].0) < i,
                forall|ii: int|
                    0 <= ii < i && (#[trigger] self@[ii]).block_id != EMPTY_BLOCK_ID
                        ==> exists|k: int|
                        0 <= k < out@.len() && out@[k] == (delinearize_spec(ii), self@[ii]),
                forall|k1: int, k2: int|
                    0 <= k1 < k2 < out@.len() ==> linearize_spec(out@[k1].0) < linearize_spec(
                        out@[k2].0,
                    ),
            decreases CHUNK_VOLUME - i,
        {
            let v = self.data[i];
            if v.block_id != EMPTY_BLOCK_ID {
                let p = self.shape.delinearize(i as u32);
                let ghost out0 = out@;
                out.push((p, v));
                proof {
                    lemma_linearize_delinearize(i as int);
                    assert(out@[out@.len() - 1] == (delinearize_spec(i as int), self@[i as int]));
                    assert forall|ii: int|
                        0 <= ii < i + 1 && (#[trigger] self@[ii]).block_id != EMPTY_BLOCK_ID
                            implies exists|k: int|
                        0 <= k < out@.len() && out@[k] == (delinearize_spec(ii), self@[ii]) by {
                        if ii < i {
                            let k0 = choose|k: int|
                                0 <= k < out0.len() && out0[k] == (
                                delinearize_spec(ii),
                                self@[ii],
                                );
                            assert(out@[k0] == (delinearize_spec(ii), self@[ii]));
                        } else {
                            assert(out@[out@.len() - 1] == (delinearize_spec(ii), self@[ii]));
                        }
                    }
                }
            }
            i += 1;
        }
        out
    }
}

} // verus!
