//! The smallest unit of world data: a cell carrying a block material
//! identifier into the block registry.

use vstd::prelude::*;

verus! {

/// Backing representation of a block material identifier. A type alias so the
/// representation can be widened later without breaking call sites.
pub type BlockMaterialId = u8;

/// The reserved identifier of the empty voxel, used as the default and
/// uninitialized value.
pub const EMPTY_BLOCK_ID: BlockMaterialId = 0;

/// One cell of world data. Voxels are plain values: they are copied, compared
/// by value, and replaced rather than mutated.
#[derive(Copy, Clone, Hash, Debug, PartialEq, Eq, Structural)]
pub struct Voxel {
    /// The kind of block this is, mapped to the registered identifier of a
    /// block material.
    pub block_id: BlockMaterialId,
}

impl Voxel {
    /// Pure constructor: a voxel holding exactly the given identifier.
    pub fn from_block_id(block_id: BlockMaterialId) -> (v: Voxel)
        ensures
            v == (Voxel { block_id }),
    {
        Voxel { block_id }
    }

    /// The canonical empty voxel.
    pub fn empty() -> (v: Voxel)
        ensures
            v == (Voxel { block_id: EMPTY_BLOCK_ID }),
    {
        Voxel { block_id: EMPTY_BLOCK_ID }
    }
}

impl Default for Voxel {
    fn default() -> (v: Self)
        ensures
            v == (Voxel { block_id: EMPTY_BLOCK_ID }),
    {
        Voxel::empty()
    }
}

} // verus!
