//! The block content definitions: the metadata bound to each block material
//! identifier, and the producer that declares the built-in blocks.
//!
//! Producers run during loading. They hand their resource handles (opaque
//! identifiers supplied by the host's asset-loading collaborator) to the
//! tracker, and emit registration events instead of touching the registry
//! directly, since their material resources may still be loading.

use vstd::prelude::*;
use crate::asset_tracker::AssetTracker;
use crate::registry::{RegisterEvent, Registry};
use crate::voxel::BlockMaterialId;

verus! {

/// The registry binding block material identifiers to block metadata.
pub type BlockRegistry = Registry<BlockRegistryInfo>;

/// Descriptive metadata for one block material: a human-readable name and the
/// handle of the material resource the renderer draws it with.
#[derive(Clone, Debug)]
pub struct BlockRegistryInfo {
    pub name: &'static str,
    pub material_handle: u64,
}

/// The identifier the stone block is registered under.
pub const STONE_BLOCK_ID: BlockMaterialId = 1;

/// The identifier the dirt block is registered under.
pub const DIRT_BLOCK_ID: BlockMaterialId = 2;

/// Declares the built-in blocks: tracks the two texture handles the blocks
/// depend on, and emits one registration event per block, binding identifier
/// `1` to stone and `2` to dirt with their material handles. The host
/// supplies the handles (textures it began loading, materials it created) and
/// sends the returned events through the registration channel.
pub fn register_blocks(
    tracker: &mut AssetTracker,
    stone_texture: u64,
    dirt_texture: u64,
    stone_material: u64,
    dirt_material: u64,
) -> (events: Vec<RegisterEvent<BlockRegistryInfo>>)
    requires
        old(tracker).wf(),
    ensures
        final(tracker).wf(),
        final(tracker)@ == old(tracker)@.insert(stone_texture).insert(dirt_texture),
        events@.len() == 2,
        events@[0].key == STONE_BLOCK_ID as u64,
        events@[0].val.name@ == "stone"@,
        events@[0].val.material_handle == stone_material,
        events@[1].key == DIRT_BLOCK_ID as u64,
        events@[1].val.name@ == "dirt"@,
        events@[1].val.material_handle == dirt_material,
{
    let mut events: Vec<RegisterEvent<BlockRegistryInfo>> = Vec::new();

    tracker.track(stone_texture);
    events.push(
        RegisterEvent {
            key: STONE_BLOCK_ID as u64,
            val: BlockRegistryInfo { name: "stone", material_handle: stone_material },
        },
    );

    tracker.track(dirt_texture);
    events.push(
        RegisterEvent {
            key: DIRT_BLOCK_ID as u64,
            val: BlockRegistryInfo { name: "dirt", material_handle: dirt_material },
        },
    );

    events
}

} // verus!
