//! A small world-data storage core for a block world: voxel cells carrying
//! material identifiers, a keyed registry with insert-once semantics, a
//! registration event channel, a resource-load gate, and a dense fixed-shape
//! chunk buffer with a coordinate/index bijection and bulk region fill.
//!
//! The host runtime (rendering, asset loading, input) is an external
//! collaborator: it calls into this core with plain values and reads the
//! results back out.

use vstd::prelude::*;

pub mod asset_tracker;
pub mod block;
pub mod chunk;
pub mod registry;
pub mod voxel;

verus! {

/// Process-wide readiness state. The process starts in `Loading` and moves to
/// `Running` once every tracked resource has finished loading; it never moves
/// back.
#[derive(Clone, Copy, Debug, Hash, PartialEq, Eq, Structural)]
pub enum GameState {
    Loading,
    Running,
}

impl Default for GameState {
    fn default() -> (s: Self)
        ensures
            s == GameState::Loading,
    {
        GameState::Loading
    }
}

} // verus!
