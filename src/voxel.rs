//! Kinds of voxels for the voxel world.
use vstd::prelude::*;

verus! {

/// Types of voxels for the voxel world.
#[derive(Clone, Copy, Debug, PartialEq, Eq, Structural)]
pub enum Voxel {
    Grass,
    Dirt,
    Stone,
}

} // verus!
