use vstd::prelude::*;

verus! {

/// The colors of the voxel materials, as the bytes of four floats per material
pub struct VoxelPalette {
    pub colors: Vec<u8>,
}

} // verus!
