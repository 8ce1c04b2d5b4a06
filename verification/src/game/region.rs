use vstd::prelude::*;

use crate::encoding::{words_as_bytes, words_in_some_order};
use crate::game::world_gen::{RegionData, RegionGrids};

verus! {

/// The number of blocks/voxels that make up a region's length
pub const REGION_SIZE: usize = 32;

/// The total number of voxels in a region
pub const REGION_VOLUME: usize = REGION_SIZE * REGION_SIZE * REGION_SIZE;

/// The max number of regions on any given side of the player that can be rendered by the game
pub const RENDER_DISTANCE: usize = 5;

/// A single block in the game world. Each voxel only holds an index into a global palette.
#[derive(Clone, Copy, Debug, PartialEq, Eq, Structural)]
pub struct Voxel(pub u32);

/// The position of a region in region units.
#[derive(Clone, Copy, Debug, PartialEq, Eq, Structural)]
pub struct RegionLocation {
    pub x: i32,
    pub y: i32,
    pub z: i32,
    pub _pad: i32,
}

/// x coordinate of the voxel stored at index `i` of a region
pub open spec fn coord_x(i: int) -> int {
    i % 32
}

/// y coordinate of the voxel stored at index `i` of a region
pub open spec fn coord_y(i: int) -> int {
    (i / 32) % 32
}

/// z coordinate of the voxel stored at index `i` of a region
pub open spec fn coord_z(i: int) -> int {
    i / 1024
}

/// index at which the voxel at (x, y, z) is stored in a region
pub open spec fn voxel_index(x: int, y: int, z: int) -> int {
    x + y * 32 + z * 1024
}

/// Decomposing a voxel index gives back its coordinates.
pub proof fn lemma_index_coords(x: int, y: int, z: int)
    requires
        0 <= x < 32,
        0 <= y < 32,
        0 <= z < 32,
    ensures
        coord_x(voxel_index(x, y, z)) == x,
        coord_y(voxel_index(x, y, z)) == y,
        coord_z(voxel_index(x, y, z)) == z,
        0 <= voxel_index(x, y, z) < REGION_VOLUME,
{
    assert((x + y * 32 + z * 1024) % 32 == x) by (nonlinear_arith)
        requires 0 <= x < 32, 0 <= y < 32, 0 <= z < 32;
    assert((x + y * 32 + z * 1024) / 32 == y + z * 32) by (nonlinear_arith)
        requires 0 <= x < 32, 0 <= y < 32, 0 <= z < 32;
    assert((y + z * 32) % 32 == y) by (nonlinear_arith)
        requires 0 <= y < 32, 0 <= z < 32;
    assert((x + y * 32 + z * 1024) / 1024 == z) by (nonlinear_arith)
        requires 0 <= x < 32, 0 <= y < 32, 0 <= z < 32;
}

/// A region of the world: its generated contents and its position
pub struct Region {
    pub data: RegionData,
    pub location: RegionLocation,
}

/// The palette indices of the voxels, in storage order
pub open spec fn voxel_words(voxels: Seq<Voxel>) -> Seq<u32> {
    voxels.map_values(|v: Voxel| v.0)
}

/// The words of the grids in memory order: the 16 words of `grid4`, the 2 words of `grid8`, then
/// `grid16`
pub open spec fn grid_words(grids: RegionGrids) -> Seq<u32> {
    grids.grid4@ + grids.grid8@ + seq![grids.grid16]
}

/// The words of a location in memory order, each coordinate taken by its bit pattern
pub open spec fn location_words(loc: RegionLocation) -> Seq<u32> {
    seq![loc.x as u32, loc.y as u32, loc.z as u32, loc._pad as u32]
}

/// Collect the palette indices of voxels into a vector of words.
pub fn collect_voxel_words(voxels: &Vec<Voxel>, words: &mut Vec<u32>)
    ensures
        final(words)@ == old(words)@ + voxel_words(voxels@),
{
    let ghost start = words@;
    let mut j: usize = 0;
    while j < voxels.len()
        invariant
            j <= voxels@.len(),
            words@ == start + voxel_words(voxels@.take(j as int)),
        decreases voxels@.len() - j,
    {
        words.push(voxels[j].0);
        assert(voxel_words(voxels@.take(j + 1)) =~= voxel_words(voxels@.take(j as int)).push(voxels@[j as int].0));
        j += 1;
    }
    assert(voxels@.take(voxels@.len() as int) =~= voxels@);
}

/// Append the words of the grids to a vector of words.
pub fn collect_grid_words(grids: &RegionGrids, words: &mut Vec<u32>)
    ensures
        final(words)@ == old(words)@ + grid_words(*grids),
{
    let ghost start = words@;
    let mut j: usize = 0;
    while j < 16
        invariant
            j <= 16,
            words@ == start + grids.grid4@.take(j as int),
        decreases 16 - j,
    {
        words.push(grids.grid4[j]);
        assert(grids.grid4@.take(j + 1) =~= grids.grid4@.take(j as int).push(grids.grid4@[j as int]));
        j += 1;
    }
    words.push(grids.grid8[0]);
    words.push(grids.grid8[1]);
    words.push(grids.grid16);
    assert(grids.grid4@.take(16) =~= grids.grid4@);
    assert(words@ =~= start + grid_words(*grids));
}

impl Region {
    pub fn new(data: RegionData, location: RegionLocation) -> (region: Self)
        ensures
            region.data == data,
            region.location == location,
    {
        Self { data, location }
    }

    /// Serialize the region's voxel data into a vec of bytes
    pub fn voxel_bytes(&self) -> (bytes: Vec<u8>)
        ensures
            words_in_some_order(voxel_words(self.data.voxels@), bytes@),
    {
        let mut words: Vec<u32> = Vec::new();
        collect_voxel_words(&self.data.voxels, &mut words);
        assert(words@ =~= voxel_words(self.data.voxels@));
        words_as_bytes(words.as_slice())
    }

    /// Serialize the region's occupancy grids into a vec of bytes
    pub fn grids(&self) -> (bytes: Vec<u8>)
        ensures
            words_in_some_order(grid_words(self.data.grids), bytes@),
    {
        let mut words: Vec<u32> = Vec::new();
        collect_grid_words(&self.data.grids, &mut words);
        assert(words@ =~= grid_words(self.data.grids));
        words_as_bytes(words.as_slice())
    }

    /// The 16x16x16 brick occupancy mask, one bit per brick
    pub fn grid16_bytes(&self) -> (mask: u8)
        ensures
            mask as int == self.data.grids.grid16 % 256,
    {
        (self.data.grids.grid16 % 256) as u8
    }

    /// Serialize the region's location into a vec of bytes
    pub fn loc_bytes(&self) -> (bytes: Vec<u8>)
        ensures
            words_in_some_order(location_words(self.location), bytes@),
    {
        let loc = self.location;
        let words: Vec<u32> = vec![loc.x as u32, loc.y as u32, loc.z as u32, loc._pad as u32];
        assert(words@ =~= location_words(loc));
        words_as_bytes(words.as_slice())
    }
}

} // verus!
