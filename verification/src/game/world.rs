use vstd::prelude::*;

use crate::encoding::{words_as_bytes, words_in_some_order};
use crate::game::region::{
    REGION_VOLUME, Region, RegionLocation, collect_grid_words, collect_voxel_words, grid_words, voxel_words,
};
use crate::game::world_gen::{WorldGenerator, region_data_generated};

verus! {

/// The serialized voxel and grid data of every region of a world
pub struct RegionBytes {
    pub voxels: Vec<u8>,
    pub grids: Vec<u8>,
}

/// The regions of the world and whether its simulation is paused
pub struct VoxelWorld {
    is_paused: bool,
    regions: Vec<Region>,
}

/// Number of regions along each horizontal axis of a new world
pub const WORLD_SPAN: usize = 9;

/// The location of the `i`-th region of a new world: regions are laid out x-major over
/// x, z in -4..=4, at height 0
pub open spec fn initial_location(i: int) -> RegionLocation {
    RegionLocation { x: (i / 9 - 4) as i32, y: 0, z: (i % 9 - 4) as i32, _pad: 0 }
}

/// The voxel words of all regions, region after region
pub open spec fn all_voxel_words(regions: Seq<Region>) -> Seq<u32>
    decreases regions.len(),
{
    if regions.len() == 0 {
        Seq::empty()
    } else {
        all_voxel_words(regions.drop_last()) + voxel_words(regions.last().data.voxels@)
    }
}

/// The grid words of all regions, region after region
pub open spec fn all_grid_words(regions: Seq<Region>) -> Seq<u32>
    decreases regions.len(),
{
    if regions.len() == 0 {
        Seq::empty()
    } else {
        all_grid_words(regions.drop_last()) + grid_words(regions.last().data.grids)
    }
}

/// Each region adds its voxels' words and its 19 grid words
proof fn lemma_words_len(regions: Seq<Region>)
    requires
        forall|i: int| 0 <= i < regions.len() ==> (#[trigger] regions[i]).data.voxels@.len() == REGION_VOLUME,
    ensures
        all_voxel_words(regions).len() == regions.len() * REGION_VOLUME,
        all_grid_words(regions).len() == regions.len() * 19,
    decreases regions.len(),
{
    if regions.len() > 0 {
        let rest = regions.drop_last();
        assert forall|i: int| 0 <= i < rest.len() implies (#[trigger] rest[i]).data.voxels@.len() == REGION_VOLUME by {
            assert(rest[i] == regions[i]);
        }
        lemma_words_len(rest);
        assert(regions.last() == regions[regions.len() - 1]);
    }
}

proof fn lemma_grid_position(a: int, b: int)
    requires
        0 <= a < 9,
        0 <= b < 9,
    ensures
        (a * 9 + b) / 9 == a,
        (a * 9 + b) % 9 == b,
{
    assert((a * 9 + b) / 9 == a) by (nonlinear_arith)
        requires
            0 <= a < 9,
            0 <= b < 9,
    ;
    assert((a * 9 + b) % 9 == b) by (nonlinear_arith)
        requires
            0 <= a < 9,
            0 <= b < 9,
    ;
}

impl VoxelWorld {
    /// A world always holds 9 x 9 regions, each as the generator made it
    #[verifier::type_invariant]
    spec fn regions_generated(&self) -> bool {
        &&& self.regions@.len() == WORLD_SPAN * WORLD_SPAN
        &&& forall|i: int| 0 <= i < self.regions@.len() ==> region_data_generated(#[trigger] self.regions@[i].data)
    }

    /// Whether the simulation is paused
    pub closed spec fn paused(&self) -> bool {
        self.is_paused
    }

    /// The regions of the world
    pub closed spec fn region_seq(&self) -> Seq<Region> {
        self.regions@
    }

    /// A world as generated: unpaused, 9 x 9 regions around the origin, each generated
    pub open spec fn is_fresh(&self) -> bool {
        &&& !self.paused()
        &&& self.region_seq().len() == WORLD_SPAN * WORLD_SPAN
        &&& forall|i: int|
            0 <= i < self.region_seq().len() ==> (#[trigger] self.region_seq()[i]).location == initial_location(i)
                && region_data_generated(self.region_seq()[i].data)
    }

    /// Generate a world of 9 x 9 regions around the origin, unpaused.
    pub fn new() -> (world: Self)
        ensures
            world.is_fresh(),
            !world.paused(),
            world.region_seq().len() == WORLD_SPAN * WORLD_SPAN,
            forall|i: int|
                0 <= i < world.region_seq().len() ==> (#[trigger] world.region_seq()[i]).location
                    == initial_location(i) && region_data_generated(world.region_seq()[i].data),
    {
        let world_gen = WorldGenerator;
        let mut regions: Vec<Region> = Vec::new();
        let mut x: i32 = -4;
        while x <= 4
            invariant
                -4 <= x <= 5,
                regions@.len() == (x + 4) * 9,
                forall|i: int|
                    0 <= i < regions@.len() ==> (#[trigger] regions@[i]).location == initial_location(i)
                        && region_data_generated(regions@[i].data),
            decreases 5 - x,
        {
            let mut z: i32 = -4;
            while z <= 4
                invariant
                    -4 <= x <= 4,
                    -4 <= z <= 5,
                    regions@.len() == (x + 4) * 9 + (z + 4),
                    forall|i: int|
                        0 <= i < regions@.len() ==> (#[trigger] regions@[i]).location
                            == initial_location(i) && region_data_generated(regions@[i].data),
                decreases 5 - z,
            {
                let location = RegionLocation { x: x, y: 0, z: z, _pad: 0 };
                let region_data = world_gen.gen_region(location);
                proof {
                    lemma_grid_position(x + 4, z + 4);
                }
                regions.push(Region::new(region_data, location));
                z += 1;
            }
            x += 1;
        }
        Self { is_paused: false, regions }
    }

    /// Flip the pause state of the simulation, returning whether it is now paused.
    pub fn toggle_pause(&mut self) -> (paused: bool)
        ensures
            final(self).paused() == !old(self).paused(),
            paused == final(self).paused(),
            final(self).region_seq() == old(self).region_seq(),
    {
        proof {
            use_type_invariant(&*self);
        }
        self.is_paused = !self.is_paused;
        self.is_paused
    }

    /// Advance the simulation by one frame; returns whether it advanced, which it does unless it
    /// is paused and this is not a single step.
    pub fn update(&mut self, is_step: bool) -> (advanced: bool)
        ensures
            advanced == (!old(self).paused() || is_step),
            *final(self) == *old(self),
    {
        !self.is_paused || is_step
    }

    /// Serialize the voxels and grids of every region, region after region: four bytes for
    /// each of the 32768 voxels and each of the 19 grid words of each of the 81 regions.
    pub fn region_bytes(&self) -> (bytes: RegionBytes)
        ensures
            words_in_some_order(all_voxel_words(self.region_seq()), bytes.voxels@),
            words_in_some_order(all_grid_words(self.region_seq()), bytes.grids@),
            bytes.voxels@.len() == 4 * WORLD_SPAN * WORLD_SPAN * REGION_VOLUME,
            bytes.grids@.len() == 4 * WORLD_SPAN * WORLD_SPAN * 19,
    {
        proof {
            use_type_invariant(self);
            assert forall|i: int| 0 <= i < self.regions@.len() implies (#[trigger] self.regions@[i]).data.voxels@.len()
                == REGION_VOLUME by {
                assert(region_data_generated(self.regions@[i].data));
            }
            lemma_words_len(self.regions@);
        }
        let mut vox_words: Vec<u32> = Vec::new();
        let mut grid_word_list: Vec<u32> = Vec::new();
        let mut k: usize = 0;
        while k < self.regions.len()
            invariant
                k <= self.regions@.len(),
                vox_words@ == all_voxel_words(self.regions@.take(k as int)),
                grid_word_list@ == all_grid_words(self.regions@.take(k as int)),
            decreases self.regions@.len() - k,
        {
            let region = &self.regions[k];
            collect_voxel_words(&region.data.voxels, &mut vox_words);
            collect_grid_words(&region.data.grids, &mut grid_word_list);
            assert(self.regions@.take(k + 1).drop_last() =~= self.regions@.take(k as int));
            k += 1;
        }
        assert(self.regions@.take(self.regions@.len() as int) =~= self.regions@);
        RegionBytes {
            voxels: words_as_bytes(vox_words.as_slice()),
            grids: words_as_bytes(grid_word_list.as_slice()),
        }
    }
}

} // verus!
