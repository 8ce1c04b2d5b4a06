use voxel_march::game::region::{Region, RegionLocation, Voxel, REGION_VOLUME};
use voxel_march::game::world::VoxelWorld;
use voxel_march::game::world_gen::{TreeSpot, WorldGenerator};

fn index(x: usize, y: usize, z: usize) -> usize {
    x + y * 32 + z * 1024
}

#[test]
fn flat_terrain_layers() {
    let voxels = WorldGenerator.place_voxels(&Vec::new());
    assert_eq!(voxels.len(), REGION_VOLUME);
    assert_eq!(voxels[index(0, 0, 0)], Voxel(1));
    assert_eq!(voxels[index(20, 13, 20)], Voxel(1));
    assert_eq!(voxels[index(5, 14, 5)], Voxel(4));
    assert_eq!(voxels[index(2, 14, 12)], Voxel(4));
    assert_eq!(voxels[index(13, 14, 5)], Voxel(1));
    assert_eq!(voxels[index(0, 15, 0)], Voxel(2));
    assert_eq!(voxels[index(20, 15, 31)], Voxel(2));
    assert_eq!(voxels[index(5, 15, 5)], Voxel(0));
    assert_eq!(voxels[index(5, 16, 5)], Voxel(0));
    assert_eq!(voxels[index(31, 31, 31)], Voxel(0));
}

#[test]
fn trees_are_trunk_columns_from_sixteen() {
    let trees = vec![TreeSpot { x: 3, z: 5, height: 4 }];
    let voxels = WorldGenerator.place_voxels(&trees);
    for y in 16..20 {
        assert_eq!(voxels[index(3, y, 5)], Voxel(3));
    }
    assert_eq!(voxels[index(3, 20, 5)], Voxel(0));
    assert_eq!(voxels[index(4, 16, 5)], Voxel(0));
    assert_eq!(voxels[index(3, 15, 5)], Voxel(0));
    assert_eq!(voxels[index(3, 13, 5)], Voxel(1));
}

#[test]
fn grids_of_flat_terrain() {
    let voxels = WorldGenerator.place_voxels(&Vec::new());
    let grids = WorldGenerator.gen_grids(&voxels);
    assert_eq!(grids.grid16, 0x33);
    assert_eq!(grids.grid8, [0x00FF00FF, 0x00FF00FF]);
    for w in 0..16 {
        let expected = if w % 2 == 0 { 0xFFFF_FFFFu32 } else { 0 };
        assert_eq!(grids.grid4[w], expected);
    }
}

#[test]
fn grids_mark_a_tree_brick() {
    let trees = vec![TreeSpot { x: 20, z: 1, height: 11 }];
    let voxels = WorldGenerator.place_voxels(&trees);
    let grids = WorldGenerator.gen_grids(&voxels);
    // the trunk rises from y = 16 to y = 26 at x = 20, z = 1: brick (1, 1, 0) of edge 16
    assert_eq!(grids.grid16, 0x33 | (1 << 3));
}

#[test]
fn generated_region_is_consistent() {
    let data = WorldGenerator.gen_region(RegionLocation { x: 0, y: 0, z: 0, _pad: 0 });
    assert_eq!(data.voxels.len(), REGION_VOLUME);
    assert_eq!(data.voxels[0], Voxel(1));
    assert_eq!(data.voxels[index(7, 14, 7)], Voxel(4));
    let again = WorldGenerator.gen_grids(&data.voxels);
    assert_eq!(again.grid16, data.grids.grid16);
    assert_eq!(again.grid8, data.grids.grid8);
    assert_eq!(again.grid4, data.grids.grid4);
    assert_eq!(data.grids.grid16 & 0x33, 0x33);
    let trunks = data.voxels.iter().filter(|v| **v == Voxel(3)).count();
    assert!(trunks >= 4 && trunks <= 6 * 11);
}

#[test]
fn tree_draws_are_in_range() {
    for _ in 0..50 {
        let tree = WorldGenerator.draw_tree();
        assert!(tree.x < 32 && tree.z < 32);
        assert!(tree.height >= 4 && tree.height < 12);
    }
    assert_eq!(WorldGenerator.draw_trees().len(), 6);
}

#[test]
fn region_serialises_in_machine_order() {
    let data = WorldGenerator.gen_region(RegionLocation { x: 1, y: -1, z: 2, _pad: 0 });
    let region = Region::new(data, RegionLocation { x: 1, y: -1, z: 2, _pad: 0 });
    let loc = region.loc_bytes();
    let mut expected = Vec::new();
    for w in [1u32, (-1i32) as u32, 2, 0] {
        expected.extend_from_slice(&w.to_ne_bytes());
    }
    assert_eq!(loc, expected);
    let voxels = region.voxel_bytes();
    assert_eq!(voxels.len(), REGION_VOLUME * 4);
    assert_eq!(&voxels[0..4], &1u32.to_ne_bytes());
    let grids = region.grids();
    assert_eq!(grids.len(), 19 * 4);
    assert_eq!(&grids[72..76], &region.data.grids.grid16.to_ne_bytes());
    assert_eq!(region.grid16_bytes() as u32, region.data.grids.grid16 % 256);
}

#[test]
fn world_has_nine_by_nine_regions_and_pauses() {
    let mut world = VoxelWorld::new();
    let bytes = world.region_bytes();
    assert_eq!(bytes.voxels.len(), 81 * REGION_VOLUME * 4);
    assert_eq!(bytes.grids.len(), 81 * 19 * 4);
    assert!(world.update(false));
    assert!(world.toggle_pause());
    assert!(!world.update(false));
    assert!(world.update(true));
    assert!(!world.toggle_pause());
    assert!(world.update(false));
}
