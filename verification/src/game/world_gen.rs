use vstd::prelude::*;

use crate::game::region::{
    REGION_SIZE, REGION_VOLUME, RegionLocation, Voxel, coord_x, coord_y, coord_z, voxel_index,
    lemma_index_coords,
};

verus! {

/// The generated contents of a region
pub struct RegionData {
    /// Raw voxel data, `REGION_VOLUME` voxels indexed by `x + 32 * y + 1024 * z`
    pub voxels: Vec<Voxel>,
    /// Brick occupancy bitmasks
    pub grids: RegionGrids,
}

/// Occupancy bitmasks of a region at three brick sizes.
///
/// Bit `c % 32` of word `c / 32` is set when brick `c` holds a voxel that is not air.
#[derive(Clone, Copy, Debug)]
pub struct RegionGrids {
    /// 4x4x4 voxel bricks, 512 per region
    pub grid4: [u32; 16],
    /// 8x8x8 voxel bricks, 64 per region
    pub grid8: [u32; 2],
    /// 16x16x16 bricks, 8 per region
    pub grid16: u32,
}

/// A tree trunk: a column of trunk voxels at (x, z) that rises `height` voxels from y = 16.
#[derive(Clone, Copy, Debug, PartialEq, Eq, Structural)]
pub struct TreeSpot {
    pub x: usize,
    pub z: usize,
    pub height: usize,
}

/// Generates the voxel contents of regions
pub struct WorldGenerator;

/// A tree that the generator can draw: inside the region, 4 to 11 voxels tall.
pub open spec fn tree_spot_valid(t: TreeSpot) -> bool {
    t.x < 32 && t.z < 32 && 4 <= t.height < 12
}

/// The voxel kind of the flat terrain at (x, y, z): stone below y = 14, a water pool at
/// y = 14 with grass around it at y = 15, and air above.
pub open spec fn terrain_voxel(x: int, y: int, z: int) -> u32 {
    if y == 14 && x <= 12 && z <= 12 && x >= 2 && z >= 2 {
        4
    } else if y == 15 && (x > 12 || z > 12 || x < 2 || z < 2) {
        2
    } else if y < 15 {
        1
    } else {
        0
    }
}

/// (x, y, z) lies in the trunk of tree `t`
pub open spec fn in_trunk(t: TreeSpot, x: int, y: int, z: int) -> bool {
    t.x == x && t.z == z && 16 <= y < 16 + t.height
}

/// (x, y, z) lies in the trunk of one of the trees
pub open spec fn in_some_trunk(trees: Seq<TreeSpot>, x: int, y: int, z: int) -> bool {
    exists|k: int| 0 <= k < trees.len() && #[trigger] in_trunk(trees[k], x, y, z)
}

/// The voxel kind at index `i` of a region planted with `trees`: trunk (3) inside a trunk,
/// the terrain elsewhere.
pub open spec fn generated_voxel(trees: Seq<TreeSpot>, i: int) -> u32 {
    if in_some_trunk(trees, coord_x(i), coord_y(i), coord_z(i)) {
        3
    } else {
        terrain_voxel(coord_x(i), coord_y(i), coord_z(i))
    }
}

/// `voxels` are the contents of a region planted with `trees`
pub open spec fn voxels_generated(trees: Seq<TreeSpot>, voxels: Seq<Voxel>) -> bool {
    &&& voxels.len() == REGION_VOLUME
    &&& forall|i: int| 0 <= i < REGION_VOLUME ==> (#[trigger] voxels[i]).0 == generated_voxel(trees, i)
}

/// `voxels` are the contents of a region planted with six trees that the generator can draw
pub open spec fn voxels_of_some_generation(voxels: Seq<Voxel>) -> bool {
    exists|trees: Seq<TreeSpot>|
        trees.len() == 6 && (forall|k: int| 0 <= k < trees.len() ==> tree_spot_valid(#[trigger] trees[k]))
            && #[trigger] voxels_generated(trees, voxels)
}


/// Index of the 16x16x16 brick (0..8) holding the voxel at index `i`
pub open spec fn cell16(i: int) -> int {
    coord_x(i) / 16 + (coord_y(i) / 16) * 2 + (coord_z(i) / 16) * 4
}

/// Index of the 8x8x8 brick (0..64) holding the voxel at index `i`
pub open spec fn cell8(i: int) -> int {
    coord_x(i) / 8 + (coord_y(i) / 8) * 4 + (coord_z(i) / 8) * 16
}

/// Index of the 4x4x4 brick (0..512) holding the voxel at index `i`
pub open spec fn cell4(i: int) -> int {
    coord_x(i) / 4 + (coord_y(i) / 4) * 8 + (coord_z(i) / 4) * 64
}

/// Index of the brick of edge `edge` (16, 8 or 4) holding the voxel at index `i`
pub open spec fn brick_of(edge: int, i: int) -> int {
    if edge == 16 {
        cell16(i)
    } else if edge == 8 {
        cell8(i)
    } else {
        cell4(i)
    }
}

/// Among the first `n` voxels, one that is not air lies in brick `c` of edge `edge`
pub open spec fn occupied_within(voxels: Seq<Voxel>, edge: int, c: int, n: int) -> bool {
    exists|i: int| 0 <= i < n && voxels[i].0 != 0 && #[trigger] brick_of(edge, i) == c
}

/// Bit `b` of `w` is set
pub open spec fn bit_set(w: u32, b: int) -> bool {
    (w >> (b as u32)) & 1u32 == 1u32
}

/// The bitmask words mark exactly the bricks `0..ncells` of edge `edge` occupied among the first
/// `n` voxels: bit `c % 32` of word `c / 32` for brick `c`
pub open spec fn words_mark_within(
    voxels: Seq<Voxel>,
    edge: int,
    ncells: int,
    words: Seq<u32>,
    n: int,
) -> bool {
    forall|c: int|
        0 <= c < ncells ==> bit_set(words[c / 32], c % 32) == #[trigger] occupied_within(
            voxels,
            edge,
            c,
            n,
        )
}

/// The grids mark exactly the bricks occupied among the first `n` voxels
pub open spec fn grids_mark_within(voxels: Seq<Voxel>, grids: RegionGrids, n: int) -> bool {
    &&& words_mark_within(voxels, 4, 512, grids.grid4@, n)
    &&& words_mark_within(voxels, 8, 64, grids.grid8@, n)
    &&& words_mark_within(voxels, 16, 8, seq![grids.grid16], n)
    &&& grids.grid16 < 256
}

/// The grids mark exactly the bricks of the region that hold a voxel that is not air
pub open spec fn grids_match(voxels: Seq<Voxel>, grids: RegionGrids) -> bool {
    grids_mark_within(voxels, grids, REGION_VOLUME as int)
}

/// Setting bit `b` of `w` sets that bit and keeps all others.
pub proof fn lemma_set_bit(w: u32, b: u32, c: u32)
    requires
        b < 32,
        c < 32,
    ensures
        bit_set(w | (1u32 << b), c as int) == (bit_set(w, c as int) || b == c),
{
    assert(((w | (1u32 << b)) >> c) & 1u32 == 1u32 <==> (((w >> c) & 1u32 == 1u32) || b == c))
        by (bit_vector)
        requires
            b < 32,
            c < 32,
    ;
}

/// No bit of zero is set.
pub proof fn lemma_zero_bits(c: u32)
    requires
        c < 32,
    ensures
        !bit_set(0u32, c as int),
{
    assert((0u32 >> c) & 1u32 == 0u32) by (bit_vector);
}

/// Setting one of the low eight bits keeps a byte-sized word byte-sized.
pub proof fn lemma_set_low_bit_bounded(w: u32, b: u32)
    requires
        w < 256,
        b < 8,
    ensures
        w | (1u32 << b) < 256,
{
    assert(w | (1u32 << b) < 256) by (bit_vector)
        requires
            w < 256,
            b < 8,
    ;
}

/// Looking at one more voxel adds its brick to the occupied ones when it is not air.
pub proof fn lemma_occupied_step(voxels: Seq<Voxel>, edge: int, c: int, n: int)
    requires
        0 <= n,
    ensures
        occupied_within(voxels, edge, c, n + 1) == (occupied_within(voxels, edge, c, n) || (
        voxels[n].0 != 0 && brick_of(edge, n) == c)),
{
    if occupied_within(voxels, edge, c, n) {
        let i = choose|i: int| 0 <= i < n && voxels[i].0 != 0 && #[trigger] brick_of(edge, i) == c;
        assert(0 <= i < n + 1 && voxels[i].0 != 0 && brick_of(edge, i) == c);
    }
    if voxels[n].0 != 0 && brick_of(edge, n) == c {
        assert(0 <= n < n + 1 && voxels[n].0 != 0 && brick_of(edge, n) == c);
    }
}

/// Marking the brick of a voxel that is not air keeps the words exact for one more voxel.
pub proof fn lemma_mark_step(
    voxels: Seq<Voxel>,
    edge: int,
    ncells: int,
    old_words: Seq<u32>,
    new_words: Seq<u32>,
    i: int,
    cell: int,
)
    requires
        0 <= i,
        words_mark_within(voxels, edge, ncells, old_words, i),
        voxels[i].0 != 0,
        cell == brick_of(edge, i),
        0 <= cell < ncells,
        ncells <= 32 * old_words.len(),
        new_words == old_words.update(
            cell / 32,
            old_words[cell / 32] | (1u32 << ((cell % 32) as u32)),
        ),
    ensures
        words_mark_within(voxels, edge, ncells, new_words, i + 1),
{
    assert forall|c: int| 0 <= c < ncells implies bit_set(new_words[c / 32], c % 32)
        == #[trigger] occupied_within(voxels, edge, c, i + 1) by {
        lemma_occupied_step(voxels, edge, c, i);
        assert(old_words.len() == new_words.len());
        if c / 32 == cell / 32 {
            lemma_set_bit(old_words[c / 32], (cell % 32) as u32, (c % 32) as u32);
        }
    }
}

/// A voxel of air leaves the words exact for one more voxel.
pub proof fn lemma_skip_step(voxels: Seq<Voxel>, edge: int, ncells: int, words: Seq<u32>, i: int)
    requires
        0 <= i,
        words_mark_within(voxels, edge, ncells, words, i),
        voxels[i].0 == 0,
    ensures
        words_mark_within(voxels, edge, ncells, words, i + 1),
{
    assert forall|c: int| 0 <= c < ncells implies bit_set(words[c / 32], c % 32)
        == #[trigger] occupied_within(voxels, edge, c, i + 1) by {
        lemma_occupied_step(voxels, edge, c, i);
    }
}

/// Zero words mark no brick, which is exact for no voxel at all.
pub proof fn lemma_zero_words(voxels: Seq<Voxel>, edge: int, ncells: int, words: Seq<u32>)
    requires
        ncells <= 32 * words.len(),
        forall|k: int| 0 <= k < words.len() ==> words[k] == 0,
    ensures
        words_mark_within(voxels, edge, ncells, words, 0),
{
    assert forall|c: int| 0 <= c < ncells implies bit_set(words[c / 32], c % 32)
        == #[trigger] occupied_within(voxels, edge, c, 0) by {
        lemma_zero_bits((c % 32) as u32);
    }
}

/// `data` is a region as the generator makes it: voxels from some draw of trees, and grids that
/// match them
pub open spec fn region_data_generated(data: RegionData) -> bool {
    voxels_of_some_generation(data.voxels@) && grids_match(data.voxels@, data.grids)
}

/// The terrain of a generated region, column by column: stone up to y = 13; at y = 14 water in
/// the pool (2 <= x, z <= 12) and stone around it; at y = 15 air over the pool and grass all
/// around it; above that, the trunk of a tree standing on the column, air elsewhere.
pub proof fn law_generated_terrain(trees: Seq<TreeSpot>, voxels: Seq<Voxel>, x: int, y: int, z: int)
    requires
        voxels_generated(trees, voxels),
        0 <= x < 32,
        0 <= y < 32,
        0 <= z < 32,
    ensures
        ({
            let v = voxels[x + y * 32 + z * 1024].0;
            let in_pool = 2 <= x <= 12 && 2 <= z <= 12;
            &&& y < 14 ==> v == 1
            &&& y == 14 && in_pool ==> v == 4
            &&& y == 14 && !in_pool ==> v == 1
            &&& y == 15 && in_pool ==> v == 0
            &&& y == 15 && !in_pool ==> v == 2
            &&& y > 15 ==> (v == 3 <==> exists|k: int|
                0 <= k < trees.len() && (#[trigger] trees[k]).x == x && trees[k].z == z && y < 16 + trees[k].height)
            &&& y > 15 ==> (v == 3 || v == 0)
        }),
{
    lemma_index_coords(x, y, z);
    let i = voxel_index(x, y, z);
    assert(voxels[i].0 == generated_voxel(trees, i));
    if y > 15 {
        if exists|k: int| 0 <= k < trees.len() && (#[trigger] trees[k]).x == x && trees[k].z == z && y < 16 + trees[k].height {
            let k = choose|k: int| 0 <= k < trees.len() && (#[trigger] trees[k]).x == x && trees[k].z == z && y < 16 + trees[k].height;
            assert(in_trunk(trees[k], x, y, z));
        }
    } else {
        assert(!in_some_trunk(trees, x, y, z));
    }
}

/// Index of the voxel at (x, y, z) decomposes back into (x, y, z), and every index of a region is
/// the index of its own coordinates.
pub proof fn lemma_coords_of_index(i: int)
    requires
        0 <= i < REGION_VOLUME,
    ensures
        0 <= coord_x(i) < 32,
        0 <= coord_y(i) < 32,
        0 <= coord_z(i) < 32,
        voxel_index(coord_x(i), coord_y(i), coord_z(i)) == i,
{
    assert(i == i % 32 + ((i / 32) % 32) * 32 + (i / 1024) * 1024) by (nonlinear_arith)
        requires 0 <= i < 32768;
    assert(i / 1024 < 32) by (nonlinear_arith)
        requires 0 <= i < 32768;
}

/// Draws a random number below `n`.
///
/// Calls `rand::random_range` on `0..n`; the contract only states that the result lies in
/// that range, since the number is drawn by chance.
#[verifier::external_body]
fn random_below(n: usize) -> (r: usize)
    requires
        n > 0,
    ensures
        r < n,
{
    rand::random_range(0..n)
}

/// The bricks of edge 16, 8 and 4 that hold the voxel at index `i`.
fn brick_indices(i: usize) -> (r: (usize, usize, usize))
    requires
        i < REGION_VOLUME,
    ensures
        r.0 == cell16(i as int) && r.0 < 8,
        r.1 == cell8(i as int) && r.1 < 64,
        r.2 == cell4(i as int) && r.2 < 512,
{
    let x = i % REGION_SIZE;
    let y = (i / REGION_SIZE) % REGION_SIZE;
    let z = i / (REGION_SIZE * REGION_SIZE);
    assert(z < 32) by (nonlinear_arith)
        requires
            z == i / 1024,
            i < 32768,
    ;
    let idx16 = (x / 16) + (y / 16) * 2 + (z / 16) * 4;
    let idx8 = (x / 8) + (y / 8) * 4 + (z / 8) * 16;
    let idx4 = (x / 4) + (y / 4) * 8 + (z / 4) * 64;
    (idx16, idx8, idx4)
}

/// Mark the bricks holding voxel `i`, which is not air.
fn mark_brick(grids: &mut RegionGrids, Ghost(voxels): Ghost<Seq<Voxel>>, i: usize)
    requires
        voxels.len() == REGION_VOLUME,
        i < REGION_VOLUME,
        voxels[i as int].0 != 0,
        grids_mark_within(voxels, *old(grids), i as int),
    ensures
        grids_mark_within(voxels, *final(grids), i + 1),
{
    let ghost old_grids = *grids;
    let (idx16, idx8, idx4) = brick_indices(i);
    proof {
        lemma_set_low_bit_bounded(grids.grid16, idx16 as u32);
    }
    grids.grid16 = grids.grid16 | (1u32 << (idx16 as u32));
    grids.grid8[idx8 / 32] = grids.grid8[idx8 / 32] | (1u32 << ((idx8 % 32) as u32));
    grids.grid4[idx4 / 32] = grids.grid4[idx4 / 32] | (1u32 << ((idx4 % 32) as u32));
    proof {
        lemma_mark_step(voxels, 4, 512, old_grids.grid4@, grids.grid4@, i as int, idx4 as int);
        lemma_mark_step(voxels, 8, 64, old_grids.grid8@, grids.grid8@, i as int, idx8 as int);
        assert(seq![grids.grid16] =~= seq![old_grids.grid16].update(
            0,
            old_grids.grid16 | (1u32 << (idx16 as u32)),
        ));
        lemma_mark_step(voxels, 16, 8, seq![old_grids.grid16], seq![grids.grid16], i as int, idx16 as int);
    }
}

impl WorldGenerator {
    /// Fill a region with the terrain and plant the given trees in it.
    pub fn place_voxels(&self, trees: &Vec<TreeSpot>) -> (voxels: Vec<Voxel>)
        requires
            forall|k: int| 0 <= k < trees@.len() ==> tree_spot_valid(#[trigger] trees@[k]),
        ensures
            voxels_generated(trees@, voxels@),
    {
        let mut voxels: Vec<Voxel> = Vec::with_capacity(REGION_VOLUME);
        let mut z: usize = 0;
        while z < REGION_SIZE
            invariant
                z <= 32,
                voxels@.len() == z * 1024,
                forall|i: int|
                    0 <= i < voxels@.len() ==> (#[trigger] voxels@[i]).0 == terrain_voxel(
                        coord_x(i),
                        coord_y(i),
                        coord_z(i),
                    ),
            decreases 32 - z,
        {
            let mut y: usize = 0;
            while y < REGION_SIZE
                invariant
                    z < 32,
                    y <= 32,
                    voxels@.len() == z * 1024 + y * 32,
                    forall|i: int|
                        0 <= i < voxels@.len() ==> (#[trigger] voxels@[i]).0 == terrain_voxel(
                            coord_x(i),
                            coord_y(i),
                            coord_z(i),
                        ),
                decreases 32 - y,
            {
                let mut x: usize = 0;
                while x < REGION_SIZE
                    invariant
                        z < 32,
                        y < 32,
                        x <= 32,
                        voxels@.len() == z * 1024 + y * 32 + x,
                        forall|i: int|
                            0 <= i < voxels@.len() ==> (#[trigger] voxels@[i]).0 == terrain_voxel(
                                coord_x(i),
                                coord_y(i),
                                coord_z(i),
                            ),
                    decreases 32 - x,
                {
                    proof {
                        lemma_index_coords(x as int, y as int, z as int);
                    }
                    let v: u32 = if y == 14 && x <= 12 && z <= 12 && x >= 2 && z >= 2 {
                        4
                    } else if y == 15 && (x > 12 || z > 12 || x < 2 || z < 2) {
                        2
                    } else if y < 15 {
                        1
                    } else {
                        0
                    };
                    voxels.push(Voxel(v));
                    x += 1;
                }
                y += 1;
            }
            z += 1;
        }
        assert(forall|i: int| 0 <= i < REGION_VOLUME ==> !in_some_trunk(trees@.take(0), coord_x(i), coord_y(i), coord_z(i)));

        let mut k: usize = 0;
        while k < trees.len()
            invariant
                k <= trees@.len(),
                forall|j: int| 0 <= j < trees@.len() ==> tree_spot_valid(#[trigger] trees@[j]),
                voxels@.len() == REGION_VOLUME,
                forall|i: int|
                    0 <= i < REGION_VOLUME ==> (#[trigger] voxels@[i]).0 == (if in_some_trunk(
                        trees@.take(k as int),
                        coord_x(i),
                        coord_y(i),
                        coord_z(i),
                    ) {
                        3
                    } else {
                        terrain_voxel(coord_x(i), coord_y(i), coord_z(i))
                    }),
            decreases trees@.len() - k,
        {
            let t = trees[k];
            let ghost prefix = trees@.take(k as int);
            let ghost next = trees@.take(k as int + 1);
            assert forall|x: int, y: int, z: int|
                in_some_trunk(next, x, y, z) == (in_some_trunk(prefix, x, y, z) || in_trunk(
                    t,
                    x,
                    y,
                    z,
                )) by {
                if in_some_trunk(next, x, y, z) {
                    let j = choose|j: int| 0 <= j < next.len() && #[trigger] in_trunk(next[j], x, y, z);
                    if j < k {
                        assert(in_trunk(prefix[j], x, y, z));
                    }
                }
                if in_some_trunk(prefix, x, y, z) {
                    let j = choose|j: int| 0 <= j < prefix.len() && #[trigger] in_trunk(prefix[j], x, y, z);
                    assert(in_trunk(next[j], x, y, z));
                }
                if in_trunk(t, x, y, z) {
                    assert(in_trunk(next[k as int], x, y, z));
                }
            }
            let mut y: usize = 16;
            while y < 16 + t.height
                invariant
                    tree_spot_valid(t),
                    16 <= y <= 16 + t.height,
                    voxels@.len() == REGION_VOLUME,
                    forall|i: int|
                        0 <= i < REGION_VOLUME ==> (#[trigger] voxels@[i]).0 == (if in_some_trunk(
                            prefix,
                            coord_x(i),
                            coord_y(i),
                            coord_z(i),
                        ) || (coord_x(i) == t.x && coord_z(i) == t.z && 16 <= coord_y(i) < y) {
                            3
                        } else {
                            terrain_voxel(coord_x(i), coord_y(i), coord_z(i))
                        }),
                decreases 16 + t.height - y,
            {
                proof {
                    lemma_index_coords(t.x as int, y as int, t.z as int);
                }
                let idx = t.x + y * REGION_SIZE + t.z * REGION_SIZE * REGION_SIZE;
                voxels.set(idx, Voxel(3));
                assert forall|i: int| 0 <= i < REGION_VOLUME && i != idx implies !(coord_x(i) == t.x && coord_z(i) == t.z && coord_y(i) == y) by {
                    lemma_coords_of_index(i);
                }
                y += 1;
            }
            k += 1;
        }
        assert(trees@.take(trees@.len() as int) =~= trees@);
        voxels
    }

    /// Compute the occupancy bitmasks of a region's voxels.
    pub fn gen_grids(&self, voxels: &Vec<Voxel>) -> (grids: RegionGrids)
        requires
            voxels@.len() == REGION_VOLUME,
        ensures
            grids_match(voxels@, grids),
    {
        let mut grids = RegionGrids { grid4: [0u32; 16], grid8: [0u32; 2], grid16: 0 };
        proof {
            lemma_zero_words(voxels@, 4, 512, grids.grid4@);
            lemma_zero_words(voxels@, 8, 64, grids.grid8@);
            lemma_zero_words(voxels@, 16, 8, seq![grids.grid16]);
        }
        let mut i: usize = 0;
        while i < REGION_VOLUME
            invariant
                i <= REGION_VOLUME,
                voxels@.len() == REGION_VOLUME,
                grids_mark_within(voxels@, grids, i as int),
            decreases REGION_VOLUME - i,
        {
            if voxels[i].0 != 0 {
                mark_brick(&mut grids, Ghost(voxels@), i);
            } else {
                proof {
                    lemma_skip_step(voxels@, 4, 512, grids.grid4@, i as int);
                    lemma_skip_step(voxels@, 8, 64, grids.grid8@, i as int);
                    lemma_skip_step(voxels@, 16, 8, seq![grids.grid16], i as int);
                }
            }
            i += 1;
        }
        grids
    }

    /// Draw one tree at random: a trunk position inside the region and a height of 4 to 11.
    pub fn draw_tree(&self) -> (tree: TreeSpot)
        ensures
            tree_spot_valid(tree),
    {
        let tx = random_below(REGION_SIZE);
        let tz = random_below(REGION_SIZE);
        let ty = random_below(8) + 4;
        TreeSpot { x: tx, z: tz, height: ty }
    }

    /// Draw the trees of a region at random: six trunks inside the region, 4 to 11 voxels tall.
    pub fn draw_trees(&self) -> (trees: Vec<TreeSpot>)
        ensures
            trees@.len() == 6,
            forall|k: int| 0 <= k < trees@.len() ==> tree_spot_valid(#[trigger] trees@[k]),
    {
        let mut trees: Vec<TreeSpot> = Vec::new();
        let num_trees: usize = 6;
        let mut n: usize = 0;
        while n < num_trees
            invariant
                n <= num_trees,
                num_trees == 6,
                trees@.len() == n,
                forall|k: int| 0 <= k < trees@.len() ==> tree_spot_valid(#[trigger] trees@[k]),
            decreases num_trees - n,
        {
            let tree = self.draw_tree();
            trees.push(tree);
            assert(trees@[n as int] == tree);
            n += 1;
        }
        trees
    }

    /// Generate the voxels of a region: the terrain, planted with six randomly drawn trees.
    fn gen_voxels(&self, _loc: RegionLocation) -> (voxels: Vec<Voxel>)
        ensures
            voxels_of_some_generation(voxels@),
    {
        let trees = self.draw_trees();
        let voxels = self.place_voxels(&trees);
        assert(voxels_generated(trees@, voxels@));
        voxels
    }

    /// Generate the contents of the region at `loc`: voxels planted with six random trees,
    /// and the occupancy grids of those voxels.
    pub fn gen_region(&self, loc: RegionLocation) -> (data: RegionData)
        ensures
            region_data_generated(data),
    {
        let voxels = self.gen_voxels(loc);
        let grids = self.gen_grids(&voxels);
        RegionData { voxels, grids }
    }
}

} // verus!
