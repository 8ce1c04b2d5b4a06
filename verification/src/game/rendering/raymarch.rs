use vstd::prelude::*;

use crate::encoding::words_in_some_order;
use crate::game::rendering::blueprints::{
    buffer_layout, sampled_layout, sampled_texture_layout, sampler_layout, storage_format_layout, storage_texture_layout,
};
use crate::game::rendering::globals::GlobalIds;
use crate::game::world::{all_grid_words, all_voxel_words, VoxelWorld};
use crate::graphics::resources::bindgroup::{
    stage_bits, stage_flag, BindGroup, BindingTarget, BufferBinding, BufferBindingType, GroupEntry, SamplerBinding,
    ShaderStage, TextureBinding, TextureTypeSampled, TextureTypeStorage,
};
use crate::game::plan::{storage_buffer, storage_built, uniform_buffer, uniform_built, ResourceRequest};
use crate::game::palette::VoxelPalette;
use crate::graphics::resources::pipeline::{ComputeType, Pipeline};
use crate::graphics::resources::sampler::{sampler_desc, AddressMode, FilterMode, Linear, Sampler, SamplerDescriptor};
use crate::graphics::resources::texture::{
    texture_usage_bits, texture_usage_flag, Computed, OnDisk, TexDimensions, TexFormat, Texture, TextureDimension,
    TextureUsage,
};
use crate::graphics::commands::ComputeCommand;
use crate::graphics::context::{BufferId, NamedBindGroup, PipelineId, SamplerId, TextureId};

verus! {

/// Ray March resource ids
#[derive(Clone, Copy, PartialEq, Eq, Debug)]
pub struct RayMarchIds {
    /// voxel buffer
    pub vox_id: BufferId,
    /// grid bitmask
    pub grid_id: BufferId,
    /// positions buffer
    pub pos_id: TextureId,
    /// normal buffer
    pub norm_id: TextureId,
    /// depth buffer
    pub depth_id: TextureId,
    /// material buffer
    pub mat_id: TextureId,
    /// voxel data bind group
    pub vox_bg_id: NamedBindGroup,
}

/// Coarse ray march resource ids
#[derive(Clone, Copy, PartialEq, Eq, Debug)]
pub struct CoarseIds {
    /// global bind group
    pub global_bg_id: NamedBindGroup,
    /// deferred texture bind group
    pub deferred_tex_bg_id: NamedBindGroup,
    /// coarse ray march pipeline
    pub pip_id: PipelineId,
}

/// Fine ray march resource ids
pub struct FineIds {
    /// grass alpha mask
    pub gsam_id: TextureId,
    /// block texture atlas
    pub atlas_id: TextureId,
    /// block texture atlas sampler
    pub samp_id: SamplerId,
    /// palette buffer
    pub pal_id: BufferId,
    /// global bind group
    pub global_bg_id: NamedBindGroup,
    /// material bind group
    pub material_bg_id: NamedBindGroup,
    /// screen_space texture bind group
    pub screen_textures_bg: NamedBindGroup,
    /// ray march pipeline
    pub pip_id: PipelineId,
}

/// `named` is the bind group `name` with its layout `name` followed by `_layout`
pub open spec fn named_as(named: NamedBindGroup, name: Seq<char>) -> bool {
    named.id.0@ == name && named.layout_id.0@ == name + "_layout"@
}

/// Resources that both ray march passes use
pub struct RayMarchResources {
    pub ids: RayMarchIds,
}

impl RayMarchResources {
    pub fn new() -> (resources: Self)
        ensures
            resources.ids.vox_id.0@ == "voxels"@,
            resources.ids.grid_id.0@ == "grid_bitmask"@,
            resources.ids.pos_id.0@ == "coarse_positions"@,
            resources.ids.norm_id.0@ == "coarse_normals"@,
            resources.ids.depth_id.0@ == "coarse_depth"@,
            resources.ids.mat_id.0@ == "coarse_material_ids"@,
            named_as(resources.ids.vox_bg_id, "voxel_bind_group"@),
    {
        let ids = RayMarchIds {
            vox_id: BufferId("voxels"),
            grid_id: BufferId("grid_bitmask"),
            pos_id: TextureId("coarse_positions"),
            norm_id: TextureId("coarse_normals"),
            depth_id: TextureId("coarse_depth"),
            mat_id: TextureId("coarse_material_ids"),
            vox_bg_id: NamedBindGroup::new("voxel_bind_group"),
        };
        Self { ids }
    }

    /// The sizes of the coarse textures, which cover the canvas at half resolution
    pub fn coarse_size(canvas_width: u32, canvas_height: u32) -> (size: (u32, u32))
        ensures
            size.0 == canvas_width / 2,
            size.1 == canvas_height / 2,
    {
        (canvas_width / 2, canvas_height / 2)
    }
}

/// The fine ray march pass: shades the coarse hits at full resolution
pub struct RayMarchFinePass {
    gb_ids: GlobalIds,
    rm_ids: RayMarchIds,
    fine_ids: FineIds,
}

impl RayMarchFinePass {
    /// The global ids the pass reads from
    pub closed spec fn globals(&self) -> GlobalIds {
        self.gb_ids
    }

    /// The shared ray march ids the pass reads from
    pub closed spec fn ray_march(&self) -> RayMarchIds {
        self.rm_ids
    }

    /// The ids of the pass's own resources
    pub closed spec fn ids(&self) -> FineIds {
        self.fine_ids
    }

    pub fn new(gb_ids: GlobalIds, rm_ids: RayMarchIds) -> (pass: Self)
        ensures
            pass.globals() == gb_ids,
            pass.ray_march() == rm_ids,
            pass.ids().gsam_id.0@ == "grass_side_alpha_mask"@,
            pass.ids().atlas_id.0@ == "block_atlas"@,
            pass.ids().samp_id.0@ == "texture_sampler"@,
            pass.ids().pal_id.0@ == "palette"@,
            named_as(pass.ids().global_bg_id, "global_bind_group_fine"@),
            named_as(pass.ids().material_bg_id, "material_bind_group"@),
            named_as(pass.ids().screen_textures_bg, "screen_textures_bind_group_fine"@),
            pass.ids().pip_id.0@ == "rm_fine_pipeline"@,
    {
        let fine_ids = FineIds {
            gsam_id: TextureId("grass_side_alpha_mask"),
            atlas_id: TextureId("block_atlas"),
            samp_id: SamplerId("texture_sampler"),
            pal_id: BufferId("palette"),
            global_bg_id: NamedBindGroup::new("global_bind_group_fine"),
            material_bg_id: NamedBindGroup::new("material_bind_group"),
            screen_textures_bg: NamedBindGroup::new("screen_textures_bind_group_fine"),
            pip_id: PipelineId("rm_fine_pipeline"),
        };
        Self { gb_ids, rm_ids, fine_ids }
    }

    /// The global ids the pass reads from
    pub fn global_ids(&self) -> (ids: GlobalIds)
        ensures
            ids == self.globals(),
    {
        self.gb_ids
    }

    /// The shared ray march ids the pass reads from
    pub fn ray_march_ids(&self) -> (ids: RayMarchIds)
        ensures
            ids == self.ray_march(),
    {
        self.rm_ids
    }

    /// The ids of the pass's own resources
    pub fn fine_ids(&self) -> (ids: &FineIds)
        ensures
            *ids == self.ids(),
    {
        &self.fine_ids
    }

    /// The dispatch over `wx` by `wy` workgroups, with the global, material, voxel and screen
    /// texture bind groups in that order
    pub fn get(&mut self, wx: u32, wy: u32) -> (cmd: ComputeCommand)
        ensures
            cmd.pipeline() == old(self).ids().pip_id,
            cmd.dispatch_size() == (wx, wy, 1u32),
            cmd.groups() == seq![
                old(self).ids().global_bg_id.id,
                old(self).ids().material_bg_id.id,
                old(self).ray_march().vox_bg_id.id,
                old(self).ids().screen_textures_bg.id,
            ],
            *final(self) == *old(self),
    {
        let groups = [
            self.fine_ids.global_bg_id.id,
            self.fine_ids.material_bg_id.id,
            self.rm_ids.vox_bg_id.id,
            self.fine_ids.screen_textures_bg.id,
        ];
        let cmd = ComputeCommand::new(self.fine_ids.pip_id, (wx, wy, 1)).with_bind_groups(&groups);
        assert(groups@ =~= seq![groups[0], groups[1], groups[2], groups[3]]);
        cmd
    }
}

/// The coarse ray march pass: finds the hits at half resolution
pub struct CoarsePass {
    gb_ids: GlobalIds,
    rm_ids: RayMarchIds,
    coarse_ids: CoarseIds,
}

impl CoarsePass {
    /// The global ids the pass reads from
    pub closed spec fn globals(&self) -> GlobalIds {
        self.gb_ids
    }

    /// The shared ray march ids the pass reads from
    pub closed spec fn ray_march(&self) -> RayMarchIds {
        self.rm_ids
    }

    /// The ids of the pass's own resources
    pub closed spec fn ids(&self) -> CoarseIds {
        self.coarse_ids
    }

    pub fn new(gb_ids: GlobalIds, rm_ids: RayMarchIds) -> (pass: Self)
        ensures
            pass.globals() == gb_ids,
            pass.ray_march() == rm_ids,
            named_as(pass.ids().global_bg_id, "global_bind_group_coarse"@),
            named_as(pass.ids().deferred_tex_bg_id, "deferred_textures_bind_group_coarse"@),
            pass.ids().pip_id.0@ == "rm_coarse_pipeline"@,
    {
        let coarse_ids = CoarseIds {
            global_bg_id: NamedBindGroup::new("global_bind_group_coarse"),
            deferred_tex_bg_id: NamedBindGroup::new("deferred_textures_bind_group_coarse"),
            pip_id: PipelineId("rm_coarse_pipeline"),
        };
        Self { gb_ids, rm_ids, coarse_ids }
    }

    /// The global ids the pass reads from
    pub fn global_ids(&self) -> (ids: GlobalIds)
        ensures
            ids == self.globals(),
    {
        self.gb_ids
    }

    /// The shared ray march ids the pass reads from
    pub fn ray_march_ids(&self) -> (ids: RayMarchIds)
        ensures
            ids == self.ray_march(),
    {
        self.rm_ids
    }

    /// The ids of the pass's own resources
    pub fn coarse_ids(&self) -> (ids: CoarseIds)
        ensures
            ids == self.ids(),
    {
        self.coarse_ids
    }

    /// The dispatch over `wx` by `wy` workgroups, with the global, voxel and deferred texture
    /// bind groups in that order
    pub fn get(&mut self, wx: u32, wy: u32) -> (cmd: ComputeCommand)
        ensures
            cmd.pipeline() == old(self).ids().pip_id,
            cmd.dispatch_size() == (wx, wy, 1u32),
            cmd.groups() == seq![
                old(self).ids().global_bg_id.id,
                old(self).ray_march().vox_bg_id.id,
                old(self).ids().deferred_tex_bg_id.id,
            ],
            *final(self) == *old(self),
    {
        let groups = [
            self.coarse_ids.global_bg_id.id,
            self.rm_ids.vox_bg_id.id,
            self.coarse_ids.deferred_tex_bg_id.id,
        ];
        let cmd = ComputeCommand::new(self.coarse_ids.pip_id, (wx, wy, 1)).with_bind_groups(&groups);
        assert(groups@ =~= seq![groups[0], groups[1], groups[2]]);
        cmd
    }
}

/// A coarse pass texture: half the canvas size, of the format, computed in a shader, stored to
/// and copied from
pub open spec fn coarse_texture_built(texture: Texture<Computed>, label: Seq<char>, canvas_width: u32, canvas_height: u32, format: TexFormat) -> bool {
    let usage = texture_usage_flag(TextureUsage::TextureBinding) | texture_usage_flag(TextureUsage::StorageBinding);
    &&& texture.label@ == label
    &&& texture.format == format
    &&& texture.mip_levels == 1
    &&& texture.ty.dim == (TexDimensions {
        width: canvas_width / 2,
        height: canvas_height / 2,
        depth: 1,
        wgpu_dim: TextureDimension::D2,
    })
    &&& texture.usage == (usage | texture_usage_flag(TextureUsage::StorageBinding)) | texture_usage_flag(TextureUsage::CopySrc)
}

/// A coarse pass texture of half the canvas size
fn coarse_texture(label: &str, canvas_width: u32, canvas_height: u32, format: TexFormat) -> (texture: Texture<Computed>)
    ensures
        coarse_texture_built(texture, label@, canvas_width, canvas_height, format),
{
    let (width, height) = RayMarchResources::coarse_size(canvas_width, canvas_height);
    Texture::<Computed>::computed(TexDimensions::size_2d(width, height))
        .with_label(label)
        .with_format(format)
        .with_additional_usage(texture_usage_bits(TextureUsage::StorageBinding))
        .with_additional_usage(texture_usage_bits(TextureUsage::CopySrc))
}

/// A texture loaded from disk in the Rgba8Unorm format, writable
pub open spec fn disk_texture_built(texture: Texture<OnDisk>, label: Seq<char>, path: &'static str) -> bool {
    &&& texture.label@ == label
    &&& texture.format == TexFormat::Rgba8Unorm
    &&& texture.mip_levels == 1
    &&& texture.ty.path == path
    &&& texture.usage == texture_usage_flag(TextureUsage::TextureBinding) | texture_usage_flag(TextureUsage::CopyDst)
}

/// A texture loaded from disk, writable
fn disk_texture(label: &str, path: &'static str) -> (texture: Texture<OnDisk>)
    ensures
        disk_texture_built(texture, label@, path),
{
    Texture::<OnDisk>::on_disk(path).with_label(label).with_format(TexFormat::Rgba8Unorm).with_additional_usage(
        texture_usage_bits(TextureUsage::CopyDst),
    )
}

/// The bind group of the voxel and grid buffers, both read-only storage for the compute stage
pub open spec fn voxel_group_built(bg: BindGroup, ids: RayMarchIds) -> bool {
    let c = stage_flag(ShaderStage::Compute);
    &&& bg@.label == "Voxel Data"@
    &&& bg@.bindings == seq![
        GroupEntry { target: BindingTarget::Buffer(ids.vox_id), slot: 0 },
        GroupEntry { target: BindingTarget::Buffer(ids.grid_id), slot: 1 }
    ]
    &&& bg@.layout_entries == seq![
        buffer_layout(0, c, BufferBindingType::Storage { read_only: true }),
        buffer_layout(1, c, BufferBindingType::Storage { read_only: true })
    ]
}

/// The id of coarse texture `k`: the positions, normals, depth and material ids in that order
pub open spec fn coarse_texture_id(ids: RayMarchIds, k: int) -> TextureId {
    if k == 0 {
        ids.pos_id
    } else if k == 1 {
        ids.norm_id
    } else if k == 2 {
        ids.depth_id
    } else {
        ids.mat_id
    }
}

/// The label of coarse texture `k`: the depth and material textures carry the label of the
/// normals texture
pub open spec fn coarse_texture_label(k: int) -> Seq<char> {
    if k == 0 {
        "Position Texture"@
    } else {
        "Normals Texture"@
    }
}

/// The format of coarse texture `k`
pub open spec fn coarse_texture_format(k: int) -> TexFormat {
    if k == 0 {
        TexFormat::Rgba16Float
    } else if k == 1 {
        TexFormat::Rgba8Unorm
    } else {
        TexFormat::R32Float
    }
}

/// `request` asks for coarse texture `k` of a canvas of `width` by `height`
pub open spec fn coarse_texture_request(request: ResourceRequest, ids: RayMarchIds, k: int, width: u32, height: u32) -> bool {
    &&& request matches ResourceRequest::Texture(id, t)
    &&& id == coarse_texture_id(ids, k)
    &&& coarse_texture_built(t, coarse_texture_label(k), width, height, coarse_texture_format(k))
}

/// The requests of the shared ray march resources, in order: the voxel and grid storage
/// buffers holding `voxels` and `grids`, the bind group of both, then the four coarse textures
pub open spec fn ray_march_init_requests(
    plan: Seq<ResourceRequest>,
    ids: RayMarchIds,
    voxels: Seq<u8>,
    grids: Seq<u8>,
    width: u32,
    height: u32,
) -> bool {
    &&& plan.len() == 7
    &&& plan[0] matches ResourceRequest::StorageBuffer(id, b) && id == ids.vox_id && storage_built(b, "Voxel Buffer"@, voxels)
    &&& plan[1] matches ResourceRequest::StorageBuffer(id, b) && id == ids.grid_id && storage_built(b, "Grid Buffer"@, grids)
    &&& plan[2] matches ResourceRequest::BindGroup(id, l, bg) && id == ids.vox_bg_id.id && l == ids.vox_bg_id.layout_id
        && voxel_group_built(bg, ids)
    &&& forall|k: int| 0 <= k < 4 ==> #[trigger] coarse_texture_request(plan[3 + k], ids, k, width, height)
}

/// The requests after the canvas was resized to `width` by `height`, in order: the four coarse
/// textures are removed, then requested again at the new size
pub open spec fn ray_march_resize_requests(plan: Seq<ResourceRequest>, ids: RayMarchIds, width: u32, height: u32) -> bool {
    &&& plan.len() == 8
    &&& forall|k: int| 0 <= k < 4 ==> #[trigger] plan[k] == ResourceRequest::RemoveTexture(coarse_texture_id(ids, k))
    &&& forall|k: int| 0 <= k < 4 ==> #[trigger] coarse_texture_request(plan[4 + k], ids, k, width, height)
}

impl RayMarchResources {
    /// The requests that create the shared resources for a canvas of `width` by `height`: the
    /// world's voxels and occupancy grids in storage buffers, their bind group, and the coarse
    /// textures
    pub fn init(&self, world: &VoxelWorld, width: u32, height: u32) -> (plan: Vec<ResourceRequest>)
        ensures
            exists|voxels: Seq<u8>, grids: Seq<u8>|
                {
                    &&& words_in_some_order(all_voxel_words(world.region_seq()), voxels)
                    &&& words_in_some_order(all_grid_words(world.region_seq()), grids)
                    &&& ray_march_init_requests(plan@, self.ids, voxels, grids, width, height)
                },
    {
        let bytes = world.region_bytes();
        let mut plan: Vec<ResourceRequest> = Vec::new();
        plan.push(ResourceRequest::StorageBuffer(self.ids.vox_id, storage_buffer("Voxel Buffer", &bytes.voxels)));
        plan.push(ResourceRequest::StorageBuffer(self.ids.grid_id, storage_buffer("Grid Buffer", &bytes.grids)));
        plan.push(ResourceRequest::BindGroup(self.ids.vox_bg_id.id, self.ids.vox_bg_id.layout_id, self.voxel_bind_group()));
        let mut textures = self.create_textures(width, height);
        let ghost added = textures@;
        plan.append(&mut textures);
        assert forall|k: int| 0 <= k < 4 implies #[trigger] coarse_texture_request(plan@[3 + k], self.ids, k, width, height) by {
            assert(plan@[3 + k] == added[k]);
        }
        assert(ray_march_init_requests(plan@, self.ids, bytes.voxels@, bytes.grids@, width, height));
        plan
    }

    /// The requests that make the coarse textures again after the canvas was resized to
    /// `width` by `height`
    pub fn on_resize(&self, width: u32, height: u32) -> (plan: Vec<ResourceRequest>)
        ensures
            ray_march_resize_requests(plan@, self.ids, width, height),
    {
        let mut plan: Vec<ResourceRequest> = Vec::new();
        plan.push(ResourceRequest::RemoveTexture(self.ids.pos_id));
        plan.push(ResourceRequest::RemoveTexture(self.ids.norm_id));
        plan.push(ResourceRequest::RemoveTexture(self.ids.depth_id));
        plan.push(ResourceRequest::RemoveTexture(self.ids.mat_id));
        let mut textures = self.create_textures(width, height);
        let ghost added = textures@;
        plan.append(&mut textures);
        assert forall|k: int| 0 <= k < 4 implies #[trigger] coarse_texture_request(plan@[4 + k], self.ids, k, width, height) by {
            assert(plan@[4 + k] == added[k]);
        }
        assert forall|k: int| 0 <= k < 4 implies #[trigger] plan@[k] == ResourceRequest::RemoveTexture(coarse_texture_id(self.ids, k)) by {}
        plan
    }

    /// The requests of the four coarse textures, at half the canvas size
    fn create_textures(&self, canvas_width: u32, canvas_height: u32) -> (textures: Vec<ResourceRequest>)
        ensures
            textures@.len() == 4,
            forall|k: int| 0 <= k < 4 ==> #[trigger] coarse_texture_request(textures@[k], self.ids, k, canvas_width, canvas_height),
    {
        let mut textures: Vec<ResourceRequest> = Vec::new();
        textures.push(ResourceRequest::Texture(self.ids.pos_id, coarse_texture("Position Texture", canvas_width, canvas_height, TexFormat::Rgba16Float)));
        textures.push(ResourceRequest::Texture(self.ids.norm_id, coarse_texture("Normals Texture", canvas_width, canvas_height, TexFormat::Rgba8Unorm)));
        textures.push(ResourceRequest::Texture(self.ids.depth_id, coarse_texture("Normals Texture", canvas_width, canvas_height, TexFormat::R32Float)));
        textures.push(ResourceRequest::Texture(self.ids.mat_id, coarse_texture("Normals Texture", canvas_width, canvas_height, TexFormat::R32Float)));
        assert(coarse_texture_request(textures@[0], self.ids, 0, canvas_width, canvas_height));
        assert(coarse_texture_request(textures@[1], self.ids, 1, canvas_width, canvas_height));
        assert(coarse_texture_request(textures@[2], self.ids, 2, canvas_width, canvas_height));
        assert(coarse_texture_request(textures@[3], self.ids, 3, canvas_width, canvas_height));
        textures
    }

    /// The bind group of the voxel and grid buffers, read by the compute stage
    pub fn voxel_bind_group(&self) -> (bg: BindGroup)
        ensures
            voxel_group_built(bg, self.ids),
    {
        let c = stage_bits(ShaderStage::Compute);
        let bg = BindGroup::new()
            .with_label("Voxel Data")
            .with_entry(BufferBinding::as_storage(self.ids.vox_id, true).with_visibility(c))
            .with_entry(BufferBinding::as_storage(self.ids.grid_id, true).with_visibility(c));
        assert(bg@.bindings =~= seq![
            GroupEntry { target: BindingTarget::Buffer(self.ids.vox_id), slot: 0 },
            GroupEntry { target: BindingTarget::Buffer(self.ids.grid_id), slot: 1 }
        ]);
        assert(bg@.layout_entries =~= seq![
            buffer_layout(0, c, BufferBindingType::Storage { read_only: true }),
            buffer_layout(1, c, BufferBindingType::Storage { read_only: true })
        ]);
        bg
    }
}

/// The coarse pass's bind group of the camera uniform, for the compute stage
pub open spec fn coarse_globals_group_built(bg: BindGroup, gb_ids: GlobalIds) -> bool {
    &&& bg@.label == "Global Uniforms (Coarse)"@
    &&& bg@.bindings == seq![GroupEntry { target: BindingTarget::Buffer(gb_ids.cam_id), slot: 0 }]
    &&& bg@.layout_entries == seq![buffer_layout(0, stage_flag(ShaderStage::Compute), BufferBindingType::Uniform)]
}

/// The coarse pass's bind group of the four coarse textures, written by the compute stage
pub open spec fn coarse_deferred_group_built(bg: BindGroup, rm_ids: RayMarchIds) -> bool {
    let c = stage_flag(ShaderStage::Compute);
    &&& bg@.label == "Deferred Texture Bind Group (Coarse)"@
    &&& bg@.bindings == seq![
        GroupEntry { target: BindingTarget::Texture(rm_ids.pos_id), slot: 0 },
        GroupEntry { target: BindingTarget::Texture(rm_ids.norm_id), slot: 1 },
        GroupEntry { target: BindingTarget::Texture(rm_ids.depth_id), slot: 2 },
        GroupEntry { target: BindingTarget::Texture(rm_ids.mat_id), slot: 3 }
    ]
    &&& bg@.layout_entries == seq![
        storage_format_layout(0, c, TexFormat::Rgba16Float),
        storage_format_layout(1, c, TexFormat::Rgba8Unorm),
        storage_format_layout(2, c, TexFormat::R32Float),
        storage_format_layout(3, c, TexFormat::R32Float)
    ]
}

/// The coarse ray march pipeline, over the global, voxel and deferred texture layouts
pub open spec fn coarse_pipeline_built(pipeline: Pipeline<ComputeType>, ids: CoarseIds, rm_ids: RayMarchIds) -> bool {
    &&& pipeline.label@ == "RM Coarse Pipeline"@
    &&& pipeline.bg_layouts@ == seq![ids.global_bg_id.layout_id, rm_ids.vox_bg_id.layout_id, ids.deferred_tex_bg_id.layout_id]
    &&& pipeline.shader_path == Some("./shaders/coarse_rm.wgsl")
    &&& pipeline.ty.main@ == "cs_main"@
}

/// The requests of the coarse pass, in order: the global and deferred texture bind groups, then
/// the pipeline
pub open spec fn coarse_init_requests(plan: Seq<ResourceRequest>, gb_ids: GlobalIds, rm_ids: RayMarchIds, ids: CoarseIds) -> bool {
    &&& plan.len() == 3
    &&& plan[0] matches ResourceRequest::BindGroup(id, l, bg) && id == ids.global_bg_id.id && l == ids.global_bg_id.layout_id
        && coarse_globals_group_built(bg, gb_ids)
    &&& plan[1] matches ResourceRequest::BindGroup(id, l, bg) && id == ids.deferred_tex_bg_id.id
        && l == ids.deferred_tex_bg_id.layout_id && coarse_deferred_group_built(bg, rm_ids)
    &&& plan[2] matches ResourceRequest::ComputePipeline(id, p) && id == ids.pip_id && coarse_pipeline_built(p, ids, rm_ids)
}

/// The requests after a resize: the deferred texture bind group is removed and requested again
pub open spec fn coarse_resize_requests(plan: Seq<ResourceRequest>, rm_ids: RayMarchIds, ids: CoarseIds) -> bool {
    &&& plan.len() == 2
    &&& plan[0] == ResourceRequest::RemoveBindGroup(ids.deferred_tex_bg_id.id)
    &&& plan[1] matches ResourceRequest::BindGroup(id, l, bg) && id == ids.deferred_tex_bg_id.id
        && l == ids.deferred_tex_bg_id.layout_id && coarse_deferred_group_built(bg, rm_ids)
}

/// The sampler of the block atlas: a linear sampler labelled "Atlas Sampler"
pub open spec fn atlas_sampler_built(sampler: Sampler<Linear>) -> bool {
    sampler.desc == (SamplerDescriptor {
        label: Some("Atlas Sampler"),
        ..sampler_desc("linear_sampler", AddressMode::ClampToEdge, FilterMode::Linear, 1, None)
    })
}

/// The fine pass's bind group of the camera and environment uniforms, for the compute stage
pub open spec fn fine_globals_group_built(bg: BindGroup, gb_ids: GlobalIds) -> bool {
    let c = stage_flag(ShaderStage::Compute);
    &&& bg@.label == "Global Uniforms (Fine)"@
    &&& bg@.bindings == seq![
        GroupEntry { target: BindingTarget::Buffer(gb_ids.cam_id), slot: 0 },
        GroupEntry { target: BindingTarget::Buffer(gb_ids.env_id), slot: 1 }
    ]
    &&& bg@.layout_entries == seq![buffer_layout(0, c, BufferBindingType::Uniform), buffer_layout(1, c, BufferBindingType::Uniform)]
}

/// The fine pass's bind group of the grass mask, the atlas, the atlas sampler and the palette,
/// for the compute stage
pub open spec fn material_group_built(bg: BindGroup, ids: FineIds) -> bool {
    let c = stage_flag(ShaderStage::Compute);
    &&& bg@.label == "Material Uniforms"@
    &&& bg@.bindings == seq![
        GroupEntry { target: BindingTarget::Texture(ids.gsam_id), slot: 0 },
        GroupEntry { target: BindingTarget::Texture(ids.atlas_id), slot: 1 },
        GroupEntry { target: BindingTarget::Sampler(ids.samp_id), slot: 2 },
        GroupEntry { target: BindingTarget::Buffer(ids.pal_id), slot: 3 }
    ]
    &&& bg@.layout_entries == seq![
        sampled_layout(0, c, true),
        sampled_layout(1, c, true),
        sampler_layout(2, c),
        buffer_layout(3, c, BufferBindingType::Uniform)
    ]
}

/// The fine pass's bind group of the coarse textures it samples and the ray march texture it
/// writes, for the compute stage
pub open spec fn fine_screen_group_built(bg: BindGroup, gb_ids: GlobalIds, rm_ids: RayMarchIds) -> bool {
    let c = stage_flag(ShaderStage::Compute);
    &&& bg@.label == "Deferred Texture Bind Group (Fine)"@
    &&& bg@.bindings == seq![
        GroupEntry { target: BindingTarget::Texture(rm_ids.pos_id), slot: 0 },
        GroupEntry { target: BindingTarget::Texture(rm_ids.norm_id), slot: 1 },
        GroupEntry { target: BindingTarget::Texture(rm_ids.depth_id), slot: 2 },
        GroupEntry { target: BindingTarget::Texture(rm_ids.mat_id), slot: 3 },
        GroupEntry { target: BindingTarget::Texture(gb_ids.rm_tex_id), slot: 4 }
    ]
    &&& bg@.layout_entries == seq![
        sampled_texture_layout(0, c),
        sampled_texture_layout(1, c),
        sampled_texture_layout(2, c),
        sampled_texture_layout(3, c),
        storage_texture_layout(4, c)
    ]
}

/// The fine ray march pipeline, over the global, material, voxel and screen texture layouts
pub open spec fn fine_pipeline_built(pipeline: Pipeline<ComputeType>, ids: FineIds, rm_ids: RayMarchIds) -> bool {
    &&& pipeline.label@ == "RM Fine Pipeline"@
    &&& pipeline.bg_layouts@ == seq![
        ids.global_bg_id.layout_id,
        ids.material_bg_id.layout_id,
        rm_ids.vox_bg_id.layout_id,
        ids.screen_textures_bg.layout_id
    ]
    &&& pipeline.shader_path == Some("./shaders/fine_rm.wgsl")
    &&& pipeline.ty.main@ == "cs_main"@
}

/// `request` asks for the fine pass's screen texture bind group
pub open spec fn fine_screen_request(request: ResourceRequest, gb_ids: GlobalIds, rm_ids: RayMarchIds, ids: FineIds) -> bool {
    &&& request matches ResourceRequest::BindGroup(id, l, bg)
    &&& id == ids.screen_textures_bg.id
    &&& l == ids.screen_textures_bg.layout_id
    &&& fine_screen_group_built(bg, gb_ids, rm_ids)
}

/// The requests of the fine pass, in order: the grass mask and the atlas loaded from disk, the
/// atlas sampler, the environment and palette uniforms holding `environment` and `palette`, the
/// global, material and screen texture bind groups, then the pipeline
pub open spec fn fine_init_requests(
    plan: Seq<ResourceRequest>,
    gb_ids: GlobalIds,
    rm_ids: RayMarchIds,
    ids: FineIds,
    environment: Seq<u8>,
    palette: Seq<u8>,
) -> bool {
    &&& plan.len() == 9
    &&& plan[0] matches ResourceRequest::DiskTexture(id, t) && id == ids.gsam_id
        && disk_texture_built(t, "Grass Side Alpha Mask"@, "./assets/grass_block_side_overlay.png")
    &&& plan[1] matches ResourceRequest::DiskTexture(id, t) && id == ids.atlas_id
        && disk_texture_built(t, "Block Atlas Texture"@, "./assets/textures.png")
    &&& plan[2] matches ResourceRequest::Sampler(id, sampler) && id == ids.samp_id && atlas_sampler_built(sampler)
    &&& plan[3] matches ResourceRequest::UniformBuffer(id, b) && id == gb_ids.env_id
        && uniform_built(b, "Environment Buffer"@, environment)
    &&& plan[4] matches ResourceRequest::UniformBuffer(id, b) && id == ids.pal_id && uniform_built(b, "Palette Buffer"@, palette)
    &&& plan[5] matches ResourceRequest::BindGroup(id, l, bg) && id == ids.global_bg_id.id && l == ids.global_bg_id.layout_id
        && fine_globals_group_built(bg, gb_ids)
    &&& plan[6] matches ResourceRequest::BindGroup(id, l, bg) && id == ids.material_bg_id.id
        && l == ids.material_bg_id.layout_id && material_group_built(bg, ids)
    &&& fine_screen_request(plan[7], gb_ids, rm_ids, ids)
    &&& plan[8] matches ResourceRequest::ComputePipeline(id, p) && id == ids.pip_id && fine_pipeline_built(p, ids, rm_ids)
}

/// The requests after a resize: the screen texture bind group is removed and requested again
pub open spec fn fine_resize_requests(plan: Seq<ResourceRequest>, gb_ids: GlobalIds, rm_ids: RayMarchIds, ids: FineIds) -> bool {
    &&& plan.len() == 2
    &&& plan[0] == ResourceRequest::RemoveBindGroup(ids.screen_textures_bg.id)
    &&& fine_screen_request(plan[1], gb_ids, rm_ids, ids)
}

impl CoarsePass {
    /// The requests for the pass's bind groups and pipeline
    pub fn init(&mut self) -> (plan: Vec<ResourceRequest>)
        ensures
            coarse_init_requests(plan@, old(self).globals(), old(self).ray_march(), old(self).ids()),
            *final(self) == *old(self),
    {
        let mut plan: Vec<ResourceRequest> = Vec::new();
        plan.push(ResourceRequest::BindGroup(
            self.coarse_ids.global_bg_id.id,
            self.coarse_ids.global_bg_id.layout_id,
            self.globals_bind_group(),
        ));
        plan.push(ResourceRequest::BindGroup(
            self.coarse_ids.deferred_tex_bg_id.id,
            self.coarse_ids.deferred_tex_bg_id.layout_id,
            self.deferred_textures_bind_group(),
        ));
        plan.push(ResourceRequest::ComputePipeline(self.coarse_ids.pip_id, self.pipeline()));
        plan
    }

    /// The requests that make the deferred texture bind group again after a resize, which binds
    /// the coarse textures made at the new size
    pub fn on_resize(&mut self) -> (plan: Vec<ResourceRequest>)
        ensures
            coarse_resize_requests(plan@, old(self).ray_march(), old(self).ids()),
            *final(self) == *old(self),
    {
        let mut plan: Vec<ResourceRequest> = Vec::new();
        plan.push(ResourceRequest::RemoveBindGroup(self.coarse_ids.deferred_tex_bg_id.id));
        plan.push(ResourceRequest::BindGroup(
            self.coarse_ids.deferred_tex_bg_id.id,
            self.coarse_ids.deferred_tex_bg_id.layout_id,
            self.deferred_textures_bind_group(),
        ));
        plan
    }

    /// The bind group of the camera uniform, for the compute stage
    pub fn globals_bind_group(&self) -> (bg: BindGroup)
        ensures
            coarse_globals_group_built(bg, self.globals()),
    {
        let bg = BindGroup::new()
            .with_label("Global Uniforms (Coarse)")
            .with_entry(BufferBinding::as_uniform(self.gb_ids.cam_id).with_visibility(stage_bits(ShaderStage::Compute)));
        assert(bg@.bindings =~= seq![GroupEntry { target: BindingTarget::Buffer(self.gb_ids.cam_id), slot: 0 }]);
        assert(bg@.layout_entries =~= seq![buffer_layout(0, stage_flag(ShaderStage::Compute), BufferBindingType::Uniform)]);
        bg
    }

    /// The bind group of the four coarse textures the pass writes, for the compute stage
    pub fn deferred_textures_bind_group(&self) -> (bg: BindGroup)
        ensures
            coarse_deferred_group_built(bg, self.ray_march()),
    {
        let c = stage_bits(ShaderStage::Compute);
        let access = crate::graphics::resources::bindgroup::StorageTextureAccess::WriteOnly;
        let bg = BindGroup::new()
            .with_label("Deferred Texture Bind Group (Coarse)")
            .with_entry(TextureBinding::as_storage(self.rm_ids.pos_id, TextureTypeStorage { access, fmt: TexFormat::Rgba16Float }).with_visibility(c))
            .with_entry(TextureBinding::as_storage(self.rm_ids.norm_id, TextureTypeStorage { access, fmt: TexFormat::Rgba8Unorm }).with_visibility(c))
            .with_entry(TextureBinding::as_storage(self.rm_ids.depth_id, TextureTypeStorage { access, fmt: TexFormat::R32Float }).with_visibility(c))
            .with_entry(TextureBinding::as_storage(self.rm_ids.mat_id, TextureTypeStorage { access, fmt: TexFormat::R32Float }).with_visibility(c));
        assert(bg@.bindings =~= seq![
            GroupEntry { target: BindingTarget::Texture(self.rm_ids.pos_id), slot: 0 },
            GroupEntry { target: BindingTarget::Texture(self.rm_ids.norm_id), slot: 1 },
            GroupEntry { target: BindingTarget::Texture(self.rm_ids.depth_id), slot: 2 },
            GroupEntry { target: BindingTarget::Texture(self.rm_ids.mat_id), slot: 3 }
        ]);
        assert(bg@.layout_entries =~= seq![
            storage_format_layout(0, c, TexFormat::Rgba16Float),
            storage_format_layout(1, c, TexFormat::Rgba8Unorm),
            storage_format_layout(2, c, TexFormat::R32Float),
            storage_format_layout(3, c, TexFormat::R32Float)
        ]);
        bg
    }

    /// The coarse ray march compute pipeline
    pub fn pipeline(&self) -> (pipeline: Pipeline<ComputeType>)
        ensures
            coarse_pipeline_built(pipeline, self.ids(), self.ray_march()),
    {
        let layouts = [
            self.coarse_ids.global_bg_id.layout_id,
            self.rm_ids.vox_bg_id.layout_id,
            self.coarse_ids.deferred_tex_bg_id.layout_id,
        ];
        let pipeline = Pipeline::<ComputeType>::default()
            .with_label("RM Coarse Pipeline")
            .with_bg_layouts(&layouts)
            .with_shader("./shaders/coarse_rm.wgsl");
        assert(pipeline.bg_layouts@ =~= seq![
            self.coarse_ids.global_bg_id.layout_id,
            self.rm_ids.vox_bg_id.layout_id,
            self.coarse_ids.deferred_tex_bg_id.layout_id
        ]);
        pipeline
    }
}

impl RayMarchFinePass {
    /// The requests for the pass's textures, sampler, uniforms, bind groups and pipeline; the
    /// environment buffer starts with the bytes of the environment uniform, the palette buffer
    /// with the palette's colors
    pub fn init(&mut self, environment: &Vec<u8>, palette: &VoxelPalette) -> (plan: Vec<ResourceRequest>)
        ensures
            fine_init_requests(
                plan@,
                old(self).globals(),
                old(self).ray_march(),
                old(self).ids(),
                environment@,
                palette.colors@,
            ),
            *final(self) == *old(self),
    {
        let mut plan: Vec<ResourceRequest> = Vec::new();
        plan.push(ResourceRequest::DiskTexture(self.fine_ids.gsam_id, self.grass_mask_texture()));
        plan.push(ResourceRequest::DiskTexture(self.fine_ids.atlas_id, self.atlas_texture()));
        plan.push(ResourceRequest::Sampler(self.fine_ids.samp_id, self.atlas_sampler()));
        plan.push(ResourceRequest::UniformBuffer(self.gb_ids.env_id, uniform_buffer("Environment Buffer", environment)));
        plan.push(ResourceRequest::UniformBuffer(self.fine_ids.pal_id, uniform_buffer("Palette Buffer", &palette.colors)));
        plan.push(ResourceRequest::BindGroup(
            self.fine_ids.global_bg_id.id,
            self.fine_ids.global_bg_id.layout_id,
            self.globals_bind_group(),
        ));
        plan.push(ResourceRequest::BindGroup(
            self.fine_ids.material_bg_id.id,
            self.fine_ids.material_bg_id.layout_id,
            self.material_bind_group(),
        ));
        plan.push(ResourceRequest::BindGroup(
            self.fine_ids.screen_textures_bg.id,
            self.fine_ids.screen_textures_bg.layout_id,
            self.screen_textures_bind_group(),
        ));
        plan.push(ResourceRequest::ComputePipeline(self.fine_ids.pip_id, self.pipeline()));
        plan
    }

    /// The requests that make the screen texture bind group again after a resize, which binds
    /// the textures made at the new size
    pub fn on_resize(&mut self) -> (plan: Vec<ResourceRequest>)
        ensures
            fine_resize_requests(plan@, old(self).globals(), old(self).ray_march(), old(self).ids()),
            *final(self) == *old(self),
    {
        let mut plan: Vec<ResourceRequest> = Vec::new();
        plan.push(ResourceRequest::RemoveBindGroup(self.fine_ids.screen_textures_bg.id));
        plan.push(ResourceRequest::BindGroup(
            self.fine_ids.screen_textures_bg.id,
            self.fine_ids.screen_textures_bg.layout_id,
            self.screen_textures_bind_group(),
        ));
        plan
    }

    /// The grass side alpha mask, loaded from disk
    pub fn grass_mask_texture(&self) -> (texture: Texture<OnDisk>)
        ensures
            disk_texture_built(texture, "Grass Side Alpha Mask"@, "./assets/grass_block_side_overlay.png"),
    {
        disk_texture("Grass Side Alpha Mask", "./assets/grass_block_side_overlay.png")
    }

    /// The block texture atlas, loaded from disk
    pub fn atlas_texture(&self) -> (texture: Texture<OnDisk>)
        ensures
            disk_texture_built(texture, "Block Atlas Texture"@, "./assets/textures.png"),
    {
        disk_texture("Block Atlas Texture", "./assets/textures.png")
    }

    /// The sampler of the block texture atlas
    pub fn atlas_sampler(&self) -> (sampler: Sampler<Linear>)
        ensures
            atlas_sampler_built(sampler),
    {
        Sampler::<Linear>::linear().with_label("Atlas Sampler")
    }

    /// The bind group of the camera and environment uniforms, for the compute stage
    pub fn globals_bind_group(&self) -> (bg: BindGroup)
        ensures
            fine_globals_group_built(bg, self.globals()),
    {
        let c = stage_bits(ShaderStage::Compute);
        let bg = BindGroup::new()
            .with_label("Global Uniforms (Fine)")
            .with_entry(BufferBinding::as_uniform(self.gb_ids.cam_id).with_visibility(c))
            .with_entry(BufferBinding::as_uniform(self.gb_ids.env_id).with_visibility(c));
        assert(bg@.bindings =~= seq![
            GroupEntry { target: BindingTarget::Buffer(self.gb_ids.cam_id), slot: 0 },
            GroupEntry { target: BindingTarget::Buffer(self.gb_ids.env_id), slot: 1 }
        ]);
        assert(bg@.layout_entries =~= seq![
            buffer_layout(0, c, BufferBindingType::Uniform),
            buffer_layout(1, c, BufferBindingType::Uniform)
        ]);
        bg
    }

    /// The bind group of the material textures, their sampler and the palette, for the compute
    /// stage
    pub fn material_bind_group(&self) -> (bg: BindGroup)
        ensures
            material_group_built(bg, self.ids()),
    {
        let c = stage_bits(ShaderStage::Compute);
        let filterable = TextureTypeSampled { filterable: true, multisampled: false };
        let filterable_again = TextureTypeSampled { filterable: true, multisampled: false };
        let bg = BindGroup::new()
            .with_label("Material Uniforms")
            .with_entry(TextureBinding::as_sampled(self.fine_ids.gsam_id, filterable).with_visibility(c))
            .with_entry(TextureBinding::as_sampled(self.fine_ids.atlas_id, filterable_again).with_visibility(c))
            .with_entry(SamplerBinding::new(self.fine_ids.samp_id).with_visibility(c))
            .with_entry(BufferBinding::as_uniform(self.fine_ids.pal_id).with_visibility(c));
        assert(bg@.bindings =~= seq![
            GroupEntry { target: BindingTarget::Texture(self.fine_ids.gsam_id), slot: 0 },
            GroupEntry { target: BindingTarget::Texture(self.fine_ids.atlas_id), slot: 1 },
            GroupEntry { target: BindingTarget::Sampler(self.fine_ids.samp_id), slot: 2 },
            GroupEntry { target: BindingTarget::Buffer(self.fine_ids.pal_id), slot: 3 }
        ]);
        assert(bg@.layout_entries =~= seq![
            sampled_layout(0, c, true),
            sampled_layout(1, c, true),
            sampler_layout(2, c),
            buffer_layout(3, c, BufferBindingType::Uniform)
        ]);
        bg
    }

    /// The bind group of the coarse textures the pass reads and the ray march texture it writes,
    /// for the compute stage
    pub fn screen_textures_bind_group(&self) -> (bg: BindGroup)
        ensures
            fine_screen_group_built(bg, self.globals(), self.ray_march()),
    {
        let c = stage_bits(ShaderStage::Compute);
        let bg = BindGroup::new()
            .with_label("Deferred Texture Bind Group (Fine)")
            .with_entry(TextureBinding::as_sampled(self.rm_ids.pos_id, TextureTypeSampled::default()).with_visibility(c))
            .with_entry(TextureBinding::as_sampled(self.rm_ids.norm_id, TextureTypeSampled::default()).with_visibility(c))
            .with_entry(TextureBinding::as_sampled(self.rm_ids.depth_id, TextureTypeSampled::default()).with_visibility(c))
            .with_entry(TextureBinding::as_sampled(self.rm_ids.mat_id, TextureTypeSampled::default()).with_visibility(c))
            .with_entry(TextureBinding::as_storage(self.gb_ids.rm_tex_id, TextureTypeStorage::default()).with_visibility(c));
        assert(bg@.bindings =~= seq![
            GroupEntry { target: BindingTarget::Texture(self.rm_ids.pos_id), slot: 0 },
            GroupEntry { target: BindingTarget::Texture(self.rm_ids.norm_id), slot: 1 },
            GroupEntry { target: BindingTarget::Texture(self.rm_ids.depth_id), slot: 2 },
            GroupEntry { target: BindingTarget::Texture(self.rm_ids.mat_id), slot: 3 },
            GroupEntry { target: BindingTarget::Texture(self.gb_ids.rm_tex_id), slot: 4 }
        ]);
        assert(bg@.layout_entries =~= seq![
            sampled_texture_layout(0, c),
            sampled_texture_layout(1, c),
            sampled_texture_layout(2, c),
            sampled_texture_layout(3, c),
            storage_texture_layout(4, c)
        ]);
        bg
    }

    /// The fine ray march compute pipeline
    pub fn pipeline(&self) -> (pipeline: Pipeline<ComputeType>)
        ensures
            fine_pipeline_built(pipeline, self.ids(), self.ray_march()),
    {
        let layouts = [
            self.fine_ids.global_bg_id.layout_id,
            self.fine_ids.material_bg_id.layout_id,
            self.rm_ids.vox_bg_id.layout_id,
            self.fine_ids.screen_textures_bg.layout_id,
        ];
        let pipeline = Pipeline::<ComputeType>::default()
            .with_label("RM Fine Pipeline")
            .with_bg_layouts(&layouts)
            .with_shader("./shaders/fine_rm.wgsl");
        assert(pipeline.bg_layouts@ =~= seq![
            self.fine_ids.global_bg_id.layout_id,
            self.fine_ids.material_bg_id.layout_id,
            self.rm_ids.vox_bg_id.layout_id,
            self.fine_ids.screen_textures_bg.layout_id
        ]);
        pipeline
    }
}

} // verus!
