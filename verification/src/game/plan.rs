use vstd::prelude::*;

use crate::game::game::{raymarch_group_built, GameIds};
use crate::game::rendering::blueprints::{blit_group_built, canvas_texture_built, taa_group_built};
use crate::graphics::context::{BindGroupId, BufferId, LayoutId, PipelineId, SamplerId, TextureId};
use crate::graphics::resources::bindgroup::BindGroup;
use crate::graphics::resources::buffer::{usage_flag, Buffer, BufferUsage, Storage, Uniform};
use crate::graphics::resources::pipeline::{ComputeType, Pipeline, RenderType};
use crate::graphics::resources::sampler::{Linear, Sampler};
use crate::graphics::resources::texture::{Computed, OnDisk, TexFormat, Texture};

verus! {

/// A request the game makes of the gpu context
pub enum ResourceRequest {
    /// Request a uniform buffer under the id
    UniformBuffer(BufferId, Buffer<Uniform>),
    /// Request a storage buffer under the id
    StorageBuffer(BufferId, Buffer<Storage>),
    /// Request a texture under the id
    Texture(TextureId, Texture<Computed>),
    /// Request a texture under the id, loaded from the image file its blueprint names
    DiskTexture(TextureId, Texture<OnDisk>),
    /// Request a sampler under the id
    Sampler(SamplerId, Sampler<Linear>),
    /// Request a bind group under the id, made with the layout of the second id
    BindGroup(BindGroupId, LayoutId, BindGroup),
    /// Request a compute pipeline under the id
    ComputePipeline(PipelineId, Pipeline<ComputeType>),
    /// Request a render pipeline under the id
    RenderPipeline(PipelineId, Pipeline<RenderType>),
    /// Remove the texture with the id
    RemoveTexture(TextureId),
    /// Remove the bind group with the id
    RemoveBindGroup(BindGroupId),
}

/// The bytes the game's camera, environment and palette buffers start with
pub struct InitialData {
    pub camera: Vec<u8>,
    pub environment: Vec<u8>,
    pub palette: Vec<u8>,
}

/// A uniform buffer with the label and the data, that can be written to
pub open spec fn uniform_built(buffer: Buffer<Uniform>, label: Seq<char>, data: Seq<u8>) -> bool {
    &&& buffer.label@ == label
    &&& buffer.usage == usage_flag(BufferUsage::Uniform) | usage_flag(BufferUsage::CopyDst)
    &&& buffer.capacity == 16
    &&& buffer.init_data matches Some(d) && d@ == data
}

/// A storage buffer with the label and the data, that can be written to
pub open spec fn storage_built(buffer: Buffer<Storage>, label: Seq<char>, data: Seq<u8>) -> bool {
    &&& buffer.label@ == label
    &&& buffer.usage == usage_flag(BufferUsage::Storage) | usage_flag(BufferUsage::CopyDst)
    &&& buffer.capacity == 16
    &&& buffer.init_data matches Some(d) && d@ == data
}

/// A compute pipeline with the label, one bind group layout and the shader, entered at `cs_main`
pub open spec fn compute_pipeline_built(
    pipeline: Pipeline<ComputeType>,
    label: Seq<char>,
    layout: LayoutId,
    shader: &'static str,
) -> bool {
    &&& pipeline.label@ == label
    &&& pipeline.bg_layouts@ == seq![layout]
    &&& pipeline.shader_path == Some(shader)
    &&& pipeline.ty.main@ == "cs_main"@
}

/// The blit render pipeline: one bind group layout, the blit shader entered at `vs_main` and
/// `fs_main`, no vertex buffers, drawing to the canvas format
pub open spec fn blit_pipeline_built(pipeline: Pipeline<RenderType>, layout: LayoutId) -> bool {
    &&& pipeline.label@ == "Voxel Render Pipeline"@
    &&& pipeline.bg_layouts@ == seq![layout]
    &&& pipeline.shader_path == Some("./shaders/blit.wgsl")
    &&& pipeline.ty.vs_main@ == "vs_main"@
    &&& pipeline.ty.fs_main@ == "fs_main"@
    &&& pipeline.ty.format == TexFormat::Bgra8UnormSrgb
    &&& pipeline.ty.vertex_layouts@.len() == 0
}

/// The requests of the game's start, in order: the camera, environment and palette uniforms,
/// the voxel and region storage buffers, the ray march and history textures of the canvas size,
/// then the ray march, TAA and blit bind groups, each kind followed by its pipeline
pub open spec fn init_requests(
    plan: Seq<ResourceRequest>,
    ids: GameIds,
    camera: Seq<u8>,
    environment: Seq<u8>,
    palette: Seq<u8>,
    voxels: Seq<u8>,
    regions: Seq<u8>,
    width: u32,
    height: u32,
) -> bool {
    &&& plan.len() == 16
    &&& plan[0] matches ResourceRequest::UniformBuffer(id, b) && id == ids.cam_id && uniform_built(b, "Camera Buffer"@, camera)
    &&& plan[1] matches ResourceRequest::UniformBuffer(id, b) && id == ids.env_id && uniform_built(b, "Environment Buffer"@, environment)
    &&& plan[2] matches ResourceRequest::UniformBuffer(id, b) && id == ids.pal_id && uniform_built(b, "Palette Buffer"@, palette)
    &&& plan[3] matches ResourceRequest::StorageBuffer(id, b) && id == ids.vox_id && storage_built(b, "Voxel Buffer"@, voxels)
    &&& plan[4] matches ResourceRequest::StorageBuffer(id, b) && id == ids.reg_id && storage_built(b, "Region Buffer"@, regions)
    &&& plan[5] matches ResourceRequest::Texture(id, t) && id == ids.rm_tex_id
        && canvas_texture_built(t, "Raymarch Texture"@, width, height, true)
    &&& plan[6] matches ResourceRequest::Texture(id, t) && id == ids.taa_tex_a_id
        && canvas_texture_built(t, "TAA Texture A"@, width, height, false)
    &&& plan[7] matches ResourceRequest::Texture(id, t) && id == ids.taa_tex_b_id
        && canvas_texture_built(t, "TAA Texture B"@, width, height, false)
    &&& plan[8] matches ResourceRequest::BindGroup(id, l, bg) && id == ids.rm_bg_id && l == ids.rm_bgl_id
        && raymarch_group_built(bg, ids, ids.reg_id, ids.vox_id)
    &&& plan[9] matches ResourceRequest::ComputePipeline(id, p) && id == ids.rm_pip_id
        && compute_pipeline_built(p, "Voxel Ray Marching Pipeline"@, ids.rm_bgl_id, "./shaders/ray_march.wgsl")
    &&& plan[10] matches ResourceRequest::BindGroup(id, l, bg) && id == ids.taa_bg_a_id && l == ids.taa_bgl_id
        && taa_group_built(bg, "TAA Bind Group A"@, ids.rm_tex_id, ids.taa_tex_a_id, ids.taa_tex_b_id)
    &&& plan[11] matches ResourceRequest::BindGroup(id, l, bg) && id == ids.taa_bg_b_id && l == ids.taa_bgl_id
        && taa_group_built(bg, "TAA Bind Group B"@, ids.rm_tex_id, ids.taa_tex_b_id, ids.taa_tex_a_id)
    &&& plan[12] matches ResourceRequest::ComputePipeline(id, p) && id == ids.taa_pip_id
        && compute_pipeline_built(p, "TAA Pipeline"@, ids.taa_bgl_id, "./shaders/taa.wgsl")
    &&& plan[13] matches ResourceRequest::BindGroup(id, l, bg) && id == ids.blit_bg_a_id && l == ids.blit_bgl_id
        && blit_group_built(bg, "Blit Bind Group A"@, ids.taa_tex_a_id)
    &&& plan[14] matches ResourceRequest::BindGroup(id, l, bg) && id == ids.blit_bg_b_id && l == ids.blit_bgl_id
        && blit_group_built(bg, "Blit Bind Group B"@, ids.taa_tex_b_id)
    &&& plan[15] matches ResourceRequest::RenderPipeline(id, p) && id == ids.blit_pip_id
        && blit_pipeline_built(p, ids.blit_bgl_id)
}

/// The requests after the canvas was resized to `width` by `height`, in order: each texture
/// of the canvas size is removed and requested again at the new size, then each bind group that
/// binds one of them, the ray march bind group now listing the voxel buffer first
pub open spec fn resize_requests(plan: Seq<ResourceRequest>, ids: GameIds, width: u32, height: u32) -> bool {
    &&& plan.len() == 16
    &&& plan[0] == ResourceRequest::RemoveTexture(ids.rm_tex_id)
    &&& plan[1] matches ResourceRequest::Texture(id, t) && id == ids.rm_tex_id
        && canvas_texture_built(t, "Raymarch Texture"@, width, height, false)
    &&& plan[2] == ResourceRequest::RemoveTexture(ids.taa_tex_a_id)
    &&& plan[3] matches ResourceRequest::Texture(id, t) && id == ids.taa_tex_a_id
        && canvas_texture_built(t, "TAA Texture A"@, width, height, false)
    &&& plan[4] == ResourceRequest::RemoveTexture(ids.taa_tex_b_id)
    &&& plan[5] matches ResourceRequest::Texture(id, t) && id == ids.taa_tex_b_id
        && canvas_texture_built(t, "TAA Texture B"@, width, height, false)
    &&& plan[6] == ResourceRequest::RemoveBindGroup(ids.rm_bg_id)
    &&& plan[7] matches ResourceRequest::BindGroup(id, l, bg) && id == ids.rm_bg_id && l == ids.rm_bgl_id
        && raymarch_group_built(bg, ids, ids.vox_id, ids.reg_id)
    &&& plan[8] == ResourceRequest::RemoveBindGroup(ids.taa_bg_a_id)
    &&& plan[9] matches ResourceRequest::BindGroup(id, l, bg) && id == ids.taa_bg_a_id && l == ids.taa_bgl_id
        && taa_group_built(bg, "TAA Bind Group A"@, ids.rm_tex_id, ids.taa_tex_a_id, ids.taa_tex_b_id)
    &&& plan[10] == ResourceRequest::RemoveBindGroup(ids.taa_bg_b_id)
    &&& plan[11] matches ResourceRequest::BindGroup(id, l, bg) && id == ids.taa_bg_b_id && l == ids.taa_bgl_id
        && taa_group_built(bg, "TAA Bind Group B"@, ids.rm_tex_id, ids.taa_tex_b_id, ids.taa_tex_a_id)
    &&& plan[12] == ResourceRequest::RemoveBindGroup(ids.blit_bg_a_id)
    &&& plan[13] matches ResourceRequest::BindGroup(id, l, bg) && id == ids.blit_bg_a_id && l == ids.blit_bgl_id
        && blit_group_built(bg, "Blit Bind Group A"@, ids.taa_tex_a_id)
    &&& plan[14] == ResourceRequest::RemoveBindGroup(ids.blit_bg_b_id)
    &&& plan[15] matches ResourceRequest::BindGroup(id, l, bg) && id == ids.blit_bg_b_id && l == ids.blit_bgl_id
        && blit_group_built(bg, "Blit Bind Group B"@, ids.taa_tex_b_id)
}

/// A uniform buffer with the label and the data, that can be written to
pub(crate) fn uniform_buffer(label: &str, data: &Vec<u8>) -> (buffer: Buffer<Uniform>)
    ensures
        uniform_built(buffer, label@, data@),
{
    Buffer::<Uniform>::as_uniform().with_label(label).with_byte_data(data.as_slice()).writable()
}

/// A storage buffer with the label and the data, that can be written to
pub(crate) fn storage_buffer(label: &str, data: &Vec<u8>) -> (buffer: Buffer<Storage>)
    ensures
        storage_built(buffer, label@, data@),
{
    Buffer::<Storage>::as_storage().with_label(label).with_byte_data(data.as_slice()).writable()
}

} // verus!
