use vstd::prelude::*;

use crate::game::plan::{uniform_buffer, uniform_built, ResourceRequest};
use crate::game::rendering::blueprints::buffer_layout;
use crate::graphics::context::{BindGroupId, BufferId, GpuCommand, NamedBindGroup, PipelineId, RenderPassInfo};
use crate::graphics::resources::bindgroup::{
    stage_flag, BindGroup, BindingTarget, BufferBinding, BufferBindingType, GroupEntry, ShaderStage,
};
use crate::graphics::resources::pipeline::{Pipeline, RenderType};
use crate::graphics::resources::texture::TexFormat;

verus! {

/// Draws the scene with one render pipeline that reads the camera uniform
pub struct Renderer {
    cam_buffer: BufferId,
    cam_bind_group: NamedBindGroup,
    voxel_pipeline: PipelineId,
}

/// The renderer's bind group: the camera uniform, read by the fragment stage
pub open spec fn camera_group_built(bg: BindGroup, cam_buffer: BufferId) -> bool {
    &&& bg@.label == "Camera Bind Group"@
    &&& bg@.bindings == seq![GroupEntry { target: BindingTarget::Buffer(cam_buffer), slot: 0 }]
    &&& bg@.layout_entries == seq![buffer_layout(0, stage_flag(ShaderStage::Fragment), BufferBindingType::Uniform)]
}

/// The renderer's pipeline: the voxel shader entered at `vs_main` and `fs_main`, over the camera
/// bind group's layout, drawing to `format` without vertex buffers
pub open spec fn voxel_pipeline_built(pipeline: Pipeline<RenderType>, cam_bind_group: NamedBindGroup, format: TexFormat) -> bool {
    &&& pipeline.label@ == "Voxel Render Pipeline"@
    &&& pipeline.bg_layouts@ == seq![cam_bind_group.layout_id]
    &&& pipeline.shader_path == Some("./shaders/shader.wgsl")
    &&& pipeline.ty.vs_main@ == "vs_main"@
    &&& pipeline.ty.fs_main@ == "fs_main"@
    &&& pipeline.ty.format == format
    &&& pipeline.ty.vertex_layouts@.len() == 0
}

/// The requests that make a renderer, in order: the camera uniform holding `camera`, its bind
/// group, then the pipeline drawing to `format`
pub open spec fn renderer_requests(plan: Seq<ResourceRequest>, renderer: Renderer, camera: Seq<u8>, format: TexFormat) -> bool {
    &&& plan.len() == 3
    &&& plan[0] matches ResourceRequest::UniformBuffer(id, b) && id == renderer.camera_buffer()
        && uniform_built(b, "Camera Buffer"@, camera)
    &&& plan[1] matches ResourceRequest::BindGroup(id, l, bg) && id == renderer.camera_bind_group().id
        && l == renderer.camera_bind_group().layout_id && camera_group_built(bg, renderer.camera_buffer())
    &&& plan[2] matches ResourceRequest::RenderPipeline(id, p) && id == renderer.pipeline()
        && voxel_pipeline_built(p, renderer.camera_bind_group(), format)
}

impl Renderer {
    /// The id of the camera buffer
    pub closed spec fn camera_buffer(&self) -> BufferId {
        self.cam_buffer
    }

    /// The ids of the camera bind group and its layout
    pub closed spec fn camera_bind_group(&self) -> NamedBindGroup {
        self.cam_bind_group
    }

    /// The id of the render pipeline
    pub closed spec fn pipeline(&self) -> PipelineId {
        self.voxel_pipeline
    }

    /// A renderer, with the requests that make its resources: the camera buffer starts with the
    /// bytes of the camera uniform, and the pipeline draws to the surface's `format`
    pub fn new(camera_data: &Vec<u8>, format: TexFormat) -> (made: (Renderer, Vec<ResourceRequest>))
        ensures
            made.0.camera_buffer().0@ == "camera_buffer"@,
            made.0.camera_bind_group().id.0@ == "camera_bind_group"@,
            made.0.camera_bind_group().layout_id.0@ == "camera_bind_group"@ + "_layout"@,
            made.0.pipeline().0@ == "voxel_render_pipeline"@,
            renderer_requests(made.1@, made.0, camera_data@, format),
    {
        let renderer = Renderer {
            cam_buffer: BufferId("camera_buffer"),
            cam_bind_group: NamedBindGroup::new("camera_bind_group"),
            voxel_pipeline: PipelineId("voxel_render_pipeline"),
        };
        let bind_group = BindGroup::new().with_label("Camera Bind Group").with_entry(
            BufferBinding::as_uniform(renderer.cam_buffer),
        );
        assert(bind_group@.bindings =~= seq![GroupEntry { target: BindingTarget::Buffer(renderer.cam_buffer), slot: 0 }]);
        assert(bind_group@.layout_entries =~= seq![
            buffer_layout(0, stage_flag(ShaderStage::Fragment), BufferBindingType::Uniform)
        ]);
        let layouts = [renderer.cam_bind_group.layout_id];
        let pipeline = Pipeline::<RenderType>::default()
            .with_label("Voxel Render Pipeline")
            .with_bg_layouts(&layouts)
            .with_shader("./shaders/shader.wgsl")
            .with_format(format);
        assert(pipeline.bg_layouts@ =~= seq![renderer.cam_bind_group.layout_id]);
        let mut plan: Vec<ResourceRequest> = Vec::new();
        plan.push(ResourceRequest::UniformBuffer(renderer.cam_buffer, uniform_buffer("Camera Buffer", camera_data)));
        plan.push(ResourceRequest::BindGroup(renderer.cam_bind_group.id, renderer.cam_bind_group.layout_id, bind_group));
        plan.push(ResourceRequest::RenderPipeline(renderer.voxel_pipeline, pipeline));
        (renderer, plan)
    }

    /// The draw of a frame: one triangle covering the screen, drawn once with the pipeline and
    /// the camera bind group
    pub fn render(&self) -> (cmd: GpuCommand)
        ensures
            cmd matches GpuCommand::RenderPass(info) && {
                &&& info.pipeline_id == self.pipeline()
                &&& info.bind_groups@ == seq![self.camera_bind_group().id]
                &&& info.vertex_buffers@.len() == 0
                &&& info.index_buffer is None
                &&& info.vertex_count == 3
                &&& info.instance_count == 1
            },
    {
        let mut bind_groups: Vec<BindGroupId> = Vec::new();
        bind_groups.push(self.cam_bind_group.id);
        GpuCommand::RenderPass(
            RenderPassInfo {
                pipeline_id: self.voxel_pipeline,
                bind_groups,
                vertex_buffers: Vec::new(),
                index_buffer: None,
                vertex_count: 3,
                instance_count: 1,
            },
        )
    }
}

} // verus!
