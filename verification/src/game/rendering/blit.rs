use vstd::prelude::*;

use crate::game::plan::{blit_pipeline_built, ResourceRequest};
use crate::game::rendering::blueprints::{blit_bind_group, blit_group_built};
use crate::game::rendering::globals::GlobalIds;
use crate::game::rendering::taa::{taa_written_texture, TaaPass};
use crate::graphics::resources::bindgroup::BindGroup;
use crate::graphics::resources::pipeline::{Pipeline, RenderType};
use crate::graphics::resources::texture::TexFormat;
use crate::graphics::context::{
    BindGroupId, BufferId, GpuCommand, LayoutId, PipelineId, RenderPassInfo, TextureId,
};

verus! {

/// Blit resource ids
#[derive(Clone, Copy, PartialEq, Eq, Debug)]
pub struct BlitIds {
    /// blit bind group layout
    pub bgl_id: LayoutId,
    /// blit bind group A
    pub bg_a_id: BindGroupId,
    /// blit bind group B
    pub bg_b_id: BindGroupId,
    /// blit pipeline
    pub pip_id: PipelineId,
}

/// `request` asks for a blit bind group under the pass's layout: bind group A, which shows
/// history texture A, when `a`, else B
pub open spec fn is_blit_group_request(request: ResourceRequest, gb_ids: GlobalIds, ids: BlitIds, a: bool) -> bool {
    &&& request matches ResourceRequest::BindGroup(id, l, bg)
    &&& l == ids.bgl_id
    &&& if a {
        id == ids.bg_a_id && blit_group_built(bg, "Blit Bind Group A"@, gb_ids.taa_tex_a_id)
    } else {
        id == ids.bg_b_id && blit_group_built(bg, "Blit Bind Group B"@, gb_ids.taa_tex_b_id)
    }
}

/// The requests of the blit pass, in order: bind group A, bind group B, then the pipeline
pub open spec fn blit_init_requests(plan: Seq<ResourceRequest>, gb_ids: GlobalIds, ids: BlitIds) -> bool {
    &&& plan.len() == 3
    &&& is_blit_group_request(plan[0], gb_ids, ids, true)
    &&& is_blit_group_request(plan[1], gb_ids, ids, false)
    &&& plan[2] matches ResourceRequest::RenderPipeline(id, p) && id == ids.pip_id && blit_pipeline_built(p, ids.bgl_id)
}

/// The requests after a resize, in order: bind group A is removed and requested again, then
/// bind group B
pub open spec fn blit_resize_requests(plan: Seq<ResourceRequest>, gb_ids: GlobalIds, ids: BlitIds) -> bool {
    &&& plan.len() == 4
    &&& plan[0] == ResourceRequest::RemoveBindGroup(ids.bg_a_id)
    &&& is_blit_group_request(plan[1], gb_ids, ids, true)
    &&& plan[2] == ResourceRequest::RemoveBindGroup(ids.bg_b_id)
    &&& is_blit_group_request(plan[3], gb_ids, ids, false)
}

/// Draws the anti-aliased image to the screen, alternating between the bind group that shows
/// texture A and the one that shows texture B. It shows the texture the TAA pass has just
/// written, which is B on even frames, so it starts with bind group B
pub struct BlitPass {
    gb_ids: GlobalIds,
    blit_ids: BlitIds,
    is_bg_a: bool,
}

/// `cmd` is the draw the blit pass issues with bind group `bg`: one triangle covering the
/// screen, drawn once with the blit pipeline
pub open spec fn is_blit_draw(cmd: GpuCommand, ids: BlitIds, bg: BindGroupId) -> bool {
    &&& cmd matches GpuCommand::RenderPass(info)
    &&& info.pipeline_id == ids.pip_id
    &&& info.bind_groups@ == seq![bg]
    &&& info.vertex_buffers@ == Seq::<BufferId>::empty()
    &&& info.index_buffer is None
    &&& info.vertex_count == 3
    &&& info.instance_count == 1
}

impl BlitPass {
    /// The global ids the pass reads from
    pub closed spec fn globals(&self) -> GlobalIds {
        self.gb_ids
    }

    /// The ids of the pass's own resources
    pub closed spec fn ids(&self) -> BlitIds {
        self.blit_ids
    }

    /// Whether the next draw uses bind group A
    pub closed spec fn uses_a(&self) -> bool {
        self.is_bg_a
    }

    pub fn new(gb_ids: GlobalIds) -> (pass: Self)
        ensures
            pass.globals() == gb_ids,
            pass.ids().bgl_id.0@ == "blit_layout"@,
            pass.ids().bg_a_id.0@ == "blit_bind_group_a"@,
            pass.ids().bg_b_id.0@ == "blit_bind_group_b"@,
            pass.ids().pip_id.0@ == "blit_pipeline"@,
            !pass.uses_a(),
    {
        let blit_ids = BlitIds {
            bgl_id: LayoutId("blit_layout"),
            bg_a_id: BindGroupId("blit_bind_group_a"),
            bg_b_id: BindGroupId("blit_bind_group_b"),
            pip_id: PipelineId("blit_pipeline"),
        };
        Self { gb_ids, blit_ids, is_bg_a: false }
    }

    /// The global ids the pass reads from
    pub fn global_ids(&self) -> (ids: GlobalIds)
        ensures
            ids == self.globals(),
    {
        self.gb_ids
    }

    /// The ids of the pass's own resources
    pub fn blit_ids(&self) -> (ids: BlitIds)
        ensures
            ids == self.ids(),
    {
        self.blit_ids
    }

    /// The requests for the pass's bind groups and pipeline
    pub fn init(&mut self) -> (plan: Vec<ResourceRequest>)
        ensures
            blit_init_requests(plan@, old(self).globals(), old(self).ids()),
            *final(self) == *old(self),
    {
        let mut plan: Vec<ResourceRequest> = Vec::new();
        plan.push(ResourceRequest::BindGroup(self.blit_ids.bg_a_id, self.blit_ids.bgl_id, self.bind_group_a()));
        plan.push(ResourceRequest::BindGroup(self.blit_ids.bg_b_id, self.blit_ids.bgl_id, self.bind_group_b()));
        plan.push(ResourceRequest::RenderPipeline(self.blit_ids.pip_id, self.pipeline()));
        plan
    }

    /// The requests that make both bind groups again after a resize, which bind the textures
    /// made at the new size; the pass starts over from bind group B
    pub fn on_resize(&mut self) -> (plan: Vec<ResourceRequest>)
        ensures
            blit_resize_requests(plan@, old(self).globals(), old(self).ids()),
            !final(self).uses_a(),
            final(self).globals() == old(self).globals(),
            final(self).ids() == old(self).ids(),
    {
        let mut plan: Vec<ResourceRequest> = Vec::new();
        plan.push(ResourceRequest::RemoveBindGroup(self.blit_ids.bg_a_id));
        plan.push(ResourceRequest::BindGroup(self.blit_ids.bg_a_id, self.blit_ids.bgl_id, self.bind_group_a()));
        plan.push(ResourceRequest::RemoveBindGroup(self.blit_ids.bg_b_id));
        plan.push(ResourceRequest::BindGroup(self.blit_ids.bg_b_id, self.blit_ids.bgl_id, self.bind_group_b()));
        self.is_bg_a = false;
        plan
    }

    /// The draw of this frame; the next frame uses the other bind group
    pub fn get(&mut self) -> (cmd: GpuCommand)
        ensures
            is_blit_draw(
                cmd,
                old(self).ids(),
                if old(self).uses_a() {
                    old(self).ids().bg_a_id
                } else {
                    old(self).ids().bg_b_id
                },
            ),
            final(self).uses_a() == !old(self).uses_a(),
            final(self).globals() == old(self).globals(),
            final(self).ids() == old(self).ids(),
    {
        let blit_bg = if self.is_bg_a {
            self.blit_ids.bg_a_id
        } else {
            self.blit_ids.bg_b_id
        };
        self.is_bg_a = !self.is_bg_a;
        let mut bind_groups: Vec<BindGroupId> = Vec::new();
        bind_groups.push(blit_bg);
        assert(bind_groups@ =~= seq![blit_bg]);
        GpuCommand::RenderPass(
            RenderPassInfo {
                pipeline_id: self.blit_ids.pip_id,
                bind_groups,
                vertex_buffers: Vec::new(),
                index_buffer: None,
                vertex_count: 3,
                instance_count: 1,
            },
        )
    }

    /// The bind group that draws history texture A
    pub fn bind_group_a(&self) -> (bg: BindGroup)
        ensures
            blit_group_built(bg, "Blit Bind Group A"@, self.globals().taa_tex_a_id),
    {
        blit_bind_group("Blit Bind Group A", self.gb_ids.taa_tex_a_id)
    }

    /// The bind group that draws history texture B
    pub fn bind_group_b(&self) -> (bg: BindGroup)
        ensures
            blit_group_built(bg, "Blit Bind Group B"@, self.globals().taa_tex_b_id),
    {
        blit_bind_group("Blit Bind Group B", self.gb_ids.taa_tex_b_id)
    }

    /// The pass's render pipeline
    pub fn pipeline(&self) -> (pipeline: Pipeline<RenderType>)
        ensures
            pipeline.label@ == "Voxel Render Pipeline"@,
            pipeline.bg_layouts@ == seq![self.ids().bgl_id],
            pipeline.shader_path == Some("./shaders/blit.wgsl"),
            pipeline.ty.vs_main@ == "vs_main"@,
            pipeline.ty.fs_main@ == "fs_main"@,
            pipeline.ty.format == TexFormat::Bgra8UnormSrgb,
            pipeline.ty.vertex_layouts@.len() == 0,
    {
        let pipeline = Pipeline::<RenderType>::default()
            .with_label("Voxel Render Pipeline")
            .with_bg_layouts(&[self.blit_ids.bgl_id])
            .with_shader("./shaders/blit.wgsl");
        assert(pipeline.bg_layouts@ =~= seq![self.blit_ids.bgl_id]);
        pipeline
    }
}

/// The history texture the pass's next draw shows: bind group A shows texture A, bind group B
/// shows texture B
pub open spec fn blit_shown_texture(pass: BlitPass) -> TextureId {
    if pass.uses_a() {
        pass.globals().taa_tex_a_id
    } else {
        pass.globals().taa_tex_b_id
    }
}

/// The TAA and blit passes work on the same textures and are on opposite bind groups, as they
/// are when both are new or both were just resized
pub open spec fn passes_in_step(taa: TaaPass, blit: BlitPass) -> bool {
    &&& taa.globals() == blit.globals()
    &&& taa.uses_a() != blit.uses_a()
}

/// Passes in step stay in step frame after frame: in each frame the blit pass shows the texture
/// the TAA pass has just written, and after one dispatch and one draw (each switching to its
/// other bind group) they are in step again.
pub proof fn law_taa_and_blit_in_step(taa: TaaPass, blit: BlitPass, next_taa: TaaPass, next_blit: BlitPass)
    requires
        passes_in_step(taa, blit),
        next_taa.uses_a() == !taa.uses_a(),
        next_taa.globals() == taa.globals(),
        next_blit.uses_a() == !blit.uses_a(),
        next_blit.globals() == blit.globals(),
    ensures
        taa_written_texture(taa) == blit_shown_texture(blit),
        passes_in_step(next_taa, next_blit),
{
}

} // verus!
