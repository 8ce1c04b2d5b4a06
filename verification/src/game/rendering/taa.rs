use vstd::prelude::*;

use crate::game::plan::{compute_pipeline_built, ResourceRequest};
use crate::game::rendering::blueprints::{taa_bind_group, taa_group_built};
use crate::game::rendering::globals::GlobalIds;
use crate::graphics::resources::bindgroup::BindGroup;
use crate::graphics::resources::pipeline::{ComputeType, Pipeline};
use crate::graphics::commands::ComputeCommand;
use crate::graphics::context::{BindGroupId, LayoutId, PipelineId, TextureId};

verus! {

/// Temporal Anti-aliasing resource ids
#[derive(Clone, Copy, PartialEq, Eq, Debug)]
pub struct TaaIds {
    /// taa bind group layout
    pub bgl_id: LayoutId,
    /// taa bind group A
    pub bg_a_id: BindGroupId,
    /// taa bind group B
    pub bg_b_id: BindGroupId,
    /// taa pipeline
    pub pip_id: PipelineId,
}

/// `request` asks for a TAA bind group under the pass's layout: bind group A, which reads
/// history texture A, when `a`, else B
pub open spec fn is_taa_group_request(request: ResourceRequest, gb_ids: GlobalIds, ids: TaaIds, a: bool) -> bool {
    &&& request matches ResourceRequest::BindGroup(id, l, bg)
    &&& l == ids.bgl_id
    &&& if a {
        id == ids.bg_a_id && taa_group_built(bg, "TAA Bind Group A"@, gb_ids.rm_tex_id, gb_ids.taa_tex_a_id, gb_ids.taa_tex_b_id)
    } else {
        id == ids.bg_b_id && taa_group_built(bg, "TAA Bind Group B"@, gb_ids.rm_tex_id, gb_ids.taa_tex_b_id, gb_ids.taa_tex_a_id)
    }
}

/// The requests of the TAA pass, in order: bind group A, bind group B, then the pipeline
pub open spec fn taa_init_requests(plan: Seq<ResourceRequest>, gb_ids: GlobalIds, ids: TaaIds) -> bool {
    &&& plan.len() == 3
    &&& is_taa_group_request(plan[0], gb_ids, ids, true)
    &&& is_taa_group_request(plan[1], gb_ids, ids, false)
    &&& plan[2] matches ResourceRequest::ComputePipeline(id, p) && id == ids.pip_id
        && compute_pipeline_built(p, "TAA Pipeline"@, ids.bgl_id, "./shaders/taa.wgsl")
}

/// The requests after a resize, in order: bind group A is removed and requested again, then
/// bind group B
pub open spec fn taa_resize_requests(plan: Seq<ResourceRequest>, gb_ids: GlobalIds, ids: TaaIds) -> bool {
    &&& plan.len() == 4
    &&& plan[0] == ResourceRequest::RemoveBindGroup(ids.bg_a_id)
    &&& is_taa_group_request(plan[1], gb_ids, ids, true)
    &&& plan[2] == ResourceRequest::RemoveBindGroup(ids.bg_b_id)
    &&& is_taa_group_request(plan[3], gb_ids, ids, false)
}

/// The history texture the pass's next dispatch writes: bind group A writes texture B, bind
/// group B writes texture A
pub open spec fn taa_written_texture(pass: TaaPass) -> TextureId {
    if pass.uses_a() {
        pass.globals().taa_tex_b_id
    } else {
        pass.globals().taa_tex_a_id
    }
}

/// Blends the ray marched image with the history texture, alternating between the bind group
/// that reads texture A and writes texture B and the one that does the reverse. Texture A is
/// the history on even frames, counted from the start and from each resize, so the pass starts
/// with bind group A
pub struct TaaPass {
    gb_ids: GlobalIds,
    taa_ids: TaaIds,
    is_bg_a: bool,
}

impl TaaPass {
    /// The global ids the pass reads from
    pub closed spec fn globals(&self) -> GlobalIds {
        self.gb_ids
    }

    /// The ids of the pass's own resources
    pub closed spec fn ids(&self) -> TaaIds {
        self.taa_ids
    }

    /// Whether the next dispatch uses bind group A
    pub closed spec fn uses_a(&self) -> bool {
        self.is_bg_a
    }

    pub fn new(gb_ids: GlobalIds) -> (pass: Self)
        ensures
            pass.globals() == gb_ids,
            pass.ids().bgl_id.0@ == "taa_layout"@,
            pass.ids().bg_a_id.0@ == "taa_bind_group_a"@,
            pass.ids().bg_b_id.0@ == "taa_bind_group_b"@,
            pass.ids().pip_id.0@ == "taa_pipeline"@,
            pass.uses_a(),
    {
        let taa_ids = TaaIds {
            bgl_id: LayoutId("taa_layout"),
            bg_a_id: BindGroupId("taa_bind_group_a"),
            bg_b_id: BindGroupId("taa_bind_group_b"),
            pip_id: PipelineId("taa_pipeline"),
        };
        Self { gb_ids, taa_ids, is_bg_a: true }
    }

    /// The global ids the pass reads from
    pub fn global_ids(&self) -> (ids: GlobalIds)
        ensures
            ids == self.globals(),
    {
        self.gb_ids
    }

    /// The ids of the pass's own resources
    pub fn taa_ids(&self) -> (ids: TaaIds)
        ensures
            ids == self.ids(),
    {
        self.taa_ids
    }

    /// The requests for the pass's bind groups and pipeline
    pub fn init(&mut self) -> (plan: Vec<ResourceRequest>)
        ensures
            taa_init_requests(plan@, old(self).globals(), old(self).ids()),
            *final(self) == *old(self),
    {
        let mut plan: Vec<ResourceRequest> = Vec::new();
        plan.push(ResourceRequest::BindGroup(self.taa_ids.bg_a_id, self.taa_ids.bgl_id, self.bind_group_a()));
        plan.push(ResourceRequest::BindGroup(self.taa_ids.bg_b_id, self.taa_ids.bgl_id, self.bind_group_b()));
        plan.push(ResourceRequest::ComputePipeline(self.taa_ids.pip_id, self.pipeline()));
        plan
    }

    /// The requests that make both bind groups again after a resize, which bind the textures
    /// made at the new size; the pass starts over from bind group A
    pub fn on_resize(&mut self) -> (plan: Vec<ResourceRequest>)
        ensures
            taa_resize_requests(plan@, old(self).globals(), old(self).ids()),
            final(self).uses_a(),
            final(self).globals() == old(self).globals(),
            final(self).ids() == old(self).ids(),
    {
        let mut plan: Vec<ResourceRequest> = Vec::new();
        plan.push(ResourceRequest::RemoveBindGroup(self.taa_ids.bg_a_id));
        plan.push(ResourceRequest::BindGroup(self.taa_ids.bg_a_id, self.taa_ids.bgl_id, self.bind_group_a()));
        plan.push(ResourceRequest::RemoveBindGroup(self.taa_ids.bg_b_id));
        plan.push(ResourceRequest::BindGroup(self.taa_ids.bg_b_id, self.taa_ids.bgl_id, self.bind_group_b()));
        self.is_bg_a = true;
        plan
    }

    /// The dispatch of this frame over `wx` by `wy` workgroups; the next frame uses the other
    /// bind group
    pub fn get(&mut self, wx: u32, wy: u32) -> (cmd: ComputeCommand)
        ensures
            cmd.pipeline() == old(self).ids().pip_id,
            cmd.dispatch_size() == (wx, wy, 1u32),
            cmd.groups() == seq![
                if old(self).uses_a() {
                    old(self).ids().bg_a_id
                } else {
                    old(self).ids().bg_b_id
                },
            ],
            final(self).uses_a() == !old(self).uses_a(),
            final(self).globals() == old(self).globals(),
            final(self).ids() == old(self).ids(),
    {
        let taa_bg = if self.is_bg_a {
            self.taa_ids.bg_a_id
        } else {
            self.taa_ids.bg_b_id
        };
        self.is_bg_a = !self.is_bg_a;
        let groups = [taa_bg];
        let cmd = ComputeCommand::new(self.taa_ids.pip_id, (wx, wy, 1)).with_bind_groups(&groups);
        assert(groups@ =~= seq![taa_bg]);
        cmd
    }

    /// The bind group that reads history texture A and writes B
    pub fn bind_group_a(&self) -> (bg: BindGroup)
        ensures
            taa_group_built(bg, "TAA Bind Group A"@, self.globals().rm_tex_id, self.globals().taa_tex_a_id, self.globals().taa_tex_b_id),
    {
        taa_bind_group("TAA Bind Group A", self.gb_ids.rm_tex_id, self.gb_ids.taa_tex_a_id, self.gb_ids.taa_tex_b_id)
    }

    /// The bind group that reads history texture B and writes A
    pub fn bind_group_b(&self) -> (bg: BindGroup)
        ensures
            taa_group_built(bg, "TAA Bind Group B"@, self.globals().rm_tex_id, self.globals().taa_tex_b_id, self.globals().taa_tex_a_id),
    {
        taa_bind_group("TAA Bind Group B", self.gb_ids.rm_tex_id, self.gb_ids.taa_tex_b_id, self.gb_ids.taa_tex_a_id)
    }

    /// The pass's compute pipeline
    pub fn pipeline(&self) -> (pipeline: Pipeline<ComputeType>)
        ensures
            pipeline.label@ == "TAA Pipeline"@,
            pipeline.bg_layouts@ == seq![self.ids().bgl_id],
            pipeline.shader_path == Some("./shaders/taa.wgsl"),
            pipeline.ty.main@ == "cs_main"@,
    {
        let pipeline = Pipeline::<ComputeType>::default()
            .with_label("TAA Pipeline")
            .with_bg_layouts(&[self.taa_ids.bgl_id])
            .with_shader("./shaders/taa.wgsl");
        assert(pipeline.bg_layouts@ =~= seq![self.taa_ids.bgl_id]);
        pipeline
    }
}

} // verus!
