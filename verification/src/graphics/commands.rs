use vstd::prelude::*;

use crate::graphics::context::{BindGroupId, BufferId, PipelineId};

verus! {

/// Dispatches a compute shader to the gpu
pub struct ComputeCommand {
    pip_id: PipelineId,
    bind_groups: Vec<BindGroupId>,
    workgroups: (u32, u32, u32),
}

impl ComputeCommand {
    /// The pipeline the command dispatches
    pub closed spec fn pipeline(&self) -> PipelineId {
        self.pip_id
    }

    /// The bind groups set for the dispatch, in slot order
    pub closed spec fn groups(&self) -> Seq<BindGroupId> {
        self.bind_groups@
    }

    /// The number of workgroups dispatched along x, y and z
    pub closed spec fn dispatch_size(&self) -> (u32, u32, u32) {
        self.workgroups
    }

    pub fn new(pip_id: PipelineId, workgroups: (u32, u32, u32)) -> (cmd: Self)
        ensures
            cmd.pipeline() == pip_id,
            cmd.groups() == Seq::<BindGroupId>::empty(),
            cmd.dispatch_size() == workgroups,
    {
        Self { pip_id, workgroups, bind_groups: Vec::new() }
    }

    /// Add a set of bind groups to the command, after the ones it has
    pub fn with_bind_groups(self, bind_groups: &[BindGroupId]) -> (cmd: Self)
        ensures
            cmd.pipeline() == self.pipeline(),
            cmd.groups() == self.groups() + bind_groups@,
            cmd.dispatch_size() == self.dispatch_size(),
    {
        let mut cmd = self;
        let ghost orig_groups = cmd.bind_groups@;
        let ghost orig_pip = cmd.pip_id;
        let ghost orig_workgroups = cmd.workgroups;
        let mut i: usize = 0;
        while i < bind_groups.len()
            invariant
                i <= bind_groups@.len(),
                cmd.bind_groups@ == orig_groups + bind_groups@.take(i as int),
                cmd.pip_id == orig_pip,
                cmd.workgroups == orig_workgroups,
            decreases bind_groups@.len() - i,
        {
            cmd.bind_groups.push(bind_groups[i]);
            assert(bind_groups@.take(i + 1) =~= bind_groups@.take(i as int).push(bind_groups@[i as int]));
            i += 1;
        }
        assert(bind_groups@.take(bind_groups@.len() as int) =~= bind_groups@);
        cmd
    }

    /// The pipeline the command dispatches
    pub fn pipeline_id(&self) -> (id: PipelineId)
        ensures
            id == self.pipeline(),
    {
        self.pip_id
    }

    /// The bind groups set for the dispatch, in slot order
    pub fn bind_groups(&self) -> (groups: &[BindGroupId])
        ensures
            groups@ == self.groups(),
    {
        self.bind_groups.as_slice()
    }

    /// The number of workgroups dispatched along x, y and z
    pub fn workgroups(&self) -> (size: (u32, u32, u32))
        ensures
            size == self.dispatch_size(),
    {
        self.workgroups
    }
}

/// Represents a handle to a render/compute pipeline
pub enum PipelineHandle<R, C> {
    Render(R),
    Compute(C),
}

impl<R, C> PipelineHandle<R, C> {
    /// Get the render pipeline handle if this handle is the Render variant
    pub fn to_render(&self) -> (handle: Option<&R>)
        ensures
            match self {
                PipelineHandle::Render(r) => handle == Some(r),
                PipelineHandle::Compute(_) => handle is None,
            },
    {
        match self {
            PipelineHandle::Render(handle) => Some(handle),
            PipelineHandle::Compute(_) => None,
        }
    }

    /// Get the compute pipeline handle if this handle is the Compute variant
    pub fn to_compute(&self) -> (handle: Option<&C>)
        ensures
            match self {
                PipelineHandle::Compute(c) => handle == Some(c),
                PipelineHandle::Render(_) => handle is None,
            },
    {
        match self {
            PipelineHandle::Compute(handle) => Some(handle),
            PipelineHandle::Render(_) => None,
        }
    }
}

/// The format of the indices of an index buffer
#[derive(Clone, Copy, Debug, PartialEq, Eq, Structural)]
pub enum IndexFormat {
    Uint16,
    Uint32,
}

/// Draws triangles to the output view `V` with a render pipeline
pub struct DrawCommand<V> {
    /// the id to the pipeline the draw command will run on
    pub pip_id: PipelineId,
    /// the output view for which the draw will render to
    pub output_view: V,
    /// the set of bind groups used in the pipeline
    pub bind_groups: Vec<BindGroupId>,
    /// the set of vertex buffers used in the draw command
    pub vertex_buffers: Vec<BufferId>,
    /// optional index buffer. When set, invocations must be proportional to the size of this buffer.
    pub index_buffer: Option<BufferId>,
    /// the format of the index buffer, if provided
    pub index_format: Option<IndexFormat>,
    /// The number of invocations to run with the pipeline
    pub invocations: u32,
    /// The number of instances to draw.
    pub instance_count: u32,
}

impl<V> DrawCommand<V> {
    pub fn new(pip_id: PipelineId, output_view: V, invocations: u32) -> (cmd: Self)
        ensures
            cmd.pip_id == pip_id,
            cmd.output_view == output_view,
            cmd.invocations == invocations,
            cmd.bind_groups@.len() == 0,
            cmd.vertex_buffers@.len() == 0,
            cmd.index_buffer is None,
            cmd.index_format is None,
            cmd.instance_count == 1,
    {
        Self {
            pip_id,
            output_view,
            invocations,
            bind_groups: Vec::new(),
            vertex_buffers: Vec::new(),
            index_buffer: None,
            index_format: None,
            instance_count: 1,
        }
    }

    /// Add a set of vertex buffers to the draw command, after the ones it has
    pub fn with_vertex_buffers(self, buffers: &[BufferId]) -> (cmd: Self)
        ensures
            cmd.vertex_buffers@ == self.vertex_buffers@ + buffers@,
            cmd.bind_groups == self.bind_groups,
            cmd.pip_id == self.pip_id,
            cmd.output_view == self.output_view,
            cmd.index_buffer == self.index_buffer,
            cmd.index_format == self.index_format,
            cmd.invocations == self.invocations,
            cmd.instance_count == self.instance_count,
    {
        let mut cmd = self;
        let ghost start = cmd.vertex_buffers@;
        let mut i: usize = 0;
        while i < buffers.len()
            invariant
                i <= buffers@.len(),
                cmd.vertex_buffers@ == start + buffers@.take(i as int),
                cmd.bind_groups == self.bind_groups,
                cmd.pip_id == self.pip_id,
                cmd.output_view == self.output_view,
                cmd.index_buffer == self.index_buffer,
                cmd.index_format == self.index_format,
                cmd.invocations == self.invocations,
                cmd.instance_count == self.instance_count,
            decreases buffers@.len() - i,
        {
            cmd.vertex_buffers.push(buffers[i]);
            i += 1;
            assert(cmd.vertex_buffers@ =~= start + buffers@.take(i as int));
        }
        assert(buffers@.take(buffers@.len() as int) =~= buffers@);
        cmd
    }

    /// Add an index buffer to the draw command.
    pub fn with_index_buffer(self, buffer: BufferId, format: IndexFormat) -> (cmd: Self)
        ensures
            cmd.index_buffer == Some(buffer),
            cmd.index_format == Some(format),
            cmd.vertex_buffers == self.vertex_buffers,
            cmd.bind_groups == self.bind_groups,
            cmd.pip_id == self.pip_id,
            cmd.output_view == self.output_view,
            cmd.invocations == self.invocations,
            cmd.instance_count == self.instance_count,
    {
        let mut cmd = self;
        cmd.index_buffer = Some(buffer);
        cmd.index_format = Some(format);
        cmd
    }

    /// Add a set of bind groups to the draw command, after the ones it has
    pub fn with_bind_groups(self, groups: &[BindGroupId]) -> (cmd: Self)
        ensures
            cmd.bind_groups@ == self.bind_groups@ + groups@,
            cmd.vertex_buffers == self.vertex_buffers,
            cmd.pip_id == self.pip_id,
            cmd.output_view == self.output_view,
            cmd.index_buffer == self.index_buffer,
            cmd.index_format == self.index_format,
            cmd.invocations == self.invocations,
            cmd.instance_count == self.instance_count,
    {
        let mut cmd = self;
        let ghost start = cmd.bind_groups@;
        let mut i: usize = 0;
        while i < groups.len()
            invariant
                i <= groups@.len(),
                cmd.bind_groups@ == start + groups@.take(i as int),
                cmd.vertex_buffers == self.vertex_buffers,
                cmd.pip_id == self.pip_id,
                cmd.output_view == self.output_view,
                cmd.index_buffer == self.index_buffer,
                cmd.index_format == self.index_format,
                cmd.invocations == self.invocations,
                cmd.instance_count == self.instance_count,
            decreases groups@.len() - i,
        {
            cmd.bind_groups.push(groups[i]);
            i += 1;
            assert(cmd.bind_groups@ =~= start + groups@.take(i as int));
        }
        assert(groups@.take(groups@.len() as int) =~= groups@);
        cmd
    }
}

} // verus!
