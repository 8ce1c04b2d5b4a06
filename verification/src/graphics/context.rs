use vstd::prelude::*;
use vstd::string::StringExecFns;

verus! {

/// Compares two string slices by their contents.
///
/// Calls `==` on `&str`, which std defines as comparing the two strings' bytes; the contract
/// states that the result is whether the two hold the same characters.
#[verifier::external_body]
pub(crate) fn str_eq(a: &str, b: &str) -> (same: bool)
    ensures
        same == (a@ == b@),
{
    a == b
}

/// Turns a string into a string slice that lives for the rest of the program.
///
/// Calls `String::leak`; the contract states that the slice holds the string's characters.
#[verifier::external_body]
fn leak_string(s: String) -> (leaked: &'static str)
    ensures
        leaked@ == s@,
{
    s.leak()
}

/// unique identifier to a buffer
#[derive(Clone, Copy, Debug, Eq, Hash)]
pub struct BufferId(pub &'static str);

impl PartialEq for BufferId {
    fn eq(&self, other: &Self) -> (same: bool) {
        str_eq(self.0, other.0)
    }
}

impl vstd::std_specs::cmp::PartialEqSpecImpl for BufferId {
    open spec fn obeys_eq_spec() -> bool {
        true
    }

    open spec fn eq_spec(&self, other: &Self) -> bool {
        self.0@ == other.0@
    }
}

/// unique identifier for a texture
#[derive(Clone, Copy, Debug, Eq, Hash)]
pub struct TextureId(pub &'static str);

impl PartialEq for TextureId {
    fn eq(&self, other: &Self) -> (same: bool) {
        str_eq(self.0, other.0)
    }
}

impl vstd::std_specs::cmp::PartialEqSpecImpl for TextureId {
    open spec fn obeys_eq_spec() -> bool {
        true
    }

    open spec fn eq_spec(&self, other: &Self) -> bool {
        self.0@ == other.0@
    }
}

/// unique identifier for a sampler
#[derive(Clone, Copy, Debug, Eq, Hash)]
pub struct SamplerId(pub &'static str);

impl PartialEq for SamplerId {
    fn eq(&self, other: &Self) -> (same: bool) {
        str_eq(self.0, other.0)
    }
}

impl vstd::std_specs::cmp::PartialEqSpecImpl for SamplerId {
    open spec fn obeys_eq_spec() -> bool {
        true
    }

    open spec fn eq_spec(&self, other: &Self) -> bool {
        self.0@ == other.0@
    }
}

/// unique identifier for a pipeline
#[derive(Clone, Copy, Debug, Eq, Hash)]
pub struct PipelineId(pub &'static str);

impl PartialEq for PipelineId {
    fn eq(&self, other: &Self) -> (same: bool) {
        str_eq(self.0, other.0)
    }
}

impl vstd::std_specs::cmp::PartialEqSpecImpl for PipelineId {
    open spec fn obeys_eq_spec() -> bool {
        true
    }

    open spec fn eq_spec(&self, other: &Self) -> bool {
        self.0@ == other.0@
    }
}

/// unique identifier for a bind group
#[derive(Clone, Copy, Debug, Eq, Hash)]
pub struct BindGroupId(pub &'static str);

impl PartialEq for BindGroupId {
    fn eq(&self, other: &Self) -> (same: bool) {
        str_eq(self.0, other.0)
    }
}

impl vstd::std_specs::cmp::PartialEqSpecImpl for BindGroupId {
    open spec fn obeys_eq_spec() -> bool {
        true
    }

    open spec fn eq_spec(&self, other: &Self) -> bool {
        self.0@ == other.0@
    }
}

/// unique identifier for a bind group layout
#[derive(Clone, Copy, Debug, Eq, Hash)]
pub struct LayoutId(pub &'static str);

impl PartialEq for LayoutId {
    fn eq(&self, other: &Self) -> (same: bool) {
        str_eq(self.0, other.0)
    }
}

impl vstd::std_specs::cmp::PartialEqSpecImpl for LayoutId {
    open spec fn obeys_eq_spec() -> bool {
        true
    }

    open spec fn eq_spec(&self, other: &Self) -> bool {
        self.0@ == other.0@
    }
}

/// Helper struct encapsulating the id of a bind group and it's associated layout
#[derive(Clone, Copy, Debug, Eq, Hash)]
pub struct NamedBindGroup {
    pub layout_id: LayoutId,
    pub id: BindGroupId,
}

impl PartialEq for NamedBindGroup {
    fn eq(&self, other: &Self) -> (same: bool) {
        str_eq(self.layout_id.0, other.layout_id.0) && str_eq(self.id.0, other.id.0)
    }
}

impl vstd::std_specs::cmp::PartialEqSpecImpl for NamedBindGroup {
    open spec fn obeys_eq_spec() -> bool {
        true
    }

    open spec fn eq_spec(&self, other: &Self) -> bool {
        self.layout_id.0@ == other.layout_id.0@ && self.id.0@ == other.id.0@
    }
}

impl NamedBindGroup {
    /// A bind group named `name` whose layout is named `name` followed by `_layout`
    pub fn new(name: &'static str) -> (named: Self)
        ensures
            named.id.0@ == name@,
            named.layout_id.0@ == name@ + "_layout"@,
    {
        let mut layout_name = String::from_str(name);
        layout_name.append("_layout");
        Self { id: BindGroupId(name), layout_id: LayoutId(leak_string(layout_name)) }
    }
}

/// Represents a render pass
#[derive(Clone, Debug)]
pub struct RenderPassInfo {
    pub pipeline_id: PipelineId,
    pub bind_groups: Vec<BindGroupId>,
    pub vertex_buffers: Vec<BufferId>,
    pub index_buffer: Option<BufferId>,
    pub vertex_count: u32,
    pub instance_count: u32,
}

/// Represents a compute pass
#[derive(Debug)]
pub struct ComputePassInfo {
    pub pipeline_id: PipelineId,
    pub bind_groups: Vec<BindGroupId>,
    /// x, y, z
    pub work_groups: (u32, u32, u32),
}

impl Clone for ComputePassInfo {
    fn clone(&self) -> (copy: Self)
        ensures
            copy.pipeline_id == self.pipeline_id,
            copy.bind_groups@ == self.bind_groups@,
            copy.work_groups == self.work_groups,
    {
        ComputePassInfo {
            pipeline_id: self.pipeline_id,
            bind_groups: self.bind_groups.clone(),
            work_groups: self.work_groups,
        }
    }
}

/// Represents a render or compute pass.
#[derive(Clone, Debug)]
pub enum GpuCommand {
    RenderPass(RenderPassInfo),
    ComputePass(ComputePassInfo),
    CopyTexture { src: TextureId, dst: TextureId },
}

} // verus!
