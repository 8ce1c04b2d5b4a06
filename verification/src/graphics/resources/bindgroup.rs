use vstd::prelude::*;
use vstd::string::StringExecFns;

use crate::graphics::context::{BufferId, SamplerId, TextureId};
use crate::graphics::resources::texture::TexFormat;

verus! {

/// The shader stages a binding can be visible from
#[derive(Clone, Copy, Debug, PartialEq, Eq, Structural)]
pub enum ShaderStage {
    Vertex,
    Fragment,
    Compute,
    VertexFragment,
}

/// The bits that wgpu gives each shader stage in `wgpu::ShaderStages`
pub open spec fn stage_flag(stage: ShaderStage) -> u32 {
    match stage {
        ShaderStage::Vertex => 1,
        ShaderStage::Fragment => 2,
        ShaderStage::Compute => 4,
        ShaderStage::VertexFragment => 3,
    }
}

/// The bits of a shader stage as wgpu defines them.
///
/// Reads the `bits()` of the matching `wgpu::ShaderStages` constant; the contract states the
/// value that wgpu's source gives each constant (`VERTEX_FRAGMENT` is the vertex bit or'd with
/// the fragment bit).
#[verifier::external_body]
pub(crate) fn stage_bits(stage: ShaderStage) -> (bits: u32)
    ensures
        bits == stage_flag(stage),
{
    match stage {
        ShaderStage::Vertex => wgpu::ShaderStages::VERTEX.bits(),
        ShaderStage::Fragment => wgpu::ShaderStages::FRAGMENT.bits(),
        ShaderStage::Compute => wgpu::ShaderStages::COMPUTE.bits(),
        ShaderStage::VertexFragment => wgpu::ShaderStages::VERTEX_FRAGMENT.bits(),
    }
}

/// The target ID for a bind group entry
#[derive(Clone, Copy, Debug, PartialEq, Eq)]
pub enum BindingTarget {
    Buffer(BufferId),
    Texture(TextureId),
    Sampler(SamplerId),
}

/// How a buffer is bound
#[derive(Clone, Copy, Debug, PartialEq, Eq, Structural)]
pub enum BufferBindingType {
    Uniform,
    Storage { read_only: bool },
}

/// How a sampler is bound
#[derive(Clone, Copy, Debug, PartialEq, Eq, Structural)]
pub enum SamplerBindingType {
    Filtering,
    NonFiltering,
    Comparison,
}

/// How a storage texture may be accessed
#[derive(Clone, Copy, Debug, PartialEq, Eq, Structural)]
pub enum StorageTextureAccess {
    WriteOnly,
    ReadOnly,
    ReadWrite,
    Atomic,
}

/// The dimension of a texture view
#[derive(Clone, Copy, Debug, PartialEq, Eq, Structural)]
pub enum TextureViewDimension {
    D1,
    D2,
    D2Array,
    Cube,
    CubeArray,
    D3,
}

/// The type of a binding, as a bind group layout describes it
#[derive(Clone, Copy, Debug, PartialEq, Eq)]
pub enum BindingType {
    Buffer { ty: BufferBindingType, has_dynamic_offset: bool, min_binding_size: Option<u64> },
    StorageTexture { access: StorageTextureAccess, format: TexFormat, view_dimension: TextureViewDimension },
    Texture { filterable: bool, view_dimension: TextureViewDimension, multisampled: bool },
    Sampler(SamplerBindingType),
}

/// An entry of a bind group layout
#[derive(Clone, Copy, Debug)]
pub struct LayoutEntry {
    pub binding: u32,
    /// `wgpu::ShaderStages` bits
    pub visibility: u32,
    pub ty: BindingType,
}

/// Represents gpu resources that can be used in a bind group
pub trait Bindable {
    /// The binding type, as a value
    spec fn binding_view(&self) -> BindingType;

    /// The target resource, as a value
    spec fn target_view(&self) -> BindingTarget;

    /// The visibility bits, as a value
    spec fn visibility_view(&self) -> u32;

    /// Get the resource binding as it's entire binding type
    fn as_binding(&self) -> (ty: BindingType)
        ensures
            ty == self.binding_view(),
    ;

    /// Get the id of the target resource the binding refers to
    fn target(&self) -> (target: BindingTarget)
        ensures
            target == self.target_view(),
    ;

    /// Get the shader stage visibility bits of the resource binding
    fn visibility(&self) -> (bits: u32)
        ensures
            bits == self.visibility_view(),
    ;
}

#[derive(Clone, Copy, Debug)]
pub struct GroupEntry {
    pub target: BindingTarget,
    pub slot: u32,
}

/// A blueprint for a bind group: the layout of its entries and the resources bound to them
pub struct BindGroup {
    pub label: String,
    pub layout_entries: Vec<LayoutEntry>,
    pub bindings: Vec<GroupEntry>,
}

/// The contents of a bind group blueprint, as values
pub struct BindGroupView {
    pub label: Seq<char>,
    pub layout_entries: Seq<LayoutEntry>,
    pub bindings: Seq<GroupEntry>,
}

impl View for BindGroup {
    type V = BindGroupView;

    open spec fn view(&self) -> BindGroupView {
        BindGroupView {
            label: self.label@,
            layout_entries: self.layout_entries@,
            bindings: self.bindings@,
        }
    }
}

/// A copy of the elements of `items`
fn copy_items<T: Copy>(items: &Vec<T>) -> (copy: Vec<T>)
    ensures
        copy@ == items@,
{
    let mut copy: Vec<T> = Vec::new();
    let mut i: usize = 0;
    while i < items.len()
        invariant
            i <= items@.len(),
            copy@ == items@.take(i as int),
        decreases items@.len() - i,
    {
        copy.push(items[i]);
        i += 1;
        assert(copy@ =~= items@.take(i as int));
    }
    assert(items@.take(items@.len() as int) =~= items@);
    copy
}

impl Clone for BindGroup {
    fn clone(&self) -> (copy: Self)
        ensures
            copy@ == self@,
    {
        BindGroup {
            label: self.label.clone(),
            layout_entries: copy_items(&self.layout_entries),
            bindings: copy_items(&self.bindings),
        }
    }
}

/// Entry `i` of the group is bound at slot `i`, in its layout and in its bindings alike
pub open spec fn slots_in_order(group: BindGroupView) -> bool {
    &&& group.bindings.len() == group.layout_entries.len()
    &&& forall|i: int| 0 <= i < group.bindings.len() ==> (#[trigger] group.bindings[i]).slot == i
    &&& forall|i: int| 0 <= i < group.layout_entries.len() ==> (#[trigger] group.layout_entries[i]).binding == i
}

impl BindGroup {
    pub fn new() -> (group: Self)
        ensures
            group.label@ == "bind_group"@,
            group.layout_entries@ == Seq::<LayoutEntry>::empty(),
            group.bindings@ == Seq::<GroupEntry>::empty(),
            slots_in_order(group@),
    {
        Self { label: String::from_str("bind_group"), layout_entries: Vec::new(), bindings: Vec::new() }
    }

    /// Set the label for gpu profiling of the resultant bind group
    pub fn with_label(self, label: &str) -> (group: Self)
        ensures
            group.label@ == label@,
            group.layout_entries == self.layout_entries,
            group.bindings == self.bindings,
    {
        let mut group = self;
        group.label = String::from_str(label);
        group
    }

    /// Add an entry into the bind group, at the next slot; entries added one after the other
    /// to a new group are bound at slots 0, 1, 2 and so on
    pub fn with_entry<E: Bindable>(self, entry: E) -> (group: Self)
        requires
            self.bindings@.len() <= u32::MAX,
        ensures
            slots_in_order(self@) ==> slots_in_order(group@),
            group.label == self.label,
            group.layout_entries@ == self.layout_entries@.push(
                LayoutEntry {
                    binding: self.bindings@.len() as u32,
                    visibility: entry.visibility_view(),
                    ty: entry.binding_view(),
                },
            ),
            group.bindings@ == self.bindings@.push(
                GroupEntry { target: entry.target_view(), slot: self.bindings@.len() as u32 },
            ),
    {
        let mut group = self;
        let slot = group.bindings.len() as u32;
        group.layout_entries.push(
            LayoutEntry { binding: slot, visibility: entry.visibility(), ty: entry.as_binding() },
        );
        group.bindings.push(GroupEntry { target: entry.target(), slot });
        group
    }
}

/// Options for configurating a storage texture binding
pub struct TextureTypeStorage {
    pub access: StorageTextureAccess,
    pub fmt: TexFormat,
}

impl Default for TextureTypeStorage {
    fn default() -> (options: Self)
        ensures
            options.access == StorageTextureAccess::WriteOnly,
            options.fmt == TexFormat::Rgba16Float,
    {
        Self { access: StorageTextureAccess::WriteOnly, fmt: TexFormat::Rgba16Float }
    }
}

/// options for configuring a sampled texture binding
pub struct TextureTypeSampled {
    pub filterable: bool,
    pub multisampled: bool,
}

impl Default for TextureTypeSampled {
    fn default() -> (options: Self)
        ensures
            !options.filterable,
            !options.multisampled,
    {
        Self { filterable: false, multisampled: false }
    }
}

/// Represents a texture binding in a bind group
pub struct TextureBinding {
    pub tex_id: TextureId,
    pub ty: BindingType,
    /// `wgpu::ShaderStages` bits
    pub visibility: u32,
    pub view_dimensions: TextureViewDimension,
}

impl TextureBinding {
    pub fn new(target: TextureId, ty: BindingType) -> (binding: Self)
        ensures
            binding.tex_id == target,
            binding.ty == ty,
            binding.visibility == stage_flag(ShaderStage::Fragment),
            binding.view_dimensions == TextureViewDimension::D2,
    {
        Self {
            tex_id: target,
            ty,
            visibility: stage_bits(ShaderStage::Fragment),
            view_dimensions: TextureViewDimension::D2,
        }
    }

    /// Create a new storage texture binding
    pub fn as_storage(target: TextureId, options: TextureTypeStorage) -> (binding: Self)
        ensures
            binding.tex_id == target,
            binding.ty == (BindingType::StorageTexture {
                access: options.access,
                format: options.fmt,
                view_dimension: TextureViewDimension::D2,
            }),
            binding.visibility == stage_flag(ShaderStage::Fragment),
            binding.view_dimensions == TextureViewDimension::D2,
    {
        let ty = BindingType::StorageTexture {
            access: options.access,
            format: options.fmt,
            view_dimension: TextureViewDimension::D2,
        };
        TextureBinding::new(target, ty)
    }

    /// Create a new sampled texture binding
    pub fn as_sampled(target: TextureId, options: TextureTypeSampled) -> (binding: Self)
        ensures
            binding.tex_id == target,
            binding.ty == (BindingType::Texture {
                filterable: options.filterable,
                view_dimension: TextureViewDimension::D2,
                multisampled: options.multisampled,
            }),
            binding.visibility == stage_flag(ShaderStage::Fragment),
            binding.view_dimensions == TextureViewDimension::D2,
    {
        let ty = BindingType::Texture {
            filterable: options.filterable,
            view_dimension: TextureViewDimension::D2,
            multisampled: options.multisampled,
        };
        TextureBinding::new(target, ty)
    }

    /// Set the view dimensions for the texture binding
    pub fn with_view_dimensions(self, view_dimensions: TextureViewDimension) -> (binding: Self)
        ensures
            binding.view_dimensions == view_dimensions,
            binding.tex_id == self.tex_id,
            binding.ty == self.ty,
            binding.visibility == self.visibility,
    {
        let mut binding = self;
        binding.view_dimensions = view_dimensions;
        binding
    }

    /// Set the shader stage visibility bits for the texture binding
    pub fn with_visibility(self, visibility: u32) -> (binding: Self)
        ensures
            binding.visibility == visibility,
            binding.tex_id == self.tex_id,
            binding.ty == self.ty,
            binding.view_dimensions == self.view_dimensions,
    {
        let mut binding = self;
        binding.visibility = visibility;
        binding
    }
}

impl Bindable for TextureBinding {
    open spec fn binding_view(&self) -> BindingType {
        self.ty
    }

    open spec fn target_view(&self) -> BindingTarget {
        BindingTarget::Texture(self.tex_id)
    }

    open spec fn visibility_view(&self) -> u32 {
        self.visibility
    }

    fn as_binding(&self) -> (ty: BindingType) {
        self.ty
    }

    fn target(&self) -> (target: BindingTarget) {
        BindingTarget::Texture(self.tex_id)
    }

    fn visibility(&self) -> (bits: u32) {
        self.visibility
    }
}

/// Represents a buffer binding and entry in a bind group
pub struct BufferBinding {
    pub buf_id: BufferId,
    pub ty: BufferBindingType,
    /// `wgpu::ShaderStages` bits
    pub visibility: u32,
    pub has_dyn_offset: bool,
    /// When set, a nonzero size
    pub min_binding_size: Option<u64>,
}

impl BufferBinding {
    pub fn new(target: BufferId, ty: BufferBindingType) -> (binding: Self)
        ensures
            binding.buf_id == target,
            binding.ty == ty,
            binding.visibility == stage_flag(ShaderStage::Fragment),
            !binding.has_dyn_offset,
            binding.min_binding_size is None,
    {
        Self {
            buf_id: target,
            ty,
            visibility: stage_bits(ShaderStage::Fragment),
            has_dyn_offset: false,
            min_binding_size: None,
        }
    }

    /// Create a new storage buffer binding
    pub fn as_storage(target: BufferId, read_only: bool) -> (binding: Self)
        ensures
            binding.buf_id == target,
            binding.ty == (BufferBindingType::Storage { read_only }),
            binding.visibility == stage_flag(ShaderStage::Fragment),
            !binding.has_dyn_offset,
            binding.min_binding_size is None,
    {
        BufferBinding::new(target, BufferBindingType::Storage { read_only })
    }

    /// Create a new uniform buffer binding
    pub fn as_uniform(target: BufferId) -> (binding: Self)
        ensures
            binding.buf_id == target,
            binding.ty == BufferBindingType::Uniform,
            binding.visibility == stage_flag(ShaderStage::Fragment),
            !binding.has_dyn_offset,
            binding.min_binding_size is None,
    {
        BufferBinding::new(target, BufferBindingType::Uniform)
    }

    /// Set the shader stage visibility bits for the buffer binding
    pub fn with_visibility(self, visibility: u32) -> (binding: Self)
        ensures
            binding.visibility == visibility,
            binding.buf_id == self.buf_id,
            binding.ty == self.ty,
            binding.has_dyn_offset == self.has_dyn_offset,
            binding.min_binding_size == self.min_binding_size,
    {
        let mut binding = self;
        binding.visibility = visibility;
        binding
    }

    /// Set the binding to have a dynamic offset
    pub fn with_dynamic_offset(self) -> (binding: Self)
        ensures
            binding.has_dyn_offset,
            binding.buf_id == self.buf_id,
            binding.ty == self.ty,
            binding.visibility == self.visibility,
            binding.min_binding_size == self.min_binding_size,
    {
        let mut binding = self;
        binding.has_dyn_offset = true;
        binding
    }

    /// Set the minimum buffer size for the binding. Must be greater than 0.
    pub fn with_min_size(self, size: u64) -> (binding: Self)
        requires
            size > 0,
        ensures
            binding.min_binding_size == Some(size),
            binding.buf_id == self.buf_id,
            binding.ty == self.ty,
            binding.visibility == self.visibility,
            binding.has_dyn_offset == self.has_dyn_offset,
    {
        let mut binding = self;
        binding.min_binding_size = Some(size);
        binding
    }
}

impl Bindable for BufferBinding {
    open spec fn binding_view(&self) -> BindingType {
        BindingType::Buffer {
            ty: self.ty,
            has_dynamic_offset: self.has_dyn_offset,
            min_binding_size: self.min_binding_size,
        }
    }

    open spec fn target_view(&self) -> BindingTarget {
        BindingTarget::Buffer(self.buf_id)
    }

    open spec fn visibility_view(&self) -> u32 {
        self.visibility
    }

    fn as_binding(&self) -> (ty: BindingType) {
        BindingType::Buffer {
            ty: self.ty,
            has_dynamic_offset: self.has_dyn_offset,
            min_binding_size: self.min_binding_size,
        }
    }

    fn target(&self) -> (target: BindingTarget) {
        BindingTarget::Buffer(self.buf_id)
    }

    fn visibility(&self) -> (bits: u32) {
        self.visibility
    }
}

/// Represents the binding of a Sampler in a bind group
pub struct SamplerBinding {
    pub sampler_id: SamplerId,
    /// `wgpu::ShaderStages` bits
    pub visibility: u32,
    pub binding_type: SamplerBindingType,
}

impl SamplerBinding {
    pub fn new(target: SamplerId) -> (binding: Self)
        ensures
            binding.sampler_id == target,
            binding.visibility == stage_flag(ShaderStage::Fragment),
            binding.binding_type == SamplerBindingType::NonFiltering,
    {
        Self {
            sampler_id: target,
            visibility: stage_bits(ShaderStage::Fragment),
            binding_type: SamplerBindingType::NonFiltering,
        }
    }

    /// Set the shader stage visibility bits for the sampler binding
    pub fn with_visibility(self, visibility: u32) -> (binding: Self)
        ensures
            binding.visibility == visibility,
            binding.sampler_id == self.sampler_id,
            binding.binding_type == self.binding_type,
    {
        let mut binding = self;
        binding.visibility = visibility;
        binding
    }

    /// Set the binding type of the sampler binding
    pub fn with_binding_type(self, ty: SamplerBindingType) -> (binding: Self)
        ensures
            binding.binding_type == ty,
            binding.sampler_id == self.sampler_id,
            binding.visibility == self.visibility,
    {
        let mut binding = self;
        binding.binding_type = ty;
        binding
    }
}

impl Bindable for SamplerBinding {
    open spec fn binding_view(&self) -> BindingType {
        BindingType::Sampler(self.binding_type)
    }

    open spec fn target_view(&self) -> BindingTarget {
        BindingTarget::Sampler(self.sampler_id)
    }

    open spec fn visibility_view(&self) -> u32 {
        self.visibility
    }

    fn as_binding(&self) -> (ty: BindingType) {
        BindingType::Sampler(self.binding_type)
    }

    fn target(&self) -> (target: BindingTarget) {
        BindingTarget::Sampler(self.sampler_id)
    }

    fn visibility(&self) -> (bits: u32) {
        self.visibility
    }
}

} // verus!
