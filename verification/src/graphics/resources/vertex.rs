use vstd::prelude::*;

verus! {

/// The format of one vertex attribute: what the shader reads and how many bytes it takes
#[derive(Clone, Copy, Debug, PartialEq, Eq, Structural)]
pub enum VertexFormat {
    Uint8,
    Uint8x2,
    Uint8x4,
    Sint8,
    Sint8x2,
    Sint8x4,
    Unorm8,
    Unorm8x2,
    Unorm8x4,
    Snorm8,
    Snorm8x2,
    Snorm8x4,
    Uint16,
    Uint16x2,
    Uint16x4,
    Sint16,
    Sint16x2,
    Sint16x4,
    Unorm16,
    Unorm16x2,
    Unorm16x4,
    Snorm16,
    Snorm16x2,
    Snorm16x4,
    Float16,
    Float16x2,
    Float16x4,
    Float32,
    Float32x2,
    Float32x3,
    Float32x4,
    Uint32,
    Uint32x2,
    Uint32x3,
    Uint32x4,
    Sint32,
    Sint32x2,
    Sint32x3,
    Sint32x4,
    Float64,
    Float64x2,
    Float64x3,
    Float64x4,
    Unorm10_10_10_2,
    Unorm8x4Bgra,
}

/// The size in bytes of an attribute of the format
pub open spec fn vertex_format_size(format: VertexFormat) -> u64 {
    match format {
        VertexFormat::Uint8
        | VertexFormat::Sint8
        | VertexFormat::Unorm8
        | VertexFormat::Snorm8 => 1,
        VertexFormat::Uint8x2
        | VertexFormat::Sint8x2
        | VertexFormat::Unorm8x2
        | VertexFormat::Snorm8x2
        | VertexFormat::Uint16
        | VertexFormat::Sint16
        | VertexFormat::Unorm16
        | VertexFormat::Snorm16
        | VertexFormat::Float16 => 2,
        VertexFormat::Uint8x4
        | VertexFormat::Sint8x4
        | VertexFormat::Unorm8x4
        | VertexFormat::Snorm8x4
        | VertexFormat::Uint16x2
        | VertexFormat::Sint16x2
        | VertexFormat::Unorm16x2
        | VertexFormat::Snorm16x2
        | VertexFormat::Float16x2
        | VertexFormat::Float32
        | VertexFormat::Uint32
        | VertexFormat::Sint32
        | VertexFormat::Unorm10_10_10_2
        | VertexFormat::Unorm8x4Bgra => 4,
        VertexFormat::Uint16x4
        | VertexFormat::Sint16x4
        | VertexFormat::Unorm16x4
        | VertexFormat::Snorm16x4
        | VertexFormat::Float16x4
        | VertexFormat::Float32x2
        | VertexFormat::Uint32x2
        | VertexFormat::Sint32x2
        | VertexFormat::Float64 => 8,
        VertexFormat::Float32x3
        | VertexFormat::Uint32x3
        | VertexFormat::Sint32x3 => 12,
        VertexFormat::Float32x4
        | VertexFormat::Uint32x4
        | VertexFormat::Sint32x4
        | VertexFormat::Float64x2 => 16,
        VertexFormat::Float64x3 => 24,
        VertexFormat::Float64x4 => 32,
    }
}

impl VertexFormat {
    /// The size in bytes of an attribute of the format, as `wgpu::VertexFormat::size` gives it
    pub fn size(&self) -> (size: u64)
        ensures
            size == vertex_format_size(*self),
    {
        match self {
            VertexFormat::Uint8
            | VertexFormat::Sint8
            | VertexFormat::Unorm8
            | VertexFormat::Snorm8 => 1,
            VertexFormat::Uint8x2
            | VertexFormat::Sint8x2
            | VertexFormat::Unorm8x2
            | VertexFormat::Snorm8x2
            | VertexFormat::Uint16
            | VertexFormat::Sint16
            | VertexFormat::Unorm16
            | VertexFormat::Snorm16
            | VertexFormat::Float16 => 2,
            VertexFormat::Uint8x4
            | VertexFormat::Sint8x4
            | VertexFormat::Unorm8x4
            | VertexFormat::Snorm8x4
            | VertexFormat::Uint16x2
            | VertexFormat::Sint16x2
            | VertexFormat::Unorm16x2
            | VertexFormat::Snorm16x2
            | VertexFormat::Float16x2
            | VertexFormat::Float32
            | VertexFormat::Uint32
            | VertexFormat::Sint32
            | VertexFormat::Unorm10_10_10_2
            | VertexFormat::Unorm8x4Bgra => 4,
            VertexFormat::Uint16x4
            | VertexFormat::Sint16x4
            | VertexFormat::Unorm16x4
            | VertexFormat::Snorm16x4
            | VertexFormat::Float16x4
            | VertexFormat::Float32x2
            | VertexFormat::Uint32x2
            | VertexFormat::Sint32x2
            | VertexFormat::Float64 => 8,
            VertexFormat::Float32x3
            | VertexFormat::Uint32x3
            | VertexFormat::Sint32x3 => 12,
            VertexFormat::Float32x4
            | VertexFormat::Uint32x4
            | VertexFormat::Sint32x4
            | VertexFormat::Float64x2 => 16,
            VertexFormat::Float64x3 => 24,
            VertexFormat::Float64x4 => 32,
        }
    }
}

/// The sum of the sizes of the attributes' formats
pub open spec fn attributes_size(attributes: Seq<VertexAttribute>) -> nat
    decreases attributes.len(),
{
    if attributes.len() == 0 {
        0
    } else {
        attributes_size(attributes.drop_last()) + vertex_format_size(attributes.last().format) as nat
    }
}

/// The attributes are packed one after the other: attribute `i` sits at the location `i` after
/// the first one, right after the bytes of the attributes before it, and the next attribute
/// goes after all of them
pub open spec fn packed(layout: VertexLayoutView) -> bool {
    &&& layout.attributes.len() <= layout.curr_loc
    &&& forall|i: int|
        0 <= i < layout.attributes.len() ==> {
            &&& (#[trigger] layout.attributes[i]).shader_location == layout.curr_loc - layout.attributes.len() + i
            &&& layout.attributes[i].offset == attributes_size(layout.attributes.take(i))
        }
    &&& layout.curr_offset == attributes_size(layout.attributes)
}

/// How often a vertex buffer advances
#[derive(Clone, Copy, Debug, PartialEq, Eq, Structural)]
pub enum VertexStepMode {
    Vertex,
    Instance,
}

/// An attribute of a vertex buffer layout
#[derive(Clone, Copy, Debug)]
pub struct VertexAttribute {
    pub format: VertexFormat,
    pub offset: u64,
    pub shader_location: u32,
}

/// Blueprint for constructing vertex buffer layouts. Does automatic offset and
/// and location calculations.
pub struct VertexBufferLayout {
    pub attributes: Vec<VertexAttribute>,
    pub step_mode: VertexStepMode,
    pub curr_loc: u32,
    pub curr_offset: u64,
}

/// The contents of a vertex buffer layout, as values
pub struct VertexLayoutView {
    pub attributes: Seq<VertexAttribute>,
    pub step_mode: VertexStepMode,
    pub curr_loc: u32,
    pub curr_offset: u64,
}

impl View for VertexBufferLayout {
    type V = VertexLayoutView;

    open spec fn view(&self) -> VertexLayoutView {
        VertexLayoutView {
            attributes: self.attributes@,
            step_mode: self.step_mode,
            curr_loc: self.curr_loc,
            curr_offset: self.curr_offset,
        }
    }
}

impl VertexBufferLayout {
    fn new(step_mode: VertexStepMode, start_loc: u32) -> (layout: Self)
        ensures
            layout.attributes@.len() == 0,
            layout.step_mode == step_mode,
            layout.curr_loc == start_loc,
            layout.curr_offset == 0,
    {
        Self { attributes: Vec::new(), curr_offset: 0, step_mode, curr_loc: start_loc }
    }

    /// Create a vertex buffer layout with the vertex step mode
    pub fn as_vertex_step(start_loc: u32) -> (layout: Self)
        ensures
            layout.attributes@.len() == 0,
            layout.step_mode == VertexStepMode::Vertex,
            layout.curr_loc == start_loc,
            layout.curr_offset == 0,
            packed(layout@),
    {
        VertexBufferLayout::new(VertexStepMode::Vertex, start_loc)
    }

    /// Create a vertex buffer layout with the instance step mode
    pub fn as_instance_step(start_loc: u32) -> (layout: Self)
        ensures
            layout.attributes@.len() == 0,
            layout.step_mode == VertexStepMode::Instance,
            layout.curr_loc == start_loc,
            layout.curr_offset == 0,
            packed(layout@),
    {
        VertexBufferLayout::new(VertexStepMode::Instance, start_loc)
    }

    /// Add an attribute of the format to the buffer layout, at the next location and right
    /// after the previous attributes; the layout grows by the format's size. Attributes added
    /// one after the other from a new layout stay packed.
    pub fn with_attribute(self, format: VertexFormat) -> (layout: Self)
        requires
            self.curr_loc < u32::MAX,
            self.curr_offset + vertex_format_size(format) <= u64::MAX,
        ensures
            layout.attributes@ == self.attributes@.push(
                VertexAttribute { format, offset: self.curr_offset, shader_location: self.curr_loc },
            ),
            layout.curr_loc == self.curr_loc + 1,
            layout.curr_offset == self.curr_offset + vertex_format_size(format),
            layout.step_mode == self.step_mode,
            packed(self@) ==> packed(layout@),
    {
        let mut layout = self;
        let size = format.size();
        layout.attributes.push(VertexAttribute { format, offset: layout.curr_offset, shader_location: layout.curr_loc });
        layout.curr_loc = layout.curr_loc + 1;
        layout.curr_offset = layout.curr_offset + size;
        proof {
            let before = self.attributes@;
            let after = layout.attributes@;
            assert(after.drop_last() =~= before);
            if packed(self@) {
                assert forall|i: int| 0 <= i < after.len() implies {
                    &&& (#[trigger] after[i]).shader_location == layout.curr_loc - after.len() + i
                    &&& after[i].offset == attributes_size(after.take(i))
                } by {
                    if i < before.len() {
                        assert(after.take(i) =~= before.take(i));
                    } else {
                        assert(after.take(i) =~= before);
                    }
                }
            }
        }
        layout
    }
}

impl Clone for VertexBufferLayout {
    fn clone(&self) -> (copy: Self)
        ensures
            copy@ == self@,
    {
        let mut attributes: Vec<VertexAttribute> = Vec::new();
        let mut i: usize = 0;
        while i < self.attributes.len()
            invariant
                i <= self.attributes@.len(),
                attributes@ == self.attributes@.take(i as int),
            decreases self.attributes@.len() - i,
        {
            attributes.push(self.attributes[i]);
            i += 1;
            assert(attributes@ =~= self.attributes@.take(i as int));
        }
        assert(self.attributes@.take(self.attributes@.len() as int) =~= self.attributes@);
        VertexBufferLayout {
            attributes,
            step_mode: self.step_mode,
            curr_loc: self.curr_loc,
            curr_offset: self.curr_offset,
        }
    }
}

} // verus!
