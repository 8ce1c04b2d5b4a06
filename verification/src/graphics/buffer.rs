use vstd::prelude::*;
use vstd::string::StringExecFns;

use crate::graphics::resources::bindgroup::{stage_bits, stage_flag, BindingType, BufferBindingType, ShaderStage};
use crate::graphics::resources::buffer::{padded_to, round_up, usage_bits, usage_flag, Buffer, BufferUsage, Uniform};

verus! {

/// The role of the buffer as used by shaders
#[derive(Clone, Copy, Debug, PartialEq, Eq, Structural, Hash)]
pub enum BufferRole {
    Uniform,
    /// A storage buffer, read only when the flag is set
    Storage(bool),
}

/// The usage bits that a buffer role asks for
pub open spec fn role_usage(role: BufferRole) -> u32 {
    match role {
        BufferRole::Uniform => usage_flag(BufferUsage::Uniform),
        BufferRole::Storage(_) => usage_flag(BufferUsage::Storage),
    }
}

impl BufferRole {
    /// Convert the buffer role into it's equivalent wgpu buffer usage bits
    pub fn as_usage(&self) -> (bits: u32)
        ensures
            bits == role_usage(*self),
    {
        match self {
            BufferRole::Uniform => usage_bits(BufferUsage::Uniform),
            BufferRole::Storage(_) => usage_bits(BufferUsage::Storage),
        }
    }

    /// Convert the buffer role into it's equivalent binding type: a whole buffer, bound without
    /// a dynamic offset
    pub fn as_binding_type(&self) -> (ty: BindingType)
        ensures
            ty == (match *self {
                BufferRole::Uniform => BindingType::Buffer {
                    ty: BufferBindingType::Uniform,
                    has_dynamic_offset: false,
                    min_binding_size: None,
                },
                BufferRole::Storage(read_only) => BindingType::Buffer {
                    ty: BufferBindingType::Storage { read_only },
                    has_dynamic_offset: false,
                    min_binding_size: None,
                },
            }),
    {
        match self {
            BufferRole::Uniform => BindingType::Buffer {
                ty: BufferBindingType::Uniform,
                has_dynamic_offset: false,
                min_binding_size: None,
            },
            BufferRole::Storage(read_only) => BindingType::Buffer {
                ty: BufferBindingType::Storage { read_only: *read_only },
                has_dynamic_offset: false,
                min_binding_size: None,
            },
        }
    }
}

/// Describes the contents of a buffer
pub enum BufferContents {
    /// A buffer created with initial data
    WithData(Vec<u8>),
    /// A buffer created with no initial data but with an initial capacity
    Empty(u64),
}

/// A description of a gpu buffer, built into a buffer by the renderer
pub struct BufferBuilder {
    pub label: String,
    /// `wgpu::BufferUsages` bits
    pub usage: u32,
    pub contents: BufferContents,
    pub role: BufferRole,
    /// `wgpu::ShaderStages` bits
    pub visibility: u32,
}

impl BufferBuilder {
    pub fn new(role: BufferRole, contents: BufferContents) -> (builder: Self)
        ensures
            builder.label@ == "buffer"@,
            builder.usage == role_usage(role),
            builder.contents == contents,
            builder.role == role,
            builder.visibility == stage_flag(ShaderStage::VertexFragment),
    {
        Self {
            label: String::from_str("buffer"),
            usage: role.as_usage(),
            contents,
            role,
            visibility: stage_bits(ShaderStage::VertexFragment),
        }
    }

    /// Create a buffer builder with the uniform usage type.
    ///
    /// If the provided contents contains data, the data is padded to a multiple of 16 to
    /// follow wgpu uniform buffer alignment rules.
    pub fn as_uniform(contents: BufferContents) -> (builder: Self)
        requires
            contents matches BufferContents::WithData(data) ==> round_up(data@.len() as int, 16) <= usize::MAX,
        ensures
            builder.label@ == "buffer"@,
            builder.usage == role_usage(BufferRole::Uniform),
            builder.role == BufferRole::Uniform,
            builder.visibility == stage_flag(ShaderStage::VertexFragment),
            match contents {
                BufferContents::WithData(data) => builder.contents matches BufferContents::WithData(padded)
                    && padded_to(data@, 16, padded@),
                BufferContents::Empty(size) => builder.contents == BufferContents::Empty(size),
            },
    {
        let contents = match contents {
            BufferContents::WithData(data) => BufferContents::WithData(BufferBuilder::pad_bytes(data, 16)),
            BufferContents::Empty(size) => BufferContents::Empty(size),
        };
        BufferBuilder::new(BufferRole::Uniform, contents)
    }

    /// Create a buffer builder with the storage usage type
    pub fn as_storage(contents: BufferContents, read_only: bool) -> (builder: Self)
        ensures
            builder.label@ == "buffer"@,
            builder.usage == role_usage(BufferRole::Storage(read_only)),
            builder.contents == contents,
            builder.role == BufferRole::Storage(read_only),
            builder.visibility == stage_flag(ShaderStage::VertexFragment),
    {
        BufferBuilder::new(BufferRole::Storage(read_only), contents)
    }

    /// Set the label for gpu profiling of the resultant buffer
    pub fn with_label(self, label: &str) -> (builder: Self)
        ensures
            builder.label@ == label@,
            builder.usage == self.usage,
            builder.contents == self.contents,
            builder.role == self.role,
            builder.visibility == self.visibility,
    {
        let mut builder = self;
        builder.label = String::from_str(label);
        builder
    }

    /// Add additional usage bits to the resultant buffer
    pub fn with_additional_usage(self, usage: u32) -> (builder: Self)
        ensures
            builder.usage == self.usage | usage,
            builder.label == self.label,
            builder.contents == self.contents,
            builder.role == self.role,
            builder.visibility == self.visibility,
    {
        let mut builder = self;
        builder.usage = builder.usage | usage;
        builder
    }

    /// Pads a byte vector to align the size to a multiple of the provided value
    pub fn pad_bytes(data: Vec<u8>, alignment: usize) -> (padded: Vec<u8>)
        requires
            alignment > 0,
            round_up(data@.len() as int, alignment as int) <= usize::MAX,
        ensures
            padded_to(data@, alignment as int, padded@),
    {
        Buffer::<Uniform>::pad_bytes(data, alignment)
    }

    /// Set the shader visibility bits of the resultant buffer
    pub fn with_visibility(self, visibility: u32) -> (builder: Self)
        ensures
            builder.visibility == visibility,
            builder.label == self.label,
            builder.usage == self.usage,
            builder.contents == self.contents,
            builder.role == self.role,
    {
        let mut builder = self;
        builder.visibility = visibility;
        builder
    }
}

} // verus!
