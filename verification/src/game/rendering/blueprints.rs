use vstd::prelude::*;

use crate::graphics::context::{BufferId, TextureId};
use crate::graphics::resources::bindgroup::{
    stage_bits, stage_flag, BindGroup, BindingTarget, BindingType, BufferBinding, BufferBindingType, GroupEntry,
    LayoutEntry, ShaderStage, StorageTextureAccess, TextureBinding, TextureTypeSampled, TextureTypeStorage,
    TextureViewDimension,
};
use crate::graphics::resources::texture::{
    texture_usage_bits, texture_usage_flag, Computed, TexDimensions, TexFormat, Texture, TextureUsage,
};

verus! {

/// The layout entry of a buffer bound at `slot`, visible from the stages `visibility`
pub open spec fn buffer_layout(slot: u32, visibility: u32, ty: BufferBindingType) -> LayoutEntry {
    LayoutEntry {
        binding: slot,
        visibility,
        ty: BindingType::Buffer { ty, has_dynamic_offset: false, min_binding_size: None },
    }
}

/// The layout entry of a storage texture with the default options, bound at `slot`
pub open spec fn storage_texture_layout(slot: u32, visibility: u32) -> LayoutEntry {
    LayoutEntry {
        binding: slot,
        visibility,
        ty: BindingType::StorageTexture {
            access: StorageTextureAccess::WriteOnly,
            format: TexFormat::Rgba16Float,
            view_dimension: TextureViewDimension::D2,
        },
    }
}

/// The layout entry of a sampled texture with the default options, bound at `slot`
pub open spec fn sampled_texture_layout(slot: u32, visibility: u32) -> LayoutEntry {
    LayoutEntry {
        binding: slot,
        visibility,
        ty: BindingType::Texture { filterable: false, view_dimension: TextureViewDimension::D2, multisampled: false },
    }
}

/// The layout entry of a write-only storage texture of the format, bound at `slot`
pub open spec fn storage_format_layout(slot: u32, visibility: u32, format: TexFormat) -> LayoutEntry {
    LayoutEntry {
        binding: slot,
        visibility,
        ty: BindingType::StorageTexture {
            access: StorageTextureAccess::WriteOnly,
            format,
            view_dimension: TextureViewDimension::D2,
        },
    }
}

/// The layout entry of a sampled texture, filterable or not, bound at `slot`
pub open spec fn sampled_layout(slot: u32, visibility: u32, filterable: bool) -> LayoutEntry {
    LayoutEntry {
        binding: slot,
        visibility,
        ty: BindingType::Texture { filterable, view_dimension: TextureViewDimension::D2, multisampled: false },
    }
}

/// The layout entry of a non-filtering sampler bound at `slot`
pub open spec fn sampler_layout(slot: u32, visibility: u32) -> LayoutEntry {
    LayoutEntry {
        binding: slot,
        visibility,
        ty: BindingType::Sampler(crate::graphics::resources::bindgroup::SamplerBindingType::NonFiltering),
    }
}

/// A TAA bind group: the ray march texture and one history texture sampled, the other history
/// texture written, all for the compute stage
pub open spec fn taa_group_built(bg: BindGroup, label: Seq<char>, rm_tex: TextureId, read: TextureId, write: TextureId) -> bool {
    let c = stage_flag(ShaderStage::Compute);
    &&& bg@.label == label
    &&& bg@.bindings == seq![
        GroupEntry { target: BindingTarget::Texture(rm_tex), slot: 0 },
        GroupEntry { target: BindingTarget::Texture(read), slot: 1 },
        GroupEntry { target: BindingTarget::Texture(write), slot: 2 }
    ]
    &&& bg@.layout_entries == seq![
        sampled_texture_layout(0, c),
        sampled_texture_layout(1, c),
        storage_texture_layout(2, c)
    ]
}

/// A blit bind group: one history texture sampled by the fragment stage
pub open spec fn blit_group_built(bg: BindGroup, label: Seq<char>, read: TextureId) -> bool {
    &&& bg@.label == label
    &&& bg@.bindings == seq![GroupEntry { target: BindingTarget::Texture(read), slot: 0 }]
    &&& bg@.layout_entries == seq![sampled_texture_layout(0, stage_flag(ShaderStage::Fragment))]
}

/// A texture computed in a shader, of the canvas size, in the Rgba16Float format, that can be
/// sampled and stored to, and copied from when `copy_src`
pub open spec fn canvas_texture_built(texture: Texture<Computed>, label: Seq<char>, width: u32, height: u32, copy_src: bool) -> bool {
    let usage = texture_usage_flag(TextureUsage::TextureBinding) | texture_usage_flag(TextureUsage::StorageBinding);
    let usage = usage | texture_usage_flag(TextureUsage::StorageBinding);
    &&& texture.label@ == label
    &&& texture.format == TexFormat::Rgba16Float
    &&& texture.mip_levels == 1
    &&& texture.ty.dim == (TexDimensions { width, height, depth: 1, wgpu_dim: crate::graphics::resources::texture::TextureDimension::D2 })
    &&& texture.usage == if copy_src {
        usage | texture_usage_flag(TextureUsage::CopySrc)
    } else {
        usage
    }
}

/// A texture computed in a shader, of the canvas size
pub(crate) fn canvas_texture(label: &str, width: u32, height: u32, copy_src: bool) -> (texture: Texture<Computed>)
    ensures
        canvas_texture_built(texture, label@, width, height, copy_src),
{
    let texture = Texture::<Computed>::computed(TexDimensions::size_2d(width, height))
        .with_label(label)
        .with_format(TexFormat::Rgba16Float)
        .with_additional_usage(texture_usage_bits(TextureUsage::StorageBinding));
    if copy_src {
        texture.with_additional_usage(texture_usage_bits(TextureUsage::CopySrc))
    } else {
        texture
    }
}

/// A TAA bind group: samples the ray march texture and `read`, writes `write`
pub(crate) fn taa_bind_group(label: &str, rm_tex: TextureId, read: TextureId, write: TextureId) -> (bg: BindGroup)
    ensures
        taa_group_built(bg, label@, rm_tex, read, write),
{
    let c = stage_bits(ShaderStage::Compute);
    let bg = BindGroup::new()
        .with_label(label)
        .with_entry(TextureBinding::as_sampled(rm_tex, TextureTypeSampled::default()).with_visibility(c))
        .with_entry(TextureBinding::as_sampled(read, TextureTypeSampled::default()).with_visibility(c))
        .with_entry(TextureBinding::as_storage(write, TextureTypeStorage::default()).with_visibility(c));
    assert(bg@.bindings =~= seq![
        GroupEntry { target: BindingTarget::Texture(rm_tex), slot: 0 },
        GroupEntry { target: BindingTarget::Texture(read), slot: 1 },
        GroupEntry { target: BindingTarget::Texture(write), slot: 2 }
    ]);
    assert(bg@.layout_entries =~= seq![
        sampled_texture_layout(0, c),
        sampled_texture_layout(1, c),
        storage_texture_layout(2, c)
    ]);
    bg
}

/// A blit bind group that samples `read`
pub(crate) fn blit_bind_group(label: &str, read: TextureId) -> (bg: BindGroup)
    ensures
        blit_group_built(bg, label@, read),
{
    let bg = BindGroup::new()
        .with_label(label)
        .with_entry(TextureBinding::as_sampled(read, TextureTypeSampled::default()));
    assert(bg@.bindings =~= seq![GroupEntry { target: BindingTarget::Texture(read), slot: 0 }]);
    assert(bg@.layout_entries =~= seq![sampled_texture_layout(0, stage_flag(ShaderStage::Fragment))]);
    bg
}

} // verus!
