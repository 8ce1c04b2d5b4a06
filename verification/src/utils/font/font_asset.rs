use vstd::prelude::*;

use crate::graphics::context::{BufferId, NamedBindGroup, SamplerId, TextureId};
use crate::utils::font::font_reader::FontPipeline;

verus! {

/// A handle to a font read through a specific font reader.
///
/// The reader determines the way the atlas is constructed, so it also provides the best shader to interpret the atlas
#[derive(Clone, Debug, Hash, PartialEq, Eq)]
pub struct FontId {
    pub path: String,
    pub pip: FontPipeline,
}

/// Represents the low level gpu resources associated with a specific font
#[derive(Clone, Debug, Hash, PartialEq, Eq)]
pub struct FontAssets {
    /// the id of this specific font (path and pipeline id)
    pub font_id: FontId,
    /// the id to the instance buffer
    pub cbuffer_id: BufferId,
    /// the id of the atlas texture
    pub atlas_tex_id: TextureId,
    /// the id of the atlas sampler
    pub atlas_samp_id: SamplerId,
    /// the ids of the bind group / layout
    pub bg: NamedBindGroup,
}

impl FontAssets {
    pub fn new(font_id: FontId) -> (assets: Self)
        ensures
            assets.font_id == font_id,
            assets.cbuffer_id.0@ == "char_instances"@,
            assets.atlas_tex_id.0@ == "font_altas"@,
            assets.atlas_samp_id.0@ == "font_altas"@,
            assets.bg.id.0@ == "font_bind_group"@,
            assets.bg.layout_id.0@ == "font_bind_group"@ + "_layout"@,
    {
        Self {
            font_id,
            cbuffer_id: BufferId("char_instances"),
            atlas_tex_id: TextureId("font_altas"),
            atlas_samp_id: SamplerId("font_altas"),
            bg: NamedBindGroup::new("font_bind_group"),
        }
    }
}

} // verus!
