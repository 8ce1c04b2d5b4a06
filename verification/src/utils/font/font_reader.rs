use vstd::prelude::*;

use crate::graphics::context::PipelineId;

verus! {

/// The identifier of a font reader
#[derive(Clone, Copy, Hash, PartialEq, Eq, Debug)]
pub struct FontReaderId(pub &'static str);

/// Represents the pipeline used to render a font
#[derive(Clone, Debug, Hash, PartialEq, Eq)]
pub struct FontPipeline {
    pub id: PipelineId,
    pub shader: String,
}

} // verus!
