use vstd::prelude::*;
use vstd::string::StringExecFns;

use crate::graphics::context::LayoutId;
use crate::graphics::resources::texture::TexFormat;
use crate::graphics::resources::vertex::{VertexBufferLayout, VertexLayoutView};

verus! {

/// Holds configuration state for a render pipeline blueprint
pub struct RenderType {
    pub vs_main: &'static str,
    pub fs_main: &'static str,
    pub format: TexFormat,
    pub vertex_layouts: Vec<VertexBufferLayout>,
}

impl RenderType {
    pub fn new(vs_main: &'static str, fs_main: &'static str) -> (ty: Self)
        ensures
            ty.vs_main == vs_main,
            ty.fs_main == fs_main,
            ty.format == TexFormat::Bgra8UnormSrgb,
            ty.vertex_layouts@.len() == 0,
    {
        Self { vs_main, fs_main, format: TexFormat::Bgra8UnormSrgb, vertex_layouts: Vec::new() }
    }
}

/// Holds configurations state for a compute pipeline creation
#[derive(Clone, Copy, Debug)]
pub struct ComputeType {
    pub main: &'static str,
}

impl ComputeType {
    pub fn new(main: &'static str) -> (ty: Self)
        ensures
            ty.main == main,
    {
        Self { main }
    }
}

/// Blueprint for render/compute pipelines
pub struct Pipeline<T> {
    pub label: String,
    pub bg_layouts: Vec<LayoutId>,
    pub shader_path: Option<&'static str>,
    pub ty: T,
}

impl<T> Pipeline<T> {
    /// Set the label for gpu profiling of the resultant render pipeline
    pub fn with_label(self, label: &str) -> (pipeline: Self)
        ensures
            pipeline.label@ == label@,
            pipeline.bg_layouts == self.bg_layouts,
            pipeline.shader_path == self.shader_path,
            pipeline.ty == self.ty,
    {
        let mut pipeline = self;
        pipeline.label = String::from_str(label);
        pipeline
    }

    /// Add bind group layouts to the pipeline, after those it has
    pub fn with_bg_layouts(self, layouts: &[LayoutId]) -> (pipeline: Self)
        ensures
            pipeline.bg_layouts@ == self.bg_layouts@ + layouts@,
            pipeline.label == self.label,
            pipeline.shader_path == self.shader_path,
            pipeline.ty == self.ty,
    {
        let mut pipeline = self;
        let ghost start = pipeline.bg_layouts@;
        let mut i: usize = 0;
        while i < layouts.len()
            invariant
                i <= layouts@.len(),
                pipeline.bg_layouts@ == start + layouts@.take(i as int),
                pipeline.label == self.label,
                pipeline.shader_path == self.shader_path,
                pipeline.ty == self.ty,
            decreases layouts@.len() - i,
        {
            pipeline.bg_layouts.push(layouts[i]);
            i += 1;
            assert(pipeline.bg_layouts@ =~= start + layouts@.take(i as int));
        }
        assert(layouts@.take(layouts@.len() as int) =~= layouts@);
        pipeline
    }

    /// Add a shader descriptor to the pipeline
    pub fn with_shader(self, path: &'static str) -> (pipeline: Self)
        ensures
            pipeline.shader_path == Some(path),
            pipeline.label == self.label,
            pipeline.bg_layouts == self.bg_layouts,
            pipeline.ty == self.ty,
    {
        let mut pipeline = self;
        pipeline.shader_path = Some(path);
        pipeline
    }
}

impl Pipeline<RenderType> {
    pub fn as_render(vs_main: &'static str, fs_main: &'static str) -> (pipeline: Self)
        ensures
            pipeline.label@ == "render_pipeline"@,
            pipeline.bg_layouts@.len() == 0,
            pipeline.shader_path is None,
            pipeline.ty.vs_main == vs_main,
            pipeline.ty.fs_main == fs_main,
            pipeline.ty.format == TexFormat::Bgra8UnormSrgb,
            pipeline.ty.vertex_layouts@.len() == 0,
    {
        Self {
            label: String::from_str("render_pipeline"),
            bg_layouts: Vec::new(),
            shader_path: None,
            ty: RenderType::new(vs_main, fs_main),
        }
    }

    /// Set the output format of the render pipeline. This must match the target format for the corresponding render pass
    pub fn with_format(self, format: TexFormat) -> (pipeline: Self)
        ensures
            pipeline.ty.format == format,
            pipeline.ty.vs_main == self.ty.vs_main,
            pipeline.ty.fs_main == self.ty.fs_main,
            pipeline.ty.vertex_layouts == self.ty.vertex_layouts,
            pipeline.label == self.label,
            pipeline.bg_layouts == self.bg_layouts,
            pipeline.shader_path == self.shader_path,
    {
        let mut pipeline = self;
        pipeline.ty.format = format;
        pipeline
    }

    /// Add a vertex layout to the rendering pipeline. A corresponding buffer must be added to the render pass
    pub fn with_vertex_layout(self, layout: &VertexBufferLayout) -> (pipeline: Self)
        ensures
            pipeline.ty.vertex_layouts@.len() == self.ty.vertex_layouts@.len() + 1,
            pipeline.ty.vertex_layouts@.take(self.ty.vertex_layouts@.len() as int) == self.ty.vertex_layouts@,
            pipeline.ty.vertex_layouts@.last()@ == layout@,
            pipeline.ty.format == self.ty.format,
            pipeline.ty.vs_main == self.ty.vs_main,
            pipeline.ty.fs_main == self.ty.fs_main,
            pipeline.label == self.label,
            pipeline.bg_layouts == self.bg_layouts,
            pipeline.shader_path == self.shader_path,
    {
        let mut pipeline = self;
        pipeline.ty.vertex_layouts.push(layout.clone());
        assert(pipeline.ty.vertex_layouts@.take(self.ty.vertex_layouts@.len() as int) =~= self.ty.vertex_layouts@);
        pipeline
    }
}

impl Default for Pipeline<RenderType> {
    fn default() -> (pipeline: Self)
        ensures
            pipeline.label@ == "render_pipeline"@,
            pipeline.bg_layouts@.len() == 0,
            pipeline.shader_path is None,
            pipeline.ty.vs_main@ == "vs_main"@,
            pipeline.ty.fs_main@ == "fs_main"@,
            pipeline.ty.format == TexFormat::Bgra8UnormSrgb,
            pipeline.ty.vertex_layouts@.len() == 0,
    {
        Pipeline::as_render("vs_main", "fs_main")
    }
}

impl Pipeline<ComputeType> {
    pub fn as_compute(cs_main: &'static str) -> (pipeline: Self)
        ensures
            pipeline.label@ == "compute_pipeline"@,
            pipeline.bg_layouts@.len() == 0,
            pipeline.shader_path is None,
            pipeline.ty.main == cs_main,
    {
        Self {
            label: String::from_str("compute_pipeline"),
            bg_layouts: Vec::new(),
            shader_path: None,
            ty: ComputeType::new(cs_main),
        }
    }
}

impl Default for Pipeline<ComputeType> {
    fn default() -> (pipeline: Self)
        ensures
            pipeline.label@ == "compute_pipeline"@,
            pipeline.bg_layouts@.len() == 0,
            pipeline.shader_path is None,
            pipeline.ty.main@ == "cs_main"@,
    {
        Pipeline::as_compute("cs_main")
    }
}

/// The type of gpu pipeline. This is used internally by the context to create the underlying pipeline
pub enum PipelineType {
    Render(Pipeline<RenderType>),
    Compute(Pipeline<ComputeType>),
}

impl PipelineType {
    /// The bind group layouts of the pipeline
    pub open spec fn layouts(&self) -> Seq<LayoutId> {
        match self {
            PipelineType::Render(pip) => pip.bg_layouts@,
            PipelineType::Compute(pip) => pip.bg_layouts@,
        }
    }

    /// Get the bind group layouts associated with the pipeline
    pub fn bg_layouts(&self) -> (layouts: &Vec<LayoutId>)
        ensures
            layouts@ == self.layouts(),
    {
        match self {
            PipelineType::Render(pip) => &pip.bg_layouts,
            PipelineType::Compute(pip) => &pip.bg_layouts,
        }
    }
}

impl From<Pipeline<RenderType>> for PipelineType {
    fn from(pip: Pipeline<RenderType>) -> (ty: Self) {
        PipelineType::Render(pip)
    }
}

impl vstd::std_specs::convert::FromSpecImpl<Pipeline<RenderType>> for PipelineType {
    open spec fn obeys_from_spec() -> bool {
        true
    }

    open spec fn from_spec(pip: Pipeline<RenderType>) -> Self {
        PipelineType::Render(pip)
    }
}

impl From<Pipeline<ComputeType>> for PipelineType {
    fn from(pip: Pipeline<ComputeType>) -> (ty: Self) {
        PipelineType::Compute(pip)
    }
}

impl vstd::std_specs::convert::FromSpecImpl<Pipeline<ComputeType>> for PipelineType {
    open spec fn obeys_from_spec() -> bool {
        true
    }

    open spec fn from_spec(pip: Pipeline<ComputeType>) -> Self {
        PipelineType::Compute(pip)
    }
}


/// The contents of a pipeline blueprint, as values
pub enum PipelineView {
    Render {
        label: Seq<char>,
        bg_layouts: Seq<LayoutId>,
        shader_path: Option<&'static str>,
        vs_main: &'static str,
        fs_main: &'static str,
        format: TexFormat,
        vertex_layouts: Seq<VertexLayoutView>,
    },
    Compute { label: Seq<char>, bg_layouts: Seq<LayoutId>, shader_path: Option<&'static str>, main: &'static str },
}

impl PipelineView {
    /// The bind group layouts of the pipeline
    pub open spec fn layouts(self) -> Seq<LayoutId> {
        match self {
            PipelineView::Render { bg_layouts, .. } => bg_layouts,
            PipelineView::Compute { bg_layouts, .. } => bg_layouts,
        }
    }
}

impl View for PipelineType {
    type V = PipelineView;

    open spec fn view(&self) -> PipelineView {
        match self {
            PipelineType::Render(pip) => PipelineView::Render {
                label: pip.label@,
                bg_layouts: pip.bg_layouts@,
                shader_path: pip.shader_path,
                vs_main: pip.ty.vs_main,
                fs_main: pip.ty.fs_main,
                format: pip.ty.format,
                vertex_layouts: pip.ty.vertex_layouts@.map_values(|l: VertexBufferLayout| l@),
            },
            PipelineType::Compute(pip) => PipelineView::Compute {
                label: pip.label@,
                bg_layouts: pip.bg_layouts@,
                shader_path: pip.shader_path,
                main: pip.ty.main,
            },
        }
    }
}

/// A copy of the layout ids
fn copy_layouts(layouts: &Vec<LayoutId>) -> (copy: Vec<LayoutId>)
    ensures
        copy@ == layouts@,
{
    let mut copy: Vec<LayoutId> = Vec::new();
    let mut i: usize = 0;
    while i < layouts.len()
        invariant
            i <= layouts@.len(),
            copy@ == layouts@.take(i as int),
        decreases layouts@.len() - i,
    {
        copy.push(layouts[i]);
        i += 1;
        assert(copy@ =~= layouts@.take(i as int));
    }
    assert(layouts@.take(layouts@.len() as int) =~= layouts@);
    copy
}

impl Clone for PipelineType {
    fn clone(&self) -> (copy: Self)
        ensures
            copy@ == self@,
    {
        match self {
            PipelineType::Render(pip) => {
                let mut vertex_layouts: Vec<VertexBufferLayout> = Vec::new();
                let mut i: usize = 0;
                while i < pip.ty.vertex_layouts.len()
                    invariant
                        i <= pip.ty.vertex_layouts@.len(),
                        vertex_layouts@.len() == i,
                        forall|j: int| 0 <= j < i ==> (#[trigger] vertex_layouts@[j])@ == pip.ty.vertex_layouts@[j]@,
                    decreases pip.ty.vertex_layouts@.len() - i,
                {
                    vertex_layouts.push(pip.ty.vertex_layouts[i].clone());
                    i += 1;
                }
                let copy = PipelineType::Render(
                    Pipeline {
                        label: pip.label.clone(),
                        bg_layouts: copy_layouts(&pip.bg_layouts),
                        shader_path: pip.shader_path,
                        ty: RenderType {
                            vs_main: pip.ty.vs_main,
                            fs_main: pip.ty.fs_main,
                            format: pip.ty.format,
                            vertex_layouts,
                        },
                    },
                );
                assert(copy@ == self@) by {
                    assert(vertex_layouts@.map_values(|l: VertexBufferLayout| l@) =~= pip.ty.vertex_layouts@.map_values(
                        |l: VertexBufferLayout| l@,
                    ));
                }
                copy
            },
            PipelineType::Compute(pip) => PipelineType::Compute(
                Pipeline {
                    label: pip.label.clone(),
                    bg_layouts: copy_layouts(&pip.bg_layouts),
                    shader_path: pip.shader_path,
                    ty: ComputeType { main: pip.ty.main },
                },
            ),
        }
    }
}

} // verus!
