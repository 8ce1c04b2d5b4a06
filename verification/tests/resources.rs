use voxel_march::graphics::buffer::{BufferBuilder, BufferContents, BufferRole};
use voxel_march::graphics::context::{BufferId, LayoutId, SamplerId, TextureId};
use voxel_march::graphics::resources::bindgroup::{
    BindGroup, BindingTarget, BindingType, BufferBinding, BufferBindingType, SamplerBinding, SamplerBindingType,
    StorageTextureAccess, TextureBinding, TextureTypeSampled, TextureTypeStorage, TextureViewDimension,
};
use voxel_march::graphics::resources::buffer::{Buffer, BufferUpdate, RawBytesUpdate, Serializable, Storage, StructuredUpdate, Uniform};
use voxel_march::graphics::resources::pipeline::{ComputeType, Pipeline, PipelineType, RenderType};
use voxel_march::graphics::resources::sampler::{AddressMode, Anisotropic, Bordered, CompareFunction, Comparison, FilterMode, Linear, Nearest, Sampler};
use voxel_march::graphics::resources::texture::{Computed, OnDisk, Procedural, TexDimensions, TexFormat, Texture};
use voxel_march::graphics::resources::vertex::{VertexBufferLayout, VertexFormat, VertexStepMode};

#[test]
fn pad_bytes_fills_with_zeros_to_the_alignment() {
    let padded = Buffer::<Uniform>::pad_bytes(vec![1, 2, 3], 16);
    assert_eq!(padded.len(), 16);
    assert_eq!(&padded[0..3], &[1, 2, 3]);
    assert!(padded[3..].iter().all(|b| *b == 0));
    assert_eq!(Buffer::<Uniform>::pad_bytes(vec![7; 32], 16), vec![7; 32]);
    assert_eq!(Buffer::<Uniform>::pad_bytes(Vec::new(), 16), Vec::<u8>::new());
}

#[test]
fn padding_twice_is_padding_once() {
    let once = Buffer::<Uniform>::pad_bytes(vec![9; 20], 16);
    let twice = Buffer::<Uniform>::pad_bytes(once.clone(), 16);
    assert_eq!(once.len(), 32);
    assert_eq!(once, twice);
}

#[test]
fn align_rounds_up() {
    assert_eq!(Buffer::<Uniform>::align(17, 16), 32);
    assert_eq!(Buffer::<Uniform>::align(32, 16), 32);
    assert_eq!(Buffer::<Uniform>::align(0, 16), 0);
    assert_eq!(Buffer::<Uniform>::align(1, 4), 4);
}

#[test]
fn buffer_blueprints_and_usages() {
    let uniform = Buffer::as_uniform();
    assert_eq!(uniform.label, "uniform_buffer");
    assert_eq!(uniform.usage, 64);
    assert_eq!(uniform.capacity, 16);
    assert!(uniform.init_data.is_none());
    assert_eq!(Buffer::as_uniform().writable().usage, 64 | 8);
    assert_eq!(Buffer::as_uniform().readable().usage, 64 | 4);
    assert_eq!(Buffer::as_uniform().read_write().usage, 64 | 8 | 4);
    assert_eq!(Buffer::as_uniform().writable().readable().usage, Buffer::as_uniform().read_write().usage);
    assert_eq!(Buffer::as_storage().usage, 128);
    assert_eq!(Buffer::as_vertex().usage, 32);
    assert_eq!(Buffer::as_index().usage, 16);
    assert_eq!(Buffer::as_storage().with_additional_usage(1).usage, 129);
    assert_eq!(Buffer::as_index().label, "index_buffer");
}

#[test]
fn uniform_payload_is_padded() {
    let payload = Buffer::as_uniform()
        .with_label("cam")
        .with_byte_data(&[1, 2, 3, 4, 5])
        .with_capacity(20)
        .into_payload()
        .unwrap();
    assert_eq!(payload.label, "cam");
    assert_eq!(payload.capacity, 32);
    let data = payload.init_data.unwrap();
    assert_eq!(data.len(), 16);
    assert_eq!(&data[0..5], &[1, 2, 3, 4, 5]);
}

#[test]
fn storage_payload_is_as_set() {
    let payload = Buffer::<Storage>::as_storage().with_capacity(20).into_payload().unwrap();
    assert_eq!(payload.capacity, 20);
    assert!(payload.init_data.is_none());
    assert_eq!(payload.label, "storage_buffer");
}

#[test]
fn raw_updates_hand_back_their_bytes() {
    let data = [4u8, 5, 6];
    let update = RawBytesUpdate { data: &data, offset: 12 };
    assert_eq!(update.bytes(), &[4, 5, 6]);
    assert_eq!(update.offset(), 12);
}

#[test]
fn buffer_builder_roles() {
    assert_eq!(BufferRole::Uniform.as_usage(), 64);
    assert_eq!(BufferRole::Storage(true).as_usage(), 128);
    let builder = BufferBuilder::new(BufferRole::Storage(false), BufferContents::Empty(64));
    assert_eq!(builder.label, "buffer");
    assert_eq!(builder.usage, 128);
    assert_eq!(builder.visibility, 3);
    assert!(matches!(builder.contents, BufferContents::Empty(64)));
    let uniform = BufferBuilder::as_uniform(BufferContents::WithData(vec![1, 2, 3]))
        .with_label("env")
        .with_additional_usage(8)
        .with_visibility(4);
    assert_eq!(uniform.label, "env");
    assert_eq!(uniform.usage, 72);
    assert_eq!(uniform.visibility, 4);
    match uniform.contents {
        BufferContents::WithData(data) => assert_eq!(data.len(), 16),
        BufferContents::Empty(_) => panic!("expected data"),
    }
    assert_eq!(BufferBuilder::as_storage(BufferContents::Empty(8), true).role, BufferRole::Storage(true));
    assert_eq!(BufferBuilder::pad_bytes(vec![1; 5], 4).len(), 8);
}

#[test]
fn texture_blueprints() {
    let computed = Texture::<Computed>::computed(TexDimensions::size_2d(4, 3));
    assert_eq!(computed.label, "computed_texture");
    assert_eq!(computed.usage, 4 | 8);
    assert_eq!(computed.mip_levels, 1);
    let payload = computed.with_label("rm").writable().readable().into_payload().unwrap();
    assert_eq!(payload.label, "rm");
    assert_eq!(payload.usage, 4 | 8 | 2 | 1);
    assert_eq!(payload.size, TexDimensions::size_2d(4, 3));
    assert!(payload.data.is_none());
    assert_eq!(payload.bytes_per_pixel(), 8);

    let procedural = Texture::<Procedural>::procedural(vec![1, 2, 3, 4], TexDimensions::size_2d(1, 1))
        .with_format(TexFormat::R8Unorm)
        .with_mip_levels(2)
        .storage_bindable()
        .into_payload()
        .unwrap();
    assert_eq!(procedural.usage, 4 | 8);
    assert_eq!(procedural.mip_levels, 2);
    assert_eq!(procedural.data, Some(vec![1, 2, 3, 4]));
    assert_eq!(procedural.bytes_per_pixel(), 1);

    let disk = Texture::<OnDisk>::on_disk("./assets/a.png");
    assert_eq!(disk.label, "disk_loaded_texture");
    assert_eq!(disk.ty.path, "./assets/a.png");
    let payload = disk.into_payload(2, 2, vec![0; 16]);
    assert_eq!(payload.size, TexDimensions::size_2d(2, 2));
    assert_eq!(payload.bytes_per_pixel(), 4);
    assert_eq!(TexDimensions::size_3d(1, 2, 3).depth, 3);
}

#[test]
fn samplers_and_their_payloads() {
    let linear = Sampler::<Linear>::linear().with_mipmap_nearest();
    assert_eq!(linear.desc.label, Some("linear_sampler"));
    assert_eq!(linear.desc.mag_filter, FilterMode::Linear);
    assert_eq!(linear.desc.mipmap_filter, FilterMode::Nearest);
    assert!(linear.into_payload().is_ok());
    let nearest = Sampler::<Nearest>::nearest().with_mipmap_linear().with_address_mode(AddressMode::Repeat);
    assert_eq!(nearest.desc.address_mode_w, AddressMode::Repeat);
    assert_eq!(nearest.desc.mipmap_filter, FilterMode::Linear);
    let cmp = Sampler::<Comparison>::comparison(CompareFunction::LessEqual).with_label("shadow");
    assert_eq!(cmp.desc.compare, Some(CompareFunction::LessEqual));
    assert_eq!(cmp.desc.label, Some("shadow"));
    assert!(cmp.into_payload().is_ok());
}

#[test]
fn anisotropic_level_above_sixteen_is_refused() {
    assert!(Sampler::<Anisotropic>::anisotropic(16).into_payload().is_ok());
    let err = Sampler::<Anisotropic>::anisotropic(17).into_payload().err().unwrap();
    assert_eq!(
        err,
        "Cannot create sampler with label 'Some(\"anisotropic_sampler\")'. Anisotropic level must be in the range [1, 16]."
    );
}

#[test]
fn bordered_sampler_must_clamp_to_border() {
    assert!(Sampler::<Bordered>::bordered().into_payload().is_ok());
    let err = Sampler::<Bordered>::bordered().with_address_mode(AddressMode::Repeat).into_payload().err().unwrap();
    assert_eq!(
        err,
        "Cannot create sampler with label 'Some(\"bordered_sampler\")'. Bordered sampler must have address mode ClampToBorder"
    );
}

#[test]
fn bind_group_entries_take_the_next_slot() {
    let group = BindGroup::new()
        .with_label("test group")
        .with_entry(BufferBinding::as_uniform(BufferId("cam")))
        .with_entry(TextureBinding::as_sampled(TextureId("tex"), TextureTypeSampled { filterable: true, multisampled: false }).with_visibility(4))
        .with_entry(SamplerBinding::new(SamplerId("samp")).with_binding_type(SamplerBindingType::Filtering))
        .with_entry(BufferBinding::as_storage(BufferId("vox"), true).with_dynamic_offset().with_min_size(16));
    assert_eq!(group.label, "test group");
    assert_eq!(group.bindings.len(), 4);
    for (i, entry) in group.bindings.iter().enumerate() {
        assert_eq!(entry.slot, i as u32);
        assert_eq!(group.layout_entries[i].binding, i as u32);
    }
    assert_eq!(group.bindings[0].target, BindingTarget::Buffer(BufferId("cam")));
    assert_eq!(group.bindings[1].target, BindingTarget::Texture(TextureId("tex")));
    assert_eq!(group.bindings[2].target, BindingTarget::Sampler(SamplerId("samp")));
    assert_eq!(group.layout_entries[0].visibility, 2);
    assert_eq!(group.layout_entries[1].visibility, 4);
    assert_eq!(
        group.layout_entries[1].ty,
        BindingType::Texture { filterable: true, view_dimension: TextureViewDimension::D2, multisampled: false }
    );
    assert_eq!(group.layout_entries[2].ty, BindingType::Sampler(SamplerBindingType::Filtering));
    assert_eq!(
        group.layout_entries[3].ty,
        BindingType::Buffer {
            ty: BufferBindingType::Storage { read_only: true },
            has_dynamic_offset: true,
            min_binding_size: Some(16)
        }
    );
    let storage = TextureBinding::as_storage(TextureId("out"), TextureTypeStorage::default());
    assert_eq!(
        storage.ty,
        BindingType::StorageTexture {
            access: StorageTextureAccess::WriteOnly,
            format: TexFormat::Rgba16Float,
            view_dimension: TextureViewDimension::D2
        }
    );
    let copy = group.clone();
    assert_eq!(copy.bindings.len(), 4);
    assert_eq!(copy.label, "test group");
}

#[test]
fn vertex_layouts_pack_attributes() {
    let layout = VertexBufferLayout::as_vertex_step(0)
        .with_attribute(VertexFormat::Float32x3)
        .with_attribute(VertexFormat::Float32x2);
    assert_eq!(layout.curr_offset, 20);
    assert_eq!(layout.curr_loc, 2);
    assert_eq!(layout.attributes[0].offset, 0);
    assert_eq!(layout.attributes[1].offset, 12);
    assert_eq!(layout.attributes[1].shader_location, 1);
    let instance = VertexBufferLayout::as_instance_step(2).with_attribute(VertexFormat::Float32x4);
    assert_eq!(instance.step_mode, VertexStepMode::Instance);
    assert_eq!(instance.attributes[0].shader_location, 2);
    assert_eq!(instance.curr_offset, 16);
    assert_eq!(layout.attributes[0].format, VertexFormat::Float32x3);
    assert_eq!(layout.attributes[1].format, VertexFormat::Float32x2);
}

#[test]
fn instance_layout_of_five_vectors_is_eighty_bytes() {
    let layout = VertexBufferLayout::as_instance_step(2)
        .with_attribute(VertexFormat::Float32x4)
        .with_attribute(VertexFormat::Float32x4)
        .with_attribute(VertexFormat::Float32x4)
        .with_attribute(VertexFormat::Float32x4)
        .with_attribute(VertexFormat::Float32x4);
    let offsets: Vec<u64> = layout.attributes.iter().map(|a| a.offset).collect();
    let locations: Vec<u32> = layout.attributes.iter().map(|a| a.shader_location).collect();
    assert_eq!(offsets, vec![0, 16, 32, 48, 64]);
    assert_eq!(locations, vec![2, 3, 4, 5, 6]);
    assert_eq!(layout.curr_offset, 80);
    assert_eq!(VertexFormat::Float64x4.size(), 32);
    assert_eq!(VertexFormat::Unorm8x4Bgra.size(), 4);
    assert_eq!(VertexFormat::Uint8.size(), 1);
}

#[test]
fn pipeline_blueprints() {
    let compute = Pipeline::<ComputeType>::default()
        .with_label("march")
        .with_bg_layouts(&[LayoutId("a")])
        .with_bg_layouts(&[LayoutId("b"), LayoutId("c")])
        .with_shader("./shaders/x.wgsl");
    assert_eq!(compute.label, "march");
    assert_eq!(compute.ty.main, "cs_main");
    assert_eq!(compute.bg_layouts, vec![LayoutId("a"), LayoutId("b"), LayoutId("c")]);
    assert_eq!(compute.shader_path, Some("./shaders/x.wgsl"));
    let ty = PipelineType::from(compute);
    assert_eq!(ty.bg_layouts().len(), 3);
    let render = Pipeline::<RenderType>::default()
        .with_format(TexFormat::Rgba8Unorm)
        .with_vertex_layout(&VertexBufferLayout::as_vertex_step(0));
    assert_eq!(render.label, "render_pipeline");
    assert_eq!(render.ty.vs_main, "vs_main");
    assert_eq!(render.ty.fs_main, "fs_main");
    assert_eq!(render.ty.format, TexFormat::Rgba8Unorm);
    assert_eq!(render.ty.vertex_layouts.len(), 1);
    assert_eq!(Pipeline::<ComputeType>::as_compute("main").label, "compute_pipeline");
    assert_eq!(ComputeType::new("k").main, "k");
    let copy = PipelineType::from(Pipeline::<RenderType>::as_render("v", "f")).clone();
    assert!(matches!(copy, PipelineType::Render(p) if p.ty.vs_main == "v"));
}

#[test]
fn buffer_roles_bind_as_whole_buffers() {
    assert_eq!(
        BufferRole::Uniform.as_binding_type(),
        BindingType::Buffer { ty: BufferBindingType::Uniform, has_dynamic_offset: false, min_binding_size: None }
    );
    assert_eq!(
        BufferRole::Storage(true).as_binding_type(),
        BindingType::Buffer {
            ty: BufferBindingType::Storage { read_only: true },
            has_dynamic_offset: false,
            min_binding_size: None
        }
    );
    assert_eq!(
        BufferRole::Storage(false).as_binding_type(),
        BindingType::Buffer {
            ty: BufferBindingType::Storage { read_only: false },
            has_dynamic_offset: false,
            min_binding_size: None
        }
    );
}

struct Pair([u8; 2]);

impl Serializable for Pair {
    fn to_bytes(&self) -> &[u8] {
        &self.0
    }
}

#[test]
fn struct_data_is_the_serialized_bytes() {
    let buffer: Buffer<Storage> = Buffer::as_storage().with_struct_data(Pair([3, 4]));
    assert_eq!(buffer.init_data, Some(vec![3, 4]));
    let pair = Pair([5, 6]);
    let update = StructuredUpdate { data: &pair, offset: 8 };
    assert_eq!(update.bytes(), &[5, 6]);
    assert_eq!(update.offset(), 8);
}
