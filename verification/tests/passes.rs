use voxel_march::graphics::renderer::Renderer;
use voxel_march::game::rendering::blit::BlitPass;
use voxel_march::game::rendering::globals::GlobalResources;
use voxel_march::game::rendering::raymarch::{CoarsePass, RayMarchFinePass, RayMarchResources};
use voxel_march::game::rendering::taa::TaaPass;
use voxel_march::game::palette::VoxelPalette;
use voxel_march::game::plan::ResourceRequest;
use voxel_march::game::world::VoxelWorld;
use voxel_march::graphics::context::{LayoutId, SamplerId, TextureId};
use voxel_march::graphics::resources::bindgroup::BindingTarget;
use voxel_march::graphics::resources::texture::TexFormat;
use voxel_march::graphics::commands::ComputeCommand;
use voxel_march::graphics::context::{BindGroupId, BufferId, GpuCommand, NamedBindGroup, PipelineId};
use voxel_march::utils::font::font_asset::{FontAssets, FontId};
use voxel_march::utils::font::font_reader::{FontPipeline, FontReaderId};

#[test]
fn taa_pass_alternates_bind_groups() {
    let globals = GlobalResources::new();
    assert_eq!(globals.ids.cam_id, BufferId("main_camera"));
    let mut taa = TaaPass::new(globals.ids);
    let ids = taa.taa_ids();
    let first = taa.get(10, 5);
    let second = taa.get(10, 5);
    let third = taa.get(10, 5);
    assert_eq!(first.bind_groups(), &[ids.bg_a_id]);
    assert_eq!(second.bind_groups(), &[ids.bg_b_id]);
    assert_eq!(third.bind_groups(), &[ids.bg_a_id]);
    assert_eq!(first.workgroups(), (10, 5, 1));
    assert_eq!(first.pipeline_id(), PipelineId("taa_pipeline"));
    taa.get(1, 1);
    let plan = taa.on_resize();
    assert_eq!(plan.len(), 4);
    assert_eq!(taa.get(1, 1).bind_groups(), &[ids.bg_a_id]);
}

#[test]
fn blit_pass_alternates_bind_groups() {
    let mut blit = BlitPass::new(GlobalResources::new().ids);
    let ids = blit.blit_ids();
    let first = blit.get();
    let second = blit.get();
    match (first, second) {
        (GpuCommand::RenderPass(a), GpuCommand::RenderPass(b)) => {
            assert_eq!(a.bind_groups, vec![ids.bg_b_id]);
            assert_eq!(b.bind_groups, vec![ids.bg_a_id]);
            assert_eq!(a.vertex_count, 3);
        },
        _ => panic!("expected draws"),
    }
    blit.get();
    let plan = blit.on_resize();
    assert_eq!(plan.len(), 4);
    match blit.get() {
        GpuCommand::RenderPass(a) => assert_eq!(a.bind_groups, vec![ids.bg_b_id]),
        _ => panic!("expected a draw"),
    }
}

#[test]
fn ray_march_resources_and_passes() {
    let rm = RayMarchResources::new();
    assert_eq!(rm.ids.vox_id, BufferId("voxels"));
    assert_eq!(rm.ids.vox_bg_id.layout_id.0, "voxel_bind_group_layout");
    assert_eq!(RayMarchResources::coarse_size(1921, 1080), (960, 540));
    let globals = GlobalResources::new().ids;
    let mut fine = RayMarchFinePass::new(globals, rm.ids);
    let cmd = fine.get(4, 3);
    assert_eq!(cmd.workgroups(), (4, 3, 1));
    let mut coarse = CoarsePass::new(globals, rm.ids);
    let cmd = coarse.get(2, 2);
    assert_eq!(cmd.workgroups(), (2, 2, 1));
}

#[test]
fn compute_commands_collect_bind_groups() {
    let cmd = ComputeCommand::new(PipelineId("p"), (1, 2, 3))
        .with_bind_groups(&[BindGroupId("a")])
        .with_bind_groups(&[BindGroupId("b"), BindGroupId("c")]);
    assert_eq!(cmd.bind_groups(), &[BindGroupId("a"), BindGroupId("b"), BindGroupId("c")]);
    assert_eq!(cmd.workgroups(), (1, 2, 3));
}

#[test]
fn named_bind_groups_name_their_layout() {
    let named = NamedBindGroup::new("shadow");
    assert_eq!(named.id, BindGroupId("shadow"));
    assert_eq!(named.layout_id.0, "shadow_layout");
}

#[test]
fn font_assets_have_fixed_ids() {
    let font_id = FontId {
        path: "./fonts/a.ttf".to_string(),
        pip: FontPipeline { id: PipelineId("sdf_font_pipeline"), shader: "./shaders/sdf_font.wgsl".to_string() },
    };
    let assets = FontAssets::new(font_id.clone());
    assert_eq!(assets.font_id, font_id);
    assert_eq!(assets.cbuffer_id, BufferId("char_instances"));
    assert_eq!(assets.atlas_tex_id.0, "font_altas");
    assert_eq!(assets.atlas_samp_id.0, "font_altas");
    assert_eq!(assets.bg.layout_id.0, "font_bind_group_layout");
    assert_eq!(FontReaderId("sdf_reader"), FontReaderId("sdf_reader"));
}

#[test]
fn global_resources_request_camera_and_canvas_textures() {
    let mut globals = GlobalResources::new();
    let plan = globals.init(&vec![7; 80], 800, 600);
    assert_eq!(plan.len(), 4);
    match &plan[0] {
        ResourceRequest::UniformBuffer(id, b) => {
            assert_eq!(*id, BufferId("main_camera"));
            assert_eq!(b.label, "Camera Buffer");
            assert_eq!(b.init_data, Some(vec![7; 80]));
            assert_eq!(b.usage, 64 | 8);
        },
        _ => panic!("expected the camera buffer"),
    }
    match &plan[1] {
        ResourceRequest::Texture(id, t) => {
            assert_eq!(*id, TextureId("ray_march_texture"));
            assert_eq!(t.label, "Raymarch Texture");
            assert_eq!((t.ty.dim.width, t.ty.dim.height), (800, 600));
            assert_eq!(t.format, TexFormat::Rgba16Float);
            assert_eq!(t.usage, 4 | 8 | 1);
        },
        _ => panic!("expected the ray march texture"),
    }
    match &plan[3] {
        ResourceRequest::Texture(id, t) => {
            assert_eq!(*id, TextureId("taa_texture_b"));
            assert_eq!(t.usage, 4 | 8);
        },
        _ => panic!("expected history texture B"),
    }
    let plan = globals.on_resize(1024, 768);
    assert_eq!(plan.len(), 6);
    match (&plan[0], &plan[1]) {
        (ResourceRequest::RemoveTexture(gone), ResourceRequest::Texture(id, t)) => {
            assert_eq!(*gone, TextureId("ray_march_texture"));
            assert_eq!(*id, TextureId("ray_march_texture"));
            assert_eq!((t.ty.dim.width, t.ty.dim.height), (1024, 768));
            assert_eq!(t.usage, 4 | 8);
        },
        _ => panic!("expected the ray march texture to be made again"),
    }
    match &plan[4] {
        ResourceRequest::RemoveTexture(gone) => assert_eq!(*gone, TextureId("taa_texture_b")),
        _ => panic!("expected history texture B to go"),
    }
}

#[test]
fn ray_march_resources_request_world_buffers_and_half_size_textures() {
    let rm = RayMarchResources::new();
    let world = VoxelWorld::new();
    let bytes = world.region_bytes();
    let plan = rm.init(&world, 1921, 1080);
    assert_eq!(plan.len(), 7);
    match &plan[0] {
        ResourceRequest::StorageBuffer(id, b) => {
            assert_eq!(*id, BufferId("voxels"));
            assert_eq!(b.label, "Voxel Buffer");
            assert_eq!(b.init_data.as_ref().map(|d| d.len()), Some(bytes.voxels.len()));
            assert_eq!(b.usage, 128 | 8);
        },
        _ => panic!("expected the voxel buffer"),
    }
    match &plan[1] {
        ResourceRequest::StorageBuffer(id, b) => {
            assert_eq!(*id, BufferId("grid_bitmask"));
            assert_eq!(b.label, "Grid Buffer");
            assert_eq!(b.init_data.as_ref().map(|d| d.len()), Some(bytes.grids.len()));
        },
        _ => panic!("expected the grid buffer"),
    }
    match &plan[2] {
        ResourceRequest::BindGroup(id, layout, bg) => {
            assert_eq!(*id, BindGroupId("voxel_bind_group"));
            assert_eq!(layout.0, "voxel_bind_group_layout");
            assert_eq!(bg.label, "Voxel Data");
            assert_eq!(bg.bindings[1].target, BindingTarget::Buffer(BufferId("grid_bitmask")));
        },
        _ => panic!("expected the voxel bind group"),
    }
    let expected = [
        ("coarse_positions", "Position Texture", TexFormat::Rgba16Float),
        ("coarse_normals", "Normals Texture", TexFormat::Rgba8Unorm),
        ("coarse_depth", "Normals Texture", TexFormat::R32Float),
        ("coarse_material_ids", "Normals Texture", TexFormat::R32Float),
    ];
    for (k, (name, label, format)) in expected.iter().enumerate() {
        match &plan[3 + k] {
            ResourceRequest::Texture(id, t) => {
                assert_eq!(*id, TextureId(*name));
                assert_eq!(t.label, *label);
                assert_eq!(t.format, *format);
                assert_eq!((t.ty.dim.width, t.ty.dim.height), (960, 540));
                assert_eq!(t.usage, 4 | 8 | 1);
            },
            _ => panic!("expected a coarse texture"),
        }
    }
    let plan = rm.on_resize(400, 300);
    assert_eq!(plan.len(), 8);
    for (k, (name, _, _)) in expected.iter().enumerate() {
        match (&plan[k], &plan[4 + k]) {
            (ResourceRequest::RemoveTexture(gone), ResourceRequest::Texture(id, t)) => {
                assert_eq!(*gone, TextureId(*name));
                assert_eq!(*id, TextureId(*name));
                assert_eq!((t.ty.dim.width, t.ty.dim.height), (200, 150));
            },
            _ => panic!("expected a coarse texture to be made again"),
        }
    }
}

#[test]
fn fine_pass_requests_materials_uniforms_groups_and_pipeline() {
    let globals = GlobalResources::new().ids;
    let rm = RayMarchResources::new().ids;
    let mut fine = RayMarchFinePass::new(globals, rm);
    let palette = VoxelPalette { colors: vec![5; 48] };
    let plan = fine.init(&vec![9; 64], &palette);
    assert_eq!(plan.len(), 9);
    match &plan[0] {
        ResourceRequest::DiskTexture(id, t) => {
            assert_eq!(*id, TextureId("grass_side_alpha_mask"));
            assert_eq!(t.ty.path, "./assets/grass_block_side_overlay.png");
            assert_eq!(t.format, TexFormat::Rgba8Unorm);
            assert_eq!(t.usage, 4 | 2);
        },
        _ => panic!("expected the grass mask"),
    }
    match &plan[1] {
        ResourceRequest::DiskTexture(id, t) => {
            assert_eq!(*id, TextureId("block_atlas"));
            assert_eq!(t.label, "Block Atlas Texture");
        },
        _ => panic!("expected the atlas"),
    }
    match &plan[2] {
        ResourceRequest::Sampler(id, sampler) => {
            assert_eq!(*id, SamplerId("texture_sampler"));
            assert_eq!(sampler.desc.label, Some("Atlas Sampler"));
        },
        _ => panic!("expected the atlas sampler"),
    }
    match (&plan[3], &plan[4]) {
        (ResourceRequest::UniformBuffer(env, e), ResourceRequest::UniformBuffer(pal, p)) => {
            assert_eq!(*env, BufferId("environment"));
            assert_eq!(e.init_data, Some(vec![9; 64]));
            assert_eq!(*pal, BufferId("palette"));
            assert_eq!(p.label, "Palette Buffer");
            assert_eq!(p.init_data, Some(vec![5; 48]));
        },
        _ => panic!("expected the environment and palette buffers"),
    }
    match &plan[6] {
        ResourceRequest::BindGroup(id, layout, bg) => {
            assert_eq!(*id, BindGroupId("material_bind_group"));
            assert_eq!(*layout, LayoutId("material_bind_group_layout"));
            assert_eq!(bg.bindings[2].target, BindingTarget::Sampler(SamplerId("texture_sampler")));
            assert_eq!(bg.bindings[3].target, BindingTarget::Buffer(BufferId("palette")));
        },
        _ => panic!("expected the material bind group"),
    }
    match &plan[8] {
        ResourceRequest::ComputePipeline(id, p) => {
            assert_eq!(*id, PipelineId("rm_fine_pipeline"));
            assert_eq!(p.shader_path, Some("./shaders/fine_rm.wgsl"));
            assert_eq!(p.bg_layouts.len(), 4);
            assert_eq!(p.bg_layouts[2], LayoutId("voxel_bind_group_layout"));
        },
        _ => panic!("expected the fine pipeline"),
    }
    let plan = fine.on_resize();
    assert_eq!(plan.len(), 2);
    match (&plan[0], &plan[1]) {
        (ResourceRequest::RemoveBindGroup(gone), ResourceRequest::BindGroup(id, _, bg)) => {
            assert_eq!(*gone, BindGroupId("screen_textures_bind_group_fine"));
            assert_eq!(*id, BindGroupId("screen_textures_bind_group_fine"));
            assert_eq!(bg.bindings[4].target, BindingTarget::Texture(TextureId("ray_march_texture")));
        },
        _ => panic!("expected the screen texture bind group to be made again"),
    }
}

#[test]
fn coarse_taa_and_blit_passes_request_groups_and_pipelines() {
    let globals = GlobalResources::new().ids;
    let rm = RayMarchResources::new().ids;
    let mut coarse = CoarsePass::new(globals, rm);
    let plan = coarse.init();
    assert_eq!(plan.len(), 3);
    match &plan[1] {
        ResourceRequest::BindGroup(id, _, bg) => {
            assert_eq!(*id, BindGroupId("deferred_textures_bind_group_coarse"));
            assert_eq!(bg.bindings.len(), 4);
        },
        _ => panic!("expected the deferred texture bind group"),
    }
    match &plan[2] {
        ResourceRequest::ComputePipeline(id, p) => {
            assert_eq!(*id, PipelineId("rm_coarse_pipeline"));
            assert_eq!(p.shader_path, Some("./shaders/coarse_rm.wgsl"));
        },
        _ => panic!("expected the coarse pipeline"),
    }
    let plan = coarse.on_resize();
    assert_eq!(plan.len(), 2);
    match &plan[0] {
        ResourceRequest::RemoveBindGroup(gone) => assert_eq!(*gone, BindGroupId("deferred_textures_bind_group_coarse")),
        _ => panic!("expected the deferred texture bind group to go"),
    }

    let mut taa = TaaPass::new(globals);
    let plan = taa.init();
    assert_eq!(plan.len(), 3);
    match (&plan[0], &plan[1]) {
        (ResourceRequest::BindGroup(a, la, bg_a), ResourceRequest::BindGroup(b, lb, bg_b)) => {
            assert_eq!(*a, BindGroupId("taa_bind_group_a"));
            assert_eq!(*b, BindGroupId("taa_bind_group_b"));
            assert_eq!(*la, LayoutId("taa_layout"));
            assert_eq!(*lb, LayoutId("taa_layout"));
            assert_eq!(bg_a.bindings[2].target, BindingTarget::Texture(TextureId("taa_texture_b")));
            assert_eq!(bg_b.bindings[2].target, BindingTarget::Texture(TextureId("taa_texture_a")));
        },
        _ => panic!("expected both taa bind groups"),
    }

    let mut blit = BlitPass::new(globals);
    let plan = blit.init();
    assert_eq!(plan.len(), 3);
    match &plan[2] {
        ResourceRequest::RenderPipeline(id, p) => {
            assert_eq!(*id, PipelineId("blit_pipeline"));
            assert_eq!(p.label, "Voxel Render Pipeline");
        },
        _ => panic!("expected the blit pipeline"),
    }
    let plan = blit.on_resize();
    match (&plan[2], &plan[3]) {
        (ResourceRequest::RemoveBindGroup(gone), ResourceRequest::BindGroup(id, _, bg)) => {
            assert_eq!(*gone, BindGroupId("blit_bind_group_b"));
            assert_eq!(*id, BindGroupId("blit_bind_group_b"));
            assert_eq!(bg.bindings[0].target, BindingTarget::Texture(TextureId("taa_texture_b")));
        },
        _ => panic!("expected blit bind group B to be made again"),
    }
}

#[test]
fn taa_writes_what_blit_shows_every_frame() {
    let globals = GlobalResources::new().ids;
    let mut taa = TaaPass::new(globals);
    let mut blit = BlitPass::new(globals);
    let taa_ids = taa.taa_ids();
    let blit_ids = blit.blit_ids();
    let mut frame = 0;
    for round in 0..6 {
        let taa_group = taa.get(8, 8).bind_groups()[0];
        let blit_group = match blit.get() {
            GpuCommand::RenderPass(info) => info.bind_groups[0],
            _ => panic!("expected a draw"),
        };
        if frame % 2 == 0 {
            // texture A is the history, B the current image
            assert_eq!(taa_group, taa_ids.bg_a_id);
            assert_eq!(blit_group, blit_ids.bg_b_id);
        } else {
            assert_eq!(taa_group, taa_ids.bg_b_id);
            assert_eq!(blit_group, blit_ids.bg_a_id);
        }
        frame += 1;
        if round == 2 {
            // frames are counted again from a resize
            taa.on_resize();
            blit.on_resize();
            frame = 0;
        }
    }
}

#[test]
fn renderer_requests_camera_group_and_pipeline() {
    let (renderer, plan) = Renderer::new(&vec![3; 128], TexFormat::Bgra8UnormSrgb);
    assert_eq!(plan.len(), 3);
    match &plan[0] {
        ResourceRequest::UniformBuffer(id, b) => {
            assert_eq!(*id, BufferId("camera_buffer"));
            assert_eq!(b.label, "Camera Buffer");
            assert_eq!(b.init_data, Some(vec![3; 128]));
        },
        _ => panic!("expected the camera buffer"),
    }
    match &plan[1] {
        ResourceRequest::BindGroup(id, layout, bg) => {
            assert_eq!(*id, BindGroupId("camera_bind_group"));
            assert_eq!(*layout, LayoutId("camera_bind_group_layout"));
            assert_eq!(bg.label, "Camera Bind Group");
            assert_eq!(bg.bindings[0].target, BindingTarget::Buffer(BufferId("camera_buffer")));
        },
        _ => panic!("expected the camera bind group"),
    }
    match &plan[2] {
        ResourceRequest::RenderPipeline(id, p) => {
            assert_eq!(*id, PipelineId("voxel_render_pipeline"));
            assert_eq!(p.shader_path, Some("./shaders/shader.wgsl"));
            assert_eq!(p.bg_layouts, vec![LayoutId("camera_bind_group_layout")]);
        },
        _ => panic!("expected the render pipeline"),
    }
    match renderer.render() {
        GpuCommand::RenderPass(info) => {
            assert_eq!(info.pipeline_id, PipelineId("voxel_render_pipeline"));
            assert_eq!(info.bind_groups, vec![BindGroupId("camera_bind_group")]);
            assert_eq!(info.vertex_count, 3);
        },
        _ => panic!("expected a draw"),
    }
}
