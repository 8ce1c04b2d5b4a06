use voxel_march::controls::keyboard::KeyEvent;
use voxel_march::game::game::{Game, GameButton, GameIds, GameKey, PlayerKeyAction};
use voxel_march::graphics::context::{BindGroupId, BufferId, GpuCommand, LayoutId, PipelineId, TextureId};
use voxel_march::graphics::resources::bindgroup::{BindingTarget, BindingType, BufferBindingType};
use voxel_march::game::plan::{InitialData, ResourceRequest};
use voxel_march::graphics::resources::texture::TexFormat;

fn data() -> InitialData {
    InitialData {
        camera: vec![1; 80],
        environment: vec![2; 64],
        palette: vec![3; 80],
    }
}

fn start(game: &mut Game) -> GameIds {
    game.init(data(), 1920, 1080);
    game.resource_ids().unwrap()
}

fn press(key: GameKey) -> KeyEvent {
    KeyEvent { code: Some(key.code()), pressed: true, repeat: false }
}

fn release(key: GameKey) -> KeyEvent {
    KeyEvent { code: Some(key.code()), pressed: false, repeat: false }
}

#[test]
fn ids_have_their_names() {
    let ids = GameIds::new();
    assert_eq!(ids.cam_id, BufferId("main_camera"));
    assert_eq!(ids.reg_id, BufferId("Region"));
    assert_eq!(ids.rm_tex_id, TextureId("ray_march_texture"));
    assert_eq!(ids.rm_bgl_id, LayoutId("raymarch_layout"));
    assert_eq!(ids.taa_bg_b_id, BindGroupId("taa_bind_group_b"));
    assert_eq!(ids.blit_pip_id, PipelineId("blit_pipeline"));
}

#[test]
fn init_pauses_the_world_and_binds_input() {
    let mut game = Game::new();
    assert!(game.update() == false);
    assert!(game.resource_ids().is_none());
    let ids = start(&mut game);
    assert_eq!(ids.env_id, BufferId("environment"));
    assert!(!game.update());
    game.key_event(&press(GameKey::P));
    let outcome = game.process_keys(true);
    assert!(!outcome.exit);
    assert!(game.update());
}

#[test]
fn held_movement_keys_move_the_camera_only_when_locked() {
    let mut game = Game::new();
    start(&mut game);
    game.key_event(&press(GameKey::W));
    game.key_event(&press(GameKey::R));
    let outcome = game.process_keys(false);
    assert!(outcome.moves.is_empty());
    assert!(!outcome.reset_camera);
    game.key_event(&press(GameKey::R));
    let outcome = game.process_keys(true);
    assert_eq!(outcome.moves, vec![PlayerKeyAction::MoveForward]);
    assert!(!outcome.reset_camera);
    game.key_event(&release(GameKey::R));
    game.key_event(&release(GameKey::W));
    game.key_event(&press(GameKey::R));
    let outcome = game.process_keys(true);
    assert!(outcome.moves.is_empty());
    assert!(outcome.reset_camera);
}

#[test]
fn escape_exits_before_anything_else() {
    let mut game = Game::new();
    start(&mut game);
    game.key_event(&press(GameKey::Escape));
    game.key_event(&press(GameKey::P));
    let outcome = game.process_keys(true);
    assert!(outcome.exit);
    assert!(!game.update());
    let outcome = game.process_keys(true);
    assert!(outcome.exit);
}

#[test]
fn mouse_buttons_lock_and_unlock_the_cursor() {
    let mut game = Game::new();
    start(&mut game);
    game.button_event(true, GameButton::Left.code());
    game.button_event(true, GameButton::Right.code());
    assert_eq!(game.poll_mouse(), vec![true, false]);
    assert!(game.poll_mouse().is_empty());
    game.button_event(true, 7);
    assert!(game.poll_mouse().is_empty());
}

#[test]
fn frames_alternate_history_textures() {
    let mut game = Game::new();
    assert!(game.render(1920, 1080).is_empty());
    let ids = start(&mut game);
    let first = game.render(1920, 1080);
    assert_eq!(first.len(), 3);
    match &first[0] {
        GpuCommand::ComputePass(c) => {
            assert_eq!(c.pipeline_id, ids.rm_pip_id);
            assert_eq!(c.bind_groups, vec![ids.rm_bg_id]);
            assert_eq!(c.work_groups, (120, 68, 1));
        },
        _ => panic!("expected the ray march pass"),
    }
    match &first[1] {
        GpuCommand::ComputePass(c) => assert_eq!(c.bind_groups, vec![ids.taa_bg_a_id]),
        _ => panic!("expected the taa pass"),
    }
    match &first[2] {
        GpuCommand::RenderPass(r) => {
            assert_eq!(r.bind_groups, vec![ids.blit_bg_b_id]);
            assert_eq!(r.vertex_count, 3);
            assert_eq!(r.instance_count, 1);
        },
        _ => panic!("expected the blit pass"),
    }
    let second = game.render(17, 16);
    match &second[1] {
        GpuCommand::ComputePass(c) => {
            assert_eq!(c.bind_groups, vec![ids.taa_bg_b_id]);
            assert_eq!(c.work_groups, (2, 1, 1));
        },
        _ => panic!("expected the taa pass"),
    }
    match &second[2] {
        GpuCommand::RenderPass(r) => assert_eq!(r.bind_groups, vec![ids.blit_bg_a_id]),
        _ => panic!("expected the blit pass"),
    }
    let third = game.render(1, 1);
    match &third[1] {
        GpuCommand::ComputePass(c) => assert_eq!(c.bind_groups, vec![ids.taa_bg_a_id]),
        _ => panic!("expected the taa pass"),
    }
}

#[test]
fn raymarch_bind_groups_list_their_resources() {
    let ids = GameIds::new();
    let first = ids.raymarch_bind_group();
    assert_eq!(first.label, "Raymarch Bind Group");
    let targets: Vec<BindingTarget> = first.bindings.iter().map(|e| e.target).collect();
    assert_eq!(
        targets,
        vec![
            BindingTarget::Buffer(ids.cam_id),
            BindingTarget::Buffer(ids.env_id),
            BindingTarget::Buffer(ids.pal_id),
            BindingTarget::Buffer(ids.reg_id),
            BindingTarget::Buffer(ids.vox_id),
            BindingTarget::Texture(ids.rm_tex_id),
        ]
    );
    assert!(first.layout_entries.iter().all(|e| e.visibility == 4));
    assert_eq!(
        first.layout_entries[3].ty,
        BindingType::Buffer { ty: BufferBindingType::Storage { read_only: true }, has_dynamic_offset: false, min_binding_size: None }
    );
    let resized = ids.resized_raymarch_bind_group();
    assert_eq!(resized.bindings[3].target, BindingTarget::Buffer(ids.vox_id));
    assert_eq!(resized.bindings[4].target, BindingTarget::Buffer(ids.reg_id));
}

#[test]
fn taa_and_blit_bind_groups_swap_textures() {
    let ids = GameIds::new();
    let a = ids.taa_bind_group_a();
    let b = ids.taa_bind_group_b();
    assert_eq!(a.label, "TAA Bind Group A");
    assert_eq!(a.bindings[1].target, BindingTarget::Texture(ids.taa_tex_a_id));
    assert_eq!(a.bindings[2].target, BindingTarget::Texture(ids.taa_tex_b_id));
    assert_eq!(b.bindings[1].target, BindingTarget::Texture(ids.taa_tex_b_id));
    assert_eq!(b.bindings[2].target, BindingTarget::Texture(ids.taa_tex_a_id));
    let blit = ids.blit_bind_group_b();
    assert_eq!(blit.label, "Blit Bind Group B");
    assert_eq!(blit.bindings.len(), 1);
    assert_eq!(blit.layout_entries[0].visibility, 2);
    assert_eq!(ids.blit_bind_group_a().bindings[0].target, BindingTarget::Texture(ids.taa_tex_a_id));
}

#[test]
fn game_pipelines_and_textures() {
    let ids = GameIds::new();
    let rm = ids.raymarch_pipeline();
    assert_eq!(rm.label, "Voxel Ray Marching Pipeline");
    assert_eq!(rm.bg_layouts, vec![ids.rm_bgl_id]);
    assert_eq!(rm.shader_path, Some("./shaders/ray_march.wgsl"));
    assert_eq!(ids.taa_pipeline().shader_path, Some("./shaders/taa.wgsl"));
    let blit = ids.blit_pipeline();
    assert_eq!(blit.label, "Voxel Render Pipeline");
    assert_eq!(blit.ty.fs_main, "fs_main");
    let tex = ids.raymarch_texture(800, 600, true);
    assert_eq!(tex.label, "Raymarch Texture");
    assert_eq!(tex.format, TexFormat::Rgba16Float);
    assert_eq!(tex.usage, 4 | 8 | 1);
    assert_eq!(tex.ty.dim.width, 800);
    assert_eq!(ids.raymarch_texture(800, 600, false).usage, 4 | 8);
    assert_eq!(ids.taa_texture_a(2, 2).label, "TAA Texture A");
    assert_eq!(ids.taa_texture_b(2, 2).usage, 4 | 8);
}

#[test]
fn init_requests_every_resource_in_order() {
    let mut game = Game::new();
    let plan = game.init(data(), 640, 480);
    let ids = game.resource_ids().unwrap();
    assert_eq!(plan.len(), 16);
    match &plan[0] {
        ResourceRequest::UniformBuffer(id, b) => {
            assert_eq!(*id, ids.cam_id);
            assert_eq!(b.label, "Camera Buffer");
            assert_eq!(b.init_data, Some(vec![1; 80]));
            assert_eq!(b.usage, 64 | 8);
        },
        _ => panic!("expected the camera buffer"),
    }
    match &plan[3] {
        ResourceRequest::StorageBuffer(id, b) => {
            assert_eq!(*id, ids.vox_id);
            assert_eq!(b.label, "Voxel Buffer");
            assert!(b.init_data.as_ref().is_some_and(|d| !d.is_empty() && d.len() % 4 == 0));
            assert_eq!(b.usage, 128 | 8);
        },
        _ => panic!("expected the voxel buffer"),
    }
    match &plan[5] {
        ResourceRequest::Texture(id, t) => {
            assert_eq!(*id, ids.rm_tex_id);
            assert_eq!(t.ty.dim.width, 640);
            assert_eq!(t.ty.dim.height, 480);
            assert_eq!(t.usage, 4 | 8 | 1);
        },
        _ => panic!("expected the ray march texture"),
    }
    match &plan[8] {
        ResourceRequest::BindGroup(id, layout, bg) => {
            assert_eq!(*id, ids.rm_bg_id);
            assert_eq!(*layout, ids.rm_bgl_id);
            assert_eq!(bg.bindings[3].target, BindingTarget::Buffer(ids.reg_id));
        },
        _ => panic!("expected the ray march bind group"),
    }
    match &plan[9] {
        ResourceRequest::ComputePipeline(id, p) => {
            assert_eq!(*id, ids.rm_pip_id);
            assert_eq!(p.shader_path, Some("./shaders/ray_march.wgsl"));
        },
        _ => panic!("expected the ray march pipeline"),
    }
    match &plan[15] {
        ResourceRequest::RenderPipeline(id, p) => {
            assert_eq!(*id, ids.blit_pip_id);
            assert_eq!(p.label, "Voxel Render Pipeline");
        },
        _ => panic!("expected the blit pipeline"),
    }
}

#[test]
fn resize_remakes_canvas_sized_resources() {
    let mut game = Game::new();
    assert!(game.on_resize(10, 10).is_empty());
    game.init(data(), 640, 480);
    let ids = game.resource_ids().unwrap();
    let plan = game.on_resize(800, 600);
    assert_eq!(plan.len(), 16);
    match &plan[0] {
        ResourceRequest::RemoveTexture(id) => assert_eq!(*id, ids.rm_tex_id),
        _ => panic!("expected the ray march texture to go"),
    }
    match &plan[1] {
        ResourceRequest::Texture(id, t) => {
            assert_eq!(*id, ids.rm_tex_id);
            assert_eq!(t.ty.dim.width, 800);
            assert_eq!(t.usage, 4 | 8);
        },
        _ => panic!("expected the ray march texture"),
    }
    match &plan[7] {
        ResourceRequest::BindGroup(id, _, bg) => {
            assert_eq!(*id, ids.rm_bg_id);
            assert_eq!(bg.bindings[3].target, BindingTarget::Buffer(ids.vox_id));
        },
        _ => panic!("expected the ray march bind group"),
    }
    match &plan[14] {
        ResourceRequest::RemoveBindGroup(id) => assert_eq!(*id, ids.blit_bg_b_id),
        _ => panic!("expected the blit bind group to go"),
    }
}

#[test]
fn step_presses_are_counted_while_locked() {
    let mut game = Game::new();
    start(&mut game);
    game.key_event(&press(GameKey::N));
    game.key_event(&release(GameKey::N));
    game.key_event(&press(GameKey::N));
    let outcome = game.process_keys(true);
    assert_eq!(outcome.steps, 2);
    game.key_event(&release(GameKey::N));
    game.key_event(&press(GameKey::N));
    let outcome = game.process_keys(false);
    assert_eq!(outcome.steps, 0);
}
