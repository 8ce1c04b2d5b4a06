use voxel_march::graphics::bg_registry::{BgRequest, BindGroupRegistry};
use voxel_march::graphics::context::{BindGroupId, BufferId, LayoutId, PipelineId, SamplerId, TextureId};
use voxel_march::graphics::gpu_context::{BoundHandle, GpuContext};
use voxel_march::graphics::handler::ResourceHandler;
use voxel_march::graphics::pip_registry::{PipRequest, PipelineRegistry};
use voxel_march::graphics::resources::bindgroup::{BindGroup, BindingTarget, BufferBinding, TextureBinding, TextureTypeSampled};
use voxel_march::graphics::resources::pipeline::{ComputeType, Pipeline, PipelineType};
use voxel_march::graphics::commands::{ComputeCommand, DrawCommand, IndexFormat, PipelineHandle};

struct Resources {
    buffers: ResourceHandler<BufferId, u32>,
    textures: ResourceHandler<TextureId, u32>,
    samplers: ResourceHandler<SamplerId, u32>,
}

fn resources() -> Resources {
    Resources { buffers: ResourceHandler::new(), textures: ResourceHandler::new(), samplers: ResourceHandler::new() }
}

fn ready(rsc: u32) -> Result<u32, String> {
    Ok(rsc)
}

fn camera_group() -> BindGroup {
    BindGroup::new().with_entry(BufferBinding::as_uniform(BufferId("cam")))
}

fn request(reg: &mut BindGroupRegistry<u32, u32>, res: &mut Resources, now: u64) -> BgRequest {
    reg.request_bg(
        &BindGroupId("bg"),
        &LayoutId("bgl"),
        &camera_group(),
        &mut res.buffers,
        &mut res.textures,
        &mut res.samplers,
        now,
    )
}

#[test]
fn bind_group_waits_for_layout_then_resources() {
    let mut reg: BindGroupRegistry<u32, u32> = BindGroupRegistry::new();
    let mut res = resources();
    assert_eq!(request(&mut reg, &mut res, 0), BgRequest::AwaitingLayout { start_layout_worker: true });
    assert!(reg.contains_bg_layout(&LayoutId("bgl")));
    assert!(reg.deferred_request(&BindGroupId("bg")).is_some());
    assert!(reg.blueprint(&BindGroupId("bg")).is_none());
    assert_eq!(request(&mut reg, &mut res, 1), BgRequest::AwaitingLayout { start_layout_worker: false });

    reg.complete_layout(LayoutId("bgl"), Ok(7), 2);
    assert_eq!(reg.get_layout(&LayoutId("bgl"), 2).unwrap().ref_count, 1);
    assert_eq!(request(&mut reg, &mut res, 3), BgRequest::AwaitingResources);
    assert!(reg.blueprint(&BindGroupId("bg")).is_some());

    res.buffers.request_new(&BufferId("cam"), None, 3);
    res.buffers.complete(BufferId("cam"), ready(1), 4);
    assert_eq!(request(&mut reg, &mut res, 5), BgRequest::Requested);
    assert!(reg.deferred_request(&BindGroupId("bg")).is_none());
    assert_eq!(reg.get_layout(&LayoutId("bgl"), 5).unwrap().ref_count, 2);
    assert_eq!(res.buffers.status_of(&BufferId("cam")).unwrap().value().unwrap().accessed, 5);
    assert_eq!(request(&mut reg, &mut res, 6), BgRequest::AlreadyRequested);
    assert_eq!(reg.get_layout(&LayoutId("bgl"), 6).unwrap().ref_count, 2);
}

#[test]
fn validation_follows_the_bound_resources() {
    let mut reg: BindGroupRegistry<u32, u32> = BindGroupRegistry::new();
    let mut res = resources();
    reg.request_layout(&LayoutId("bgl"), 0);
    reg.complete_layout(LayoutId("bgl"), Ok(7), 0);
    res.buffers.store(&BufferId("cam"), None, 1, 0);
    assert_eq!(request(&mut reg, &mut res, 1), BgRequest::Requested);
    assert!(reg.validate(&BindGroupId("bg"), &res.buffers, &res.textures, &res.samplers, 2).is_none());
    reg.complete_bind_group(BindGroupId("bg"), LayoutId("bgl"), Ok(42), 3);
    let handle = reg.validate(&BindGroupId("bg"), &res.buffers, &res.textures, &res.samplers, 4).unwrap();
    assert_eq!(handle.bind_group, 42);
    assert_eq!(handle.layout_id, LayoutId("bgl"));

    res.buffers.remove(&BufferId("cam"));
    reg.invalidate_users_of(&BindingTarget::Buffer(BufferId("cam")));
    assert!(reg.validate(&BindGroupId("bg"), &res.buffers, &res.textures, &res.samplers, 5).is_none());
    res.buffers.store(&BufferId("cam"), None, 2, 6);
    assert!(reg.validate(&BindGroupId("bg"), &res.buffers, &res.textures, &res.samplers, 6).is_some());
    reg.invalidate(&BindGroupId("bg"));
    reg.invalidate_users_of(&BindingTarget::Texture(TextureId("cam")));
    assert!(reg.validate(&BindGroupId("bg"), &res.buffers, &res.textures, &res.samplers, 7).is_some());
}

#[test]
fn removing_a_bind_group_releases_its_layout() {
    let mut reg: BindGroupRegistry<u32, u32> = BindGroupRegistry::new();
    let mut res = resources();
    reg.request_layout(&LayoutId("bgl"), 0);
    reg.complete_layout(LayoutId("bgl"), Ok(7), 0);
    res.buffers.store(&BufferId("cam"), None, 1, 0);
    request(&mut reg, &mut res, 1);
    reg.complete_bind_group(BindGroupId("bg"), LayoutId("bgl"), Ok(42), 2);
    assert_eq!(reg.get_layout(&LayoutId("bgl"), 2).unwrap().ref_count, 2);
    reg.remove_bind_group(&BindGroupId("bg"), 3);
    assert_eq!(reg.get_layout(&LayoutId("bgl"), 3).unwrap().ref_count, 1);
    assert!(reg.get_bg(&BindGroupId("bg"), 3).is_none());
    assert!(reg.blueprint(&BindGroupId("bg")).is_none());
    reg.remove_bind_group(&BindGroupId("bg"), 4);
    assert_eq!(reg.get_layout(&LayoutId("bgl"), 4).unwrap().ref_count, 1);
    reg.check_dec_bgl(&LayoutId("bgl"), 5);
    assert!(!reg.contains_bg_layout(&LayoutId("bgl")));
}

#[test]
fn sync_requests_the_waiting_bind_groups_again() {
    let mut reg: BindGroupRegistry<u32, u32> = BindGroupRegistry::new();
    let mut res = resources();
    res.buffers.store(&BufferId("cam"), None, 1, 0);
    assert_eq!(request(&mut reg, &mut res, 0), BgRequest::AwaitingLayout { start_layout_worker: true });
    reg.complete_layout(LayoutId("bgl"), Ok(7), 1);
    let report = reg.sync(&mut res.buffers, &mut res.textures, &mut res.samplers, 2);
    assert!(report.stalled_layouts.is_empty());
    assert!(report.stalled_bind_groups.is_empty());
    assert_eq!(report.requests.len(), 1);
    assert_eq!(report.requests[0].0, BindGroupId("bg"));
    assert_eq!(report.requests[0].1, BgRequest::Requested);
    let report = reg.sync(&mut res.buffers, &mut res.textures, &mut res.samplers, 3);
    assert!(report.requests.is_empty());
    let report = reg.sync(&mut res.buffers, &mut res.textures, &mut res.samplers, 6000);
    assert_eq!(report.stalled_bind_groups, vec![BindGroupId("bg")]);
}

#[test]
fn pipelines_wait_for_their_layouts() {
    let mut bgs: BindGroupRegistry<u32, u32> = BindGroupRegistry::new();
    let mut pips: PipelineRegistry<u32> = PipelineRegistry::new();
    let def = Pipeline::<ComputeType>::as_compute("main").with_bg_layouts(&[LayoutId("a"), LayoutId("b")]);
    let out = pips.request(&PipelineId("p"), PipelineType::from(def), &mut bgs, 0);
    assert!(matches!(out, PipRequest::AwaitingLayouts));
    assert!(pips.get_blueprint(&PipelineId("p")).is_none());

    bgs.request_layout(&LayoutId("a"), 0);
    bgs.complete_layout(LayoutId("a"), Ok(1), 1);
    bgs.request_layout(&LayoutId("b"), 0);
    bgs.complete_layout(LayoutId("b"), Ok(2), 1);
    let report = pips.sync(&mut bgs, 2);
    assert_eq!(report.requests.len(), 1);
    match &report.requests[0].1 {
        PipRequest::Requested(def) => assert_eq!(def.bg_layouts().len(), 2),
        _ => panic!("expected the pipeline to be requested"),
    }
    assert_eq!(bgs.get_layout(&LayoutId("a"), 2).unwrap().ref_count, 2);
    assert_eq!(bgs.get_layout(&LayoutId("b"), 2).unwrap().ref_count, 2);
    assert!(pips.get_blueprint(&PipelineId("p")).is_some());
    assert!(pips.validate(&PipelineId("p"), &mut bgs, 3).is_none());
    pips.complete(PipelineId("p"), Ok(99), 4);
    assert_eq!(pips.validate(&PipelineId("p"), &mut bgs, 5), Some(&99));
    let again = pips.request(&PipelineId("p"), PipelineType::from(Pipeline::<ComputeType>::default()), &mut bgs, 6);
    assert!(matches!(again, PipRequest::AlreadyRequested));
    pips.invalidate(&PipelineId("p"));
    pips.remove(&PipelineId("p"));
    assert!(pips.get_blueprint(&PipelineId("p")).is_none());
}

#[test]
fn context_removals_invalidate_and_release() {
    let mut ctx: GpuContext<u32, u32, u32, u32, u32, u32> = GpuContext::new();
    assert!(ctx.request_texture(&TextureId("tex"), 0));
    assert!(!ctx.request_texture(&TextureId("tex"), 1));
    ctx.complete_texture(TextureId("tex"), ready(3), 1);
    let group = BindGroup::new().with_entry(TextureBinding::as_sampled(TextureId("tex"), TextureTypeSampled::default()));
    let out = ctx.request_bind_group(&BindGroupId("g"), &LayoutId("l"), &group, 2);
    assert_eq!(out, BgRequest::AwaitingLayout { start_layout_worker: true });
    ctx.complete_layout(LayoutId("l"), Ok(5), 3);
    let report = ctx.sync(4);
    assert_eq!(report.bind_groups.requests[0].1, BgRequest::Requested);
    ctx.complete_bind_group(BindGroupId("g"), LayoutId("l"), Ok(8), 5);
    assert_eq!(ctx.validate_bind_group(&BindGroupId("g"), 6).unwrap().bind_group, 8);
    ctx.remove_texture(&TextureId("tex"));
    assert!(ctx.validate_bind_group(&BindGroupId("g"), 7).is_none());

    let pip = Pipeline::<ComputeType>::default().with_bg_layouts(&[LayoutId("l")]);
    let out = ctx.request_pipeline(&PipelineId("p"), PipelineType::from(pip), 8);
    assert!(matches!(out, PipRequest::Requested(_)));
    ctx.complete_pipeline(PipelineId("p"), Ok(11), 9);
    assert_eq!(ctx.validate_pipeline(&PipelineId("p"), 10), Some(&11));
    ctx.remove_pipeline(&PipelineId("p"), 11);
    assert!(ctx.validate_pipeline(&PipelineId("p"), 12).is_none());
    ctx.remove_bind_group(&BindGroupId("g"), 13);
    assert!(ctx.validate_bind_group(&BindGroupId("g"), 14).is_none());
    assert!(ctx.request_buffer(&BufferId("b"), 15));
    ctx.remove_buffer(&BufferId("b"));
    assert!(ctx.request_sampler(&SamplerId("s"), 16));
    ctx.remove_sampler(&SamplerId("s"));
    assert!(ctx.request_sampler(&SamplerId("s"), 17));
}

#[test]
fn draws_and_dispatches_run_only_when_everything_is_usable() {
    let mut ctx: GpuContext<u32, u32, u32, u32, u32, PipelineHandle<u8, u16>> = GpuContext::new();
    let group = BindGroup::new().with_entry(BufferBinding::as_uniform(BufferId("cam")));
    ctx.request_buffer(&BufferId("cam"), 0);
    ctx.complete_buffer(BufferId("cam"), ready(1), 0);
    ctx.request_bind_group(&BindGroupId("g"), &LayoutId("l"), &group, 0);
    ctx.complete_layout(LayoutId("l"), Ok(2), 0);
    ctx.sync(1);
    ctx.complete_bind_group(BindGroupId("g"), LayoutId("l"), Ok(3), 1);
    let render = Pipeline::<ComputeType>::default().with_bg_layouts(&[LayoutId("l")]);
    ctx.request_pipeline(&PipelineId("draw"), PipelineType::from(render), 2);
    ctx.complete_pipeline(PipelineId("draw"), Ok(PipelineHandle::Render(4u8)), 2);
    let compute = Pipeline::<ComputeType>::default().with_bg_layouts(&[LayoutId("l")]);
    ctx.request_pipeline(&PipelineId("march"), PipelineType::from(compute), 2);
    ctx.complete_pipeline(PipelineId("march"), Ok(PipelineHandle::Compute(5u16)), 2);

    let draw = DrawCommand::new(PipelineId("draw"), (), 3).with_bind_groups(&[BindGroupId("g")]);
    assert!(ctx.prepare_draw(&draw, 3));
    let missing_vertices = DrawCommand::new(PipelineId("draw"), (), 3)
        .with_bind_groups(&[BindGroupId("g")])
        .with_vertex_buffers(&[BufferId("cam"), BufferId("verts")]);
    assert!(!ctx.prepare_draw(&missing_vertices, 4));
    let indexed = DrawCommand::new(PipelineId("draw"), (), 6).with_index_buffer(BufferId("cam"), IndexFormat::Uint16);
    assert!(ctx.prepare_draw(&indexed, 4));
    let wrong_kind = DrawCommand::new(PipelineId("march"), (), 3);
    assert!(!ctx.prepare_draw(&wrong_kind, 5));
    let unknown_group = DrawCommand::new(PipelineId("draw"), (), 3).with_bind_groups(&[BindGroupId("nope")]);
    assert!(!ctx.prepare_draw(&unknown_group, 5));

    let dispatch = ComputeCommand::new(PipelineId("march"), (1, 1, 1)).with_bind_groups(&[BindGroupId("g")]);
    assert!(ctx.prepare_dispatch(&dispatch, 6));
    assert!(!ctx.prepare_dispatch(&ComputeCommand::new(PipelineId("draw"), (1, 1, 1)), 6));
    assert_eq!(ctx.get_buffer(&BufferId("cam"), 7), Some(&1));
    assert_eq!(ctx.get_buffer(&BufferId("verts"), 7), None);
    let handle: PipelineHandle<u8, u16> = PipelineHandle::Render(9);
    assert_eq!(handle.to_render(), Some(&9));
    assert_eq!(handle.to_compute(), None);
}

#[test]
fn bind_group_entries_pair_slots_with_ready_resources() {
    let mut ctx: GpuContext<u32, u32, u32, u32, u32, u32> = GpuContext::new();
    let group = BindGroup::new()
        .with_entry(BufferBinding::as_uniform(BufferId("cam")))
        .with_entry(TextureBinding::as_sampled(TextureId("tex"), TextureTypeSampled::default()));
    ctx.request_buffer(&BufferId("cam"), 0);
    ctx.request_texture(&TextureId("tex"), 0);
    ctx.complete_buffer(BufferId("cam"), ready(41), 1);
    ctx.complete_texture(TextureId("tex"), ready(42), 2);
    ctx.request_bind_group(&BindGroupId("g"), &LayoutId("l"), &group, 3);
    ctx.complete_layout(LayoutId("l"), Ok(5), 3);
    let report = ctx.sync(4);
    assert_eq!(report.bind_groups.requests[0].1, BgRequest::Requested);
    let unknown = BindGroup::new().with_entry(BufferBinding::as_uniform(BufferId("nothing")));
    assert!(ctx.bind_group_entries(&unknown).is_none());
    let entries = ctx.bind_group_entries(&group).unwrap();
    assert_eq!(entries.len(), 2);
    assert!(matches!(entries[0], (0, BoundHandle::Buffer(&41))));
    assert!(matches!(entries[1], (1, BoundHandle::Texture(&42))));
    ctx.remove_texture(&TextureId("tex"));
    assert!(ctx.bind_group_entries(&group).is_none());
}
