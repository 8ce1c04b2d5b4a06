use vstd::prelude::*;

use crate::controls::bindings::lists_held_actions;
use crate::controls::keyboard::{KeyEvent, KeyboardHandler};
use crate::controls::mouse::MouseHandler;
use crate::game::rendering::blueprints::{
    blit_bind_group, blit_group_built, buffer_layout, canvas_texture, canvas_texture_built, storage_texture_layout,
    taa_bind_group, taa_group_built,
};
use crate::game::plan::{
    init_requests, resize_requests, storage_buffer, uniform_buffer, InitialData, ResourceRequest,
};
use crate::encoding::words_in_some_order;
use crate::game::world::{all_grid_words, all_voxel_words, VoxelWorld};
use crate::graphics::resources::bindgroup::{
    stage_bits, stage_flag, BindGroup, BindingTarget, BindingType, BufferBinding, BufferBindingType, GroupEntry,
    LayoutEntry, ShaderStage, StorageTextureAccess, TextureBinding, TextureTypeSampled, TextureTypeStorage,
    TextureViewDimension,
};
use crate::graphics::resources::pipeline::{ComputeType, Pipeline, RenderType};
use crate::graphics::resources::texture::{
    texture_usage_bits, texture_usage_flag, Computed, TexDimensions, TexFormat, Texture, TextureUsage,
};
use crate::graphics::context::{
    BindGroupId, BufferId, ComputePassInfo, GpuCommand, LayoutId, PipelineId, RenderPassInfo, TextureId,
};

verus! {

#[derive(Clone, Copy, Debug, PartialEq, Eq, Structural)]
pub enum PlayerKeyAction {
    MoveForward,
    MoveBackward,
    StrafeLeft,
    StrafeRight,
    MoveUp,
    MoveDown,
    ResetCamera,
    PauseSimulation,
    StepSimulation,
    Exit,
}

#[derive(Clone, Copy, Debug, PartialEq, Eq, Structural)]
pub enum PlayerMouseAction {
    LockMouse,
    UnlockMouse,
}

/// The keys the game binds
#[derive(Clone, Copy, Debug, PartialEq, Eq, Structural)]
pub enum GameKey {
    W,
    A,
    S,
    D,
    ShiftLeft,
    Space,
    Escape,
    R,
    P,
    N,
}

/// The code under which the keyboard handler knows each key
pub open spec fn key_code(key: GameKey) -> u32 {
    match key {
        GameKey::W => 0,
        GameKey::A => 1,
        GameKey::S => 2,
        GameKey::D => 3,
        GameKey::ShiftLeft => 4,
        GameKey::Space => 5,
        GameKey::Escape => 6,
        GameKey::R => 7,
        GameKey::P => 8,
        GameKey::N => 9,
    }
}

impl GameKey {
    /// The code under which the keyboard handler knows the key
    pub fn code(self) -> (code: u32)
        ensures
            code == key_code(self),
    {
        match self {
            GameKey::W => 0,
            GameKey::A => 1,
            GameKey::S => 2,
            GameKey::D => 3,
            GameKey::ShiftLeft => 4,
            GameKey::Space => 5,
            GameKey::Escape => 6,
            GameKey::R => 7,
            GameKey::P => 8,
            GameKey::N => 9,
        }
    }
}

/// The mouse buttons the game binds
#[derive(Clone, Copy, Debug, PartialEq, Eq, Structural)]
pub enum GameButton {
    Left,
    Right,
}

/// The code under which the mouse handler knows each button
pub open spec fn button_code(button: GameButton) -> u32 {
    match button {
        GameButton::Left => 0,
        GameButton::Right => 1,
    }
}

impl GameButton {
    /// The code under which the mouse handler knows the button
    pub fn code(self) -> (code: u32)
        ensures
            code == button_code(self),
    {
        match self {
            GameButton::Left => 0,
            GameButton::Right => 1,
        }
    }
}

/// The key bindings the game sets up
pub open spec fn game_key_bindings() -> Map<u32, PlayerKeyAction> {
    map![
        key_code(GameKey::W) => PlayerKeyAction::MoveForward,
        key_code(GameKey::A) => PlayerKeyAction::StrafeLeft,
        key_code(GameKey::S) => PlayerKeyAction::MoveBackward,
        key_code(GameKey::D) => PlayerKeyAction::StrafeRight,
        key_code(GameKey::ShiftLeft) => PlayerKeyAction::MoveUp,
        key_code(GameKey::Space) => PlayerKeyAction::MoveDown,
        key_code(GameKey::Escape) => PlayerKeyAction::Exit,
        key_code(GameKey::R) => PlayerKeyAction::ResetCamera,
        key_code(GameKey::P) => PlayerKeyAction::PauseSimulation,
        key_code(GameKey::N) => PlayerKeyAction::StepSimulation
    ]
}

/// The mouse bindings the game sets up
pub open spec fn game_button_bindings() -> Map<u32, PlayerMouseAction> {
    map![
        button_code(GameButton::Left) => PlayerMouseAction::LockMouse,
        button_code(GameButton::Right) => PlayerMouseAction::UnlockMouse
    ]
}

/// Whether the action moves the camera
pub open spec fn is_move(action: PlayerKeyAction) -> bool {
    match action {
        PlayerKeyAction::MoveForward | PlayerKeyAction::MoveBackward | PlayerKeyAction::StrafeLeft
        | PlayerKeyAction::StrafeRight | PlayerKeyAction::MoveUp | PlayerKeyAction::MoveDown => true,
        _ => false,
    }
}

/// Whether the simulation is paused after the presses, from `paused`: each pause press flips it
pub open spec fn paused_after(paused: bool, presses: Seq<PlayerKeyAction>) -> bool
    decreases presses.len(),
{
    if presses.len() == 0 {
        paused
    } else {
        let before = paused_after(paused, presses.drop_last());
        if presses.last() == PlayerKeyAction::PauseSimulation {
            !before
        } else {
            before
        }
    }
}

/// How many of the presses are `action`
pub open spec fn times_pressed(presses: Seq<PlayerKeyAction>, action: PlayerKeyAction) -> nat
    decreases presses.len(),
{
    if presses.len() == 0 {
        0
    } else {
        times_pressed(presses.drop_last(), action) + if presses.last() == action {
            1nat
        } else {
            0nat
        }
    }
}

/// Processing key presses pauses a running world and resumes a paused one on every pause press:
/// the world ends paused exactly when it started paused and saw an even number of pause
/// presses, or started running and saw an odd number. Other keys leave the pause state alone.
pub proof fn law_pause_presses_toggle(paused: bool, presses: Seq<PlayerKeyAction>)
    ensures
        paused_after(paused, presses) == (paused != (times_pressed(presses, PlayerKeyAction::PauseSimulation) % 2 == 1)),
    decreases presses.len(),
{
    if presses.len() > 0 {
        law_pause_presses_toggle(paused, presses.drop_last());
    }
}

/// The ids of the gpu resources of the game
#[derive(Clone, Copy, Debug)]
pub struct GameIds {
    pub cam_id: BufferId,
    pub env_id: BufferId,
    pub vox_id: BufferId,
    pub reg_id: BufferId,
    pub pal_id: BufferId,
    pub rm_tex_id: TextureId,
    pub taa_tex_a_id: TextureId,
    pub taa_tex_b_id: TextureId,
    pub rm_bgl_id: LayoutId,
    pub rm_bg_id: BindGroupId,
    pub rm_pip_id: PipelineId,
    pub taa_bgl_id: LayoutId,
    pub taa_bg_a_id: BindGroupId,
    pub taa_bg_b_id: BindGroupId,
    pub taa_pip_id: PipelineId,
    pub blit_pip_id: PipelineId,
    pub blit_bgl_id: LayoutId,
    pub blit_bg_a_id: BindGroupId,
    pub blit_bg_b_id: BindGroupId,
}

/// The names the game gives its gpu resources
pub open spec fn game_ids_named(ids: GameIds) -> bool {
    &&& ids.cam_id.0@ == "main_camera"@
    &&& ids.env_id.0@ == "environment"@
    &&& ids.vox_id.0@ == "voxels"@
    &&& ids.reg_id.0@ == "Region"@
    &&& ids.pal_id.0@ == "palette"@
    &&& ids.taa_tex_a_id.0@ == "taa_texture_a"@
    &&& ids.taa_tex_b_id.0@ == "taa_texture_b"@
    &&& ids.rm_tex_id.0@ == "ray_march_texture"@
    &&& ids.rm_bgl_id.0@ == "raymarch_layout"@
    &&& ids.rm_bg_id.0@ == "raymarch_bind_group"@
    &&& ids.rm_pip_id.0@ == "raymarch_pipeline"@
    &&& ids.taa_bgl_id.0@ == "taa_layout"@
    &&& ids.taa_bg_a_id.0@ == "taa_bind_group_a"@
    &&& ids.taa_bg_b_id.0@ == "taa_bind_group_b"@
    &&& ids.taa_pip_id.0@ == "taa_pipeline"@
    &&& ids.blit_bgl_id.0@ == "blit_layout"@
    &&& ids.blit_bg_a_id.0@ == "blit_bind_group_a"@
    &&& ids.blit_bg_b_id.0@ == "blit_bind_group_b"@
    &&& ids.blit_pip_id.0@ == "blit_pipeline"@
}

impl GameIds {
    pub fn new() -> (ids: Self)
        ensures
            game_ids_named(ids),
    {
        let ids = GameIds {
            cam_id: BufferId("main_camera"),
            env_id: BufferId("environment"),
            vox_id: BufferId("voxels"),
            reg_id: BufferId("Region"),
            pal_id: BufferId("palette"),
            taa_tex_a_id: TextureId("taa_texture_a"),
            taa_tex_b_id: TextureId("taa_texture_b"),
            rm_tex_id: TextureId("ray_march_texture"),
            rm_bgl_id: LayoutId("raymarch_layout"),
            rm_bg_id: BindGroupId("raymarch_bind_group"),
            rm_pip_id: PipelineId("raymarch_pipeline"),
            taa_bgl_id: LayoutId("taa_layout"),
            taa_bg_a_id: BindGroupId("taa_bind_group_a"),
            taa_bg_b_id: BindGroupId("taa_bind_group_b"),
            taa_pip_id: PipelineId("taa_pipeline"),
            blit_bgl_id: LayoutId("blit_layout"),
            blit_bg_a_id: BindGroupId("blit_bind_group_a"),
            blit_bg_b_id: BindGroupId("blit_bind_group_b"),
            blit_pip_id: PipelineId("blit_pipeline"),
        };
        ids
    }
}

/// The ray march bind group: camera, environment and palette uniforms, the two voxel storage
/// buffers in the given order, and the ray march texture to write, all for the compute stage
pub open spec fn raymarch_group_built(bg: BindGroup, ids: GameIds, first: BufferId, second: BufferId) -> bool {
    let c = stage_flag(ShaderStage::Compute);
    &&& bg@.label == "Raymarch Bind Group"@
    &&& bg@.bindings == seq![
        GroupEntry { target: BindingTarget::Buffer(ids.cam_id), slot: 0 },
        GroupEntry { target: BindingTarget::Buffer(ids.env_id), slot: 1 },
        GroupEntry { target: BindingTarget::Buffer(ids.pal_id), slot: 2 },
        GroupEntry { target: BindingTarget::Buffer(first), slot: 3 },
        GroupEntry { target: BindingTarget::Buffer(second), slot: 4 },
        GroupEntry { target: BindingTarget::Texture(ids.rm_tex_id), slot: 5 }
    ]
    &&& bg@.layout_entries == seq![
        buffer_layout(0, c, BufferBindingType::Uniform),
        buffer_layout(1, c, BufferBindingType::Uniform),
        buffer_layout(2, c, BufferBindingType::Uniform),
        buffer_layout(3, c, BufferBindingType::Storage { read_only: true }),
        buffer_layout(4, c, BufferBindingType::Storage { read_only: true }),
        storage_texture_layout(5, c)
    ]
}

impl GameIds {
    /// The ray march bind group, with the two voxel storage buffers in the given order
    fn raymarch_group(&self, first: BufferId, second: BufferId) -> (bg: BindGroup)
        ensures
            raymarch_group_built(bg, *self, first, second),
    {
        let c = stage_bits(ShaderStage::Compute);
        let bg = BindGroup::new()
            .with_label("Raymarch Bind Group")
            .with_entry(BufferBinding::as_uniform(self.cam_id).with_visibility(c))
            .with_entry(BufferBinding::as_uniform(self.env_id).with_visibility(c))
            .with_entry(BufferBinding::as_uniform(self.pal_id).with_visibility(c))
            .with_entry(BufferBinding::as_storage(first, true).with_visibility(c))
            .with_entry(BufferBinding::as_storage(second, true).with_visibility(c))
            .with_entry(TextureBinding::as_storage(self.rm_tex_id, TextureTypeStorage::default()).with_visibility(c));
        assert(bg@.bindings =~= seq![
            GroupEntry { target: BindingTarget::Buffer(self.cam_id), slot: 0 },
            GroupEntry { target: BindingTarget::Buffer(self.env_id), slot: 1 },
            GroupEntry { target: BindingTarget::Buffer(self.pal_id), slot: 2 },
            GroupEntry { target: BindingTarget::Buffer(first), slot: 3 },
            GroupEntry { target: BindingTarget::Buffer(second), slot: 4 },
            GroupEntry { target: BindingTarget::Texture(self.rm_tex_id), slot: 5 }
        ]);
        assert(bg@.layout_entries =~= seq![
            buffer_layout(0, c, BufferBindingType::Uniform),
            buffer_layout(1, c, BufferBindingType::Uniform),
            buffer_layout(2, c, BufferBindingType::Uniform),
            buffer_layout(3, c, BufferBindingType::Storage { read_only: true }),
            buffer_layout(4, c, BufferBindingType::Storage { read_only: true }),
            storage_texture_layout(5, c)
        ]);
        bg
    }

    /// The ray march bind group as the game first requests it: the region buffer before the
    /// voxel buffer
    pub fn raymarch_bind_group(&self) -> (bg: BindGroup)
        ensures
            raymarch_group_built(bg, *self, self.reg_id, self.vox_id),
    {
        self.raymarch_group(self.reg_id, self.vox_id)
    }

    /// The ray march bind group as the game requests it again after a resize: the voxel buffer
    /// before the region buffer
    pub fn resized_raymarch_bind_group(&self) -> (bg: BindGroup)
        ensures
            raymarch_group_built(bg, *self, self.vox_id, self.reg_id),
    {
        self.raymarch_group(self.vox_id, self.reg_id)
    }

    /// The TAA bind group that reads history texture A and writes B
    pub fn taa_bind_group_a(&self) -> (bg: BindGroup)
        ensures
            taa_group_built(bg, "TAA Bind Group A"@, self.rm_tex_id, self.taa_tex_a_id, self.taa_tex_b_id),
    {
        taa_bind_group("TAA Bind Group A", self.rm_tex_id, self.taa_tex_a_id, self.taa_tex_b_id)
    }

    /// The TAA bind group that reads history texture B and writes A
    pub fn taa_bind_group_b(&self) -> (bg: BindGroup)
        ensures
            taa_group_built(bg, "TAA Bind Group B"@, self.rm_tex_id, self.taa_tex_b_id, self.taa_tex_a_id),
    {
        taa_bind_group("TAA Bind Group B", self.rm_tex_id, self.taa_tex_b_id, self.taa_tex_a_id)
    }

    /// The blit bind group that draws history texture A
    pub fn blit_bind_group_a(&self) -> (bg: BindGroup)
        ensures
            blit_group_built(bg, "Blit Bind Group A"@, self.taa_tex_a_id),
    {
        blit_bind_group("Blit Bind Group A", self.taa_tex_a_id)
    }

    /// The blit bind group that draws history texture B
    pub fn blit_bind_group_b(&self) -> (bg: BindGroup)
        ensures
            blit_group_built(bg, "Blit Bind Group B"@, self.taa_tex_b_id),
    {
        blit_bind_group("Blit Bind Group B", self.taa_tex_b_id)
    }

    /// The ray march compute pipeline
    pub fn raymarch_pipeline(&self) -> (pipeline: Pipeline<ComputeType>)
        ensures
            pipeline.label@ == "Voxel Ray Marching Pipeline"@,
            pipeline.bg_layouts@ == seq![self.rm_bgl_id],
            pipeline.shader_path == Some("./shaders/ray_march.wgsl"),
            pipeline.ty.main@ == "cs_main"@,
    {
        let pipeline = Pipeline::<ComputeType>::default()
            .with_label("Voxel Ray Marching Pipeline")
            .with_bg_layouts(&[self.rm_bgl_id])
            .with_shader("./shaders/ray_march.wgsl");
        assert(pipeline.bg_layouts@ =~= seq![self.rm_bgl_id]);
        pipeline
    }

    /// The TAA compute pipeline
    pub fn taa_pipeline(&self) -> (pipeline: Pipeline<ComputeType>)
        ensures
            pipeline.label@ == "TAA Pipeline"@,
            pipeline.bg_layouts@ == seq![self.taa_bgl_id],
            pipeline.shader_path == Some("./shaders/taa.wgsl"),
            pipeline.ty.main@ == "cs_main"@,
    {
        let pipeline = Pipeline::<ComputeType>::default()
            .with_label("TAA Pipeline")
            .with_bg_layouts(&[self.taa_bgl_id])
            .with_shader("./shaders/taa.wgsl");
        assert(pipeline.bg_layouts@ =~= seq![self.taa_bgl_id]);
        pipeline
    }

    /// The render pipeline that draws the history texture
    pub fn blit_pipeline(&self) -> (pipeline: Pipeline<RenderType>)
        ensures
            pipeline.label@ == "Voxel Render Pipeline"@,
            pipeline.bg_layouts@ == seq![self.blit_bgl_id],
            pipeline.shader_path == Some("./shaders/blit.wgsl"),
            pipeline.ty.vs_main@ == "vs_main"@,
            pipeline.ty.fs_main@ == "fs_main"@,
            pipeline.ty.format == TexFormat::Bgra8UnormSrgb,
            pipeline.ty.vertex_layouts@.len() == 0,
    {
        let pipeline = Pipeline::<RenderType>::default()
            .with_label("Voxel Render Pipeline")
            .with_bg_layouts(&[self.blit_bgl_id])
            .with_shader("./shaders/blit.wgsl");
        assert(pipeline.bg_layouts@ =~= seq![self.blit_bgl_id]);
        pipeline
    }

    /// The texture the ray march writes, of the canvas size; the game's first request makes it
    /// copyable from (`copy_src`), a request after a resize does not
    pub fn raymarch_texture(&self, width: u32, height: u32, copy_src: bool) -> (texture: Texture<Computed>)
        ensures
            canvas_texture_built(texture, "Raymarch Texture"@, width, height, copy_src),
    {
        canvas_texture("Raymarch Texture", width, height, copy_src)
    }

    /// History texture A, of the canvas size
    pub fn taa_texture_a(&self, width: u32, height: u32) -> (texture: Texture<Computed>)
        ensures
            canvas_texture_built(texture, "TAA Texture A"@, width, height, false),
    {
        canvas_texture("TAA Texture A", width, height, false)
    }

    /// History texture B, of the canvas size
    pub fn taa_texture_b(&self, width: u32, height: u32) -> (texture: Texture<Computed>)
        ensures
            canvas_texture_built(texture, "TAA Texture B"@, width, height, false),
    {
        canvas_texture("TAA Texture B", width, height, false)
    }
}

/// The movement actions among `actions`, in order
fn movement_actions(actions: &Vec<PlayerKeyAction>) -> (moves: Vec<PlayerKeyAction>)
    ensures
        moves@ == actions@.filter(|a: PlayerKeyAction| is_move(a)),
{
    let mut moves: Vec<PlayerKeyAction> = Vec::new();
    let mut i: usize = 0;
    while i < actions.len()
        invariant
            i <= actions@.len(),
            moves@ == actions@.take(i as int).filter(|a: PlayerKeyAction| is_move(a)),
        decreases actions@.len() - i,
    {
        proof {
            assert(actions@.take(i + 1) =~= actions@.take(i as int).push(actions@[i as int]));
            actions@.take(i as int).lemma_filter_push(actions@[i as int], |a: PlayerKeyAction| is_move(a));
        }
        let action = actions[i];
        match action {
            PlayerKeyAction::MoveForward | PlayerKeyAction::MoveBackward | PlayerKeyAction::StrafeLeft
            | PlayerKeyAction::StrafeRight | PlayerKeyAction::MoveUp | PlayerKeyAction::MoveDown => {
                moves.push(action);
            },
            _ => {},
        }
        i += 1;
    }
    assert(actions@.take(actions@.len() as int) =~= actions@);
    moves
}

/// The step presses among `presses`
pub open spec fn step_presses(presses: Seq<PlayerKeyAction>) -> Seq<PlayerKeyAction> {
    presses.filter(|a: PlayerKeyAction| a == PlayerKeyAction::StepSimulation)
}

/// Apply the presses to the world in order: a pause press flips its pause state, a step press
/// advances it one step. Returns whether one of them asks for the camera to be reset, and the
/// number of steps.
fn apply_presses(world: &mut VoxelWorld, presses: &Vec<PlayerKeyAction>) -> (applied: (bool, usize))
    ensures
        final(world).paused() == paused_after(old(world).paused(), presses@),
        final(world).region_seq() == old(world).region_seq(),
        applied.0 == presses@.contains(PlayerKeyAction::ResetCamera),
        applied.1 == step_presses(presses@).len(),
{
    let mut reset_camera = false;
    let mut steps: usize = 0;
    let mut j: usize = 0;
    while j < presses.len()
        invariant
            j <= presses@.len(),
            world.paused() == paused_after(old(world).paused(), presses@.take(j as int)),
            world.region_seq() == old(world).region_seq(),
            reset_camera == presses@.take(j as int).contains(PlayerKeyAction::ResetCamera),
            steps == step_presses(presses@.take(j as int)).len(),
            steps <= j,
        decreases presses@.len() - j,
    {
        proof {
            assert(presses@.take(j + 1).drop_last() =~= presses@.take(j as int));
            assert(presses@.take(j + 1) =~= presses@.take(j as int).push(presses@[j as int]));
            vstd::seq_lib::lemma_seq_contains_after_push(presses@.take(j as int), presses@[j as int], PlayerKeyAction::ResetCamera);
            presses@.take(j as int).lemma_filter_push(
                presses@[j as int],
                |a: PlayerKeyAction| a == PlayerKeyAction::StepSimulation,
            );
        }
        match presses[j] {
            PlayerKeyAction::PauseSimulation => {
                world.toggle_pause();
            },
            PlayerKeyAction::StepSimulation => {
                world.update(true);
                steps += 1;
            },
            PlayerKeyAction::ResetCamera => {
                reset_camera = true;
            },
            _ => {},
        }
        j += 1;
    }
    assert(presses@.take(presses@.len() as int) =~= presses@);
    (reset_camera, steps)
}

/// What the keyboard asked of the frame
pub struct KeyOutcome {
    /// The game must exit
    pub exit: bool,
    /// The camera moves to make, one per held movement key
    pub moves: Vec<PlayerKeyAction>,
    /// The camera must go back to its starting place
    pub reset_camera: bool,
    /// The number of steps the world was advanced by
    pub steps: usize,
}

/// The state of the game that is not the camera: input, world, and the alternation of the
/// history textures
pub struct Game {
    keyboard: KeyboardHandler<PlayerKeyAction>,
    mouse: MouseHandler<PlayerMouseAction>,
    world: VoxelWorld,
    ids: Option<GameIds>,
    is_hist_tex_a: bool,
}

impl Game {
    /// The keyboard handler
    pub closed spec fn keyboard(&self) -> KeyboardHandler<PlayerKeyAction> {
        self.keyboard
    }

    /// The mouse handler
    pub closed spec fn mouse(&self) -> MouseHandler<PlayerMouseAction> {
        self.mouse
    }

    /// The voxel world
    pub closed spec fn world(&self) -> VoxelWorld {
        self.world
    }

    /// The gpu resource ids, once the game is initialised
    pub closed spec fn ids(&self) -> Option<GameIds> {
        self.ids
    }

    /// Whether the next frame accumulates into history texture A
    pub closed spec fn uses_hist_a(&self) -> bool {
        self.is_hist_tex_a
    }

    /// The input handlers are consistent
    pub closed spec fn wf(&self) -> bool {
        self.keyboard.wf() && self.mouse.wf()
    }

    pub fn new() -> (game: Self)
        ensures
            game.wf(),
            game.keyboard().bindings() == Map::<u32, PlayerKeyAction>::empty(),
            game.keyboard().held_keys() == Set::<u32>::empty(),
            game.keyboard().pressed() == Seq::<PlayerKeyAction>::empty(),
            game.mouse().bindings() == Map::<u32, PlayerMouseAction>::empty(),
            game.mouse().held_buttons() == Set::<u32>::empty(),
            game.mouse().pressed() == Seq::<PlayerMouseAction>::empty(),
            game.world().is_fresh(),
            game.ids() is None,
            game.uses_hist_a(),
    {
        Self {
            keyboard: KeyboardHandler::new(),
            mouse: MouseHandler::new(),
            world: VoxelWorld::new(),
            ids: None,
            is_hist_tex_a: true,
        }
    }

    /// Bind the game's keys and mouse buttons to their actions
    pub fn init_input(&mut self)
        requires
            old(self).wf(),
        ensures
            final(self).wf(),
            final(self).keyboard().bindings() == old(self).keyboard().bindings().union_prefer_right(game_key_bindings()),
            final(self).mouse().bindings() == old(self).mouse().bindings().union_prefer_right(game_button_bindings()),
            final(self).keyboard().held_keys() == old(self).keyboard().held_keys(),
            final(self).keyboard().pressed() == old(self).keyboard().pressed(),
            final(self).keyboard().released() == old(self).keyboard().released(),
            final(self).mouse().held_buttons() == old(self).mouse().held_buttons(),
            final(self).mouse().pressed() == old(self).mouse().pressed(),
            final(self).mouse().released() == old(self).mouse().released(),
            final(self).world() == old(self).world(),
            final(self).ids() == old(self).ids(),
            final(self).uses_hist_a() == old(self).uses_hist_a(),
    {
        self.keyboard.register_key(GameKey::W.code(), PlayerKeyAction::MoveForward);
        self.keyboard.register_key(GameKey::A.code(), PlayerKeyAction::StrafeLeft);
        self.keyboard.register_key(GameKey::S.code(), PlayerKeyAction::MoveBackward);
        self.keyboard.register_key(GameKey::D.code(), PlayerKeyAction::StrafeRight);
        self.keyboard.register_key(GameKey::ShiftLeft.code(), PlayerKeyAction::MoveUp);
        self.keyboard.register_key(GameKey::Space.code(), PlayerKeyAction::MoveDown);
        self.keyboard.register_key(GameKey::Escape.code(), PlayerKeyAction::Exit);
        self.keyboard.register_key(GameKey::R.code(), PlayerKeyAction::ResetCamera);
        self.keyboard.register_key(GameKey::P.code(), PlayerKeyAction::PauseSimulation);
        self.keyboard.register_key(GameKey::N.code(), PlayerKeyAction::StepSimulation);
        self.mouse.register_button(GameButton::Left.code(), PlayerMouseAction::LockMouse);
        self.mouse.register_button(GameButton::Right.code(), PlayerMouseAction::UnlockMouse);
        assert(self.keyboard().bindings() =~= old(self).keyboard().bindings().union_prefer_right(game_key_bindings()));
        assert(self.mouse().bindings() =~= old(self).mouse().bindings().union_prefer_right(game_button_bindings()));
    }

    /// Start the game: name its gpu resources, flip the pause state of the world, and bind the
    /// input. Returns the requests for the game's resources, for a canvas of `width` by
    /// `height` and buffers that start with `data`, in the order the context must receive them.
    pub fn init(&mut self, data: InitialData, width: u32, height: u32) -> (plan: Vec<ResourceRequest>)
        requires
            old(self).wf(),
        ensures
            final(self).wf(),
            final(self).ids() is Some,
            game_ids_named(final(self).ids()->0),
            exists|voxels: Seq<u8>, regions: Seq<u8>|
                {
                    &&& words_in_some_order(all_voxel_words(old(self).world().region_seq()), voxels)
                    &&& words_in_some_order(all_grid_words(old(self).world().region_seq()), regions)
                    &&& init_requests(
                        plan@,
                        final(self).ids()->0,
                        data.camera@,
                        data.environment@,
                        data.palette@,
                        voxels,
                        regions,
                        width,
                        height,
                    )
                },
            final(self).world().paused() == !old(self).world().paused(),
            final(self).world().region_seq() == old(self).world().region_seq(),
            final(self).keyboard().bindings() == old(self).keyboard().bindings().union_prefer_right(game_key_bindings()),
            final(self).mouse().bindings() == old(self).mouse().bindings().union_prefer_right(game_button_bindings()),
            final(self).keyboard().held_keys() == old(self).keyboard().held_keys(),
            final(self).keyboard().pressed() == old(self).keyboard().pressed(),
            final(self).mouse().pressed() == old(self).mouse().pressed(),
            final(self).uses_hist_a() == old(self).uses_hist_a(),
    {
        let ids = GameIds::new();
        let bytes = self.world.region_bytes();
        let mut plan: Vec<ResourceRequest> = Vec::new();
        plan.push(ResourceRequest::UniformBuffer(ids.cam_id, uniform_buffer("Camera Buffer", &data.camera)));
        plan.push(ResourceRequest::UniformBuffer(ids.env_id, uniform_buffer("Environment Buffer", &data.environment)));
        plan.push(ResourceRequest::UniformBuffer(ids.pal_id, uniform_buffer("Palette Buffer", &data.palette)));
        plan.push(ResourceRequest::StorageBuffer(ids.vox_id, storage_buffer("Voxel Buffer", &bytes.voxels)));
        plan.push(ResourceRequest::StorageBuffer(ids.reg_id, storage_buffer("Region Buffer", &bytes.grids)));
        plan.push(ResourceRequest::Texture(ids.rm_tex_id, ids.raymarch_texture(width, height, true)));
        plan.push(ResourceRequest::Texture(ids.taa_tex_a_id, ids.taa_texture_a(width, height)));
        plan.push(ResourceRequest::Texture(ids.taa_tex_b_id, ids.taa_texture_b(width, height)));
        plan.push(ResourceRequest::BindGroup(ids.rm_bg_id, ids.rm_bgl_id, ids.raymarch_bind_group()));
        plan.push(ResourceRequest::ComputePipeline(ids.rm_pip_id, ids.raymarch_pipeline()));
        plan.push(ResourceRequest::BindGroup(ids.taa_bg_a_id, ids.taa_bgl_id, ids.taa_bind_group_a()));
        plan.push(ResourceRequest::BindGroup(ids.taa_bg_b_id, ids.taa_bgl_id, ids.taa_bind_group_b()));
        plan.push(ResourceRequest::ComputePipeline(ids.taa_pip_id, ids.taa_pipeline()));
        plan.push(ResourceRequest::BindGroup(ids.blit_bg_a_id, ids.blit_bgl_id, ids.blit_bind_group_a()));
        plan.push(ResourceRequest::BindGroup(ids.blit_bg_b_id, ids.blit_bgl_id, ids.blit_bind_group_b()));
        plan.push(ResourceRequest::RenderPipeline(ids.blit_pip_id, ids.blit_pipeline()));
        assert(init_requests(
            plan@,
            ids,
            data.camera@,
            data.environment@,
            data.palette@,
            bytes.voxels@,
            bytes.grids@,
            width,
            height,
        ));
        self.ids = Some(ids);
        self.world.toggle_pause();
        self.init_input();
        assert(words_in_some_order(all_voxel_words(old(self).world().region_seq()), bytes.voxels@));
        assert(words_in_some_order(all_grid_words(old(self).world().region_seq()), bytes.grids@));
        plan
    }

    /// The ids of the game's gpu resources, once the game is initialised
    pub fn resource_ids(&self) -> (ids: Option<GameIds>)
        ensures
            ids == self.ids(),
    {
        self.ids
    }

    /// The requests that follow a resize of the canvas to `width` by `height`, once the game is
    /// initialised: the textures of the canvas size are made again at the new size, and so are
    /// the bind groups that bind them. Before that, there is nothing to request.
    pub fn on_resize(&self, width: u32, height: u32) -> (plan: Vec<ResourceRequest>)
        ensures
            self.ids() is None ==> plan@.len() == 0,
            self.ids() is Some ==> resize_requests(plan@, self.ids()->0, width, height),
    {
        let ids = match self.ids {
            Some(ids) => ids,
            None => {
                return Vec::new();
            },
        };
        let mut plan: Vec<ResourceRequest> = Vec::new();
        plan.push(ResourceRequest::RemoveTexture(ids.rm_tex_id));
        plan.push(ResourceRequest::Texture(ids.rm_tex_id, ids.raymarch_texture(width, height, false)));
        plan.push(ResourceRequest::RemoveTexture(ids.taa_tex_a_id));
        plan.push(ResourceRequest::Texture(ids.taa_tex_a_id, ids.taa_texture_a(width, height)));
        plan.push(ResourceRequest::RemoveTexture(ids.taa_tex_b_id));
        plan.push(ResourceRequest::Texture(ids.taa_tex_b_id, ids.taa_texture_b(width, height)));
        plan.push(ResourceRequest::RemoveBindGroup(ids.rm_bg_id));
        plan.push(ResourceRequest::BindGroup(ids.rm_bg_id, ids.rm_bgl_id, ids.resized_raymarch_bind_group()));
        plan.push(ResourceRequest::RemoveBindGroup(ids.taa_bg_a_id));
        plan.push(ResourceRequest::BindGroup(ids.taa_bg_a_id, ids.taa_bgl_id, ids.taa_bind_group_a()));
        plan.push(ResourceRequest::RemoveBindGroup(ids.taa_bg_b_id));
        plan.push(ResourceRequest::BindGroup(ids.taa_bg_b_id, ids.taa_bgl_id, ids.taa_bind_group_b()));
        plan.push(ResourceRequest::RemoveBindGroup(ids.blit_bg_a_id));
        plan.push(ResourceRequest::BindGroup(ids.blit_bg_a_id, ids.blit_bgl_id, ids.blit_bind_group_a()));
        plan.push(ResourceRequest::RemoveBindGroup(ids.blit_bg_b_id));
        plan.push(ResourceRequest::BindGroup(ids.blit_bg_b_id, ids.blit_bgl_id, ids.blit_bind_group_b()));
        plan
    }

    /// Pass a keyboard event to the keyboard handler
    pub fn key_event(&mut self, key_event: &KeyEvent)
        requires
            old(self).wf(),
        ensures
            final(self).wf(),
            key_event.repeat || key_event.code is None ==> final(self).keyboard().state() == old(self).keyboard().state(),
            !key_event.repeat && key_event.code is Some ==> final(self).keyboard().state() == old(
                self,
            ).keyboard().state().input_event(key_event.code->0, key_event.pressed),
            final(self).mouse() == old(self).mouse(),
            final(self).world() == old(self).world(),
            final(self).ids() == old(self).ids(),
            final(self).uses_hist_a() == old(self).uses_hist_a(),
    {
        self.keyboard.key_event(key_event);
    }

    /// Pass a mouse button event to the mouse handler
    pub fn button_event(&mut self, pressed: bool, button: u32)
        requires
            old(self).wf(),
        ensures
            final(self).wf(),
            final(self).mouse().state() == old(self).mouse().state().input_event(button, pressed),
            final(self).keyboard() == old(self).keyboard(),
            final(self).world() == old(self).world(),
            final(self).ids() == old(self).ids(),
            final(self).uses_hist_a() == old(self).uses_hist_a(),
    {
        self.mouse.button_event(pressed, button);
    }

    /// Take the mouse presses of the frame: each asks for the cursor to be locked (`true`) or
    /// unlocked (`false`), in order
    pub fn poll_mouse(&mut self) -> (locks: Vec<bool>)
        requires
            old(self).wf(),
        ensures
            final(self).wf(),
            locks@ == old(self).mouse().pressed().map_values(|a: PlayerMouseAction| a == PlayerMouseAction::LockMouse),
            final(self).mouse().pressed() == Seq::<PlayerMouseAction>::empty(),
            final(self).mouse().bindings() == old(self).mouse().bindings(),
            final(self).mouse().held_buttons() == old(self).mouse().held_buttons(),
            final(self).mouse().released() == old(self).mouse().released(),
            final(self).keyboard() == old(self).keyboard(),
            final(self).world() == old(self).world(),
            final(self).ids() == old(self).ids(),
            final(self).uses_hist_a() == old(self).uses_hist_a(),
    {
        let actions = self.mouse.poll_on_press();
        let mut locks: Vec<bool> = Vec::new();
        let mut i: usize = 0;
        while i < actions.len()
            invariant
                i <= actions@.len(),
                locks@ == actions@.take(i as int).map_values(|a: PlayerMouseAction| a == PlayerMouseAction::LockMouse),
            decreases actions@.len() - i,
        {
            let lock = match actions[i] {
                PlayerMouseAction::LockMouse => true,
                PlayerMouseAction::UnlockMouse => false,
            };
            locks.push(lock);
            i += 1;
            assert(locks@ =~= actions@.take(i as int).map_values(|a: PlayerMouseAction| a == PlayerMouseAction::LockMouse));
        }
        assert(actions@.take(actions@.len() as int) =~= actions@);
        locks
    }

    /// Process the keys of the frame, once the cursor lock requests are applied.
    ///
    /// An exit press ends the frame there. Otherwise, while the cursor is locked, each held
    /// movement key asks for a camera move, a pause press flips the pause state of the world, a
    /// step press advances it one step, and a reset press asks for the camera to go back to its
    /// start. The events of the frame are then cleared.
    pub fn process_keys(&mut self, cursor_locked: bool) -> (outcome: KeyOutcome)
        requires
            old(self).wf(),
        ensures
            final(self).wf(),
            outcome.exit == old(self).keyboard().pressed().contains(PlayerKeyAction::Exit),
            outcome.exit ==> *final(self) == *old(self) && outcome.moves@.len() == 0 && !outcome.reset_camera && outcome.steps == 0,
            !outcome.exit ==> {
                &&& final(self).keyboard().pressed() == Seq::<PlayerKeyAction>::empty()
                &&& final(self).keyboard().released() == Seq::<PlayerKeyAction>::empty()
                &&& final(self).keyboard().bindings() == old(self).keyboard().bindings()
                &&& final(self).keyboard().held_keys() == old(self).keyboard().held_keys()
                &&& final(self).mouse().pressed() == Seq::<PlayerMouseAction>::empty()
                &&& final(self).mouse().released() == Seq::<PlayerMouseAction>::empty()
                &&& final(self).mouse().bindings() == old(self).mouse().bindings()
                &&& final(self).mouse().held_buttons() == old(self).mouse().held_buttons()
                &&& final(self).world().region_seq() == old(self).world().region_seq()
                &&& final(self).ids() == old(self).ids()
                &&& final(self).uses_hist_a() == old(self).uses_hist_a()
                &&& if cursor_locked {
                    &&& exists|held: Seq<PlayerKeyAction>|
                        lists_held_actions(old(self).keyboard().bindings(), old(self).keyboard().held_keys(), held)
                            && outcome.moves@ == held.filter(|a: PlayerKeyAction| is_move(a))
                    &&& outcome.reset_camera == old(self).keyboard().pressed().contains(PlayerKeyAction::ResetCamera)
                    &&& outcome.steps == step_presses(old(self).keyboard().pressed()).len()
                    &&& final(self).world().paused() == paused_after(old(self).world().paused(), old(self).keyboard().pressed())
                } else {
                    &&& outcome.moves@ == Seq::<PlayerKeyAction>::empty()
                    &&& !outcome.reset_camera
                    &&& outcome.steps == 0
                    &&& final(self).world().paused() == old(self).world().paused()
                }
            },
    {
        let exit = {
            let presses = self.keyboard.peek_on_press();
            let mut found = false;
            let mut i: usize = 0;
            while i < presses.len()
                invariant
                    i <= presses@.len(),
                    found == presses@.take(i as int).contains(PlayerKeyAction::Exit),
                decreases presses@.len() - i,
            {
                proof {
                    assert(presses@.take(i + 1) =~= presses@.take(i as int).push(presses@[i as int]));
                    vstd::seq_lib::lemma_seq_contains_after_push(presses@.take(i as int), presses@[i as int], PlayerKeyAction::Exit);
                }
                if presses[i] == PlayerKeyAction::Exit {
                    found = true;
                }
                i += 1;
            }
            assert(presses@.take(presses@.len() as int) =~= presses@);
            found
        };
        if exit {
            return KeyOutcome { exit: true, moves: Vec::new(), reset_camera: false, steps: 0 };
        }
        let mut moves: Vec<PlayerKeyAction> = Vec::new();
        let mut reset_camera = false;
        let mut steps: usize = 0;
        if cursor_locked {
            let held = self.keyboard.poll_on_held();
            moves = movement_actions(&held);
            let presses = self.keyboard.poll_on_press();
            let applied = apply_presses(&mut self.world, &presses);
            reset_camera = applied.0;
            steps = applied.1;
        }
        self.keyboard.clear_events();
        self.mouse.clear_events();
        KeyOutcome { exit: false, moves, reset_camera, steps }
    }

    /// Advance the world by one frame, once the game is initialised; returns whether it
    /// advanced
    pub fn update(&mut self) -> (advanced: bool)
        ensures
            advanced == (old(self).ids() is Some && !old(self).world().paused()),
            *final(self) == *old(self),
    {
        match self.ids {
            Some(_) => self.world.update(false),
            None => false,
        }
    }

    /// The gpu passes of a frame at the canvas size, once the game is initialised: ray march,
    /// blend into one history texture, and draw the other; the history textures then swap roles
    pub fn render(&mut self, width: u32, height: u32) -> (commands: Vec<GpuCommand>)
        requires
            width <= u32::MAX - 15,
            height <= u32::MAX - 15,
        ensures
            old(self).ids() is None ==> commands@.len() == 0 && *final(self) == *old(self),
            old(self).ids() is Some ==> {
                let ids = old(self).ids()->0;
                let (taa_bg, blit_bg) = if old(self).uses_hist_a() {
                    (ids.taa_bg_a_id, ids.blit_bg_b_id)
                } else {
                    (ids.taa_bg_b_id, ids.blit_bg_a_id)
                };
                let groups = ((width + 15) / 16) as u32;
                let rows = ((height + 15) / 16) as u32;
                &&& commands@.len() == 3
                &&& commands@[0] matches GpuCommand::ComputePass(c) && c.pipeline_id == ids.rm_pip_id
                    && c.bind_groups@ == seq![ids.rm_bg_id] && c.work_groups == (groups, rows, 1u32)
                &&& commands@[1] matches GpuCommand::ComputePass(c) && c.pipeline_id == ids.taa_pip_id
                    && c.bind_groups@ == seq![taa_bg] && c.work_groups == (groups, rows, 1u32)
                &&& commands@[2] matches GpuCommand::RenderPass(r) && r.pipeline_id == ids.blit_pip_id
                    && r.bind_groups@ == seq![blit_bg] && r.vertex_buffers@.len() == 0 && r.index_buffer is None
                    && r.vertex_count == 3 && r.instance_count == 1
                &&& final(self).uses_hist_a() == !old(self).uses_hist_a()
                &&& final(self).keyboard() == old(self).keyboard()
                &&& final(self).mouse() == old(self).mouse()
                &&& final(self).world() == old(self).world()
                &&& final(self).ids() == old(self).ids()
            },
    {
        let ids = match self.ids {
            Some(ids) => ids,
            None => {
                return Vec::new();
            },
        };
        let wx = (width + 15) / 16;
        let wy = (height + 15) / 16;
        let taa_bg: BindGroupId;
        let blit_bg: BindGroupId;
        if self.is_hist_tex_a {
            taa_bg = ids.taa_bg_a_id;
            blit_bg = ids.blit_bg_b_id;
        } else {
            taa_bg = ids.taa_bg_b_id;
            blit_bg = ids.blit_bg_a_id;
        }
        let mut commands: Vec<GpuCommand> = Vec::new();
        commands.push(
            GpuCommand::ComputePass(
                ComputePassInfo { pipeline_id: ids.rm_pip_id, bind_groups: vec![ids.rm_bg_id], work_groups: (wx, wy, 1) },
            ),
        );
        commands.push(
            GpuCommand::ComputePass(
                ComputePassInfo { pipeline_id: ids.taa_pip_id, bind_groups: vec![taa_bg], work_groups: (wx, wy, 1) },
            ),
        );
        commands.push(
            GpuCommand::RenderPass(
                RenderPassInfo {
                    pipeline_id: ids.blit_pip_id,
                    bind_groups: vec![blit_bg],
                    vertex_buffers: Vec::new(),
                    index_buffer: None,
                    vertex_count: 3,
                    instance_count: 1,
                },
            ),
        );
        self.is_hist_tex_a = !self.is_hist_tex_a;
        commands
    }
}

} // verus!
