use vstd::prelude::*;

use crate::graphics::bg_registry::{
    bindings_ready, buffer_name, buffer_targets, sampler_name, sampler_targets, texture_name, texture_targets, bind_groups_synced, released, request_outcome, resources_looked_up, restamped, stamped, targets_present, uses_target, BgRequest,
    BindGroupHandle, BindGroupLayoutHandle, BindGroupRegistry, RegistrySync,
};
use crate::graphics::commands::{ComputeCommand, DrawCommand, PipelineHandle};
use crate::graphics::context::{BindGroupId, BufferId, LayoutId, PipelineId, SamplerId, TextureId};
use crate::graphics::handler::{
    completed_status, evaluated, recorded_hold_time, listed, status_stalls, Pending, Ready, ResourceHandler, ResourceStatus,
};
use crate::graphics::pip_registry::{
    layout_ready, pip_request_outcome, pipelines_synced, PipRequest, PipSync, PipelineRegistry,
};
use crate::graphics::resources::bindgroup::{BindGroup, BindingTarget, GroupEntry};
use crate::graphics::resources::pipeline::PipelineType;

verus! {

/// A resource that a bind group binds, as the context holds it
pub enum BoundHandle<'a, B, T, S> {
    Buffer(&'a B),
    Texture(&'a T),
    Sampler(&'a S),
}

/// The resource `target` names is ready in its handler
pub open spec fn target_ready<B, T, S>(
    target: BindingTarget,
    buffers: Map<Seq<char>, ResourceStatus<B>>,
    textures: Map<Seq<char>, ResourceStatus<T>>,
    samplers: Map<Seq<char>, ResourceStatus<S>>,
) -> bool {
    match target {
        BindingTarget::Buffer(id) => buffers.contains_key(id.0@) && buffers[id.0@] is Ready,
        BindingTarget::Texture(id) => textures.contains_key(id.0@) && textures[id.0@] is Ready,
        BindingTarget::Sampler(id) => samplers.contains_key(id.0@) && samplers[id.0@] is Ready,
    }
}

/// Every resource the entries bind is ready in its handler
pub open spec fn group_ready<B, T, S>(
    entries: Seq<GroupEntry>,
    buffers: Map<Seq<char>, ResourceStatus<B>>,
    textures: Map<Seq<char>, ResourceStatus<T>>,
    samplers: Map<Seq<char>, ResourceStatus<S>>,
) -> bool {
    forall|i: int| 0 <= i < entries.len() ==> #[trigger] target_ready(entries[i].target, buffers, textures, samplers)
}

/// Resources that were all ready are still ready after a lookup marks them accessed
proof fn lemma_ready_after_lookup<B, T, S>(
    entries: Seq<GroupEntry>,
    buffers: Map<Seq<char>, ResourceStatus<B>>,
    textures: Map<Seq<char>, ResourceStatus<T>>,
    samplers: Map<Seq<char>, ResourceStatus<S>>,
    now: u64,
)
    requires
        bindings_ready(entries, buffers, textures, samplers),
    ensures
        group_ready(
            entries,
            stamped(buffers, buffer_targets(entries), now),
            stamped(textures, texture_targets(entries), now),
            stamped(samplers, sampler_targets(entries), now),
        ),
{
    let b = stamped(buffers, buffer_targets(entries), now);
    let t = stamped(textures, texture_targets(entries), now);
    let s = stamped(samplers, sampler_targets(entries), now);
    assert forall|i: int| 0 <= i < entries.len() implies #[trigger] target_ready(entries[i].target, b, t, s) by {
        match entries[i].target {
            BindingTarget::Buffer(id) => {
                assert(buffer_name(entries[i]) == Some(id.0@));
                assert(buffer_targets(entries).contains(id.0@));
            },
            BindingTarget::Texture(id) => {
                assert(texture_name(entries[i]) == Some(id.0@));
                assert(texture_targets(entries).contains(id.0@));
            },
            BindingTarget::Sampler(id) => {
                assert(sampler_name(entries[i]) == Some(id.0@));
                assert(sampler_targets(entries).contains(id.0@));
            },
        }
    }
}

/// `bound` pairs the entry's slot with the ready resource its target names
pub open spec fn entry_bound<B, T, S>(
    entry: GroupEntry,
    bound: (u32, BoundHandle<'_, B, T, S>),
    buffers: Map<Seq<char>, ResourceStatus<B>>,
    textures: Map<Seq<char>, ResourceStatus<T>>,
    samplers: Map<Seq<char>, ResourceStatus<S>>,
) -> bool {
    &&& bound.0 == entry.slot
    &&& match entry.target {
        BindingTarget::Buffer(id) => bound.1 == BoundHandle::<B, T, S>::Buffer(&buffers[id.0@]->Ready_0.rsc),
        BindingTarget::Texture(id) => bound.1 == BoundHandle::<B, T, S>::Texture(&textures[id.0@]->Ready_0.rsc),
        BindingTarget::Sampler(id) => bound.1 == BoundHandle::<B, T, S>::Sampler(&samplers[id.0@]->Ready_0.rsc),
    }
}

/// The state of the gpu resources: the buffers `B`, textures `T` and samplers `S`, the bind
/// groups `G` and their layouts `L`, and the pipelines `P`, with what is known of each.
///
/// The context decides; the caller runs the workers that create the resources and reports
/// their results through the `complete_` methods.
pub struct GpuContext<B, T, S, G, L, P> {
    buffers: ResourceHandler<BufferId, B>,
    textures: ResourceHandler<TextureId, T>,
    samplers: ResourceHandler<SamplerId, S>,
    bg_registry: BindGroupRegistry<G, L>,
    pip_registry: PipelineRegistry<P>,
}

impl<B, T, S, G, L, P> GpuContext<B, T, S, G, L, P> {
    /// The buffers
    pub closed spec fn buffers(&self) -> ResourceHandler<BufferId, B> {
        self.buffers
    }

    /// The textures
    pub closed spec fn textures(&self) -> ResourceHandler<TextureId, T> {
        self.textures
    }

    /// The samplers
    pub closed spec fn samplers(&self) -> ResourceHandler<SamplerId, S> {
        self.samplers
    }

    /// The bind groups and their layouts
    pub closed spec fn bind_groups(&self) -> BindGroupRegistry<G, L> {
        self.bg_registry
    }

    /// The pipelines
    pub closed spec fn pipelines(&self) -> PipelineRegistry<P> {
        self.pip_registry
    }

    pub closed spec fn wf(&self) -> bool {
        &&& self.buffers.wf()
        &&& self.textures.wf()
        &&& self.samplers.wf()
        &&& self.bg_registry.wf()
        &&& self.pip_registry.wf()
    }

    pub fn new() -> (context: Self)
        ensures
            context.wf(),
            context.buffers().statuses() == Map::<Seq<char>, ResourceStatus<B>>::empty(),
            context.textures().statuses() == Map::<Seq<char>, ResourceStatus<T>>::empty(),
            context.samplers().statuses() == Map::<Seq<char>, ResourceStatus<S>>::empty(),
            context.bind_groups().bind_groups() == Map::<Seq<char>, ResourceStatus<crate::graphics::bg_registry::BindGroupHandle<G>>>::empty(),
            context.bind_groups().layouts() == Map::<Seq<char>, ResourceStatus<crate::graphics::bg_registry::BindGroupLayoutHandle<L>>>::empty(),
            context.pipelines().pipelines() == Map::<Seq<char>, ResourceStatus<P>>::empty(),
    {
        Self {
            buffers: ResourceHandler::new(),
            textures: ResourceHandler::new(),
            samplers: ResourceHandler::new(),
            bg_registry: BindGroupRegistry::new(),
            pip_registry: PipelineRegistry::new(),
        }
    }

    /// Request a buffer under the id: returns whether the caller must start the worker that
    /// creates it. Nothing is done if the id was already requested.
    pub fn request_buffer(&mut self, id: &BufferId, now: u64) -> (start_worker: bool)
        requires
            old(self).wf(),
        ensures
            final(self).wf(),
            start_worker == !old(self).buffers().statuses().contains_key(id.0@),
            final(self).buffers().statuses() == if start_worker {
                old(self).buffers().statuses().insert(id.0@, ResourceStatus::Pending(Pending { requested_at: now, hold_time: None }))
            } else {
                old(self).buffers().statuses()
            },
            final(self).textures() == old(self).textures(),
            final(self).samplers() == old(self).samplers(),
            final(self).bind_groups() == old(self).bind_groups(),
            final(self).pipelines() == old(self).pipelines(),
    {
        if self.buffers.contains(id) {
            return false;
        }
        self.buffers.request_new(id, None, now)
    }

    /// Request a texture under the id: returns whether the caller must start the worker that
    /// creates it. Nothing is done if the id was already requested.
    pub fn request_texture(&mut self, id: &TextureId, now: u64) -> (start_worker: bool)
        requires
            old(self).wf(),
        ensures
            final(self).wf(),
            start_worker == !old(self).textures().statuses().contains_key(id.0@),
            final(self).textures().statuses() == if start_worker {
                old(self).textures().statuses().insert(id.0@, ResourceStatus::Pending(Pending { requested_at: now, hold_time: None }))
            } else {
                old(self).textures().statuses()
            },
            final(self).buffers() == old(self).buffers(),
            final(self).samplers() == old(self).samplers(),
            final(self).bind_groups() == old(self).bind_groups(),
            final(self).pipelines() == old(self).pipelines(),
    {
        if self.textures.contains(id) {
            return false;
        }
        self.textures.request_new(id, None, now)
    }

    /// Request a sampler under the id: returns whether the caller must start the worker that
    /// creates it. Nothing is done if the id was already requested.
    pub fn request_sampler(&mut self, id: &SamplerId, now: u64) -> (start_worker: bool)
        requires
            old(self).wf(),
        ensures
            final(self).wf(),
            start_worker == !old(self).samplers().statuses().contains_key(id.0@),
            final(self).samplers().statuses() == if start_worker {
                old(self).samplers().statuses().insert(id.0@, ResourceStatus::Pending(Pending { requested_at: now, hold_time: None }))
            } else {
                old(self).samplers().statuses()
            },
            final(self).buffers() == old(self).buffers(),
            final(self).textures() == old(self).textures(),
            final(self).bind_groups() == old(self).bind_groups(),
            final(self).pipelines() == old(self).pipelines(),
    {
        if self.samplers.contains(id) {
            return false;
        }
        self.samplers.request_new(id, None, now)
    }

    /// Request a bind group from its blueprint and layout (see `BindGroupRegistry::request_bg`)
    pub fn request_bind_group(&mut self, bg_id: &BindGroupId, bgl_id: &LayoutId, bg_def: &BindGroup, now: u64) -> (outcome: BgRequest)
        requires
            old(self).wf(),
            layout_ready(old(self).bind_groups().layouts(), bgl_id.0@)
                ==> old(self).bind_groups().layouts()[bgl_id.0@]->Ready_0.rsc.ref_count < usize::MAX,
        ensures
            final(self).wf(),
            request_outcome(old(self).bind_groups(), final(self).bind_groups(), bg_id.0@, bgl_id.0@, bg_def@, now, outcome),
            resources_looked_up(
                old(self).bind_groups(),
                bg_id.0@,
                bgl_id.0@,
                bg_def@.bindings,
                old(self).buffers().statuses(),
                final(self).buffers().statuses(),
                old(self).textures().statuses(),
                final(self).textures().statuses(),
                old(self).samplers().statuses(),
                final(self).samplers().statuses(),
                now,
            ),
            outcome is Requested ==> group_ready(
                bg_def@.bindings,
                final(self).buffers().statuses(),
                final(self).textures().statuses(),
                final(self).samplers().statuses(),
            ),
            final(self).bind_groups().valid() == old(self).bind_groups().valid(),
            final(self).pipelines() == old(self).pipelines(),
    {
        let outcome = self.bg_registry.request_bg(
            bg_id,
            bgl_id,
            bg_def,
            &mut self.buffers,
            &mut self.textures,
            &mut self.samplers,
            now,
        );
        proof {
            if outcome is Requested {
                lemma_ready_after_lookup(
                    bg_def@.bindings,
                    old(self).buffers().statuses(),
                    old(self).textures().statuses(),
                    old(self).samplers().statuses(),
                    now,
                );
            }
        }
        outcome
    }

    /// Request a pipeline from its blueprint (see `PipelineRegistry::request`)
    pub fn request_pipeline(&mut self, id: &PipelineId, pip_def: PipelineType, now: u64) -> (outcome: PipRequest)
        requires
            old(self).wf(),
            forall|k: Seq<char>|
                #[trigger] layout_ready(old(self).bind_groups().layouts(), k) ==> old(self).bind_groups().layouts()[k]->Ready_0.rsc.ref_count
                    + pip_def.layouts().len() < usize::MAX,
        ensures
            final(self).wf(),
            pip_request_outcome(
                old(self).pipelines(),
                final(self).pipelines(),
                old(self).bind_groups().layouts(),
                final(self).bind_groups().layouts(),
                id.0@,
                pip_def@,
                pip_def.layouts(),
                now,
                outcome,
            ),
            final(self).bind_groups().bind_groups() == old(self).bind_groups().bind_groups(),
            final(self).bind_groups().blueprints() == old(self).bind_groups().blueprints(),
            final(self).bind_groups().deferred() == old(self).bind_groups().deferred(),
            final(self).bind_groups().valid() == old(self).bind_groups().valid(),
            final(self).buffers() == old(self).buffers(),
            final(self).textures() == old(self).textures(),
            final(self).samplers() == old(self).samplers(),
    {
        self.pip_registry.request(id, pip_def, &mut self.bg_registry, now)
    }

    /// Remove a texture, releasing it. Every bind group that binds it becomes invalid.
    pub fn remove_texture(&mut self, id: &TextureId)
        requires
            old(self).wf(),
        ensures
            final(self).wf(),
            final(self).textures().statuses() == old(self).textures().statuses().remove(id.0@),
            final(self).bind_groups().valid() == old(self).bind_groups().valid().difference(
                Set::new(|k: Seq<char>| old(self).bind_groups().blueprints().contains_key(k)
                    && uses_target(old(self).bind_groups().blueprints()[k].bindings, BindingTarget::Texture(*id))),
            ),
            final(self).bind_groups().bind_groups() == old(self).bind_groups().bind_groups(),
            final(self).bind_groups().layouts() == old(self).bind_groups().layouts(),
            final(self).bind_groups().blueprints() == old(self).bind_groups().blueprints(),
            final(self).buffers() == old(self).buffers(),
            final(self).samplers() == old(self).samplers(),
            final(self).pipelines() == old(self).pipelines(),
    {
        self.textures.remove(id);
        self.bg_registry.invalidate_users_of(&BindingTarget::Texture(*id));
    }

    /// Remove a buffer, releasing it. Every bind group that binds it becomes invalid.
    pub fn remove_buffer(&mut self, id: &BufferId)
        requires
            old(self).wf(),
        ensures
            final(self).wf(),
            final(self).buffers().statuses() == old(self).buffers().statuses().remove(id.0@),
            final(self).bind_groups().valid() == old(self).bind_groups().valid().difference(
                Set::new(|k: Seq<char>| old(self).bind_groups().blueprints().contains_key(k)
                    && uses_target(old(self).bind_groups().blueprints()[k].bindings, BindingTarget::Buffer(*id))),
            ),
            final(self).bind_groups().bind_groups() == old(self).bind_groups().bind_groups(),
            final(self).bind_groups().layouts() == old(self).bind_groups().layouts(),
            final(self).bind_groups().blueprints() == old(self).bind_groups().blueprints(),
            final(self).textures() == old(self).textures(),
            final(self).samplers() == old(self).samplers(),
            final(self).pipelines() == old(self).pipelines(),
    {
        self.buffers.remove(id);
        self.bg_registry.invalidate_users_of(&BindingTarget::Buffer(*id));
    }

    /// Remove a sampler, releasing it. Every bind group that binds it becomes invalid.
    pub fn remove_sampler(&mut self, id: &SamplerId)
        requires
            old(self).wf(),
        ensures
            final(self).wf(),
            final(self).samplers().statuses() == old(self).samplers().statuses().remove(id.0@),
            final(self).bind_groups().valid() == old(self).bind_groups().valid().difference(
                Set::new(|k: Seq<char>| old(self).bind_groups().blueprints().contains_key(k)
                    && uses_target(old(self).bind_groups().blueprints()[k].bindings, BindingTarget::Sampler(*id))),
            ),
            final(self).bind_groups().bind_groups() == old(self).bind_groups().bind_groups(),
            final(self).bind_groups().layouts() == old(self).bind_groups().layouts(),
            final(self).bind_groups().blueprints() == old(self).bind_groups().blueprints(),
            final(self).buffers() == old(self).buffers(),
            final(self).textures() == old(self).textures(),
            final(self).pipelines() == old(self).pipelines(),
    {
        self.samplers.remove(id);
        self.bg_registry.invalidate_users_of(&BindingTarget::Sampler(*id));
    }

    /// Remove a bind group, releasing its use of its layout if it was created
    pub fn remove_bind_group(&mut self, bg_id: &BindGroupId, now: u64)
        requires
            old(self).wf(),
        ensures
            final(self).wf(),
            final(self).bind_groups().bind_groups() == old(self).bind_groups().bind_groups().remove(bg_id.0@),
            final(self).bind_groups().blueprints() == old(self).bind_groups().blueprints().remove(bg_id.0@),
            final(self).bind_groups().deferred() == old(self).bind_groups().deferred().remove(bg_id.0@),
            final(self).bind_groups().valid() == old(self).bind_groups().valid().remove(bg_id.0@),
            ({
                let bgs = old(self).bind_groups().bind_groups();
                if bgs.contains_key(bg_id.0@) && bgs[bg_id.0@] is Ready {
                    released(
                        old(self).bind_groups().layouts(),
                        final(self).bind_groups().layouts(),
                        bgs[bg_id.0@]->Ready_0.rsc.layout_id.0@,
                        now,
                    )
                } else {
                    final(self).bind_groups().layouts() == old(self).bind_groups().layouts()
                }
            }),
            final(self).buffers() == old(self).buffers(),
            final(self).textures() == old(self).textures(),
            final(self).samplers() == old(self).samplers(),
            final(self).pipelines() == old(self).pipelines(),
    {
        self.bg_registry.remove_bind_group(bg_id, now);
    }

    /// Remove a pipeline, releasing the use of each of its layouts
    pub fn remove_pipeline(&mut self, id: &PipelineId, now: u64)
        requires
            old(self).wf(),
        ensures
            final(self).wf(),
            final(self).pipelines().pipelines() == old(self).pipelines().pipelines().remove(id.0@),
            final(self).pipelines().blueprints() == old(self).pipelines().blueprints().remove(id.0@),
            final(self).pipelines().deferred() == old(self).pipelines().deferred().remove(id.0@),
            final(self).pipelines().valid() == old(self).pipelines().valid().remove(id.0@),
            !old(self).pipelines().blueprints().contains_key(id.0@) ==> final(self).bind_groups().layouts()
                == old(self).bind_groups().layouts(),
            old(self).pipelines().blueprints().contains_key(id.0@) ==> released_all(
                old(self).bind_groups().layouts(),
                final(self).bind_groups().layouts(),
                old(self).pipelines().blueprints()[id.0@].layouts(),
                now,
            ),
            final(self).bind_groups().bind_groups() == old(self).bind_groups().bind_groups(),
            final(self).bind_groups().blueprints() == old(self).bind_groups().blueprints(),
            final(self).bind_groups().deferred() == old(self).bind_groups().deferred(),
            final(self).bind_groups().valid() == old(self).bind_groups().valid(),
            final(self).buffers() == old(self).buffers(),
            final(self).textures() == old(self).textures(),
            final(self).samplers() == old(self).samplers(),
    {
        let layouts: Vec<LayoutId> = match self.pip_registry.get_blueprint(id) {
            Some(pip) => {
                let ls = pip.bg_layouts();
                let mut copy: Vec<LayoutId> = Vec::new();
                let mut i: usize = 0;
                while i < ls.len()
                    invariant
                        i <= ls@.len(),
                        copy@ == ls@.take(i as int),
                    decreases ls@.len() - i,
                {
                    copy.push(ls[i]);
                    i += 1;
                    assert(copy@ =~= ls@.take(i as int));
                }
                assert(ls@.take(ls@.len() as int) =~= ls@);
                copy
            },
            None => Vec::new(),
        };
        let ghost start = self.bg_registry.layouts();
        let mut i: usize = 0;
        while i < layouts.len()
            invariant
                self.wf(),
                i <= layouts@.len(),
                released_all(start, self.bg_registry.layouts(), layouts@.take(i as int), now),
                self.bg_registry.bind_groups() == old(self).bind_groups().bind_groups(),
                self.bg_registry.blueprints() == old(self).bind_groups().blueprints(),
                self.bg_registry.deferred() == old(self).bind_groups().deferred(),
                self.bg_registry.valid() == old(self).bind_groups().valid(),
                self.pip_registry == old(self).pipelines(),
                self.buffers == old(self).buffers(),
                self.textures == old(self).textures(),
                self.samplers == old(self).samplers(),
                start == old(self).bind_groups().layouts(),
            decreases layouts@.len() - i,
        {
            let ghost before = self.bg_registry.layouts();
            self.bg_registry.check_dec_bgl(&layouts[i], now);
            proof {
                assert(layouts@.take(i + 1).drop_last() =~= layouts@.take(i as int));
                assert(layouts@.take(i + 1).last() == layouts@[i as int]);
                assert(released(before, self.bg_registry.layouts(), layouts@[i as int].0@, now));
                assert(released_all(start, before, layouts@.take(i + 1).drop_last(), now));
                let ids = layouts@.take(i + 1);
                assert(ids.len() > 0);
                assert(released_all(start, before, ids.drop_last(), now) && released(before, self.bg_registry.layouts(), ids.last().0@, now));
                assert(released_all(start, self.bg_registry.layouts(), ids, now));
            }
            i += 1;
        }
        assert(layouts@.take(layouts@.len() as int) =~= layouts@);
        self.pip_registry.remove(id);
    }
}

/// What a sync of the context reports
pub struct ContextSync {
    /// Buffer workers that stalled, which the caller must abort
    pub stalled_buffers: Vec<BufferId>,
    /// Texture workers that stalled, which the caller must abort
    pub stalled_textures: Vec<TextureId>,
    /// Sampler workers that stalled, which the caller must abort
    pub stalled_samplers: Vec<SamplerId>,
    /// What the bind group registry reports
    pub bind_groups: RegistrySync,
    /// What the pipeline registry reports
    pub pipelines: PipSync,
}

impl<B, T, S, G, L, P> GpuContext<B, T, S, G, L, P> {
    /// The entries a bind group is created from its definition `bg_def`: for each binding, in
    /// order, the binding's slot and the ready resource its target names. None if one of the
    /// resources is not ready.
    pub fn bind_group_entries<'a>(&'a self, bg_def: &'a BindGroup) -> (entries: Option<Vec<(u32, BoundHandle<'a, B, T, S>)>>)
        requires
            self.wf(),
        ensures
            entries is Some <==> group_ready(
                bg_def@.bindings,
                self.buffers().statuses(),
                self.textures().statuses(),
                self.samplers().statuses(),
            ),
            entries matches Some(list) ==> {
                &&& list@.len() == bg_def@.bindings.len()
                &&& forall|i: int|
                    0 <= i < list@.len() ==> #[trigger] entry_bound(
                        bg_def@.bindings[i],
                        list@[i],
                        self.buffers().statuses(),
                        self.textures().statuses(),
                        self.samplers().statuses(),
                    )
            },
    {
        let ghost bindings = bg_def@.bindings;
        let mut list: Vec<(u32, BoundHandle<'a, B, T, S>)> = Vec::new();
        let mut i: usize = 0;
        while i < bg_def.bindings.len()
            invariant
                self.wf(),
                bindings == bg_def.bindings@,
                i <= bindings.len(),
                list@.len() == i,
                forall|j: int| 0 <= j < i ==> #[trigger] target_ready(
                    bindings[j].target,
                    self.buffers().statuses(),
                    self.textures().statuses(),
                    self.samplers().statuses(),
                ),
                forall|j: int| 0 <= j < i ==> #[trigger] entry_bound(
                    bindings[j],
                    list@[j],
                    self.buffers().statuses(),
                    self.textures().statuses(),
                    self.samplers().statuses(),
                ),
            decreases bindings.len() - i,
        {
            let entry = &bg_def.bindings[i];
            let found: Option<BoundHandle<'a, B, T, S>> = match entry.target {
                BindingTarget::Buffer(id) => match self.buffers.status_of(&id) {
                    Some(st) => match st.value() {
                        Some(ready) => Some(BoundHandle::Buffer(&ready.rsc)),
                        None => None,
                    },
                    None => None,
                },
                BindingTarget::Texture(id) => match self.textures.status_of(&id) {
                    Some(st) => match st.value() {
                        Some(ready) => Some(BoundHandle::Texture(&ready.rsc)),
                        None => None,
                    },
                    None => None,
                },
                BindingTarget::Sampler(id) => match self.samplers.status_of(&id) {
                    Some(st) => match st.value() {
                        Some(ready) => Some(BoundHandle::Sampler(&ready.rsc)),
                        None => None,
                    },
                    None => None,
                },
            };
            let handle = match found {
                Some(handle) => handle,
                None => {
                    assert(!target_ready(
                        bg_def@.bindings[i as int].target,
                        self.buffers().statuses(),
                        self.textures().statuses(),
                        self.samplers().statuses(),
                    ));
                    assert(!group_ready(
                        bg_def@.bindings,
                        self.buffers().statuses(),
                        self.textures().statuses(),
                        self.samplers().statuses(),
                    ));
                    return None;
                },
            };
            list.push((entry.slot, handle));
            i += 1;
        }
        Some(list)
    }

    /// Record the result of a finished buffer worker at `now`
    pub fn complete_buffer(&mut self, id: BufferId, result: Result<B, String>, now: u64)
        requires
            old(self).wf(),
        ensures
            final(self).wf(),
            final(self).buffers().statuses() == old(self).buffers().statuses().insert(
                id.0@,
                completed_status(result, recorded_hold_time(old(self).buffers().statuses(), id.0@), now),
            ),
            final(self).textures() == old(self).textures(),
            final(self).samplers() == old(self).samplers(),
            final(self).bind_groups() == old(self).bind_groups(),
            final(self).pipelines() == old(self).pipelines(),
    {
        self.buffers.complete(id, result, now);
    }

    /// Record the result of a finished texture worker at `now`
    pub fn complete_texture(&mut self, id: TextureId, result: Result<T, String>, now: u64)
        requires
            old(self).wf(),
        ensures
            final(self).wf(),
            final(self).textures().statuses() == old(self).textures().statuses().insert(
                id.0@,
                completed_status(result, recorded_hold_time(old(self).textures().statuses(), id.0@), now),
            ),
            final(self).buffers() == old(self).buffers(),
            final(self).samplers() == old(self).samplers(),
            final(self).bind_groups() == old(self).bind_groups(),
            final(self).pipelines() == old(self).pipelines(),
    {
        self.textures.complete(id, result, now);
    }

    /// Record the result of a finished sampler worker at `now`
    pub fn complete_sampler(&mut self, id: SamplerId, result: Result<S, String>, now: u64)
        requires
            old(self).wf(),
        ensures
            final(self).wf(),
            final(self).samplers().statuses() == old(self).samplers().statuses().insert(
                id.0@,
                completed_status(result, recorded_hold_time(old(self).samplers().statuses(), id.0@), now),
            ),
            final(self).buffers() == old(self).buffers(),
            final(self).textures() == old(self).textures(),
            final(self).bind_groups() == old(self).bind_groups(),
            final(self).pipelines() == old(self).pipelines(),
    {
        self.samplers.complete(id, result, now);
    }

    /// Record the result of a finished layout worker at `now` (see
    /// `BindGroupRegistry::complete_layout`)
    pub fn complete_layout(&mut self, id: LayoutId, result: Result<L, String>, now: u64)
        requires
            old(self).wf(),
        ensures
            final(self).wf(),
            final(self).bind_groups().layouts() == old(self).bind_groups().layouts().insert(
                id.0@,
                match result {
                    Ok(layout) => ResourceStatus::Ready(
                        Ready {
                            rsc: crate::graphics::bg_registry::BindGroupLayoutHandle { ref_count: 1, layout },
                            hold_time: None,
                            accessed: now,
                        },
                    ),
                    Err(msg) => ResourceStatus::Failed(crate::graphics::handler::Failed { err_msg: msg, failed_at: now }),
                },
            ),
            final(self).bind_groups().bind_groups() == old(self).bind_groups().bind_groups(),
            final(self).bind_groups().blueprints() == old(self).bind_groups().blueprints(),
            final(self).bind_groups().deferred() == old(self).bind_groups().deferred(),
            final(self).bind_groups().valid() == old(self).bind_groups().valid(),
            final(self).buffers() == old(self).buffers(),
            final(self).textures() == old(self).textures(),
            final(self).samplers() == old(self).samplers(),
            final(self).pipelines() == old(self).pipelines(),
    {
        self.bg_registry.complete_layout(id, result, now);
    }

    /// Record the result of a finished bind group worker at `now` (see
    /// `BindGroupRegistry::complete_bind_group`)
    pub fn complete_bind_group(&mut self, id: BindGroupId, layout_id: LayoutId, result: Result<G, String>, now: u64)
        requires
            old(self).wf(),
        ensures
            final(self).wf(),
            final(self).bind_groups().bind_groups() == old(self).bind_groups().bind_groups().insert(
                id.0@,
                match result {
                    Ok(bind_group) => ResourceStatus::Ready(
                        Ready { rsc: BindGroupHandle { bind_group, layout_id }, hold_time: None, accessed: now },
                    ),
                    Err(msg) => ResourceStatus::Failed(crate::graphics::handler::Failed { err_msg: msg, failed_at: now }),
                },
            ),
            final(self).bind_groups().layouts() == old(self).bind_groups().layouts(),
            final(self).bind_groups().blueprints() == old(self).bind_groups().blueprints(),
            final(self).bind_groups().deferred() == old(self).bind_groups().deferred(),
            final(self).bind_groups().valid() == old(self).bind_groups().valid(),
            final(self).buffers() == old(self).buffers(),
            final(self).textures() == old(self).textures(),
            final(self).samplers() == old(self).samplers(),
            final(self).pipelines() == old(self).pipelines(),
    {
        self.bg_registry.complete_bind_group(id, layout_id, result, now);
    }

    /// Record the result of a finished pipeline worker at `now`
    pub fn complete_pipeline(&mut self, id: PipelineId, result: Result<P, String>, now: u64)
        requires
            old(self).wf(),
        ensures
            final(self).wf(),
            final(self).pipelines().pipelines() == old(self).pipelines().pipelines().insert(
                id.0@,
                match result {
                    Ok(pipeline) => ResourceStatus::Ready(Ready { rsc: pipeline, hold_time: None, accessed: now }),
                    Err(msg) => ResourceStatus::Failed(crate::graphics::handler::Failed { err_msg: msg, failed_at: now }),
                },
            ),
            final(self).pipelines().blueprints() == old(self).pipelines().blueprints(),
            final(self).pipelines().deferred() == old(self).pipelines().deferred(),
            final(self).pipelines().valid() == old(self).pipelines().valid(),
            final(self).buffers() == old(self).buffers(),
            final(self).textures() == old(self).textures(),
            final(self).samplers() == old(self).samplers(),
            final(self).bind_groups() == old(self).bind_groups(),
    {
        self.pip_registry.complete(id, result, now);
    }

    /// Sync pending resources at `now`: evaluate the buffers, textures and samplers, then sync
    /// the bind groups, then the pipelines. This should be called regularly in frame-based
    /// applications.
    pub fn sync(&mut self, now: u64) -> (report: ContextSync)
        requires
            old(self).wf(),
            forall|k: Seq<char>|
                #[trigger] layout_ready(old(self).bind_groups().layouts(), k) ==> old(self).bind_groups().layouts()[k]->Ready_0.rsc.ref_count
                    + old(self).bind_groups().deferred().dom().len() + old(self).pipelines().deferred_layout_uses() < usize::MAX,
        ensures
            final(self).wf(),
            forall|k: Seq<char>|
                #[trigger] listed(report.stalled_buffers@, k) <==> old(self).buffers().statuses().contains_key(k)
                    && status_stalls(old(self).buffers().statuses()[k], now, old(self).buffers().thread_timeout()),
            forall|k: Seq<char>|
                #[trigger] listed(report.stalled_textures@, k) <==> old(self).textures().statuses().contains_key(k)
                    && status_stalls(old(self).textures().statuses()[k], now, old(self).textures().thread_timeout()),
            forall|k: Seq<char>|
                #[trigger] listed(report.stalled_samplers@, k) <==> old(self).samplers().statuses().contains_key(k)
                    && status_stalls(old(self).samplers().statuses()[k], now, old(self).samplers().thread_timeout()),
            forall|k: Seq<char>|
                #[trigger] listed(report.bind_groups.stalled_layouts@, k) <==> old(self).bind_groups().layouts().contains_key(k)
                    && status_stalls(old(self).bind_groups().layouts()[k], now, old(self).bind_groups().timeouts().2),
            forall|k: Seq<char>|
                #[trigger] listed(report.bind_groups.stalled_bind_groups@, k) <==> old(self).bind_groups().bind_groups().contains_key(k)
                    && status_stalls(old(self).bind_groups().bind_groups()[k], now, old(self).bind_groups().timeouts().0),
            forall|k: Seq<char>|
                #[trigger] listed(report.pipelines.stalled@, k) <==> old(self).pipelines().pipelines().contains_key(k)
                    && status_stalls(old(self).pipelines().pipelines()[k], now, old(self).pipelines().timeouts().0),
            forall|k: Seq<char>|
                #[trigger] old(self).bind_groups().deferred().contains_key(k) ==> final(self).bind_groups().deferred().contains_key(k)
                    || final(self).bind_groups().bind_groups().contains_key(k),
            forall|k: Seq<char>|
                #[trigger] old(self).pipelines().deferred().contains_key(k) ==> final(self).pipelines().deferred().contains_key(k)
                    || final(self).pipelines().pipelines().contains_key(k),
            final(self).bind_groups().valid() == old(self).bind_groups().valid(),
            final(self).pipelines().valid() == old(self).pipelines().valid(),
            exists|synced: BindGroupRegistry<G, L>|
                {
                    &&& #[trigger] bind_groups_synced(old(self).bind_groups(), synced, report.bind_groups.requests@, now)
                    &&& pipelines_synced(
                        old(self).pipelines(),
                        final(self).pipelines(),
                        synced.layouts(),
                        final(self).bind_groups().layouts(),
                        report.pipelines.requests@,
                        now,
                    )
                    &&& final(self).bind_groups().bind_groups() == synced.bind_groups()
                    &&& final(self).bind_groups().blueprints() == synced.blueprints()
                    &&& final(self).bind_groups().deferred() == synced.deferred()
                },
            exists|evaluated_buffers: Map<Seq<char>, ResourceStatus<B>>|
                #[trigger] evaluated(
                    old(self).buffers().statuses(),
                    evaluated_buffers,
                    now,
                    old(self).buffers().thread_timeout(),
                    old(self).buffers().failed_timeout(),
                ) && restamped(evaluated_buffers, final(self).buffers().statuses(), now),
            exists|evaluated_textures: Map<Seq<char>, ResourceStatus<T>>|
                #[trigger] evaluated(
                    old(self).textures().statuses(),
                    evaluated_textures,
                    now,
                    old(self).textures().thread_timeout(),
                    old(self).textures().failed_timeout(),
                ) && restamped(evaluated_textures, final(self).textures().statuses(), now),
            exists|evaluated_samplers: Map<Seq<char>, ResourceStatus<S>>|
                #[trigger] evaluated(
                    old(self).samplers().statuses(),
                    evaluated_samplers,
                    now,
                    old(self).samplers().thread_timeout(),
                    old(self).samplers().failed_timeout(),
                ) && restamped(evaluated_samplers, final(self).samplers().statuses(), now),
    {
        let stalled_buffers = self.buffers.sync(now);
        let stalled_textures = self.textures.sync(now);
        let stalled_samplers = self.samplers.sync(now);
        let ghost evaluated_buffers = self.buffers.statuses();
        let ghost evaluated_textures = self.textures.statuses();
        let ghost evaluated_samplers = self.samplers.statuses();
        assert forall|k: Seq<char>|
            #[trigger] self.bg_registry.layouts().contains_key(k) && self.bg_registry.layouts()[k] is Ready implies
                self.bg_registry.layouts()[k]->Ready_0.rsc.ref_count + self.bg_registry.deferred().dom().len() < usize::MAX by {
            assert(layout_ready(old(self).bind_groups().layouts(), k));
        }
        let ghost bgs_before = self.bg_registry;
        let bind_groups = self.bg_registry.sync(&mut self.buffers, &mut self.textures, &mut self.samplers, now);
        assert forall|k: Seq<char>|
            #[trigger] layout_ready(self.bg_registry.layouts(), k) implies self.bg_registry.layouts()[k]->Ready_0.rsc.ref_count
                + self.pip_registry.deferred_layout_uses() < usize::MAX by {
            assert(self.bg_registry.layouts().contains_key(k) && self.bg_registry.layouts()[k] is Ready);
            assert(bgs_before == old(self).bind_groups());
            assert(layout_ready(old(self).bind_groups().layouts(), k));
        }
        let ghost synced = self.bg_registry;
        let pipelines = self.pip_registry.sync(&mut self.bg_registry, now);
        assert(evaluated(
            old(self).buffers().statuses(),
            evaluated_buffers,
            now,
            old(self).buffers().thread_timeout(),
            old(self).buffers().failed_timeout(),
        ));
        assert(evaluated(
            old(self).textures().statuses(),
            evaluated_textures,
            now,
            old(self).textures().thread_timeout(),
            old(self).textures().failed_timeout(),
        ));
        assert(evaluated(
            old(self).samplers().statuses(),
            evaluated_samplers,
            now,
            old(self).samplers().thread_timeout(),
            old(self).samplers().failed_timeout(),
        ));
        let report = ContextSync { stalled_buffers, stalled_textures, stalled_samplers, bind_groups, pipelines };
        assert(bind_groups_synced(old(self).bind_groups(), synced, report.bind_groups.requests@, now));
        assert(pipelines_synced(
            old(self).pipelines(),
            self.pipelines(),
            synced.layouts(),
            self.bind_groups().layouts(),
            report.pipelines.requests@,
            now,
        ));
        report
    }

    /// Get a texture, looking it up at `now` (see `ResourceHandler::get`)
    pub fn get_texture(&mut self, id: &TextureId, now: u64) -> (texture: Option<&T>)
        requires
            old(self).wf(),
        ensures
            final(self).wf(),
            is_ready_in(old(self).textures().statuses(), id.0@) ==> texture == Some(&old(self).textures().statuses()[id.0@]->Ready_0.rsc)
                && final(self).textures().statuses() == old(self).textures().statuses().insert(
                id.0@,
                ResourceStatus::Ready(Ready { accessed: now, ..old(self).textures().statuses()[id.0@]->Ready_0 }),
            ),
            !is_ready_in(old(self).textures().statuses(), id.0@) ==> texture is None
                && final(self).textures().statuses() == old(self).textures().statuses(),
            final(self).textures().thread_timeout() == old(self).textures().thread_timeout(),
            final(self).textures().failed_timeout() == old(self).textures().failed_timeout(),
            final(self).buffers() == old(self).buffers(),
            final(self).samplers() == old(self).samplers(),
            final(self).bind_groups() == old(self).bind_groups(),
            final(self).pipelines() == old(self).pipelines(),
    {
        self.textures.get(id, now)
    }

    /// Get a sampler, looking it up at `now` (see `ResourceHandler::get`)
    pub fn get_sampler(&mut self, id: &SamplerId, now: u64) -> (sampler: Option<&S>)
        requires
            old(self).wf(),
        ensures
            final(self).wf(),
            is_ready_in(old(self).samplers().statuses(), id.0@) ==> sampler == Some(&old(self).samplers().statuses()[id.0@]->Ready_0.rsc)
                && final(self).samplers().statuses() == old(self).samplers().statuses().insert(
                id.0@,
                ResourceStatus::Ready(Ready { accessed: now, ..old(self).samplers().statuses()[id.0@]->Ready_0 }),
            ),
            !is_ready_in(old(self).samplers().statuses(), id.0@) ==> sampler is None
                && final(self).samplers().statuses() == old(self).samplers().statuses(),
            final(self).samplers().thread_timeout() == old(self).samplers().thread_timeout(),
            final(self).samplers().failed_timeout() == old(self).samplers().failed_timeout(),
            final(self).buffers() == old(self).buffers(),
            final(self).textures() == old(self).textures(),
            final(self).bind_groups() == old(self).bind_groups(),
            final(self).pipelines() == old(self).pipelines(),
    {
        self.samplers.get(id, now)
    }

    /// Get the handle to a bind group layout, looking it up at `now` (see
    /// `BindGroupRegistry::get_layout`)
    pub fn get_layout(&mut self, id: &LayoutId, now: u64) -> (handle: Option<&BindGroupLayoutHandle<L>>)
        requires
            old(self).wf(),
        ensures
            final(self).wf(),
            is_ready_in(old(self).bind_groups().layouts(), id.0@) ==> handle == Some(&old(self).bind_groups().layouts()[id.0@]->Ready_0.rsc),
            !is_ready_in(old(self).bind_groups().layouts(), id.0@) ==> handle is None,
            final(self).bind_groups().layouts() == stamped(old(self).bind_groups().layouts(), set![id.0@], now),
            final(self).bind_groups().bind_groups() == old(self).bind_groups().bind_groups(),
            final(self).bind_groups().blueprints() == old(self).bind_groups().blueprints(),
            final(self).bind_groups().deferred() == old(self).bind_groups().deferred(),
            final(self).bind_groups().valid() == old(self).bind_groups().valid(),
            final(self).bind_groups().timeouts() == old(self).bind_groups().timeouts(),
            final(self).buffers() == old(self).buffers(),
            final(self).textures() == old(self).textures(),
            final(self).samplers() == old(self).samplers(),
            final(self).pipelines() == old(self).pipelines(),
    {
        self.bg_registry.get_layout(id, now)
    }

    /// Validate a bind group, ensuring it can be used in a gpu command (see
    /// `BindGroupRegistry::validate`)
    pub fn validate_bind_group(&mut self, bg_id: &BindGroupId, now: u64) -> (handle: Option<&BindGroupHandle<G>>)
        requires
            old(self).wf(),
        ensures
            final(self).wf(),
            ({
                let bgs = old(self).bind_groups();
                let k = bg_id.0@;
                let passes = bgs.valid().contains(k) || (bgs.blueprints().contains_key(k)
                    && crate::graphics::bg_registry::targets_present(
                    bgs.blueprints()[k].bindings,
                    old(self).buffers().statuses(),
                    old(self).textures().statuses(),
                    old(self).samplers().statuses(),
                ));
                let created = bgs.bind_groups().contains_key(k) && bgs.bind_groups()[k] is Ready;
                &&& passes ==> final(self).bind_groups().valid() == bgs.valid().insert(k)
                &&& (passes && created) ==> handle == Some(&bgs.bind_groups()[k]->Ready_0.rsc)
                &&& !(passes && created) ==> handle is None
                &&& !passes ==> final(self).bind_groups().valid() == bgs.valid()
            }),
            restamped(old(self).bind_groups().bind_groups(), final(self).bind_groups().bind_groups(), now),
            final(self).bind_groups().blueprints() == old(self).bind_groups().blueprints(),
            final(self).bind_groups().layouts() == old(self).bind_groups().layouts(),
            final(self).buffers() == old(self).buffers(),
            final(self).textures() == old(self).textures(),
            final(self).samplers() == old(self).samplers(),
            final(self).pipelines() == old(self).pipelines(),
    {
        proof {
            lemma_stamped_restamped(self.bg_registry.bind_groups(), set![bg_id.0@], now);
            lemma_restamped_refl(self.bg_registry.bind_groups(), now);
        }
        self.bg_registry.validate(bg_id, &self.buffers, &self.textures, &self.samplers, now)
    }

    /// Validate a pipeline, ensuring it can be used in a gpu command (see
    /// `PipelineRegistry::validate`)
    pub fn validate_pipeline(&mut self, pip_id: &PipelineId, now: u64) -> (handle: Option<&P>)
        requires
            old(self).wf(),
        ensures
            final(self).wf(),
            ({
                let pips = old(self).pipelines();
                let k = pip_id.0@;
                let passes = pips.valid().contains(k) || (pips.blueprints().contains_key(k)
                    && crate::graphics::pip_registry::layouts_ready(
                    old(self).bind_groups().layouts(),
                    pips.blueprints()[k].layouts(),
                ));
                let created = pips.pipelines().contains_key(k) && pips.pipelines()[k] is Ready;
                &&& passes ==> final(self).pipelines().valid() == pips.valid().insert(k)
                &&& (passes && created) ==> handle == Some(&pips.pipelines()[k]->Ready_0.rsc)
                &&& !(passes && created) ==> handle is None
                &&& !passes ==> final(self).pipelines().valid() == pips.valid()
            }),
            restamped(old(self).pipelines().pipelines(), final(self).pipelines().pipelines(), now),
            restamped(old(self).bind_groups().layouts(), final(self).bind_groups().layouts(), now),
            final(self).pipelines().blueprints() == old(self).pipelines().blueprints(),
            final(self).bind_groups().blueprints() == old(self).bind_groups().blueprints(),
            final(self).bind_groups().bind_groups() == old(self).bind_groups().bind_groups(),
            final(self).bind_groups().valid() == old(self).bind_groups().valid(),
            final(self).buffers() == old(self).buffers(),
            final(self).textures() == old(self).textures(),
            final(self).samplers() == old(self).samplers(),
    {
        proof {
            lemma_stamped_restamped(self.pip_registry.pipelines(), set![pip_id.0@], now);
            lemma_restamped_refl(self.pip_registry.pipelines(), now);
            lemma_restamped_refl(self.bg_registry.layouts(), now);
        }
        self.pip_registry.validate(pip_id, &mut self.bg_registry, now)
    }
}

impl<B, T, S, G, L, RP, CP> GpuContext<B, T, S, G, L, PipelineHandle<RP, CP>> {
    /// Get a buffer, looking it up at `now`
    pub fn get_buffer(&mut self, id: &BufferId, now: u64) -> (buffer: Option<&B>)
        requires
            old(self).wf(),
        ensures
            final(self).wf(),
            is_ready_in(old(self).buffers().statuses(), id.0@) ==> buffer == Some(&old(self).buffers().statuses()[id.0@]->Ready_0.rsc),
            !is_ready_in(old(self).buffers().statuses(), id.0@) ==> buffer is None,
            validated_from(*old(self), *final(self), now),
    {
        proof {
            lemma_stamp_one(self.buffers.statuses(), id.0@, now);
            lemma_stamped_restamped(self.buffers.statuses(), set![id.0@], now);
            lemma_restamped_refl(self.bg_registry.bind_groups(), now);
            lemma_restamped_refl(self.bg_registry.layouts(), now);
            lemma_restamped_refl(self.pip_registry.pipelines(), now);
            lemma_valid_pass_themselves(*self);
        }
        self.buffers.get(id, now)
    }

    /// Validate the bind groups in turn, stopping at the first one that is not usable; returns
    /// whether they all are
    fn validate_bind_groups(&mut self, ids: &Vec<BindGroupId>, now: u64) -> (usable: bool)
        requires
            old(self).wf(),
        ensures
            final(self).wf(),
            usable == bind_groups_usable(*old(self), ids@),
            validated_from(*old(self), *final(self), now),
    {
        let ghost start = *self;
        proof {
            lemma_validated_refl(*self, now);
        }
        let mut i: usize = 0;
        while i < ids.len()
            invariant
                self.wf(),
                i <= ids@.len(),
                validated_from(start, *self, now),
                start == *old(self),
                forall|j: int| 0 <= j < i ==> bg_usable(start, #[trigger] ids@[j].0@),
            decreases ids@.len() - i,
        {
            let ghost before = *self;
            let usable = self.validate_bind_group(&ids[i], now).is_some();
            proof {
                lemma_validated_trans(start, before, *self, now);
                lemma_validated_keeps_usable(start, before, now, ids@[i as int].0@);
            }
            if !usable {
                return false;
            }
            i += 1;
        }
        true
    }

    /// Validate everything a draw uses, at `now`, in the order the draw uses it: the render
    /// pipeline, the bind groups, the vertex buffers, the index buffer. Returns whether it all is
    /// usable; the caller records the draw only then.
    pub fn prepare_draw<V>(&mut self, cmd: &DrawCommand<V>, now: u64) -> (ready: bool)
        requires
            old(self).wf(),
        ensures
            final(self).wf(),
            ready == draw_ready(*old(self), *cmd),
            validated_from(*old(self), *final(self), now),
    {
        let ghost start = *self;
        let pipeline_ok = match self.validate_pipeline(&cmd.pip_id, now) {
            Some(handle) => handle.to_render().is_some(),
            None => false,
        };
        if !pipeline_ok {
            return false;
        }
        let ghost after_pip = *self;
        let groups_ok = self.validate_bind_groups(&cmd.bind_groups, now);
        proof {
            lemma_validated_trans(start, after_pip, *self, now);
            assert forall|j: int| 0 <= j < cmd.bind_groups@.len() implies bg_usable(after_pip, #[trigger] cmd.bind_groups@[j].0@)
                == bg_usable(start, cmd.bind_groups@[j].0@) by {
                lemma_validated_keeps_usable(start, after_pip, now, cmd.bind_groups@[j].0@);
            }
        }
        if !groups_ok {
            return false;
        }
        let mut i: usize = 0;
        while i < cmd.vertex_buffers.len()
            invariant
                self.wf(),
                i <= cmd.vertex_buffers@.len(),
                validated_from(start, *self, now),
                start == *old(self),
                render_usable(start, cmd.pip_id.0@),
                bind_groups_usable(start, cmd.bind_groups@),
                forall|j: int| 0 <= j < i ==> is_ready_in(start.buffers().statuses(), #[trigger] cmd.vertex_buffers@[j].0@),
            decreases cmd.vertex_buffers@.len() - i,
        {
            let ghost before = *self;
            let found = self.get_buffer(&cmd.vertex_buffers[i], now).is_some();
            proof {
                lemma_validated_trans(start, before, *self, now);
                lemma_validated_keeps_usable(start, before, now, cmd.vertex_buffers@[i as int].0@);
            }
            if !found {
                return false;
            }
            i += 1;
        }
        match cmd.index_buffer {
            Some(id) => {
                let ghost before = *self;
                let found = self.get_buffer(&id, now).is_some();
                proof {
                    lemma_validated_trans(start, before, *self, now);
                    lemma_validated_keeps_usable(start, before, now, id.0@);
                }
                found
            },
            None => true,
        }
    }

    /// Validate everything a dispatch uses, at `now`: the compute pipeline, then the bind
    /// groups. Returns whether it all is usable; the caller records the dispatch only then.
    pub fn prepare_dispatch(&mut self, cmd: &ComputeCommand, now: u64) -> (ready: bool)
        requires
            old(self).wf(),
        ensures
            final(self).wf(),
            ready == dispatch_ready(*old(self), *cmd),
            validated_from(*old(self), *final(self), now),
    {
        let ghost start = *self;
        let pip_id = cmd.pipeline_id();
        let pipeline_ok = match self.validate_pipeline(&pip_id, now) {
            Some(handle) => handle.to_compute().is_some(),
            None => false,
        };
        if !pipeline_ok {
            return false;
        }
        let ghost after_pip = *self;
        let groups = cmd.bind_groups();
        let mut ids: Vec<BindGroupId> = Vec::new();
        let mut i: usize = 0;
        while i < groups.len()
            invariant
                i <= groups@.len(),
                ids@ == groups@.take(i as int),
            decreases groups@.len() - i,
        {
            ids.push(groups[i]);
            i += 1;
            assert(ids@ =~= groups@.take(i as int));
        }
        assert(groups@.take(groups@.len() as int) =~= groups@);
        let groups_ok = self.validate_bind_groups(&ids, now);
        proof {
            lemma_validated_trans(start, after_pip, *self, now);
            assert forall|j: int| 0 <= j < ids@.len() implies bg_usable(after_pip, #[trigger] ids@[j].0@)
                == bg_usable(start, ids@[j].0@) by {
                lemma_validated_keeps_usable(start, after_pip, now, ids@[j].0@);
            }
        }
        groups_ok
    }
}

/// Looking up one resource marks it accessed if it is ready
proof fn lemma_stamp_one<R>(statuses: Map<Seq<char>, ResourceStatus<R>>, k: Seq<char>, now: u64)
    ensures
        (statuses.contains_key(k) && statuses[k] is Ready) ==> stamped(statuses, set![k], now) == statuses.insert(
            k,
            ResourceStatus::Ready(Ready { accessed: now, ..statuses[k]->Ready_0 }),
        ),
        !(statuses.contains_key(k) && statuses[k] is Ready) ==> stamped(statuses, set![k], now) == statuses,
{
    if statuses.contains_key(k) && statuses[k] is Ready {
        assert(stamped(statuses, set![k], now) =~= statuses.insert(
            k,
            ResourceStatus::Ready(Ready { accessed: now, ..statuses[k]->Ready_0 }),
        ));
    } else {
        assert(stamped(statuses, set![k], now) =~= statuses);
    }
}

/// The bind groups and pipelines known valid pass validation
proof fn lemma_valid_pass_themselves<B, T, S, G, L, P>(ctx: GpuContext<B, T, S, G, L, P>)
    ensures
        forall|k: Seq<char>| #[trigger] ctx.bind_groups().valid().contains(k) ==> bg_passes(ctx, k),
        forall|k: Seq<char>| #[trigger] ctx.pipelines().valid().contains(k) ==> pip_passes(ctx, k),
{
}

/// A context is validated from itself
proof fn lemma_validated_refl<B, T, S, G, L, P>(ctx: GpuContext<B, T, S, G, L, P>, now: u64)
    ensures
        validated_from(ctx, ctx, now),
{
    lemma_restamped_refl(ctx.buffers().statuses(), now);
    lemma_restamped_refl(ctx.bind_groups().bind_groups(), now);
    lemma_restamped_refl(ctx.bind_groups().layouts(), now);
    lemma_restamped_refl(ctx.pipelines().pipelines(), now);
}

/// Two validation passes make one
proof fn lemma_validated_trans<B, T, S, G, L, P>(
    a: GpuContext<B, T, S, G, L, P>,
    b: GpuContext<B, T, S, G, L, P>,
    c: GpuContext<B, T, S, G, L, P>,
    now: u64,
)
    requires
        validated_from(a, b, now),
        validated_from(b, c, now),
    ensures
        validated_from(a, c, now),
{
    lemma_restamped_trans(a.buffers().statuses(), b.buffers().statuses(), c.buffers().statuses(), now);
    lemma_restamped_trans(a.bind_groups().bind_groups(), b.bind_groups().bind_groups(), c.bind_groups().bind_groups(), now);
    lemma_restamped_trans(a.bind_groups().layouts(), b.bind_groups().layouts(), c.bind_groups().layouts(), now);
    lemma_restamped_trans(a.pipelines().pipelines(), b.pipelines().pipelines(), c.pipelines().pipelines(), now);
    assert forall|k: Seq<char>| #[trigger] c.bind_groups().valid().contains(k) implies bg_passes(a, k) by {
        lemma_validated_keeps_usable(a, b, now, k);
    }
    assert forall|k: Seq<char>| #[trigger] c.pipelines().valid().contains(k) implies pip_passes(a, k) by {
        lemma_validated_keeps_usable(a, b, now, k);
    }
}

/// Stamping marks only ready resources accessed
proof fn lemma_stamped_restamped<R>(statuses: Map<Seq<char>, ResourceStatus<R>>, keys: Set<Seq<char>>, now: u64)
    ensures
        restamped(statuses, stamped(statuses, keys, now), now),
{
    assert(stamped(statuses, keys, now).dom() =~= statuses.dom());
}

/// Nothing changed is a restamping
proof fn lemma_restamped_refl<R>(statuses: Map<Seq<char>, ResourceStatus<R>>, now: u64)
    ensures
        restamped(statuses, statuses, now),
{
}

/// Restamping twice is restamping
proof fn lemma_restamped_trans<R>(
    a: Map<Seq<char>, ResourceStatus<R>>,
    b: Map<Seq<char>, ResourceStatus<R>>,
    c: Map<Seq<char>, ResourceStatus<R>>,
    now: u64,
)
    requires
        restamped(a, b, now),
        restamped(b, c, now),
    ensures
        restamped(a, c, now),
{
    assert(c.dom() =~= a.dom());
}

/// The resource `k` is known and ready
pub open spec fn is_ready_in<R>(statuses: Map<Seq<char>, ResourceStatus<R>>, k: Seq<char>) -> bool {
    statuses.contains_key(k) && statuses[k] is Ready
}

/// The bind group `k` passes validation in the context
pub open spec fn bg_passes<B, T, S, G, L, P>(ctx: GpuContext<B, T, S, G, L, P>, k: Seq<char>) -> bool {
    let bgs = ctx.bind_groups();
    bgs.valid().contains(k) || (bgs.blueprints().contains_key(k) && targets_present(
        bgs.blueprints()[k].bindings,
        ctx.buffers().statuses(),
        ctx.textures().statuses(),
        ctx.samplers().statuses(),
    ))
}

/// The bind group `k` passes validation and was created
pub open spec fn bg_usable<B, T, S, G, L, P>(ctx: GpuContext<B, T, S, G, L, P>, k: Seq<char>) -> bool {
    bg_passes(ctx, k) && is_ready_in(ctx.bind_groups().bind_groups(), k)
}

/// The pipeline `k` passes validation in the context
pub open spec fn pip_passes<B, T, S, G, L, P>(ctx: GpuContext<B, T, S, G, L, P>, k: Seq<char>) -> bool {
    let pips = ctx.pipelines();
    pips.valid().contains(k) || (pips.blueprints().contains_key(k) && crate::graphics::pip_registry::layouts_ready(
        ctx.bind_groups().layouts(),
        pips.blueprints()[k].layouts(),
    ))
}

/// The pipeline `k` passes validation, was created, and is a render pipeline
pub open spec fn render_usable<B, T, S, G, L, RP, CP>(ctx: GpuContext<B, T, S, G, L, PipelineHandle<RP, CP>>, k: Seq<char>) -> bool {
    &&& pip_passes(ctx, k)
    &&& is_ready_in(ctx.pipelines().pipelines(), k)
    &&& ctx.pipelines().pipelines()[k]->Ready_0.rsc is Render
}

/// The pipeline `k` passes validation, was created, and is a compute pipeline
pub open spec fn compute_usable<B, T, S, G, L, RP, CP>(ctx: GpuContext<B, T, S, G, L, PipelineHandle<RP, CP>>, k: Seq<char>) -> bool {
    &&& pip_passes(ctx, k)
    &&& is_ready_in(ctx.pipelines().pipelines(), k)
    &&& ctx.pipelines().pipelines()[k]->Ready_0.rsc is Compute
}

/// Every bind group of the list passes validation and was created
pub open spec fn bind_groups_usable<B, T, S, G, L, P>(ctx: GpuContext<B, T, S, G, L, P>, ids: Seq<BindGroupId>) -> bool {
    forall|i: int| 0 <= i < ids.len() ==> bg_usable(ctx, #[trigger] ids[i].0@)
}

/// Everything a draw uses is usable: its render pipeline, its bind groups, its vertex buffers
/// and its index buffer, if it has one
pub open spec fn draw_ready<B, T, S, G, L, RP, CP, V>(ctx: GpuContext<B, T, S, G, L, PipelineHandle<RP, CP>>, cmd: DrawCommand<V>) -> bool {
    &&& render_usable(ctx, cmd.pip_id.0@)
    &&& bind_groups_usable(ctx, cmd.bind_groups@)
    &&& forall|i: int| 0 <= i < cmd.vertex_buffers@.len() ==> is_ready_in(ctx.buffers().statuses(), #[trigger] cmd.vertex_buffers@[i].0@)
    &&& cmd.index_buffer matches Some(id) ==> is_ready_in(ctx.buffers().statuses(), id.0@)
}

/// Everything a dispatch uses is usable: its compute pipeline and its bind groups
pub open spec fn dispatch_ready<B, T, S, G, L, RP, CP>(ctx: GpuContext<B, T, S, G, L, PipelineHandle<RP, CP>>, cmd: ComputeCommand) -> bool {
    &&& compute_usable(ctx, cmd.pipeline().0@)
    &&& bind_groups_usable(ctx, cmd.groups())
}

/// A draw found ready has everything it uses: its pipeline was created and is a render
/// pipeline, each of its bind groups was created, and each of its vertex buffers and its index
/// buffer, if it has one, is ready in the buffer handler. A draw that misses any of them never
/// runs.
pub proof fn law_ready_draw_has_its_resources<B, T, S, G, L, RP, CP, V>(
    ctx: GpuContext<B, T, S, G, L, PipelineHandle<RP, CP>>,
    cmd: DrawCommand<V>,
)
    requires
        draw_ready(ctx, cmd),
    ensures
        ctx.pipelines().pipelines().contains_key(cmd.pip_id.0@),
        ctx.pipelines().pipelines()[cmd.pip_id.0@] is Ready,
        ctx.pipelines().pipelines()[cmd.pip_id.0@]->Ready_0.rsc is Render,
        forall|i: int|
            0 <= i < cmd.bind_groups@.len() ==> ctx.bind_groups().bind_groups().contains_key(
                (#[trigger] cmd.bind_groups@[i]).0@,
            ) && ctx.bind_groups().bind_groups()[cmd.bind_groups@[i].0@] is Ready,
        forall|i: int|
            0 <= i < cmd.vertex_buffers@.len() ==> ctx.buffers().statuses().contains_key(
                (#[trigger] cmd.vertex_buffers@[i]).0@,
            ) && ctx.buffers().statuses()[cmd.vertex_buffers@[i].0@] is Ready,
        cmd.index_buffer matches Some(id) ==> ctx.buffers().statuses().contains_key(id.0@)
            && ctx.buffers().statuses()[id.0@] is Ready,
{
    assert forall|i: int| 0 <= i < cmd.bind_groups@.len() implies ctx.bind_groups().bind_groups().contains_key(
        (#[trigger] cmd.bind_groups@[i]).0@,
    ) && ctx.bind_groups().bind_groups()[cmd.bind_groups@[i].0@] is Ready by {
        assert(bg_usable(ctx, cmd.bind_groups@[i].0@));
    }
    assert forall|i: int| 0 <= i < cmd.vertex_buffers@.len() implies ctx.buffers().statuses().contains_key(
        (#[trigger] cmd.vertex_buffers@[i]).0@,
    ) && ctx.buffers().statuses()[cmd.vertex_buffers@[i].0@] is Ready by {
        assert(is_ready_in(ctx.buffers().statuses(), cmd.vertex_buffers@[i].0@));
    }
}

/// A dispatch found ready has everything it uses: its pipeline was created and is a compute
/// pipeline, and each of its bind groups was created.
pub proof fn law_ready_dispatch_has_its_resources<B, T, S, G, L, RP, CP>(
    ctx: GpuContext<B, T, S, G, L, PipelineHandle<RP, CP>>,
    cmd: ComputeCommand,
)
    requires
        dispatch_ready(ctx, cmd),
    ensures
        ctx.pipelines().pipelines().contains_key(cmd.pipeline().0@),
        ctx.pipelines().pipelines()[cmd.pipeline().0@] is Ready,
        ctx.pipelines().pipelines()[cmd.pipeline().0@]->Ready_0.rsc is Compute,
        forall|i: int|
            0 <= i < cmd.groups().len() ==> ctx.bind_groups().bind_groups().contains_key(
                (#[trigger] cmd.groups()[i]).0@,
            ) && ctx.bind_groups().bind_groups()[cmd.groups()[i].0@] is Ready,
{
    assert forall|i: int| 0 <= i < cmd.groups().len() implies ctx.bind_groups().bind_groups().contains_key(
        (#[trigger] cmd.groups()[i]).0@,
    ) && ctx.bind_groups().bind_groups()[cmd.groups()[i].0@] is Ready by {
        assert(bg_usable(ctx, cmd.groups()[i].0@));
    }
}

/// What a validation pass leaves of the context: the resources and registries as they were but
/// for access times and the bind groups and pipelines it found valid
pub open spec fn validated_from<B, T, S, G, L, P>(before: GpuContext<B, T, S, G, L, P>, after: GpuContext<B, T, S, G, L, P>, now: u64) -> bool {
    &&& restamped(before.buffers().statuses(), after.buffers().statuses(), now)
    &&& after.textures() == before.textures()
    &&& after.samplers() == before.samplers()
    &&& restamped(before.bind_groups().bind_groups(), after.bind_groups().bind_groups(), now)
    &&& restamped(before.bind_groups().layouts(), after.bind_groups().layouts(), now)
    &&& after.bind_groups().blueprints() == before.bind_groups().blueprints()
    &&& before.bind_groups().valid().subset_of(after.bind_groups().valid())
    &&& forall|k: Seq<char>| #[trigger] after.bind_groups().valid().contains(k) ==> bg_passes(before, k)
    &&& restamped(before.pipelines().pipelines(), after.pipelines().pipelines(), now)
    &&& after.pipelines().blueprints() == before.pipelines().blueprints()
    &&& before.pipelines().valid().subset_of(after.pipelines().valid())
    &&& forall|k: Seq<char>| #[trigger] after.pipelines().valid().contains(k) ==> pip_passes(before, k)
}

/// A validation pass does not change which bind groups are usable
proof fn lemma_validated_keeps_usable<B, T, S, G, L, P>(before: GpuContext<B, T, S, G, L, P>, after: GpuContext<B, T, S, G, L, P>, now: u64, k: Seq<char>)
    requires
        validated_from(before, after, now),
    ensures
        bg_usable(after, k) == bg_usable(before, k),
        bg_passes(after, k) == bg_passes(before, k),
        pip_passes(after, k) == pip_passes(before, k),
        is_ready_in(after.buffers().statuses(), k) == is_ready_in(before.buffers().statuses(), k),
        is_ready_in(after.pipelines().pipelines(), k) == is_ready_in(before.pipelines().pipelines(), k),
{
    let b0 = before.buffers().statuses();
    let b1 = after.buffers().statuses();
    if bg_passes(before, k) && !before.bind_groups().valid().contains(k) {
        let bp = before.bind_groups().blueprints()[k].bindings;
        assert(crate::graphics::bg_registry::buffer_targets(bp).subset_of(b1.dom()));
    }
    if bg_passes(after, k) && !after.bind_groups().valid().contains(k) {
        let bp = before.bind_groups().blueprints()[k].bindings;
        assert(crate::graphics::bg_registry::buffer_targets(bp).subset_of(b0.dom()));
    }
    let l0 = before.bind_groups().layouts();
    let l1 = after.bind_groups().layouts();
    if pip_passes(before, k) && !before.pipelines().valid().contains(k) {
        let ls = before.pipelines().blueprints()[k].layouts();
        assert forall|j: int| 0 <= j < ls.len() implies crate::graphics::pip_registry::layout_ready(l1, #[trigger] ls[j].0@) by {
            assert(crate::graphics::pip_registry::layout_ready(l0, ls[j].0@));
        }
    }
    if pip_passes(after, k) && !after.pipelines().valid().contains(k) {
        let ls = before.pipelines().blueprints()[k].layouts();
        assert forall|j: int| 0 <= j < ls.len() implies crate::graphics::pip_registry::layout_ready(l0, #[trigger] ls[j].0@) by {
            assert(crate::graphics::pip_registry::layout_ready(l1, ls[j].0@));
        }
    }
    let bg0 = before.bind_groups().bind_groups();
    let bg1 = after.bind_groups().bind_groups();
    if bg1.contains_key(k) {
        assert(bg1[k] == bg0[k] || bg1[k] is Ready);
    }
    let p0 = before.pipelines().pipelines();
    let p1 = after.pipelines().pipelines();
    if p1.contains_key(k) {
        assert(p1[k] == p0[k] || p1[k] is Ready);
    }
    if b1.contains_key(k) {
        assert(b1[k] == b0[k] || b1[k] is Ready);
    }
}

/// The layouts after each layout in `ids`, in turn, loses a user at `now`
pub open spec fn released_all<L>(
    before: Map<Seq<char>, ResourceStatus<crate::graphics::bg_registry::BindGroupLayoutHandle<L>>>,
    after: Map<Seq<char>, ResourceStatus<crate::graphics::bg_registry::BindGroupLayoutHandle<L>>>,
    ids: Seq<LayoutId>,
    now: u64,
) -> bool
    decreases ids.len(),
{
    if ids.len() == 0 {
        after == before
    } else {
        exists|mid: Map<Seq<char>, ResourceStatus<crate::graphics::bg_registry::BindGroupLayoutHandle<L>>>|
            #![trigger released(mid, after, ids.last().0@, now)]
            released_all(before, mid, ids.drop_last(), now) && released(mid, after, ids.last().0@, now)
    }
}

} // verus!
