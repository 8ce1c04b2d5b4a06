use vstd::prelude::*;

use crate::graphics::bg_registry::{bumped, enumerates, restamped, stamped, BindGroupRegistry};
use crate::graphics::context::{LayoutId, PipelineId};
use crate::graphics::handler::{evaluated, listed, status_stalls, Pending, ResourceHandler, ResourceKey, ResourceStatus};
use crate::graphics::resources::pipeline::{PipelineType, PipelineView};
use crate::graphics::table::{key_at, Table};

verus! {

/// The layout `k` is ready in `layouts`
pub open spec fn layout_ready<L>(layouts: Map<Seq<char>, ResourceStatus<L>>, k: Seq<char>) -> bool {
    layouts.contains_key(k) && layouts[k] is Ready
}

/// The names of the layouts in `ids`
pub open spec fn layout_names(ids: Seq<LayoutId>) -> Set<Seq<char>> {
    Set::new(|k: Seq<char>| exists|j: int| 0 <= j < ids.len() && #[trigger] ids[j].0@ == k)
}

/// Every layout in `ids` is ready
pub open spec fn layouts_ready<L>(layouts: Map<Seq<char>, ResourceStatus<L>>, ids: Seq<LayoutId>) -> bool {
    forall|j: int| 0 <= j < ids.len() ==> layout_ready(layouts, #[trigger] ids[j].0@)
}

/// `p` is the position of the first layout in `ids` that is not ready
pub open spec fn first_missing<L>(layouts: Map<Seq<char>, ResourceStatus<L>>, ids: Seq<LayoutId>, p: int) -> bool {
    &&& 0 <= p < ids.len()
    &&& layouts_ready(layouts, ids.take(p))
    &&& !layout_ready(layouts, ids[p].0@)
}

/// The layouts after each layout in `ids`, in turn, gains a user at `now`
pub open spec fn bump_all<L>(
    layouts: Map<Seq<char>, ResourceStatus<crate::graphics::bg_registry::BindGroupLayoutHandle<L>>>,
    ids: Seq<LayoutId>,
    now: u64,
) -> Map<Seq<char>, ResourceStatus<crate::graphics::bg_registry::BindGroupLayoutHandle<L>>>
    decreases ids.len(),
{
    if ids.len() == 0 {
        layouts
    } else {
        let prev = bump_all(layouts, ids.drop_last(), now);
        let k = ids.last().0@;
        if layout_ready(prev, k) {
            prev.insert(k, bumped(prev[k], now))
        } else {
            prev
        }
    }
}

/// The number of layouts the pipelines use, counted with repetition
pub open spec fn layout_uses(pipelines: Seq<PipelineType>) -> nat
    decreases pipelines.len(),
{
    if pipelines.len() == 0 {
        0
    } else {
        pipelines[0].layouts().len() + layout_uses(pipelines.skip(1))
    }
}

proof fn lemma_layout_names_step(ids: Seq<LayoutId>, i: int)
    requires
        0 <= i < ids.len(),
    ensures
        layout_names(ids.take(i + 1)) == layout_names(ids.take(i)).insert(ids[i].0@),
{
    let a = ids.take(i);
    let b = ids.take(i + 1);
    assert forall|k: Seq<char>| layout_names(b).contains(k) <==> layout_names(a).insert(ids[i].0@).contains(k) by {
        if layout_names(b).contains(k) {
            let j = choose|j: int| 0 <= j < b.len() && #[trigger] b[j].0@ == k;
            if j < i {
                assert(a[j].0@ == k);
            }
        }
        if layout_names(a).contains(k) {
            let j = choose|j: int| 0 <= j < a.len() && #[trigger] a[j].0@ == k;
            assert(b[j].0@ == k);
        }
        if k == ids[i].0@ {
            assert(b[i].0@ == k);
        }
    }
    assert(layout_names(b) =~= layout_names(a).insert(ids[i].0@));
}

/// Giving the layouts in `ids` a user each keeps the same layouts, ready where they were,
/// and adds at most `ids.len()` users to any of them
proof fn lemma_bump_all_bound<L>(
    layouts: Map<Seq<char>, ResourceStatus<crate::graphics::bg_registry::BindGroupLayoutHandle<L>>>,
    ids: Seq<LayoutId>,
    now: u64,
)
    requires
        forall|k: Seq<char>|
            #[trigger] layout_ready(layouts, k) ==> layouts[k]->Ready_0.rsc.ref_count + ids.len() < usize::MAX,
    ensures
        bump_all(layouts, ids, now).dom() == layouts.dom(),
        forall|k: Seq<char>|
            #[trigger] layout_ready(bump_all(layouts, ids, now), k) ==> layout_ready(layouts, k)
                && bump_all(layouts, ids, now)[k]->Ready_0.rsc.ref_count <= layouts[k]->Ready_0.rsc.ref_count
                + ids.len(),
    decreases ids.len(),
{
    if ids.len() > 0 {
        lemma_bump_all_bound(layouts, ids.drop_last(), now);
        let prev = bump_all(layouts, ids.drop_last(), now);
        let last = ids.last().0@;
        assert(bump_all(layouts, ids, now).dom() =~= layouts.dom());
        assert forall|k: Seq<char>|
            #[trigger] layout_ready(bump_all(layouts, ids, now), k) implies layout_ready(layouts, k)
                && bump_all(layouts, ids, now)[k]->Ready_0.rsc.ref_count <= layouts[k]->Ready_0.rsc.ref_count
                + ids.len() by {
            if k == last && layout_ready(prev, k) {
                assert(layout_ready(prev, k));
            } else {
                assert(bump_all(layouts, ids, now)[k] == prev[k]);
            }
        }
    }
}

/// Look up, at `now`, the layouts in `ids` in order, up to the first one that is not ready;
/// returns whether they are all ready
fn resolve_layouts<G, L>(ids: &Vec<LayoutId>, bgs: &mut BindGroupRegistry<G, L>, now: u64) -> (resolved: bool)
    requires
        old(bgs).wf(),
    ensures
        final(bgs).wf(),
        resolved == layouts_ready(old(bgs).layouts(), ids@),
        resolved ==> final(bgs).layouts() == stamped(old(bgs).layouts(), layout_names(ids@), now),
        !resolved ==> exists|p: int|
            first_missing(old(bgs).layouts(), ids@, p) && final(bgs).layouts() == stamped(
                old(bgs).layouts(),
                layout_names(ids@.take(p)),
                now,
            ),
        final(bgs).bind_groups() == old(bgs).bind_groups(),
        final(bgs).blueprints() == old(bgs).blueprints(),
        final(bgs).deferred() == old(bgs).deferred(),
        final(bgs).valid() == old(bgs).valid(),
        final(bgs).timeouts() == old(bgs).timeouts(),
{
    let ghost start = bgs.layouts();
    assert(layout_names(ids@.take(0)) =~= Set::<Seq<char>>::empty());
    assert(stamped(start, Set::empty(), now) =~= start);
    let mut i: usize = 0;
    while i < ids.len()
        invariant
            bgs.wf(),
            i <= ids@.len(),
            start == old(bgs).layouts(),
            layouts_ready(start, ids@.take(i as int)),
            bgs.layouts() == stamped(start, layout_names(ids@.take(i as int)), now),
            bgs.bind_groups() == old(bgs).bind_groups(),
            bgs.blueprints() == old(bgs).blueprints(),
            bgs.deferred() == old(bgs).deferred(),
            bgs.valid() == old(bgs).valid(),
            bgs.timeouts() == old(bgs).timeouts(),
        decreases ids@.len() - i,
    {
        let ghost mid = bgs.layouts();
        let found = bgs.get_layout(&ids[i], now).is_some();
        proof {
            lemma_layout_names_step(ids@, i as int);
        }
        if !found {
            assert(!layout_ready(start, ids@[i as int].0@));
            assert(bgs.layouts() =~= mid);
            assert(first_missing(start, ids@, i as int));
            return false;
        }
        assert(bgs.layouts() =~= stamped(start, layout_names(ids@.take(i + 1)), now));
        assert(layouts_ready(start, ids@.take(i + 1))) by {
            assert forall|j: int| 0 <= j < i + 1 implies layout_ready(start, #[trigger] ids@.take(i + 1)[j].0@) by {
                if j < i {
                    assert(ids@.take(i + 1)[j] == ids@.take(i as int)[j]);
                }
            }
        }
        i += 1;
    }
    assert(ids@.take(ids@.len() as int) =~= ids@);
    true
}

/// Give each layout in `ids` one more user, at `now`
fn bump_layouts<G, L>(ids: &Vec<LayoutId>, bgs: &mut BindGroupRegistry<G, L>, now: u64)
    requires
        old(bgs).wf(),
        forall|k: Seq<char>|
            #[trigger] layout_ready(old(bgs).layouts(), k) ==> old(bgs).layouts()[k]->Ready_0.rsc.ref_count + ids@.len()
                < usize::MAX,
    ensures
        final(bgs).wf(),
        final(bgs).layouts() == bump_all(old(bgs).layouts(), ids@, now),
        final(bgs).bind_groups() == old(bgs).bind_groups(),
        final(bgs).blueprints() == old(bgs).blueprints(),
        final(bgs).deferred() == old(bgs).deferred(),
        final(bgs).valid() == old(bgs).valid(),
        final(bgs).timeouts() == old(bgs).timeouts(),
{
    let ghost start = bgs.layouts();
    assert(ids@.take(0) =~= Seq::<LayoutId>::empty());
    let mut i: usize = 0;
    while i < ids.len()
        invariant
            bgs.wf(),
            i <= ids@.len(),
            start == old(bgs).layouts(),
            bgs.layouts() == bump_all(start, ids@.take(i as int), now),
            forall|k: Seq<char>|
                #[trigger] layout_ready(bgs.layouts(), k) ==> bgs.layouts()[k]->Ready_0.rsc.ref_count + (ids@.len() - i)
                    < usize::MAX,
            bgs.bind_groups() == old(bgs).bind_groups(),
            bgs.blueprints() == old(bgs).blueprints(),
            bgs.deferred() == old(bgs).deferred(),
            bgs.valid() == old(bgs).valid(),
            bgs.timeouts() == old(bgs).timeouts(),
        decreases ids@.len() - i,
    {
        let ghost before = bgs.layouts();
        assert(layout_ready(before, ids@[i as int].0@) ==> before[ids@[i as int].0@]->Ready_0.rsc.ref_count < usize::MAX);
        bgs.check_inc_bgl(&ids[i], now);
        assert forall|k: Seq<char>|
            #[trigger] layout_ready(bgs.layouts(), k) implies bgs.layouts()[k]->Ready_0.rsc.ref_count + (ids@.len() - (i + 1))
                < usize::MAX by {
            if k != ids@[i as int].0@ {
                assert(layout_ready(before, k));
            } else {
                assert(layout_ready(before, k));
            }
        }
        assert(ids@.take(i + 1).drop_last() =~= ids@.take(i as int));
        assert(ids@.take(i + 1).last() == ids@[i as int]);
        i += 1;
    }
    assert(ids@.take(ids@.len() as int) =~= ids@);
}

/// What became of a request for a pipeline
pub enum PipRequest {
    /// The pipeline was already requested; nothing was done
    AlreadyRequested,
    /// A layout the pipeline uses is not ready: the request waits for it
    AwaitingLayouts,
    /// Every layout is ready: the pipeline is pending and the caller must start the worker
    /// that creates it from this blueprint
    Requested(PipelineType),
}

/// Keeps track of and validates requests for render/compute pipelines, whose handles are `P`.
///
/// The registry decides; the caller runs the workers that create pipelines and reports their
/// results through `complete`.
pub struct PipelineRegistry<P> {
    handles: ResourceHandler<PipelineId, P>,
    pip_defs: Table<PipelineId, PipelineType>,
    deferred: Table<PipelineId, PipelineType>,
    valid_pips: Table<PipelineId, ()>,
}

impl<P> PipelineRegistry<P> {
    /// The status of each pipeline
    pub closed spec fn pipelines(&self) -> Map<Seq<char>, ResourceStatus<P>> {
        self.handles.statuses()
    }

    /// The blueprint of each pipeline that got past its layouts
    pub closed spec fn blueprints(&self) -> Map<Seq<char>, PipelineView> {
        self.pip_defs@.map_values(|p: PipelineType| p@)
    }

    /// The pipelines waiting for their layouts
    pub closed spec fn deferred(&self) -> Map<Seq<char>, PipelineView> {
        self.deferred@.map_values(|p: PipelineType| p@)
    }

    /// The number of layouts the waiting pipelines use, counted with repetition
    pub closed spec fn deferred_layout_uses(&self) -> nat {
        layout_uses(self.deferred.values())
    }

    /// The pipelines known to be valid
    pub closed spec fn valid(&self) -> Set<Seq<char>> {
        self.valid_pips@.dom()
    }

    /// Seconds before a pipeline worker is considered dead, and before a failed pipeline is dropped
    pub closed spec fn timeouts(&self) -> (u64, u64) {
        (self.handles.thread_timeout(), self.handles.failed_timeout())
    }

    /// The internal tables are consistent
    pub closed spec fn wf(&self) -> bool {
        &&& self.handles.wf()
        &&& self.pip_defs.wf()
        &&& self.deferred.wf()
        &&& self.valid_pips.wf()
    }

    pub fn new() -> (registry: Self)
        ensures
            registry.wf(),
            registry.pipelines() == Map::<Seq<char>, ResourceStatus<P>>::empty(),
            registry.blueprints() == Map::<Seq<char>, PipelineView>::empty(),
            registry.deferred() == Map::<Seq<char>, PipelineView>::empty(),
            registry.valid() == Set::<Seq<char>>::empty(),
            registry.timeouts() == (5u64, 3u64),
    {
        let registry = Self {
            handles: ResourceHandler::new(),
            pip_defs: Table::new(),
            deferred: Table::new(),
            valid_pips: Table::new(),
        };
        assert(registry.blueprints() =~= Map::<Seq<char>, PipelineView>::empty());
        assert(registry.deferred() =~= Map::<Seq<char>, PipelineView>::empty());
        assert(registry.valid() =~= Set::<Seq<char>>::empty());
        registry
    }

    /// Request a new pipeline, looking up its layouts at `now`.
    ///
    /// A pipeline already requested is left alone. While one of its layouts is not ready, the
    /// request waits. Once they all are, each layout has one more user, the pipeline is pending,
    /// and the blueprint is handed back for the caller to start the worker that creates it.
    pub fn request<G, L>(
        &mut self,
        id: &PipelineId,
        pip_def: PipelineType,
        bgs: &mut BindGroupRegistry<G, L>,
        now: u64,
    ) -> (outcome: PipRequest)
        requires
            old(self).wf(),
            old(bgs).wf(),
            forall|k: Seq<char>|
                #[trigger] layout_ready(old(bgs).layouts(), k) ==> old(bgs).layouts()[k]->Ready_0.rsc.ref_count
                    + pip_def.layouts().len() < usize::MAX,
        ensures
            final(self).wf(),
            final(bgs).wf(),
            pip_request_outcome(
                *old(self),
                *final(self),
                old(bgs).layouts(),
                final(bgs).layouts(),
                id.0@,
                pip_def@,
                pip_def.layouts(),
                now,
                outcome,
            ),
            outcome is Requested ==> outcome->0@ == pip_def@,
            final(self).valid() == old(self).valid(),
            final(self).timeouts() == old(self).timeouts(),
            final(bgs).bind_groups() == old(bgs).bind_groups(),
            final(bgs).blueprints() == old(bgs).blueprints(),
            final(bgs).deferred() == old(bgs).deferred(),
            final(bgs).valid() == old(bgs).valid(),
            final(bgs).timeouts() == old(bgs).timeouts(),
    {
        if self.handles.contains(id) {
            return PipRequest::AlreadyRequested;
        }
        let resolved = resolve_layouts(pip_def.bg_layouts(), bgs, now);
        if resolved {
            self.deferred.remove(id);
            assert(self.deferred() =~= old(self).deferred().remove(id.0@));
            if !self.pip_defs.contains(id) {
                self.pip_defs.insert(*id, pip_def.clone());
                assert(self.blueprints() =~= old(self).blueprints().insert(id.0@, pip_def@));
            }
            assert forall|k: Seq<char>|
                #[trigger] layout_ready(bgs.layouts(), k) implies bgs.layouts()[k]->Ready_0.rsc.ref_count
                    + pip_def.layouts().len() < usize::MAX by {
                assert(layout_ready(old(bgs).layouts(), k));
            }
            bump_layouts(pip_def.bg_layouts(), bgs, now);
            self.handles.request_new(id, None, now);
            PipRequest::Requested(pip_def)
        } else {
            let ghost def = pip_def@;
            self.deferred.insert(*id, pip_def);
            assert(self.deferred() =~= old(self).deferred().insert(id.0@, def));
            PipRequest::AwaitingLayouts
        }
    }

    /// Record the result of a finished pipeline worker at `now`: a created pipeline is ready; a
    /// failure is kept with its message.
    pub fn complete(&mut self, id: PipelineId, result: Result<P, String>, now: u64)
        requires
            old(self).wf(),
        ensures
            final(self).wf(),
            final(self).pipelines() == old(self).pipelines().insert(
                id.0@,
                match result {
                    Ok(pipeline) => ResourceStatus::Ready(
                        crate::graphics::handler::Ready { rsc: pipeline, hold_time: None, accessed: now },
                    ),
                    Err(msg) => ResourceStatus::Failed(crate::graphics::handler::Failed { err_msg: msg, failed_at: now }),
                },
            ),
            final(self).blueprints() == old(self).blueprints(),
            final(self).deferred() == old(self).deferred(),
            final(self).valid() == old(self).valid(),
            final(self).timeouts() == old(self).timeouts(),
    {
        match result {
            Ok(pipeline) => self.handles.store(&id, None, pipeline, now),
            Err(msg) => self.handles.complete(id, Err(msg), now),
        }
    }

    /// remove a pipeline from the registry
    pub fn remove(&mut self, pip_id: &PipelineId)
        requires
            old(self).wf(),
        ensures
            final(self).wf(),
            final(self).pipelines() == old(self).pipelines().remove(pip_id.0@),
            final(self).blueprints() == old(self).blueprints().remove(pip_id.0@),
            final(self).deferred() == old(self).deferred().remove(pip_id.0@),
            final(self).valid() == old(self).valid().remove(pip_id.0@),
            final(self).timeouts() == old(self).timeouts(),
    {
        self.handles.remove(pip_id);
        self.pip_defs.remove(pip_id);
        self.deferred.remove(pip_id);
        self.valid_pips.remove(pip_id);
        assert(self.blueprints() =~= old(self).blueprints().remove(pip_id.0@));
        assert(self.deferred() =~= old(self).deferred().remove(pip_id.0@));
        assert(self.valid() =~= old(self).valid().remove(pip_id.0@));
    }

    /// Invalidate a pipeline. This prevents it from being used in subsequent gpu commands
    pub fn invalidate(&mut self, pip_id: &PipelineId)
        requires
            old(self).wf(),
        ensures
            final(self).wf(),
            final(self).valid() == old(self).valid().remove(pip_id.0@),
            final(self).pipelines() == old(self).pipelines(),
            final(self).blueprints() == old(self).blueprints(),
            final(self).deferred() == old(self).deferred(),
            final(self).timeouts() == old(self).timeouts(),
    {
        self.valid_pips.remove(pip_id);
        assert(self.valid() =~= old(self).valid().remove(pip_id.0@));
    }

    /// Get a reference to the blueprint of the pipeline matching the id, if exists
    pub fn get_blueprint(&self, id: &PipelineId) -> (blueprint: Option<&PipelineType>)
        requires
            self.wf(),
        ensures
            match blueprint {
                Some(b) => self.blueprints().contains_key(id.0@) && b@ == self.blueprints()[id.0@],
                None => !self.blueprints().contains_key(id.0@),
            },
    {
        self.pip_defs.get(id)
    }

    /// Validates a pipeline, looking it up at `now`: one known to be valid, or whose blueprint's
    /// layouts are all ready, is (now) known valid, and its handle is returned if it was created.
    /// Returns None otherwise.
    pub fn validate<G, L>(&mut self, pip_id: &PipelineId, bgs: &mut BindGroupRegistry<G, L>, now: u64) -> (handle: Option<&P>)
        requires
            old(self).wf(),
            old(bgs).wf(),
        ensures
            final(self).wf(),
            final(bgs).wf(),
            ({
                let k = pip_id.0@;
                let known = old(self).valid().contains(k);
                let has_def = old(self).blueprints().contains_key(k);
                let ls = old(self).blueprints()[k].layouts();
                let passes = known || (has_def && layouts_ready(old(bgs).layouts(), ls));
                let created = old(self).pipelines().contains_key(k) && old(self).pipelines()[k] is Ready;
                &&& passes ==> final(self).valid() == old(self).valid().insert(k)
                &&& passes ==> final(self).pipelines() == stamped(old(self).pipelines(), set![k], now)
                &&& (passes && created) ==> handle == Some(&old(self).pipelines()[k]->Ready_0.rsc)
                &&& !(passes && created) ==> handle is None
                &&& !passes ==> final(self).valid() == old(self).valid()
                &&& !passes ==> final(self).pipelines() == old(self).pipelines()
                &&& known ==> final(bgs).layouts() == old(bgs).layouts()
                &&& (!known && !has_def) ==> final(bgs).layouts() == old(bgs).layouts()
                &&& (!known && has_def) ==> restamped(old(bgs).layouts(), final(bgs).layouts(), now)
            }),
            final(self).blueprints() == old(self).blueprints(),
            final(self).deferred() == old(self).deferred(),
            final(self).timeouts() == old(self).timeouts(),
            final(bgs).bind_groups() == old(bgs).bind_groups(),
            final(bgs).blueprints() == old(bgs).blueprints(),
            final(bgs).deferred() == old(bgs).deferred(),
            final(bgs).valid() == old(bgs).valid(),
            final(bgs).timeouts() == old(bgs).timeouts(),
    {
        if self.valid_pips.contains(pip_id) {
            assert(self.valid() =~= old(self).valid().insert(pip_id.0@));
            proof {
                lemma_stamp_one_pip(self.handles.statuses(), pip_id.0@, now);
            }
            return self.handles.get(pip_id, now);
        }
        let resolved = match self.pip_defs.get(pip_id) {
            Some(pip_def) => {
                let r = resolve_layouts(pip_def.bg_layouts(), bgs, now);
                proof {
                    lemma_stamped_restamped(old(bgs).layouts(), layout_names(pip_def.layouts()), now);
                    if !r {
                        let p = choose|p: int| first_missing(old(bgs).layouts(), pip_def.layouts(), p)
                            && bgs.layouts() == stamped(old(bgs).layouts(), layout_names(pip_def.layouts().take(p)), now);
                        lemma_stamped_restamped(old(bgs).layouts(), layout_names(pip_def.layouts().take(p)), now);
                    }
                }
                r
            },
            None => false,
        };
        if !resolved {
            return None;
        }
        self.valid_pips.insert(*pip_id, ());
        assert(self.valid() =~= old(self).valid().insert(pip_id.0@));
        proof {
            lemma_stamp_one_pip(self.handles.statuses(), pip_id.0@, now);
        }
        self.handles.get(pip_id, now)
    }
}

/// What a sync of the pipeline registry reports
pub struct PipSync {
    /// Pipeline workers that stalled, which the caller must abort
    pub stalled: Vec<PipelineId>,
    /// Each waiting pipeline that was requested again, with what became of it
    pub requests: Vec<(PipelineId, PipRequest)>,
}

impl<P> PipelineRegistry<P> {
    /// Sync the registry at `now`: evaluate the pipelines (see `ResourceHandler::sync`), then
    /// request again every pipeline that was waiting for its layouts.
    pub fn sync<G, L>(&mut self, bgs: &mut BindGroupRegistry<G, L>, now: u64) -> (report: PipSync)
        requires
            old(self).wf(),
            old(bgs).wf(),
            forall|k: Seq<char>|
                #[trigger] layout_ready(old(bgs).layouts(), k) ==> old(bgs).layouts()[k]->Ready_0.rsc.ref_count
                    + old(self).deferred_layout_uses() < usize::MAX,
        ensures
            final(self).wf(),
            final(bgs).wf(),
            forall|k: Seq<char>|
                #[trigger] listed(report.stalled@, k) <==> old(self).pipelines().contains_key(k) && status_stalls(
                    old(self).pipelines()[k],
                    now,
                    old(self).timeouts().0,
                ),
            final(self).deferred().dom().subset_of(old(self).deferred().dom()),
            forall|k: Seq<char>|
                #[trigger] old(self).deferred().contains_key(k) ==> final(self).deferred().contains_key(k)
                    || final(self).pipelines().contains_key(k),
            forall|j: int|
                0 <= j < report.requests@.len() ==> old(self).deferred().contains_key(#[trigger] report.requests@[j].0.0@),
            forall|j: int|
                0 <= j < report.requests@.len() && #[trigger] report.requests@[j].1 is Requested
                    ==> final(self).pipelines().contains_key(report.requests@[j].0.0@),
            old(self).blueprints().dom().subset_of(final(self).blueprints().dom()),
            final(self).valid() == old(self).valid(),
            final(self).timeouts() == old(self).timeouts(),
            pipelines_synced(*old(self), *final(self), old(bgs).layouts(), final(bgs).layouts(), report.requests@, now),
            final(bgs).layouts().dom() == old(bgs).layouts().dom(),
            final(bgs).bind_groups() == old(bgs).bind_groups(),
            final(bgs).blueprints() == old(bgs).blueprints(),
            final(bgs).deferred() == old(bgs).deferred(),
            final(bgs).valid() == old(bgs).valid(),
            final(bgs).timeouts() == old(bgs).timeouts(),
    {
        let stalled = self.handles.sync(now);
        let ghost uses = self.deferred_layout_uses();
        let entries = self.deferred.drain();
        assert(self.deferred() =~= Map::<Seq<char>, PipelineView>::empty());
        let ghost vals = entries@.map_values(|e: (PipelineId, PipelineType)| e.1);
        let ghost mid = self.pipelines();
        assert(vals.skip(0) =~= vals);
        let mut requests: Vec<(PipelineId, PipRequest)> = Vec::new();
        let ghost reqs = Seq::new(
            entries@.len(),
            |j: int| (key_at(entries@, j), old(self).deferred()[key_at(entries@, j)]),
        );
        let ghost mut steps: Seq<PipelineRegistry<P>> = seq![*self];
        let ghost mut layout_steps: Seq<Map<Seq<char>, ResourceStatus<crate::graphics::bg_registry::BindGroupLayoutHandle<L>>>> = seq![bgs.layouts()];
        let ghost first = *self;
        let mut i: usize = 0;
        while i < entries.len()
            invariant
                self.wf(),
                bgs.wf(),
                reqs.len() == entries@.len(),
                forall|j: int| 0 <= j < entries@.len() ==> #[trigger] reqs[j] == (key_at(entries@, j), old(self).deferred()[key_at(entries@, j)]),
                forall|a: int| 0 <= a < entries@.len() ==> old(self).deferred@.contains_key(#[trigger] key_at(entries@, a))
                    && old(self).deferred@[key_at(entries@, a)] == entries@[a].1,
                steps.len() == i + 1,
                layout_steps.len() == i + 1,
                steps[0] == first,
                layout_steps[0] == old(bgs).layouts(),
                steps[i as int] == *self,
                layout_steps[i as int] == bgs.layouts(),
                pips_requested_in_turn(steps, layout_steps, reqs.take(i as int), pip_outcomes_of(requests@), now),
                i <= entries@.len(),
                vals == entries@.map_values(|e: (PipelineId, PipelineType)| e.1),
                forall|a: int, b: int|
                    0 <= a < entries@.len() && 0 <= b < entries@.len() && a != b
                        ==> #[trigger] key_at(entries@, a) != #[trigger] key_at(entries@, b),
                forall|a: int| 0 <= a < entries@.len() ==> old(self).deferred().contains_key(#[trigger] key_at(entries@, a)),
                forall|k: Seq<char>| #[trigger] self.deferred().contains_key(k) ==> exists|a: int|
                    0 <= a < i && #[trigger] key_at(entries@, a) == k,
                forall|a: int| 0 <= a < i ==> self.deferred().contains_key(#[trigger] key_at(entries@, a))
                    || self.pipelines().contains_key(key_at(entries@, a)),
                forall|k: Seq<char>| #[trigger] mid.contains_key(k) ==> self.pipelines().contains_key(k),
                forall|k: Seq<char>| #[trigger] old(self).blueprints().contains_key(k) ==> self.blueprints().contains_key(k),
                forall|k: Seq<char>|
                    #[trigger] layout_ready(bgs.layouts(), k) ==> bgs.layouts()[k]->Ready_0.rsc.ref_count + layout_uses(
                        vals.skip(i as int),
                    ) < usize::MAX,
                requests@.len() == i,
                forall|j: int| 0 <= j < i ==> (#[trigger] requests@[j]).0.0@ == key_at(entries@, j),
                forall|j: int|
                    0 <= j < i && #[trigger] requests@[j].1 is Requested ==> self.pipelines().contains_key(key_at(entries@, j)),
                self.valid() == old(self).valid(),
                self.timeouts() == old(self).timeouts(),
                bgs.layouts().dom() == old(bgs).layouts().dom(),
                bgs.bind_groups() == old(bgs).bind_groups(),
                bgs.blueprints() == old(bgs).blueprints(),
                bgs.deferred() == old(bgs).deferred(),
                bgs.valid() == old(bgs).valid(),
                bgs.timeouts() == old(bgs).timeouts(),
            decreases entries@.len() - i,
        {
            let ghost before = *self;
            let ghost layouts_before = bgs.layouts();
            let id = entries[i].0;
            let pip_def = entries[i].1.clone();
            proof {
                assert(vals.skip(i as int).skip(1) =~= vals.skip(i + 1));
                assert(vals.skip(i as int)[0] == entries@[i as int].1);
            }
            let ghost ls = pip_def.layouts();
            let ghost def_view = pip_def@;
            let outcome = self.request(&id, pip_def, bgs, now);
            let ghost prev_requests = requests@;
            requests.push((id, outcome));
            proof {
                let k = id.0@;
                assert(key_at(entries@, i as int) == k);
                let prev_steps = steps;
                let prev_layouts = layout_steps;
                steps = steps.push(*self);
                layout_steps = layout_steps.push(bgs.layouts());
                assert(old(self).deferred@.contains_key(k));
                assert(reqs[i as int] == (k, def_view));
                assert(ls == def_view.layouts());
                assert(pip_outcomes_of(requests@) =~= pip_outcomes_of(prev_requests).push(outcome));
                assert forall|j: int| 0 <= j < reqs.take(i + 1).len() implies pip_request_outcome(
                    steps[j],
                    steps[j + 1],
                    layout_steps[j],
                    layout_steps[j + 1],
                    #[trigger] reqs.take(i + 1)[j].0,
                    reqs.take(i + 1)[j].1,
                    reqs.take(i + 1)[j].1.layouts(),
                    now,
                    pip_outcomes_of(requests@)[j],
                ) by {
                    if j < i {
                        assert(reqs.take(i as int)[j] == reqs.take(i + 1)[j]);
                        assert(prev_steps[j] == steps[j] && prev_steps[j + 1] == steps[j + 1]);
                        assert(prev_layouts[j] == layout_steps[j] && prev_layouts[j + 1] == layout_steps[j + 1]);
                        assert(pip_outcomes_of(prev_requests)[j] == pip_outcomes_of(requests@)[j]);
                    }
                }
                assert forall|kk: Seq<char>|
                    #[trigger] layout_ready(stamped(layouts_before, layout_names(ls), now), kk) implies stamped(
                        layouts_before,
                        layout_names(ls),
                        now,
                    )[kk]->Ready_0.rsc.ref_count + ls.len() < usize::MAX by {
                    assert(layout_ready(layouts_before, kk));
                }
                lemma_bump_all_bound(stamped(layouts_before, layout_names(ls), now), ls, now);
                assert(stamped(layouts_before, layout_names(ls), now).dom() =~= layouts_before.dom());
                if !before.pipelines().contains_key(k) && !layouts_ready(layouts_before, ls) {
                    let p = choose|p: int| first_missing(layouts_before, ls, p) && bgs.layouts() == stamped(
                        layouts_before,
                        layout_names(ls.take(p)),
                        now,
                    );
                    assert(bgs.layouts().dom() =~= layouts_before.dom());
                }
                assert forall|kk: Seq<char>|
                    #[trigger] layout_ready(bgs.layouts(), kk) implies bgs.layouts()[kk]->Ready_0.rsc.ref_count
                        + layout_uses(vals.skip(i + 1)) < usize::MAX by {
                    assert(layout_ready(layouts_before, kk));
                }
                assert forall|kk: Seq<char>| #[trigger] self.deferred().contains_key(kk) implies exists|a: int|
                    0 <= a < i + 1 && #[trigger] key_at(entries@, a) == kk by {
                    if kk != k {
                        assert(before.deferred().contains_key(kk));
                    }
                }
                assert forall|a: int| 0 <= a < i + 1 implies self.deferred().contains_key(#[trigger] key_at(entries@, a))
                    || self.pipelines().contains_key(key_at(entries@, a)) by {
                    if a < i {
                        assert(key_at(entries@, a) != k);
                    }
                }
            }
            i += 1;
        }
        proof {
            assert forall|k: Seq<char>| #[trigger] old(self).deferred().contains_key(k) implies self.deferred().contains_key(k)
                || self.pipelines().contains_key(k) by {
                assert(old(self).deferred@.contains_key(k));
                let a = choose|a: int| 0 <= a < entries@.len() && #[trigger] key_at(entries@, a) == k;
            }
            assert forall|k: Seq<char>| #[trigger] self.deferred().contains_key(k) implies old(self).deferred().contains_key(k) by {
                let a = choose|a: int| 0 <= a < i && #[trigger] key_at(entries@, a) == k;
            }
            assert forall|j: int| 0 <= j < requests@.len() implies old(self).deferred().contains_key(#[trigger] requests@[j].0.0@) by {
                assert(old(self).deferred().contains_key(key_at(entries@, j)));
            }
            assert(reqs.take(entries@.len() as int) =~= reqs);
            assert forall|j: int| 0 <= j < reqs.len() implies old(self).deferred().contains_key(#[trigger] reqs[j].0)
                && old(self).deferred()[reqs[j].0] == reqs[j].1 by {
                assert(old(self).deferred@.contains_key(key_at(entries@, j)));
            }
            assert forall|k: Seq<char>| #[trigger] old(self).deferred().contains_key(k) implies exists|j: int|
                0 <= j < reqs.len() && #[trigger] reqs[j].0 == k by {
                assert(old(self).deferred@.contains_key(k));
                let a = choose|a: int| 0 <= a < entries@.len() && #[trigger] key_at(entries@, a) == k;
                assert(reqs[a].0 == k);
            }
            assert forall|j: int| 0 <= j < reqs.len() implies #[trigger] requests@[j].0.0@ == reqs[j].0 by {
            }
            assert(enumerates(reqs, old(self).deferred()));
            assert(steps.last() == *self);
            assert(layout_steps.last() == bgs.layouts());
            assert(pips_requested_in_turn(steps, layout_steps, reqs, pip_outcomes_of(requests@), now));
            assert(pipelines_synced(*old(self), *self, old(bgs).layouts(), bgs.layouts(), requests@, now));
        }
        PipSync { stalled, requests }
    }
}

/// Looking up one pipeline marks it accessed if it is ready
proof fn lemma_stamp_one_pip<R>(statuses: Map<Seq<char>, ResourceStatus<R>>, k: Seq<char>, now: u64)
    ensures
        (statuses.contains_key(k) && statuses[k] is Ready) ==> stamped(statuses, set![k], now) == statuses.insert(
            k,
            ResourceStatus::Ready(crate::graphics::handler::Ready { accessed: now, ..statuses[k]->Ready_0 }),
        ),
        !(statuses.contains_key(k) && statuses[k] is Ready) ==> stamped(statuses, set![k], now) == statuses,
{
    if statuses.contains_key(k) && statuses[k] is Ready {
        assert(stamped(statuses, set![k], now) =~= statuses.insert(
            k,
            ResourceStatus::Ready(crate::graphics::handler::Ready { accessed: now, ..statuses[k]->Ready_0 }),
        ));
    } else {
        assert(stamped(statuses, set![k], now) =~= statuses);
    }
}

/// Stamping marks only ready resources accessed
proof fn lemma_stamped_restamped<R>(statuses: Map<Seq<char>, ResourceStatus<R>>, keys: Set<Seq<char>>, now: u64)
    ensures
        restamped(statuses, stamped(statuses, keys, now), now),
{
    assert(stamped(statuses, keys, now).dom() =~= statuses.dom());
}

/// `after` is `before` synced at `now`: its handler evaluated (see `ResourceHandler::sync`),
/// then each waiting pipeline requested again in turn, in the order of `requests`, which holds
/// their names and outcomes; the bind group layouts go from `layouts` to `layouts_after`
pub open spec fn pipelines_synced<P, L>(
    before: PipelineRegistry<P>,
    after: PipelineRegistry<P>,
    layouts: Map<Seq<char>, ResourceStatus<crate::graphics::bg_registry::BindGroupLayoutHandle<L>>>,
    layouts_after: Map<Seq<char>, ResourceStatus<crate::graphics::bg_registry::BindGroupLayoutHandle<L>>>,
    requests: Seq<(PipelineId, PipRequest)>,
    now: u64,
) -> bool {
    exists|
        steps: Seq<PipelineRegistry<P>>,
        layout_steps: Seq<Map<Seq<char>, ResourceStatus<crate::graphics::bg_registry::BindGroupLayoutHandle<L>>>>,
        waiting: Seq<(Seq<char>, PipelineView)>,
    |
        {
            &&& #[trigger] pips_requested_in_turn(steps, layout_steps, waiting, pip_outcomes_of(requests), now)
            &&& enumerates(waiting, before.deferred())
            &&& forall|j: int| 0 <= j < waiting.len() ==> #[trigger] requests[j].0.0@ == waiting[j].0
            &&& evaluated(before.pipelines(), steps[0].pipelines(), now, before.timeouts().0, before.timeouts().1)
            &&& steps[0].blueprints() == before.blueprints()
            &&& steps[0].deferred() == Map::<Seq<char>, PipelineView>::empty()
            &&& layout_steps[0] == layouts
            &&& steps.last() == after
            &&& layout_steps.last() == layouts_after
        }
}

/// The outcomes of a list of pipeline requests
pub open spec fn pip_outcomes_of(requests: Seq<(PipelineId, PipRequest)>) -> Seq<PipRequest> {
    requests.map_values(|r: (PipelineId, PipRequest)| r.1)
}

/// The pipelines were requested in turn, at `now`: `steps[j]` and `layouts[j]` are the registry
/// and the bind group layouts before the `j`-th request (of a pipeline and its blueprint),
/// `steps[j + 1]` and `layouts[j + 1]` after it, whose outcome is `outcomes[j]`
pub open spec fn pips_requested_in_turn<P, L>(
    steps: Seq<PipelineRegistry<P>>,
    layouts: Seq<Map<Seq<char>, ResourceStatus<crate::graphics::bg_registry::BindGroupLayoutHandle<L>>>>,
    requests: Seq<(Seq<char>, PipelineView)>,
    outcomes: Seq<PipRequest>,
    now: u64,
) -> bool {
    &&& steps.len() == requests.len() + 1
    &&& layouts.len() == requests.len() + 1
    &&& outcomes.len() == requests.len()
    &&& forall|j: int|
        0 <= j < requests.len() ==> pip_request_outcome(
            steps[j],
            steps[j + 1],
            layouts[j],
            layouts[j + 1],
            #[trigger] requests[j].0,
            requests[j].1,
            requests[j].1.layouts(),
            now,
            outcomes[j],
        )
}

/// The state after a request for the pipeline `k` with the blueprint `def`, whose layouts are
/// `ls`, made at `now`, that had `outcome`
pub open spec fn pip_request_outcome<P, L>(
    before: PipelineRegistry<P>,
    after: PipelineRegistry<P>,
    layouts: Map<Seq<char>, ResourceStatus<crate::graphics::bg_registry::BindGroupLayoutHandle<L>>>,
    layouts_after: Map<Seq<char>, ResourceStatus<crate::graphics::bg_registry::BindGroupLayoutHandle<L>>>,
    k: Seq<char>,
    def: PipelineView,
    ls: Seq<LayoutId>,
    now: u64,
    outcome: PipRequest,
) -> bool {
    if before.pipelines().contains_key(k) {
        &&& outcome is AlreadyRequested
        &&& after.pipelines() == before.pipelines()
        &&& after.blueprints() == before.blueprints()
        &&& after.deferred() == before.deferred()
        &&& layouts_after == layouts
    } else if layouts_ready(layouts, ls) {
        &&& outcome is Requested
        &&& after.pipelines() == before.pipelines().insert(k, ResourceStatus::Pending(Pending { requested_at: now, hold_time: None }))
        &&& after.blueprints() == if before.blueprints().contains_key(k) {
            before.blueprints()
        } else {
            before.blueprints().insert(k, def)
        }
        &&& after.deferred() == before.deferred().remove(k)
        &&& layouts_after == bump_all(stamped(layouts, layout_names(ls), now), ls, now)
    } else {
        &&& outcome is AwaitingLayouts
        &&& after.pipelines() == before.pipelines()
        &&& after.blueprints() == before.blueprints()
        &&& after.deferred() == before.deferred().insert(k, def)
        &&& exists|p: int|
            first_missing(layouts, ls, p) && layouts_after == stamped(layouts, layout_names(ls.take(p)), now)
    }
}

} // verus!
