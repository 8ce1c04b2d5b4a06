use vstd::prelude::*;

use crate::graphics::context::{str_eq, BindGroupId, BufferId, LayoutId, SamplerId, TextureId};
use crate::graphics::handler::{evaluated, listed, status_stalls, Ready, ResourceHandler, ResourceKey, ResourceStatus};
use crate::graphics::resources::bindgroup::{BindGroup, BindGroupView, BindingTarget, GroupEntry};
use crate::graphics::table::{key_at, Table};

verus! {

/// The name of the buffer an entry binds, if it binds a buffer
pub open spec fn buffer_name(entry: GroupEntry) -> Option<Seq<char>> {
    match entry.target {
        BindingTarget::Buffer(id) => Some(id.0@),
        _ => None,
    }
}

/// The name of the texture an entry binds, if it binds a texture
pub open spec fn texture_name(entry: GroupEntry) -> Option<Seq<char>> {
    match entry.target {
        BindingTarget::Texture(id) => Some(id.0@),
        _ => None,
    }
}

/// The name of the sampler an entry binds, if it binds a sampler
pub open spec fn sampler_name(entry: GroupEntry) -> Option<Seq<char>> {
    match entry.target {
        BindingTarget::Sampler(id) => Some(id.0@),
        _ => None,
    }
}

/// The names of the buffers that the entries bind
pub open spec fn buffer_targets(entries: Seq<GroupEntry>) -> Set<Seq<char>> {
    Set::new(|k: Seq<char>| exists|i: int| 0 <= i < entries.len() && #[trigger] buffer_name(entries[i]) == Some(k))
}

/// The names of the textures that the entries bind
pub open spec fn texture_targets(entries: Seq<GroupEntry>) -> Set<Seq<char>> {
    Set::new(|k: Seq<char>| exists|i: int| 0 <= i < entries.len() && #[trigger] texture_name(entries[i]) == Some(k))
}

/// The names of the samplers that the entries bind
pub open spec fn sampler_targets(entries: Seq<GroupEntry>) -> Set<Seq<char>> {
    Set::new(|k: Seq<char>| exists|i: int| 0 <= i < entries.len() && #[trigger] sampler_name(entries[i]) == Some(k))
}

/// The statuses after looking up the resources named in `keys` at `now`: each of them that is
/// ready is marked accessed at `now`, nothing else changes
pub open spec fn stamped<R>(statuses: Map<Seq<char>, ResourceStatus<R>>, keys: Set<Seq<char>>, now: u64) -> Map<
    Seq<char>,
    ResourceStatus<R>,
> {
    Map::new(
        |k: Seq<char>| statuses.contains_key(k),
        |k: Seq<char>|
            if keys.contains(k) && statuses[k] is Ready {
                ResourceStatus::Ready(Ready { accessed: now, ..statuses[k]->Ready_0 })
            } else {
                statuses[k]
            },
    )
}

/// Every resource named in `keys` is ready
pub open spec fn all_ready<R>(statuses: Map<Seq<char>, ResourceStatus<R>>, keys: Set<Seq<char>>) -> bool {
    forall|k: Seq<char>| #[trigger] keys.contains(k) ==> statuses.contains_key(k) && statuses[k] is Ready
}

/// The resources a binding entry names are all ready in their handlers
pub open spec fn bindings_ready<B, T, S>(
    entries: Seq<GroupEntry>,
    buffers: Map<Seq<char>, ResourceStatus<B>>,
    textures: Map<Seq<char>, ResourceStatus<T>>,
    samplers: Map<Seq<char>, ResourceStatus<S>>,
) -> bool {
    &&& all_ready(buffers, buffer_targets(entries))
    &&& all_ready(textures, texture_targets(entries))
    &&& all_ready(samplers, sampler_targets(entries))
}

proof fn lemma_targets_step(entries: Seq<GroupEntry>, i: int)
    requires
        0 <= i < entries.len(),
    ensures
        buffer_targets(entries.take(i + 1)) == (match buffer_name(entries[i]) {
            Some(k) => buffer_targets(entries.take(i)).insert(k),
            None => buffer_targets(entries.take(i)),
        }),
        texture_targets(entries.take(i + 1)) == (match texture_name(entries[i]) {
            Some(k) => texture_targets(entries.take(i)).insert(k),
            None => texture_targets(entries.take(i)),
        }),
        sampler_targets(entries.take(i + 1)) == (match sampler_name(entries[i]) {
            Some(k) => sampler_targets(entries.take(i)).insert(k),
            None => sampler_targets(entries.take(i)),
        }),
{
    let a = entries.take(i);
    let b = entries.take(i + 1);
    assert forall|j: int| 0 <= j < i implies #[trigger] b[j] == a[j] by {}
    assert(b[i] == entries[i]);
    let bt = match buffer_name(entries[i]) {
        Some(k) => buffer_targets(a).insert(k),
        None => buffer_targets(a),
    };
    assert forall|k: Seq<char>| buffer_targets(b).contains(k) <==> bt.contains(k) by {
        if buffer_targets(b).contains(k) {
            let j = choose|j: int| 0 <= j < b.len() && #[trigger] buffer_name(b[j]) == Some(k);
            if j < i {
                assert(buffer_name(a[j]) == Some(k));
            }
        }
        if buffer_targets(a).contains(k) {
            let j = choose|j: int| 0 <= j < a.len() && #[trigger] buffer_name(a[j]) == Some(k);
            assert(buffer_name(b[j]) == Some(k));
        }
    }
    assert(buffer_targets(b) =~= bt);
    let tt = match texture_name(entries[i]) {
        Some(k) => texture_targets(a).insert(k),
        None => texture_targets(a),
    };
    assert forall|k: Seq<char>| texture_targets(b).contains(k) <==> tt.contains(k) by {
        if texture_targets(b).contains(k) {
            let j = choose|j: int| 0 <= j < b.len() && #[trigger] texture_name(b[j]) == Some(k);
            if j < i {
                assert(texture_name(a[j]) == Some(k));
            }
        }
        if texture_targets(a).contains(k) {
            let j = choose|j: int| 0 <= j < a.len() && #[trigger] texture_name(a[j]) == Some(k);
            assert(texture_name(b[j]) == Some(k));
        }
    }
    assert(texture_targets(b) =~= tt);
    let st = match sampler_name(entries[i]) {
        Some(k) => sampler_targets(a).insert(k),
        None => sampler_targets(a),
    };
    assert forall|k: Seq<char>| sampler_targets(b).contains(k) <==> st.contains(k) by {
        if sampler_targets(b).contains(k) {
            let j = choose|j: int| 0 <= j < b.len() && #[trigger] sampler_name(b[j]) == Some(k);
            if j < i {
                assert(sampler_name(a[j]) == Some(k));
            }
        }
        if sampler_targets(a).contains(k) {
            let j = choose|j: int| 0 <= j < a.len() && #[trigger] sampler_name(a[j]) == Some(k);
            assert(sampler_name(b[j]) == Some(k));
        }
    }
    assert(sampler_targets(b) =~= st);
}

proof fn lemma_targets_empty(entries: Seq<GroupEntry>)
    ensures
        buffer_targets(entries.take(0)) == Set::<Seq<char>>::empty(),
        texture_targets(entries.take(0)) == Set::<Seq<char>>::empty(),
        sampler_targets(entries.take(0)) == Set::<Seq<char>>::empty(),
{
    assert(buffer_targets(entries.take(0)) =~= Set::<Seq<char>>::empty());
    assert(texture_targets(entries.take(0)) =~= Set::<Seq<char>>::empty());
    assert(sampler_targets(entries.take(0)) =~= Set::<Seq<char>>::empty());
}

proof fn lemma_all_ready_insert<R>(statuses: Map<Seq<char>, ResourceStatus<R>>, keys: Set<Seq<char>>, k: Seq<char>)
    ensures
        all_ready(statuses, keys.insert(k)) == (all_ready(statuses, keys) && statuses.contains_key(k)
            && statuses[k] is Ready),
{
    if all_ready(statuses, keys.insert(k)) {
        assert(keys.insert(k).contains(k));
        assert forall|x: Seq<char>| #[trigger] keys.contains(x) implies statuses.contains_key(x) && statuses[x] is Ready by {
            assert(keys.insert(k).contains(x));
        }
    }
}

/// Looking up one resource marks it accessed if it is ready
proof fn lemma_stamp_one<R>(statuses: Map<Seq<char>, ResourceStatus<R>>, k: Seq<char>, now: u64)
    ensures
        (statuses.contains_key(k) && statuses[k] is Ready) ==> stamped(statuses, set![k], now) == statuses.insert(
            k,
            ResourceStatus::Ready(Ready { accessed: now, ..statuses[k]->Ready_0 }),
        ),
        !(statuses.contains_key(k) && statuses[k] is Ready) ==> stamped(statuses, set![k], now) == statuses,
{
    if statuses.contains_key(k) && statuses[k] is Ready {
        assert(stamped(statuses, set![k], now) =~= statuses.insert(
            k,
            ResourceStatus::Ready(Ready { accessed: now, ..statuses[k]->Ready_0 }),
        ));
    } else {
        assert(stamped(statuses, set![k], now) =~= statuses);
    }
}

proof fn lemma_stamped_empty<R>(statuses: Map<Seq<char>, ResourceStatus<R>>, now: u64)
    ensures
        stamped(statuses, Set::empty(), now) == statuses,
{
    assert(stamped(statuses, Set::empty(), now) =~= statuses);
}

/// Marking one more ready resource accessed extends the stamped set by its name
proof fn lemma_stamped_step<R>(
    start: Map<Seq<char>, ResourceStatus<R>>,
    keys: Set<Seq<char>>,
    k: Seq<char>,
    after: Map<Seq<char>, ResourceStatus<R>>,
    now: u64,
)
    requires
        ({
            let mid = stamped(start, keys, now);
            &&& (mid.contains_key(k) && mid[k] is Ready) ==> after == mid.insert(
                k,
                ResourceStatus::Ready(Ready { accessed: now, ..mid[k]->Ready_0 }),
            )
            &&& !(mid.contains_key(k) && mid[k] is Ready) ==> after == mid
        }),
    ensures
        after == stamped(start, keys.insert(k), now),
{
    assert(after =~= stamped(start, keys.insert(k), now));
}

/// Look up, at `now`, every resource the entries bind, marking the ready ones accessed; returns
/// whether they are all ready
fn touch_bindings<B, T, S>(
    entries: &Vec<GroupEntry>,
    buffers: &mut ResourceHandler<BufferId, B>,
    textures: &mut ResourceHandler<TextureId, T>,
    samplers: &mut ResourceHandler<SamplerId, S>,
    now: u64,
) -> (ready: bool)
    requires
        old(buffers).wf(),
        old(textures).wf(),
        old(samplers).wf(),
    ensures
        final(buffers).wf(),
        final(textures).wf(),
        final(samplers).wf(),
        final(buffers).statuses() == stamped(old(buffers).statuses(), buffer_targets(entries@), now),
        final(textures).statuses() == stamped(old(textures).statuses(), texture_targets(entries@), now),
        final(samplers).statuses() == stamped(old(samplers).statuses(), sampler_targets(entries@), now),
        final(buffers).thread_timeout() == old(buffers).thread_timeout(),
        final(buffers).failed_timeout() == old(buffers).failed_timeout(),
        final(textures).thread_timeout() == old(textures).thread_timeout(),
        final(textures).failed_timeout() == old(textures).failed_timeout(),
        final(samplers).thread_timeout() == old(samplers).thread_timeout(),
        final(samplers).failed_timeout() == old(samplers).failed_timeout(),
        ready == bindings_ready(entries@, old(buffers).statuses(), old(textures).statuses(), old(samplers).statuses()),
{
    let ghost b0 = buffers.statuses();
    let ghost t0 = textures.statuses();
    let ghost s0 = samplers.statuses();
    let mut ready = true;
    proof {
        lemma_targets_empty(entries@);
        lemma_stamped_empty(b0, now);
        lemma_stamped_empty(t0, now);
        lemma_stamped_empty(s0, now);
    }
    let mut i: usize = 0;
    while i < entries.len()
        invariant
            i <= entries@.len(),
            buffers.wf(),
            textures.wf(),
            samplers.wf(),
            buffers.statuses() == stamped(b0, buffer_targets(entries@.take(i as int)), now),
            textures.statuses() == stamped(t0, texture_targets(entries@.take(i as int)), now),
            samplers.statuses() == stamped(s0, sampler_targets(entries@.take(i as int)), now),
            buffers.thread_timeout() == old(buffers).thread_timeout(),
            buffers.failed_timeout() == old(buffers).failed_timeout(),
            textures.thread_timeout() == old(textures).thread_timeout(),
            textures.failed_timeout() == old(textures).failed_timeout(),
            samplers.thread_timeout() == old(samplers).thread_timeout(),
            samplers.failed_timeout() == old(samplers).failed_timeout(),
            b0 == old(buffers).statuses(),
            t0 == old(textures).statuses(),
            s0 == old(samplers).statuses(),
            ready == bindings_ready(entries@.take(i as int), b0, t0, s0),
        decreases entries@.len() - i,
    {
        proof {
            lemma_targets_step(entries@, i as int);
        }
        let ghost prev_ready = ready;
        match &entries[i].target {
            BindingTarget::Buffer(id) => {
                let found = buffers.is_ready(id);
                buffers.mark_accessed(id, now);
                ready = ready && found;
                proof {
                    lemma_stamped_step(b0, buffer_targets(entries@.take(i as int)), id.0@, buffers.statuses(), now);
                    lemma_all_ready_insert(b0, buffer_targets(entries@.take(i as int)), id.0@);
                }
            },
            BindingTarget::Texture(id) => {
                let found = textures.is_ready(id);
                textures.mark_accessed(id, now);
                ready = ready && found;
                proof {
                    lemma_stamped_step(t0, texture_targets(entries@.take(i as int)), id.0@, textures.statuses(), now);
                    lemma_all_ready_insert(t0, texture_targets(entries@.take(i as int)), id.0@);
                }
            },
            BindingTarget::Sampler(id) => {
                let found = samplers.is_ready(id);
                samplers.mark_accessed(id, now);
                ready = ready && found;
                proof {
                    lemma_stamped_step(s0, sampler_targets(entries@.take(i as int)), id.0@, samplers.statuses(), now);
                    lemma_all_ready_insert(s0, sampler_targets(entries@.take(i as int)), id.0@);
                }
            },
        }
        i += 1;
    }
    assert(entries@.take(entries@.len() as int) =~= entries@);
    ready
}

/// Every resource the entries bind is known to its handler, in whatever state
pub open spec fn targets_present<B, T, S>(
    entries: Seq<GroupEntry>,
    buffers: Map<Seq<char>, ResourceStatus<B>>,
    textures: Map<Seq<char>, ResourceStatus<T>>,
    samplers: Map<Seq<char>, ResourceStatus<S>>,
) -> bool {
    &&& buffer_targets(entries).subset_of(buffers.dom())
    &&& texture_targets(entries).subset_of(textures.dom())
    &&& sampler_targets(entries).subset_of(samplers.dom())
}

/// What validating bind group `k` at `now` did: a group already valid, or one whose blueprint
/// binds only resources known to their handlers, passes; it becomes valid and, if created, is
/// handed out and marked accessed. Any other group is left as it was and nothing is handed out.
pub open spec fn validation_outcome<G, L, B, T, S>(
    before: BindGroupRegistry<G, L>,
    after: BindGroupRegistry<G, L>,
    k: Seq<char>,
    buffers: Map<Seq<char>, ResourceStatus<B>>,
    textures: Map<Seq<char>, ResourceStatus<T>>,
    samplers: Map<Seq<char>, ResourceStatus<S>>,
    now: u64,
    handle: Option<&BindGroupHandle<G>>,
) -> bool {
    let passes = before.valid().contains(k) || (before.blueprints().contains_key(k) && targets_present(
        before.blueprints()[k].bindings,
        buffers,
        textures,
        samplers,
    ));
    let created = before.bind_groups().contains_key(k) && before.bind_groups()[k] is Ready;
    &&& passes ==> after.valid() == before.valid().insert(k)
    &&& passes ==> after.bind_groups() == stamped(before.bind_groups(), set![k], now)
    &&& (passes && created) ==> handle == Some(&before.bind_groups()[k]->Ready_0.rsc)
    &&& !(passes && created) ==> handle is None
    &&& !passes ==> after.valid() == before.valid()
    &&& !passes ==> after.bind_groups() == before.bind_groups()
}

/// A bind group that validation newly finds valid has a blueprint, and every buffer, texture
/// and sampler the blueprint binds is known to its handler: a group that binds a missing
/// resource never passes.
pub proof fn law_validation_needs_bound_resources<G, L, B, T, S>(
    before: BindGroupRegistry<G, L>,
    after: BindGroupRegistry<G, L>,
    k: Seq<char>,
    buffers: Map<Seq<char>, ResourceStatus<B>>,
    textures: Map<Seq<char>, ResourceStatus<T>>,
    samplers: Map<Seq<char>, ResourceStatus<S>>,
    now: u64,
    handle: Option<&BindGroupHandle<G>>,
)
    requires
        validation_outcome(before, after, k, buffers, textures, samplers, now, handle),
        !before.valid().contains(k),
        after.valid().contains(k) || handle is Some,
    ensures
        before.blueprints().contains_key(k),
        forall|i: int|
            0 <= i < before.blueprints()[k].bindings.len() ==> match (#[trigger] before.blueprints()[k].bindings[i]).target {
                BindingTarget::Buffer(id) => buffers.contains_key(id.0@),
                BindingTarget::Texture(id) => textures.contains_key(id.0@),
                BindingTarget::Sampler(id) => samplers.contains_key(id.0@),
            },
{
    let entries = before.blueprints()[k].bindings;
    assert forall|i: int| 0 <= i < entries.len() implies match (#[trigger] entries[i]).target {
        BindingTarget::Buffer(id) => buffers.contains_key(id.0@),
        BindingTarget::Texture(id) => textures.contains_key(id.0@),
        BindingTarget::Sampler(id) => samplers.contains_key(id.0@),
    } by {
        match entries[i].target {
            BindingTarget::Buffer(id) => {
                assert(buffer_name(entries[i]) == Some(id.0@));
                assert(buffer_targets(entries).contains(id.0@));
            },
            BindingTarget::Texture(id) => {
                assert(texture_name(entries[i]) == Some(id.0@));
                assert(texture_targets(entries).contains(id.0@));
            },
            BindingTarget::Sampler(id) => {
                assert(sampler_name(entries[i]) == Some(id.0@));
                assert(sampler_targets(entries).contains(id.0@));
            },
        }
    }
}

/// Whether every resource the entries bind is known to its handler
fn check_targets_present<B, T, S>(
    entries: &Vec<GroupEntry>,
    buffers: &ResourceHandler<BufferId, B>,
    textures: &ResourceHandler<TextureId, T>,
    samplers: &ResourceHandler<SamplerId, S>,
) -> (present: bool)
    requires
        buffers.wf(),
        textures.wf(),
        samplers.wf(),
    ensures
        present == targets_present(entries@, buffers.statuses(), textures.statuses(), samplers.statuses()),
{
    proof {
        lemma_targets_empty(entries@);
    }
    let mut i: usize = 0;
    while i < entries.len()
        invariant
            i <= entries@.len(),
            buffers.wf(),
            textures.wf(),
            samplers.wf(),
            targets_present(entries@.take(i as int), buffers.statuses(), textures.statuses(), samplers.statuses()),
        decreases entries@.len() - i,
    {
        proof {
            lemma_targets_step(entries@, i as int);
        }
        let found = match &entries[i].target {
            BindingTarget::Buffer(id) => buffers.contains(id),
            BindingTarget::Texture(id) => textures.contains(id),
            BindingTarget::Sampler(id) => samplers.contains(id),
        };
        if !found {
            proof {
                let k = entries@[i as int];
                let whole = entries@;
                match k.target {
                    BindingTarget::Buffer(id) => {
                        assert(buffer_name(whole[i as int]) == Some(id.0@));
                        assert(buffer_targets(whole).contains(id.0@));
                    },
                    BindingTarget::Texture(id) => {
                        assert(texture_name(whole[i as int]) == Some(id.0@));
                        assert(texture_targets(whole).contains(id.0@));
                    },
                    BindingTarget::Sampler(id) => {
                        assert(sampler_name(whole[i as int]) == Some(id.0@));
                        assert(sampler_targets(whole).contains(id.0@));
                    },
                }
            }
            return false;
        }
        i += 1;
    }
    assert(entries@.take(entries@.len() as int) =~= entries@);
    true
}

/// Whether an entry binds the target, compared by kind and name
pub open spec fn binds_target(entry: GroupEntry, target: BindingTarget) -> bool {
    match (entry.target, target) {
        (BindingTarget::Buffer(a), BindingTarget::Buffer(b)) => a.0@ == b.0@,
        (BindingTarget::Texture(a), BindingTarget::Texture(b)) => a.0@ == b.0@,
        (BindingTarget::Sampler(a), BindingTarget::Sampler(b)) => a.0@ == b.0@,
        _ => false,
    }
}

/// Whether one of the entries binds the target
pub open spec fn uses_target(entries: Seq<GroupEntry>, target: BindingTarget) -> bool {
    exists|i: int| 0 <= i < entries.len() && #[trigger] binds_target(entries[i], target)
}

/// Whether one of the entries binds the target
fn find_target(entries: &Vec<GroupEntry>, target: &BindingTarget) -> (found: bool)
    ensures
        found == uses_target(entries@, *target),
{
    let mut i: usize = 0;
    while i < entries.len()
        invariant
            i <= entries@.len(),
            forall|j: int| 0 <= j < i ==> !#[trigger] binds_target(entries@[j], *target),
        decreases entries@.len() - i,
    {
        let same = match (&entries[i].target, target) {
            (BindingTarget::Buffer(a), BindingTarget::Buffer(b)) => str_eq(a.0, b.0),
            (BindingTarget::Texture(a), BindingTarget::Texture(b)) => str_eq(a.0, b.0),
            (BindingTarget::Sampler(a), BindingTarget::Sampler(b)) => str_eq(a.0, b.0),
            _ => false,
        };
        if same {
            assert(binds_target(entries@[i as int], *target));
            return true;
        }
        i += 1;
    }
    false
}

/// `after` is `before` with some ready resources marked accessed at `now`
pub open spec fn restamped<R>(
    before: Map<Seq<char>, ResourceStatus<R>>,
    after: Map<Seq<char>, ResourceStatus<R>>,
    now: u64,
) -> bool {
    &&& after.dom() == before.dom()
    &&& forall|k: Seq<char>|
        #[trigger] after.contains_key(k) ==> after[k] == before[k] || (before[k] is Ready && after[k]
            == ResourceStatus::Ready(Ready { accessed: now, ..before[k]->Ready_0 }))
}

proof fn lemma_restamped_step<R>(
    a: Map<Seq<char>, ResourceStatus<R>>,
    b: Map<Seq<char>, ResourceStatus<R>>,
    keys: Set<Seq<char>>,
    now: u64,
)
    requires
        restamped(a, b, now),
    ensures
        restamped(a, stamped(b, keys, now), now),
{
    let c = stamped(b, keys, now);
    assert(c.dom() =~= a.dom());
    assert forall|k: Seq<char>| #[trigger] c.contains_key(k) implies c[k] == a[k] || (a[k] is Ready && c[k]
        == ResourceStatus::Ready(Ready { accessed: now, ..a[k]->Ready_0 })) by {
        if keys.contains(k) && b[k] is Ready {
            if b[k] == a[k] {
            } else {
                assert(b[k] == ResourceStatus::Ready(Ready { accessed: now, ..a[k]->Ready_0 }));
            }
        }
    }
}

/// What a sync of the registry reports
pub struct RegistrySync {
    /// Layout workers that stalled, which the caller must abort
    pub stalled_layouts: Vec<LayoutId>,
    /// Bind group workers that stalled, which the caller must abort
    pub stalled_bind_groups: Vec<BindGroupId>,
    /// Each waiting bind group that was requested again, with what became of it
    pub requests: Vec<(BindGroupId, BgRequest)>,
}

/// A handle to a bind group and the layout it was made with
pub struct BindGroupHandle<G> {
    pub bind_group: G,
    pub layout_id: LayoutId,
}

/// A handle to a bind group layout and the number of bind groups and pipelines using it
pub struct BindGroupLayoutHandle<L> {
    pub ref_count: usize,
    pub layout: L,
}

/// What became of a request for a bind group
#[derive(Clone, Copy, Debug, PartialEq, Eq, Structural)]
pub enum BgRequest {
    /// The bind group was already requested; nothing was done
    AlreadyRequested,
    /// The layout is not ready: the request waits for it; the caller must start a worker for
    /// the layout when the flag is set
    AwaitingLayout { start_layout_worker: bool },
    /// Some resource the bind group binds is not ready: the request waits for it
    AwaitingResources,
    /// Everything is ready: the bind group is pending and the caller must start its worker
    Requested,
}

/// The layout handle with one more user, looked up at `now`
pub open spec fn bumped<L>(st: ResourceStatus<BindGroupLayoutHandle<L>>, now: u64) -> ResourceStatus<
    BindGroupLayoutHandle<L>,
> {
    ResourceStatus::Ready(
        Ready {
            rsc: BindGroupLayoutHandle {
                ref_count: (st->Ready_0.rsc.ref_count + 1) as usize,
                layout: st->Ready_0.rsc.layout,
            },
            hold_time: st->Ready_0.hold_time,
            accessed: now,
        },
    )
}

/// Keeps track of and validates requests for bind groups.
///
/// The registry decides; the caller runs the workers that create layouts and bind groups, and
/// reports their results through `complete_layout` and `complete_bind_group`.
pub struct BindGroupRegistry<G, L> {
    /// The handles to bind groups
    bg_handles: ResourceHandler<BindGroupId, BindGroupHandle<G>>,
    /// The handles to bind group layouts
    layout_handles: ResourceHandler<LayoutId, BindGroupLayoutHandle<L>>,
    /// maps bind groups to their blueprints
    blueprints: Table<BindGroupId, BindGroup>,
    /// the bind groups that have yet to pass request validation, with their layout
    deferred: Table<BindGroupId, (LayoutId, BindGroup)>,
    /// the bind groups that are known to be valid
    valid_bgs: Table<BindGroupId, ()>,
}

impl<G, L> BindGroupRegistry<G, L> {
    /// The status of each bind group
    pub closed spec fn bind_groups(&self) -> Map<Seq<char>, ResourceStatus<BindGroupHandle<G>>> {
        self.bg_handles.statuses()
    }

    /// The status of each bind group layout
    pub closed spec fn layouts(&self) -> Map<Seq<char>, ResourceStatus<BindGroupLayoutHandle<L>>> {
        self.layout_handles.statuses()
    }

    /// The blueprint of each bind group that got past its layout
    pub closed spec fn blueprints(&self) -> Map<Seq<char>, BindGroupView> {
        self.blueprints@.map_values(|b: BindGroup| b@)
    }

    /// The bind groups waiting for their layout or resources, with the layout's name
    pub closed spec fn deferred(&self) -> Map<Seq<char>, (Seq<char>, BindGroupView)> {
        self.deferred@.map_values(|e: (LayoutId, BindGroup)| (e.0.0@, e.1@))
    }

    /// The bind groups known to be valid
    pub closed spec fn valid(&self) -> Set<Seq<char>> {
        self.valid_bgs@.dom()
    }

    /// The timeouts of the two handlers
    pub closed spec fn timeouts(&self) -> (u64, u64, u64, u64) {
        (
            self.bg_handles.thread_timeout(),
            self.bg_handles.failed_timeout(),
            self.layout_handles.thread_timeout(),
            self.layout_handles.failed_timeout(),
        )
    }

    /// The internal tables are consistent, and every ready layout has a user
    pub closed spec fn wf(&self) -> bool {
        &&& self.bg_handles.wf()
        &&& self.layout_handles.wf()
        &&& self.blueprints.wf()
        &&& self.deferred.wf()
        &&& self.valid_bgs.wf()
        &&& forall|k: Seq<char>|
            #[trigger] self.layout_handles.statuses().contains_key(k) && self.layout_handles.statuses()[k] is Ready
                ==> self.layout_handles.statuses()[k]->Ready_0.rsc.ref_count >= 1
    }

    pub fn new() -> (registry: Self)
        ensures
            registry.wf(),
            registry.bind_groups() == Map::<Seq<char>, ResourceStatus<BindGroupHandle<G>>>::empty(),
            registry.layouts() == Map::<Seq<char>, ResourceStatus<BindGroupLayoutHandle<L>>>::empty(),
            registry.blueprints() == Map::<Seq<char>, BindGroupView>::empty(),
            registry.deferred() == Map::<Seq<char>, (Seq<char>, BindGroupView)>::empty(),
            registry.valid() == Set::<Seq<char>>::empty(),
            registry.timeouts() == (5u64, 3u64, 5u64, 3u64),
    {
        let registry = Self {
            bg_handles: ResourceHandler::new(),
            layout_handles: ResourceHandler::new(),
            blueprints: Table::new(),
            deferred: Table::new(),
            valid_bgs: Table::new(),
        };
        assert(registry.blueprints() =~= Map::<Seq<char>, BindGroupView>::empty());
        assert(registry.deferred() =~= Map::<Seq<char>, (Seq<char>, BindGroupView)>::empty());
        assert(registry.valid() =~= Set::<Seq<char>>::empty());
        registry
    }

    /// Request a new bind group layout: returns whether the caller must start a worker for it.
    /// Nothing is done if the layout was already requested.
    pub fn request_layout(&mut self, id: &LayoutId, now: u64) -> (start_worker: bool)
        requires
            old(self).wf(),
        ensures
            final(self).wf(),
            start_worker == !old(self).layouts().contains_key(id.0@),
            start_worker ==> final(self).layouts() == old(self).layouts().insert(
                id.0@,
                ResourceStatus::Pending(crate::graphics::handler::Pending { requested_at: now, hold_time: None }),
            ),
            !start_worker ==> final(self).layouts() == old(self).layouts(),
            final(self).bind_groups() == old(self).bind_groups(),
            final(self).blueprints() == old(self).blueprints(),
            final(self).deferred() == old(self).deferred(),
            final(self).valid() == old(self).valid(),
            final(self).timeouts() == old(self).timeouts(),
    {
        if self.layout_handles.contains(id) {
            return false;
        }
        self.layout_handles.request_new(id, None, now)
    }

    /// Increment the reference count of a bind group layout, if it is ready, looking it up at
    /// `now`.
    pub fn check_inc_bgl(&mut self, id: &LayoutId, now: u64)
        requires
            old(self).wf(),
            old(self).layouts().contains_key(id.0@) && old(self).layouts()[id.0@] is Ready
                ==> old(self).layouts()[id.0@]->Ready_0.rsc.ref_count < usize::MAX,
        ensures
            final(self).wf(),
            old(self).layouts().contains_key(id.0@) && old(self).layouts()[id.0@] is Ready
                ==> final(self).layouts() == old(self).layouts().insert(id.0@, bumped(old(self).layouts()[id.0@], now)),
            !(old(self).layouts().contains_key(id.0@) && old(self).layouts()[id.0@] is Ready)
                ==> final(self).layouts() == old(self).layouts(),
            final(self).bind_groups() == old(self).bind_groups(),
            final(self).blueprints() == old(self).blueprints(),
            final(self).deferred() == old(self).deferred(),
            final(self).valid() == old(self).valid(),
            final(self).timeouts() == old(self).timeouts(),
    {
        if self.layout_handles.is_ready(id) {
            let hold_time = match self.layout_handles.status_of(id) {
                Some(ResourceStatus::Ready(r)) => r.hold_time,
                _ => None,
            };
            let taken = self.layout_handles.remove(id);
            if let Some(handle) = taken {
                let bumped_handle = BindGroupLayoutHandle { ref_count: handle.ref_count + 1, layout: handle.layout };
                self.layout_handles.store(id, hold_time, bumped_handle, now);
            }
            assert(self.layout_handles.statuses() =~= old(self).layouts().insert(id.0@, bumped(old(self).layouts()[id.0@], now)));
        }
    }

    /// Request a new bind group, looking up at `now` the layout and the resources it binds.
    ///
    /// A bind group already requested is left alone. While its layout is not ready, the
    /// request waits (and the layout is requested); while a resource it binds is not ready, it
    /// waits too. Once everything is ready the bind group is pending, the layout has one more
    /// user, and the caller must start the worker that creates it.
    pub fn request_bg<B, T, S>(
        &mut self,
        bg_id: &BindGroupId,
        layout_id: &LayoutId,
        bg_def: &BindGroup,
        buffers: &mut ResourceHandler<BufferId, B>,
        textures: &mut ResourceHandler<TextureId, T>,
        samplers: &mut ResourceHandler<SamplerId, S>,
        now: u64,
    ) -> (outcome: BgRequest)
        requires
            old(self).wf(),
            old(buffers).wf(),
            old(textures).wf(),
            old(samplers).wf(),
            old(self).layouts().contains_key(layout_id.0@) && old(self).layouts()[layout_id.0@] is Ready
                ==> old(self).layouts()[layout_id.0@]->Ready_0.rsc.ref_count < usize::MAX,
        ensures
            final(self).wf(),
            final(buffers).wf(),
            final(textures).wf(),
            final(samplers).wf(),
            final(self).valid() == old(self).valid(),
            final(self).timeouts() == old(self).timeouts(),
            request_outcome(
                *old(self),
                *final(self),
                bg_id.0@,
                layout_id.0@,
                bg_def@,
                now,
                outcome,
            ),
            resources_looked_up(
                *old(self),
                bg_id.0@,
                layout_id.0@,
                bg_def@.bindings,
                old(buffers).statuses(),
                final(buffers).statuses(),
                old(textures).statuses(),
                final(textures).statuses(),
                old(samplers).statuses(),
                final(samplers).statuses(),
                now,
            ),
            outcome is Requested <==> (!old(self).bind_groups().contains_key(bg_id.0@)
                && old(self).layouts().contains_key(layout_id.0@) && old(self).layouts()[layout_id.0@] is Ready
                && bindings_ready(bg_def@.bindings, old(buffers).statuses(), old(textures).statuses(), old(samplers).statuses())),
            final(buffers).thread_timeout() == old(buffers).thread_timeout(),
            final(buffers).failed_timeout() == old(buffers).failed_timeout(),
            final(textures).thread_timeout() == old(textures).thread_timeout(),
            final(textures).failed_timeout() == old(textures).failed_timeout(),
            final(samplers).thread_timeout() == old(samplers).thread_timeout(),
            final(samplers).failed_timeout() == old(samplers).failed_timeout(),
    {
        if self.bg_handles.contains(bg_id) {
            return BgRequest::AlreadyRequested;
        }
        if !self.layout_handles.is_ready(layout_id) {
            self.deferred.insert(*bg_id, (*layout_id, bg_def.clone()));
            let start_layout_worker = self.request_layout(layout_id, now);
            assert(self.deferred() =~= old(self).deferred().insert(bg_id.0@, (layout_id.0@, bg_def@)));
            return BgRequest::AwaitingLayout { start_layout_worker };
        }
        self.layout_handles.mark_accessed(layout_id, now);
        assert(self.layouts() =~= stamped(old(self).layouts(), set![layout_id.0@], now));
        let ghost mid_layouts = self.layouts();
        if !self.blueprints.contains(bg_id) {
            self.blueprints.insert(*bg_id, bg_def.clone());
            assert(self.blueprints() =~= old(self).blueprints().insert(bg_id.0@, bg_def@));
        }
        let ready = touch_bindings(&bg_def.bindings, buffers, textures, samplers, now);
        if !ready {
            self.deferred.insert(*bg_id, (*layout_id, bg_def.clone()));
            assert(self.deferred() =~= old(self).deferred().insert(bg_id.0@, (layout_id.0@, bg_def@)));
            return BgRequest::AwaitingResources;
        }
        self.deferred.remove(bg_id);
        assert(self.deferred() =~= old(self).deferred().remove(bg_id.0@));
        self.check_inc_bgl(layout_id, now);
        assert(bumped(mid_layouts[layout_id.0@], now) == bumped(old(self).layouts()[layout_id.0@], now));
        assert(self.layouts() =~= old(self).layouts().insert(
            layout_id.0@,
            bumped(old(self).layouts()[layout_id.0@], now),
        ));
        self.bg_handles.request_new(bg_id, None, now);
        BgRequest::Requested
    }

    /// Record the result of a finished layout worker at `now`: a created layout is ready with one
    /// user; a failure is kept with its message.
    pub fn complete_layout(&mut self, id: LayoutId, result: Result<L, String>, now: u64)
        requires
            old(self).wf(),
        ensures
            final(self).wf(),
            final(self).layouts() == old(self).layouts().insert(
                id.0@,
                match result {
                    Ok(layout) => ResourceStatus::Ready(
                        Ready { rsc: BindGroupLayoutHandle { ref_count: 1, layout }, hold_time: None, accessed: now },
                    ),
                    Err(msg) => ResourceStatus::Failed(crate::graphics::handler::Failed { err_msg: msg, failed_at: now }),
                },
            ),
            final(self).bind_groups() == old(self).bind_groups(),
            final(self).blueprints() == old(self).blueprints(),
            final(self).deferred() == old(self).deferred(),
            final(self).valid() == old(self).valid(),
            final(self).timeouts() == old(self).timeouts(),
    {
        match result {
            Ok(layout) => self.layout_handles.store(&id, None, BindGroupLayoutHandle { ref_count: 1, layout }, now),
            Err(msg) => self.layout_handles.complete(id, Err(msg), now),
        }
    }

    /// Record the result of a finished bind group worker at `now`: a created bind group is ready,
    /// remembering its layout; a failure is kept with its message.
    pub fn complete_bind_group(&mut self, id: BindGroupId, layout_id: LayoutId, result: Result<G, String>, now: u64)
        requires
            old(self).wf(),
        ensures
            final(self).wf(),
            final(self).bind_groups() == old(self).bind_groups().insert(
                id.0@,
                match result {
                    Ok(bind_group) => ResourceStatus::Ready(
                        Ready { rsc: BindGroupHandle { bind_group, layout_id }, hold_time: None, accessed: now },
                    ),
                    Err(msg) => ResourceStatus::Failed(crate::graphics::handler::Failed { err_msg: msg, failed_at: now }),
                },
            ),
            final(self).layouts() == old(self).layouts(),
            final(self).blueprints() == old(self).blueprints(),
            final(self).deferred() == old(self).deferred(),
            final(self).valid() == old(self).valid(),
            final(self).timeouts() == old(self).timeouts(),
    {
        match result {
            Ok(bind_group) => self.bg_handles.store(&id, None, BindGroupHandle { bind_group, layout_id }, now),
            Err(msg) => self.bg_handles.complete(id, Err(msg), now),
        }
    }

    /// remove a bind group from the registry
    pub fn remove(&mut self, bg_id: &BindGroupId)
        requires
            old(self).wf(),
        ensures
            final(self).wf(),
            final(self).bind_groups() == old(self).bind_groups().remove(bg_id.0@),
            final(self).blueprints() == old(self).blueprints().remove(bg_id.0@),
            final(self).deferred() == old(self).deferred().remove(bg_id.0@),
            final(self).valid() == old(self).valid().remove(bg_id.0@),
            final(self).layouts() == old(self).layouts(),
            final(self).timeouts() == old(self).timeouts(),
    {
        self.bg_handles.remove(bg_id);
        self.blueprints.remove(bg_id);
        self.deferred.remove(bg_id);
        self.valid_bgs.remove(bg_id);
        assert(self.blueprints() =~= old(self).blueprints().remove(bg_id.0@));
        assert(self.deferred() =~= old(self).deferred().remove(bg_id.0@));
        assert(self.valid() =~= old(self).valid().remove(bg_id.0@));
    }

    /// Invalidate a bind group. This prevents it from being used in subsequent gpu commands
    pub fn invalidate(&mut self, bg_id: &BindGroupId)
        requires
            old(self).wf(),
        ensures
            final(self).wf(),
            final(self).valid() == old(self).valid().remove(bg_id.0@),
            final(self).bind_groups() == old(self).bind_groups(),
            final(self).layouts() == old(self).layouts(),
            final(self).blueprints() == old(self).blueprints(),
            final(self).deferred() == old(self).deferred(),
            final(self).timeouts() == old(self).timeouts(),
    {
        self.valid_bgs.remove(bg_id);
        assert(self.valid() =~= old(self).valid().remove(bg_id.0@));
    }

    /// Decrement the reference count of a bind group layout, if it is ready, looking it up at
    /// `now`. When the count reaches 0, the layout is removed from the registry.
    pub fn check_dec_bgl(&mut self, id: &LayoutId, now: u64)
        requires
            old(self).wf(),
        ensures
            final(self).wf(),
            old(self).layouts().contains_key(id.0@) && old(self).layouts()[id.0@] is Ready ==> {
                let st = old(self).layouts()[id.0@]->Ready_0;
                if st.rsc.ref_count == 1 {
                    final(self).layouts() == old(self).layouts().remove(id.0@)
                } else {
                    final(self).layouts() == old(self).layouts().insert(
                        id.0@,
                        ResourceStatus::Ready(
                            Ready {
                                rsc: BindGroupLayoutHandle { ref_count: (st.rsc.ref_count - 1) as usize, layout: st.rsc.layout },
                                hold_time: st.hold_time,
                                accessed: now,
                            },
                        ),
                    )
                }
            },
            !(old(self).layouts().contains_key(id.0@) && old(self).layouts()[id.0@] is Ready)
                ==> final(self).layouts() == old(self).layouts(),
            final(self).bind_groups() == old(self).bind_groups(),
            final(self).blueprints() == old(self).blueprints(),
            final(self).deferred() == old(self).deferred(),
            final(self).valid() == old(self).valid(),
            final(self).timeouts() == old(self).timeouts(),
    {
        if self.layout_handles.is_ready(id) {
            let hold_time = match self.layout_handles.status_of(id) {
                Some(ResourceStatus::Ready(r)) => r.hold_time,
                _ => None,
            };
            let taken = self.layout_handles.remove(id);
            if let Some(handle) = taken {
                let count = handle.ref_count - 1;
                if count > 0 {
                    self.layout_handles.store(id, hold_time, BindGroupLayoutHandle { ref_count: count, layout: handle.layout }, now);
                }
            }
        }
    }

    /// Remove a bind group, releasing its use of its layout if it was created
    pub fn remove_bind_group(&mut self, bg_id: &BindGroupId, now: u64)
        requires
            old(self).wf(),
        ensures
            final(self).wf(),
            final(self).bind_groups() == old(self).bind_groups().remove(bg_id.0@),
            final(self).blueprints() == old(self).blueprints().remove(bg_id.0@),
            final(self).deferred() == old(self).deferred().remove(bg_id.0@),
            final(self).valid() == old(self).valid().remove(bg_id.0@),
            final(self).timeouts() == old(self).timeouts(),
            old(self).bind_groups().contains_key(bg_id.0@) && old(self).bind_groups()[bg_id.0@] is Ready ==> {
                let l = old(self).bind_groups()[bg_id.0@]->Ready_0.rsc.layout_id.0@;
                released(old(self).layouts(), final(self).layouts(), l, now)
            },
            !(old(self).bind_groups().contains_key(bg_id.0@) && old(self).bind_groups()[bg_id.0@] is Ready)
                ==> final(self).layouts() == old(self).layouts(),
    {
        let layout_id = match self.bg_handles.status_of(bg_id) {
            Some(ResourceStatus::Ready(r)) => Some(r.rsc.layout_id),
            _ => None,
        };
        if let Some(layout_id) = layout_id {
            self.check_dec_bgl(&layout_id, now);
        }
        self.remove(bg_id);
    }

    /// Validates a bind group, looking it up at `now`: one known to be valid, or whose blueprint
    /// binds only resources known to their handlers, is (now) known valid, and its handle is
    /// returned if it was created. Returns None otherwise.
    pub fn validate<B, T, S>(
        &mut self,
        bg_id: &BindGroupId,
        buffers: &ResourceHandler<BufferId, B>,
        textures: &ResourceHandler<TextureId, T>,
        samplers: &ResourceHandler<SamplerId, S>,
        now: u64,
    ) -> (handle: Option<&BindGroupHandle<G>>)
        requires
            old(self).wf(),
            buffers.wf(),
            textures.wf(),
            samplers.wf(),
        ensures
            final(self).wf(),
            validation_outcome(
                *old(self),
                *final(self),
                bg_id.0@,
                buffers.statuses(),
                textures.statuses(),
                samplers.statuses(),
                now,
                handle,
            ),
            final(self).layouts() == old(self).layouts(),
            final(self).blueprints() == old(self).blueprints(),
            final(self).deferred() == old(self).deferred(),
            final(self).timeouts() == old(self).timeouts(),
    {
        if self.valid_bgs.contains(bg_id) {
            assert(self.valid() =~= old(self).valid().insert(bg_id.0@));
            return self.get_bg(bg_id, now);
        }
        let present = match self.blueprints.get(bg_id) {
            Some(blueprint) => check_targets_present(&blueprint.bindings, buffers, textures, samplers),
            None => false,
        };
        if !present {
            return None;
        }
        self.valid_bgs.insert(*bg_id, ());
        assert(self.valid() =~= old(self).valid().insert(bg_id.0@));
        self.get_bg(bg_id, now)
    }

    /// Invalidate every bind group whose blueprint binds the target: used when the target
    /// resource is removed
    pub fn invalidate_users_of(&mut self, target: &BindingTarget)
        requires
            old(self).wf(),
        ensures
            final(self).wf(),
            final(self).valid() == old(self).valid().difference(
                Set::new(|k: Seq<char>| old(self).blueprints().contains_key(k) && uses_target(old(self).blueprints()[k].bindings, *target)),
            ),
            final(self).bind_groups() == old(self).bind_groups(),
            final(self).layouts() == old(self).layouts(),
            final(self).blueprints() == old(self).blueprints(),
            final(self).deferred() == old(self).deferred(),
            final(self).timeouts() == old(self).timeouts(),
    {
        let keys = self.blueprints.keys();
        let ghost users = Set::new(|k: Seq<char>| old(self).blueprints().contains_key(k) && uses_target(old(self).blueprints()[k].bindings, *target));
        let mut i: usize = 0;
        while i < keys.len()
            invariant
                self.wf(),
                i <= keys@.len(),
                self.bind_groups() == old(self).bind_groups(),
                self.layouts() == old(self).layouts(),
                self.blueprints == old(self).blueprints,
                self.deferred() == old(self).deferred(),
                self.timeouts() == old(self).timeouts(),
                forall|j: int| 0 <= j < keys@.len() ==> old(self).blueprints().contains_key(#[trigger] keys@[j].key_view()),
                forall|k: Seq<char>| #[trigger] old(self).blueprints().contains_key(k) ==> exists|j: int|
                    0 <= j < keys@.len() && #[trigger] keys@[j].key_view() == k,
                users == Set::new(|k: Seq<char>| old(self).blueprints().contains_key(k) && uses_target(old(self).blueprints()[k].bindings, *target)),
                self.valid() == old(self).valid().difference(
                    users.intersect(Set::new(|k: Seq<char>| exists|j: int| 0 <= j < i && #[trigger] keys@[j].key_view() == k)),
                ),
            decreases keys@.len() - i,
        {
            let ghost before = self.valid();
            let uses = match self.blueprints.get(&keys[i]) {
                Some(blueprint) => find_target(&blueprint.bindings, target),
                None => false,
            };
            if uses {
                self.valid_bgs.remove(&keys[i]);
            }
            i += 1;
            proof {
                let k = keys@[i - 1].key_view();
                assert(self.valid() =~= old(self).valid().difference(
                    users.intersect(Set::new(|kk: Seq<char>| exists|j: int| 0 <= j < i && #[trigger] keys@[j].key_view() == kk)),
                )) by {
                    assert forall|kk: Seq<char>| #[trigger] self.valid().contains(kk) == old(self).valid().difference(
                        users.intersect(Set::new(|x: Seq<char>| exists|j: int| 0 <= j < i && #[trigger] keys@[j].key_view() == x)),
                    ).contains(kk) by {
                        if kk == k {
                            assert(keys@[i - 1].key_view() == kk);
                        } else {
                            if exists|j: int| 0 <= j < i && #[trigger] keys@[j].key_view() == kk {
                                let j = choose|j: int| 0 <= j < i && #[trigger] keys@[j].key_view() == kk;
                                assert(j < i - 1);
                            }
                        }
                    }
                }
            }
        }
        proof {
            assert(users.intersect(Set::new(|k: Seq<char>| exists|j: int| 0 <= j < keys@.len() && #[trigger] keys@[j].key_view() == k)) =~= users);
        }
    }

    /// Sync the registry at `now`: evaluate the layouts and bind groups (see
    /// `ResourceHandler::sync`), then request again every bind group that was waiting.
    pub fn sync<B, T, S>(
        &mut self,
        buffers: &mut ResourceHandler<BufferId, B>,
        textures: &mut ResourceHandler<TextureId, T>,
        samplers: &mut ResourceHandler<SamplerId, S>,
        now: u64,
    ) -> (report: RegistrySync)
        requires
            old(self).wf(),
            old(buffers).wf(),
            old(textures).wf(),
            old(samplers).wf(),
            forall|k: Seq<char>|
                #[trigger] old(self).layouts().contains_key(k) && old(self).layouts()[k] is Ready
                    ==> old(self).layouts()[k]->Ready_0.rsc.ref_count + old(self).deferred().dom().len() < usize::MAX,
        ensures
            final(self).wf(),
            final(buffers).wf(),
            final(textures).wf(),
            final(samplers).wf(),
            forall|k: Seq<char>|
                #[trigger] listed(report.stalled_layouts@, k) <==> old(self).layouts().contains_key(k)
                    && status_stalls(old(self).layouts()[k], now, old(self).timeouts().2),
            forall|k: Seq<char>|
                #[trigger] listed(report.stalled_bind_groups@, k) <==> old(self).bind_groups().contains_key(k)
                    && status_stalls(old(self).bind_groups()[k], now, old(self).timeouts().0),
            final(self).deferred().dom().subset_of(old(self).deferred().dom()),
            forall|k: Seq<char>|
                #[trigger] old(self).deferred().contains_key(k) ==> final(self).deferred().contains_key(k)
                    || final(self).bind_groups().contains_key(k),
            forall|j: int|
                0 <= j < report.requests@.len() ==> old(self).deferred().contains_key(#[trigger] report.requests@[j].0.0@),
            forall|j: int|
                0 <= j < report.requests@.len() && #[trigger] report.requests@[j].1 is Requested
                    ==> final(self).bind_groups().contains_key(report.requests@[j].0.0@),
            old(self).blueprints().dom().subset_of(final(self).blueprints().dom()),
            forall|k: Seq<char>|
                #[trigger] final(self).layouts().contains_key(k) && final(self).layouts()[k] is Ready
                    ==> old(self).layouts().contains_key(k) && old(self).layouts()[k] is Ready
                    && final(self).layouts()[k]->Ready_0.rsc.ref_count <= old(self).layouts()[k]->Ready_0.rsc.ref_count
                    + old(self).deferred().dom().len(),
            final(self).valid() == old(self).valid(),
            final(self).timeouts() == old(self).timeouts(),
            bind_groups_synced(*old(self), *final(self), report.requests@, now),
            restamped(old(buffers).statuses(), final(buffers).statuses(), now),
            restamped(old(textures).statuses(), final(textures).statuses(), now),
            restamped(old(samplers).statuses(), final(samplers).statuses(), now),
            final(buffers).thread_timeout() == old(buffers).thread_timeout(),
            final(buffers).failed_timeout() == old(buffers).failed_timeout(),
            final(textures).thread_timeout() == old(textures).thread_timeout(),
            final(textures).failed_timeout() == old(textures).failed_timeout(),
            final(samplers).thread_timeout() == old(samplers).thread_timeout(),
            final(samplers).failed_timeout() == old(samplers).failed_timeout(),
    {
        proof {
            self.deferred.lemma_len_is_domain_size();
            assert(self.deferred().dom() =~= self.deferred@.dom());
        }
        let stalled_layouts = self.layout_handles.sync(now);
        let stalled_bind_groups = self.bg_handles.sync(now);
        assert(self.deferred() == old(self).deferred());
        let entries = self.deferred.drain();
        assert(self.deferred() =~= Map::<Seq<char>, (Seq<char>, BindGroupView)>::empty());
        let ghost mid = *self;
        let ghost n = entries@.len();
        assert forall|k: Seq<char>|
            #[trigger] self.layouts().contains_key(k) && self.layouts()[k] is Ready implies
                self.layouts()[k]->Ready_0.rsc.ref_count + (n - 0) < usize::MAX by {
            assert(old(self).layouts().contains_key(k));
            if status_stalls(old(self).layouts()[k], now, old(self).timeouts().2) {
                assert(self.layouts()[k] is Failed);
            } else {
                assert(self.layouts()[k] == old(self).layouts()[k]);
            }
        }
        assert forall|k: Seq<char>|
            #[trigger] self.layouts().contains_key(k) && self.layouts()[k] is Ready implies
                old(self).layouts().contains_key(k) && old(self).layouts()[k] is Ready
                && self.layouts()[k]->Ready_0.rsc.ref_count <= old(self).layouts()[k]->Ready_0.rsc.ref_count + 0 by {
            assert(old(self).layouts().contains_key(k));
            if status_stalls(old(self).layouts()[k], now, old(self).timeouts().2) {
                assert(self.layouts()[k] is Failed);
            } else {
                assert(self.layouts()[k] == old(self).layouts()[k]);
            }
        }
        let ghost b0 = buffers.statuses();
        let ghost t0 = textures.statuses();
        let ghost s0 = samplers.statuses();
        assert(restamped(b0, b0, now));
        assert(restamped(t0, t0, now));
        assert(restamped(s0, s0, now));
        let mut requests: Vec<(BindGroupId, BgRequest)> = Vec::new();
        let ghost reqs = Seq::new(
            n,
            |j: int| (key_at(entries@, j), old(self).deferred()[key_at(entries@, j)]),
        );
        let ghost mut steps: Seq<BindGroupRegistry<G, L>> = seq![mid];
        let mut i: usize = 0;
        while i < entries.len()
            invariant
                self.wf(),
                reqs.len() == n,
                forall|j: int| 0 <= j < n ==> #[trigger] reqs[j] == (key_at(entries@, j), old(self).deferred()[key_at(entries@, j)]),
                forall|a: int| 0 <= a < n ==> old(self).deferred@.contains_key(#[trigger] key_at(entries@, a))
                    && old(self).deferred@[key_at(entries@, a)] == entries@[a].1,
                steps.len() == i + 1,
                steps[0] == mid,
                steps[i as int] == *self,
                requested_in_turn(steps, reqs.take(i as int), outcomes_of(requests@), now),
                buffers.wf(),
                textures.wf(),
                samplers.wf(),
                i <= entries@.len(),
                n == entries@.len(),
                n == old(self).deferred().dom().len(),
                forall|a: int, b: int|
                    0 <= a < entries@.len() && 0 <= b < entries@.len() && a != b
                        ==> #[trigger] key_at(entries@, a) != #[trigger] key_at(entries@, b),
                forall|a: int| 0 <= a < entries@.len() ==> old(self).deferred().contains_key(#[trigger] key_at(entries@, a)),
                forall|k: Seq<char>| #[trigger] self.deferred().contains_key(k) ==> exists|a: int|
                    0 <= a < i && #[trigger] key_at(entries@, a) == k,
                forall|a: int| 0 <= a < i ==> self.deferred().contains_key(#[trigger] key_at(entries@, a))
                    || self.bind_groups().contains_key(key_at(entries@, a)),
                forall|k: Seq<char>| #[trigger] mid.bind_groups().contains_key(k) ==> self.bind_groups().contains_key(k),
                forall|k: Seq<char>| #[trigger] old(self).blueprints().contains_key(k) ==> self.blueprints().contains_key(k),
                forall|k: Seq<char>|
                    #[trigger] self.layouts().contains_key(k) && self.layouts()[k] is Ready
                        ==> self.layouts()[k]->Ready_0.rsc.ref_count + (n - i) < usize::MAX,
                forall|k: Seq<char>|
                    #[trigger] self.layouts().contains_key(k) && self.layouts()[k] is Ready
                        ==> old(self).layouts().contains_key(k) && old(self).layouts()[k] is Ready
                        && self.layouts()[k]->Ready_0.rsc.ref_count <= old(self).layouts()[k]->Ready_0.rsc.ref_count + i,
                requests@.len() == i,
                forall|j: int| 0 <= j < i ==> (#[trigger] requests@[j]).0.0@ == key_at(entries@, j),
                forall|j: int|
                    0 <= j < i && #[trigger] requests@[j].1 is Requested ==> self.bind_groups().contains_key(key_at(entries@, j)),
                self.valid() == old(self).valid(),
                self.timeouts() == old(self).timeouts(),
                restamped(b0, buffers.statuses(), now),
                restamped(t0, textures.statuses(), now),
                restamped(s0, samplers.statuses(), now),
                b0 == old(buffers).statuses(),
                t0 == old(textures).statuses(),
                s0 == old(samplers).statuses(),
                buffers.thread_timeout() == old(buffers).thread_timeout(),
                buffers.failed_timeout() == old(buffers).failed_timeout(),
                textures.thread_timeout() == old(textures).thread_timeout(),
                textures.failed_timeout() == old(textures).failed_timeout(),
                samplers.thread_timeout() == old(samplers).thread_timeout(),
                samplers.failed_timeout() == old(samplers).failed_timeout(),
            decreases entries@.len() - i,
        {
            let ghost before = *self;
            let ghost bb = buffers.statuses();
            let ghost tb = textures.statuses();
            let ghost sb = samplers.statuses();
            let bg_id = entries[i].0;
            let layout_id = entries[i].1.0;
            let outcome = self.request_bg(&bg_id, &layout_id, &entries[i].1.1, buffers, textures, samplers, now);
            let ghost prev_requests = requests@;
            requests.push((bg_id, outcome));
            proof {
                let k = bg_id.0@;
                let l = layout_id.0@;
                let prev_steps = steps;
                steps = steps.push(*self);
                assert(old(self).deferred@.contains_key(key_at(entries@, i as int)));
                assert(reqs[i as int] == (k, (l, entries@[i as int].1.1@)));
                assert(outcomes_of(requests@) =~= outcomes_of(prev_requests).push(outcome));
                assert forall|j: int| 0 <= j < reqs.take(i + 1).len() implies request_outcome(
                    steps[j],
                    steps[j + 1],
                    #[trigger] reqs.take(i + 1)[j].0,
                    reqs.take(i + 1)[j].1.0,
                    reqs.take(i + 1)[j].1.1,
                    now,
                    outcomes_of(requests@)[j],
                ) by {
                    if j < i {
                        assert(reqs.take(i as int)[j] == reqs.take(i + 1)[j]);
                        assert(prev_steps[j] == steps[j] && prev_steps[j + 1] == steps[j + 1]);
                        assert(outcomes_of(prev_requests)[j] == outcomes_of(requests@)[j]);
                    }
                }
                assert(key_at(entries@, i as int) == k);
                if !before.bind_groups().contains_key(k) && before.layouts().contains_key(l) && before.layouts()[l] is Ready {
                    lemma_restamped_step(b0, bb, buffer_targets(entries@[i as int].1.1@.bindings), now);
                    lemma_restamped_step(t0, tb, texture_targets(entries@[i as int].1.1@.bindings), now);
                    lemma_restamped_step(s0, sb, sampler_targets(entries@[i as int].1.1@.bindings), now);
                }
                assert forall|kk: Seq<char>|
                    #[trigger] self.layouts().contains_key(kk) && self.layouts()[kk] is Ready implies
                        self.layouts()[kk]->Ready_0.rsc.ref_count + (n - (i + 1)) < usize::MAX by {
                    if before.layouts().contains_key(kk) && before.layouts()[kk] is Ready {
                    } else {
                        assert(!before.bind_groups().contains_key(k) && before.layouts().contains_key(l) && before.layouts()[l] is Ready);
                    }
                }
                assert forall|kk: Seq<char>|
                    #[trigger] self.layouts().contains_key(kk) && self.layouts()[kk] is Ready implies
                        old(self).layouts().contains_key(kk) && old(self).layouts()[kk] is Ready
                        && self.layouts()[kk]->Ready_0.rsc.ref_count <= old(self).layouts()[kk]->Ready_0.rsc.ref_count + (i + 1) by {
                    if before.layouts().contains_key(kk) && before.layouts()[kk] is Ready {
                    } else {
                        assert(!before.bind_groups().contains_key(k) && before.layouts().contains_key(l) && before.layouts()[l] is Ready);
                    }
                }
                assert forall|kk: Seq<char>| #[trigger] self.deferred().contains_key(kk) implies exists|a: int|
                    0 <= a < i + 1 && #[trigger] key_at(entries@, a) == kk by {
                    if kk != k {
                        assert(before.deferred().contains_key(kk));
                    }
                }
                assert forall|a: int| 0 <= a < i + 1 implies self.deferred().contains_key(#[trigger] key_at(entries@, a))
                    || self.bind_groups().contains_key(key_at(entries@, a)) by {
                    if a < i {
                        assert(key_at(entries@, a) != k);
                    }
                }
            }
            i += 1;
        }
        proof {
            assert forall|k: Seq<char>| #[trigger] old(self).deferred().contains_key(k) implies self.deferred().contains_key(k)
                || self.bind_groups().contains_key(k) by {
                assert(old(self).deferred@.contains_key(k));
                let a = choose|a: int| 0 <= a < entries@.len() && #[trigger] key_at(entries@, a) == k;
            }
            assert forall|k: Seq<char>| #[trigger] self.deferred().contains_key(k) implies old(self).deferred().contains_key(k) by {
                let a = choose|a: int| 0 <= a < i && #[trigger] key_at(entries@, a) == k;
            }
            assert forall|j: int| 0 <= j < requests@.len() implies old(self).deferred().contains_key(#[trigger] requests@[j].0.0@) by {
                assert(old(self).deferred().contains_key(key_at(entries@, j)));
            }
            assert(reqs.take(n as int) =~= reqs);
            assert forall|j: int| 0 <= j < reqs.len() implies old(self).deferred().contains_key(#[trigger] reqs[j].0)
                && old(self).deferred()[reqs[j].0] == reqs[j].1 by {
                assert(old(self).deferred@.contains_key(key_at(entries@, j)));
            }
            assert forall|k: Seq<char>| #[trigger] old(self).deferred().contains_key(k) implies exists|j: int|
                0 <= j < reqs.len() && #[trigger] reqs[j].0 == k by {
                assert(old(self).deferred@.contains_key(k));
                let a = choose|a: int| 0 <= a < entries@.len() && #[trigger] key_at(entries@, a) == k;
                assert(reqs[a].0 == k);
            }
            assert forall|j: int| 0 <= j < reqs.len() implies #[trigger] requests@[j].0.0@ == reqs[j].0 by {
            }
            assert(enumerates(reqs, old(self).deferred()));
            assert(steps.last() == *self);
            assert(requested_in_turn(steps, reqs, outcomes_of(requests@), now));
            assert(bind_groups_synced(*old(self), *self, requests@, now));
        }
        RegistrySync { stalled_layouts, stalled_bind_groups, requests }
    }

    /// Whether the bind group layout was requested
    pub fn contains_bg_layout(&self, bgl_id: &LayoutId) -> (found: bool)
        requires
            self.wf(),
        ensures
            found == self.layouts().contains_key(bgl_id.0@),
    {
        self.layout_handles.contains(bgl_id)
    }

    /// The blueprint of a bind group that got past its layout
    pub fn blueprint(&self, bg_id: &BindGroupId) -> (blueprint: Option<&BindGroup>)
        requires
            self.wf(),
        ensures
            match blueprint {
                Some(b) => self.blueprints().contains_key(bg_id.0@) && b@ == self.blueprints()[bg_id.0@],
                None => !self.blueprints().contains_key(bg_id.0@),
            },
    {
        self.blueprints.get(bg_id)
    }

    /// The layout and blueprint of a bind group waiting for them
    pub fn deferred_request(&self, bg_id: &BindGroupId) -> (request: Option<&(LayoutId, BindGroup)>)
        requires
            self.wf(),
        ensures
            match request {
                Some(r) => self.deferred().contains_key(bg_id.0@) && (r.0.0@, r.1@) == self.deferred()[bg_id.0@],
                None => !self.deferred().contains_key(bg_id.0@),
            },
    {
        self.deferred.get(bg_id)
    }

    /// Get the handle to a bind group, looking it up at `now`
    pub fn get_bg(&mut self, bg_id: &BindGroupId, now: u64) -> (handle: Option<&BindGroupHandle<G>>)
        requires
            old(self).wf(),
        ensures
            final(self).wf(),
            final(self).bind_groups() == stamped(old(self).bind_groups(), set![bg_id.0@], now),
            (old(self).bind_groups().contains_key(bg_id.0@) && old(self).bind_groups()[bg_id.0@] is Ready)
                ==> handle == Some(&old(self).bind_groups()[bg_id.0@]->Ready_0.rsc),
            !(old(self).bind_groups().contains_key(bg_id.0@) && old(self).bind_groups()[bg_id.0@] is Ready)
                ==> handle is None,
            final(self).layouts() == old(self).layouts(),
            final(self).blueprints() == old(self).blueprints(),
            final(self).deferred() == old(self).deferred(),
            final(self).valid() == old(self).valid(),
            final(self).timeouts() == old(self).timeouts(),
    {
        proof {
            lemma_stamp_one(self.bg_handles.statuses(), bg_id.0@, now);
        }
        self.bg_handles.get(bg_id, now)
    }

    /// Get the handle to a bind group layout, looking it up at `now`
    pub fn get_layout(&mut self, id: &LayoutId, now: u64) -> (handle: Option<&BindGroupLayoutHandle<L>>)
        requires
            old(self).wf(),
        ensures
            final(self).wf(),
            final(self).layouts() == stamped(old(self).layouts(), set![id.0@], now),
            (old(self).layouts().contains_key(id.0@) && old(self).layouts()[id.0@] is Ready)
                ==> handle == Some(&old(self).layouts()[id.0@]->Ready_0.rsc),
            !(old(self).layouts().contains_key(id.0@) && old(self).layouts()[id.0@] is Ready)
                ==> handle is None,
            final(self).bind_groups() == old(self).bind_groups(),
            final(self).blueprints() == old(self).blueprints(),
            final(self).deferred() == old(self).deferred(),
            final(self).valid() == old(self).valid(),
            final(self).timeouts() == old(self).timeouts(),
    {
        proof {
            lemma_stamp_one(self.layout_handles.statuses(), id.0@, now);
        }
        self.layout_handles.get(id, now)
    }
}

/// The layouts after a bind group releases its use of the layout `l` at `now`: a ready layout
/// loses a user, and is removed when it had only that one
pub open spec fn released<L>(
    before: Map<Seq<char>, ResourceStatus<BindGroupLayoutHandle<L>>>,
    after: Map<Seq<char>, ResourceStatus<BindGroupLayoutHandle<L>>>,
    l: Seq<char>,
    now: u64,
) -> bool {
    if before.contains_key(l) && before[l] is Ready {
        let st = before[l]->Ready_0;
        if st.rsc.ref_count == 1 {
            after == before.remove(l)
        } else {
            after == before.insert(
                l,
                ResourceStatus::Ready(
                    Ready {
                        rsc: BindGroupLayoutHandle { ref_count: (st.rsc.ref_count - 1) as usize, layout: st.rsc.layout },
                        hold_time: st.hold_time,
                        accessed: now,
                    },
                ),
            )
        }
    } else {
        after == before
    }
}

/// `after` is `before` synced at `now`: both handlers evaluated (see `ResourceHandler::sync`),
/// then each waiting bind group requested again in turn, in the order of `requests`, which
/// holds their names and outcomes
pub open spec fn bind_groups_synced<G, L>(
    before: BindGroupRegistry<G, L>,
    after: BindGroupRegistry<G, L>,
    requests: Seq<(BindGroupId, BgRequest)>,
    now: u64,
) -> bool {
    exists|steps: Seq<BindGroupRegistry<G, L>>, waiting: Seq<(Seq<char>, (Seq<char>, BindGroupView))>|
        {
            &&& #[trigger] requested_in_turn(steps, waiting, outcomes_of(requests), now)
            &&& enumerates(waiting, before.deferred())
            &&& forall|j: int| 0 <= j < waiting.len() ==> #[trigger] requests[j].0.0@ == waiting[j].0
            &&& evaluated(before.bind_groups(), steps[0].bind_groups(), now, before.timeouts().0, before.timeouts().1)
            &&& evaluated(before.layouts(), steps[0].layouts(), now, before.timeouts().2, before.timeouts().3)
            &&& steps[0].blueprints() == before.blueprints()
            &&& steps[0].deferred() == Map::<Seq<char>, (Seq<char>, BindGroupView)>::empty()
            &&& steps.last() == after
        }
}

/// `requests` lists the entries of `map`, each once
pub open spec fn enumerates<V>(requests: Seq<(Seq<char>, V)>, map: Map<Seq<char>, V>) -> bool {
    &&& forall|j: int| 0 <= j < requests.len() ==> map.contains_key(#[trigger] requests[j].0) && map[requests[j].0] == requests[j].1
    &&& forall|a: int, b: int| 0 <= a < requests.len() && 0 <= b < requests.len() && a != b ==> #[trigger] requests[a].0 != #[trigger] requests[b].0
    &&& forall|k: Seq<char>| #[trigger] map.contains_key(k) ==> exists|j: int| 0 <= j < requests.len() && #[trigger] requests[j].0 == k
}

/// The outcomes of a list of bind group requests
pub open spec fn outcomes_of(requests: Seq<(BindGroupId, BgRequest)>) -> Seq<BgRequest> {
    requests.map_values(|r: (BindGroupId, BgRequest)| r.1)
}

/// The requests were made in turn, at `now`: `steps[j]` is the registry before the `j`-th
/// request (of a bind group, its layout and its blueprint) and `steps[j + 1]` the registry
/// after it, whose outcome is `outcomes[j]`
pub open spec fn requested_in_turn<G, L>(
    steps: Seq<BindGroupRegistry<G, L>>,
    requests: Seq<(Seq<char>, (Seq<char>, BindGroupView))>,
    outcomes: Seq<BgRequest>,
    now: u64,
) -> bool {
    &&& steps.len() == requests.len() + 1
    &&& outcomes.len() == requests.len()
    &&& forall|j: int|
        0 <= j < requests.len() ==> request_outcome(
            steps[j],
            steps[j + 1],
            #[trigger] requests[j].0,
            requests[j].1.0,
            requests[j].1.1,
            now,
            outcomes[j],
        )
}

/// The state of a registry after a request for the bind group `k` with the layout `l` and the
/// blueprint `def`, made at `now`, that had `outcome`
pub open spec fn request_outcome<G, L>(
    before: BindGroupRegistry<G, L>,
    after: BindGroupRegistry<G, L>,
    k: Seq<char>,
    l: Seq<char>,
    def: BindGroupView,
    now: u64,
    outcome: BgRequest,
) -> bool {
    let layout_ready = before.layouts().contains_key(l) && before.layouts()[l] is Ready;
    if before.bind_groups().contains_key(k) {
        &&& outcome is AlreadyRequested
        &&& after.bind_groups() == before.bind_groups()
        &&& after.layouts() == before.layouts()
        &&& after.blueprints() == before.blueprints()
        &&& after.deferred() == before.deferred()
    } else if !layout_ready {
        &&& outcome == BgRequest::AwaitingLayout { start_layout_worker: !before.layouts().contains_key(l) }
        &&& after.bind_groups() == before.bind_groups()
        &&& after.layouts() == if before.layouts().contains_key(l) {
            before.layouts()
        } else {
            before.layouts().insert(
                l,
                ResourceStatus::Pending(crate::graphics::handler::Pending { requested_at: now, hold_time: None }),
            )
        }
        &&& after.blueprints() == before.blueprints()
        &&& after.deferred() == before.deferred().insert(k, (l, def))
    } else {
        let blueprints = if before.blueprints().contains_key(k) {
            before.blueprints()
        } else {
            before.blueprints().insert(k, def)
        };
        &&& after.blueprints() == blueprints
        &&& if outcome is Requested {
            &&& after.bind_groups() == before.bind_groups().insert(
                k,
                ResourceStatus::Pending(crate::graphics::handler::Pending { requested_at: now, hold_time: None }),
            )
            &&& after.layouts() == before.layouts().insert(l, bumped(before.layouts()[l], now))
            &&& after.deferred() == before.deferred().remove(k)
        } else {
            &&& outcome is AwaitingResources
            &&& after.bind_groups() == before.bind_groups()
            &&& after.layouts() == stamped(before.layouts(), set![l], now)
            &&& after.deferred() == before.deferred().insert(k, (l, def))
        }
    }
}

/// The resources a request looked up: those the blueprint binds, when the request got past the
/// layout, each marked accessed at `now` if it is ready; none otherwise
pub open spec fn resources_looked_up<G, L, B, T, S>(
    before: BindGroupRegistry<G, L>,
    k: Seq<char>,
    l: Seq<char>,
    bindings: Seq<GroupEntry>,
    buffers: Map<Seq<char>, ResourceStatus<B>>,
    buffers_after: Map<Seq<char>, ResourceStatus<B>>,
    textures: Map<Seq<char>, ResourceStatus<T>>,
    textures_after: Map<Seq<char>, ResourceStatus<T>>,
    samplers: Map<Seq<char>, ResourceStatus<S>>,
    samplers_after: Map<Seq<char>, ResourceStatus<S>>,
    now: u64,
) -> bool {
    if !before.bind_groups().contains_key(k) && before.layouts().contains_key(l) && before.layouts()[l] is Ready {
        &&& buffers_after == stamped(buffers, buffer_targets(bindings), now)
        &&& textures_after == stamped(textures, texture_targets(bindings), now)
        &&& samplers_after == stamped(samplers, sampler_targets(bindings), now)
    } else {
        &&& buffers_after == buffers
        &&& textures_after == textures
        &&& samplers_after == samplers
    }
}

/// Requesting a bind group that a request has just made pending changes nothing: the second
/// request finds it already requested and leaves the registry as it was.
pub proof fn law_request_after_requested_is_noop<G, L>(
    r0: BindGroupRegistry<G, L>,
    r1: BindGroupRegistry<G, L>,
    r2: BindGroupRegistry<G, L>,
    k: Seq<char>,
    l: Seq<char>,
    def: BindGroupView,
    def2: BindGroupView,
    now: u64,
    later: u64,
    second: BgRequest,
)
    requires
        request_outcome(r0, r1, k, l, def, now, BgRequest::Requested),
        request_outcome(r1, r2, k, l, def2, later, second),
    ensures
        second is AlreadyRequested,
        r2.bind_groups() == r1.bind_groups(),
        r2.layouts() == r1.layouts(),
        r2.blueprints() == r1.blueprints(),
        r2.deferred() == r1.deferred(),
{
    assert(r1.bind_groups().contains_key(k));
}

/// A layout that gains a user and then loses one has the users it had: a bind group created
/// and then removed leaves its layout as it found it, but for the access time.
pub proof fn law_bump_then_release_restores_users<L>(
    layouts: Map<Seq<char>, ResourceStatus<BindGroupLayoutHandle<L>>>,
    after: Map<Seq<char>, ResourceStatus<BindGroupLayoutHandle<L>>>,
    l: Seq<char>,
    now: u64,
    later: u64,
)
    requires
        layouts.contains_key(l),
        layouts[l] is Ready,
        layouts[l]->Ready_0.rsc.ref_count >= 1,
        layouts[l]->Ready_0.rsc.ref_count < usize::MAX,
        released(layouts.insert(l, bumped(layouts[l], now)), after, l, later),
    ensures
        after.contains_key(l),
        after[l] is Ready,
        after[l]->Ready_0.rsc.ref_count == layouts[l]->Ready_0.rsc.ref_count,
        after[l]->Ready_0.rsc.layout == layouts[l]->Ready_0.rsc.layout,
        after[l]->Ready_0.hold_time == layouts[l]->Ready_0.hold_time,
        after.remove(l) == layouts.remove(l),
{
    let bumped_map = layouts.insert(l, bumped(layouts[l], now));
    assert(bumped_map[l]->Ready_0.rsc.ref_count == layouts[l]->Ready_0.rsc.ref_count + 1);
    assert(after.remove(l) =~= layouts.remove(l));
}

/// Looking resources up twice at the same time is looking them up once.
pub proof fn law_lookup_twice_is_lookup_once<R>(statuses: Map<Seq<char>, ResourceStatus<R>>, keys: Set<Seq<char>>, now: u64)
    ensures
        stamped(stamped(statuses, keys, now), keys, now) == stamped(statuses, keys, now),
{
    assert(stamped(stamped(statuses, keys, now), keys, now) =~= stamped(statuses, keys, now));
}

} // verus!
