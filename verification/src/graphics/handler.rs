use std::marker::PhantomData;

use vstd::prelude::*;
use vstd::string::StringExecFns;

use crate::graphics::context::{BindGroupId, BufferId, LayoutId, PipelineId, SamplerId, TextureId, str_eq};

verus! {

/// Specfifies whether a task is io-bound (Non-Blocking) or cpu-bound (Blocking)
#[derive(Debug)]
pub enum TaskType {
    /// task is cpu-bound
    Blocking,
    /// task is io-bound
    NonBlocking,
}

/// An operation performed by a Future F, where the result R is stored in a
/// ResourceHandler of the matching type.
#[derive(Debug)]
pub struct Task<F, R> {
    pub fut: F,
    pub ty: TaskType,
    pub hold_time: Option<u64>,
    pub _rsc: PhantomData<R>,
}

impl<F, R> Task<F, R> {
    /// Create a non-blocking task (useful for io-bound operations)
    pub fn non_blocking(fut: F) -> (task: Self)
        ensures
            task.fut == fut,
            task.ty is NonBlocking,
            task.hold_time is None,
    {
        Self { fut, ty: TaskType::NonBlocking, hold_time: None, _rsc: PhantomData }
    }

    /// Create a blocking task (useful for cpu-bound operations)
    pub fn blocking(fut: F) -> (task: Self)
        ensures
            task.fut == fut,
            task.ty is Blocking,
            task.hold_time is None,
    {
        Self { fut, ty: TaskType::Blocking, hold_time: None, _rsc: PhantomData }
    }

    /// Set the hold time, in seconds, for the resource created from the task after not being
    /// accessed
    pub fn with_hold_time(self, secs: u64) -> (task: Self)
        ensures
            task.fut == self.fut,
            task.ty == self.ty,
            task.hold_time == Some(secs),
    {
        let mut task = self;
        task.hold_time = Some(secs);
        task
    }
}

/// Stores metadata about resources that finished completion
pub struct Ready<R> {
    /// The stored resource
    pub rsc: R,
    /// The time in seconds before this resource should be deallocated.
    pub hold_time: Option<u64>,
    /// The time stamp, in milliseconds, for when this resource was last accessed.
    pub accessed: u64,
}

/// Stores metadata about resources that failed completion
pub struct Failed {
    /// An error message indicating why the Resource failed
    pub err_msg: String,
    /// The time stamp, in milliseconds, for when the resource failed.
    pub failed_at: u64,
}

/// Stores metadata about resources that are pending completion
pub struct Pending {
    /// The time stamp, in milliseconds, for when the resource was requested.
    pub requested_at: u64,
    /// The hold time, in seconds, that the resource gets once its worker has created it
    pub hold_time: Option<u64>,
}

/// Represents the state of a resource requested by the user of a handler instance.
pub enum ResourceStatus<R> {
    /// Resource has been requested but is not yet ready
    Pending(Pending),
    /// Resource is ready for retrieval
    Ready(Ready<R>),
    /// Resource failed to complete
    Failed(Failed),
}

impl<R> ResourceStatus<R> {
    /// Retrieve the time the resource was requested if available
    pub fn requested_at(&self) -> (at: Option<u64>)
        ensures
            at == match self {
                ResourceStatus::Pending(p) => Some(p.requested_at),
                _ => None::<u64>,
            },
    {
        if let ResourceStatus::Pending(pending) = self {
            Some(pending.requested_at)
        } else {
            None
        }
    }

    /// Retreive a reference to the stored resource if available.
    pub fn value(&self) -> (ready: Option<&Ready<R>>)
        ensures
            self is Ready ==> ready == Some(&self->Ready_0),
            !(self is Ready) ==> ready is None,
    {
        if let ResourceStatus::Ready(ready) = self {
            Some(ready)
        } else {
            None
        }
    }

    /// Retreive a mutable reference to the stored resource if available.
    pub fn value_mut(&mut self) -> (ready: Option<&mut Ready<R>>)
        ensures
            *old(self) is Ready <==> ready is Some,
            ready is Some ==> *ready->0 == (*old(self))->Ready_0 && *final(self) == ResourceStatus::Ready(*final(ready->0)),
            ready is None ==> *final(self) == *old(self),
    {
        if let ResourceStatus::Ready(ready) = self {
            Some(ready)
        } else {
            None
        }
    }

    /// If the status is Ready, this takes ownership of the raw resource and passes it to the caller.
    pub fn take(self) -> (rsc: Option<R>)
        ensures
            self is Ready ==> rsc == Some(self->Ready_0.rsc),
            !(self is Ready) ==> rsc is None,
    {
        if let ResourceStatus::Ready(ready) = self {
            Some(ready.rsc)
        } else {
            None
        }
    }

    /// Retreive the error message if the stored resource failed to complete.
    pub fn error_msg(&self) -> (msg: Option<&str>)
        ensures
            self is Failed ==> msg is Some && msg->0@ == self->Failed_0.err_msg@,
            !(self is Failed) ==> msg is None,
    {
        if let ResourceStatus::Failed(failed) = self {
            Some(failed.err_msg.as_str())
        } else {
            None
        }
    }

    /// Check if this resource is ready (has completed loading/creation)
    pub fn is_ready(&self) -> (ready: bool)
        ensures
            ready == self is Ready,
    {
        self.value().is_some()
    }

    /// Check if this resource is pending (not yet loaded/created)
    pub fn is_pending(&self) -> (pending: bool)
        ensures
            pending == self is Pending,
    {
        self.requested_at().is_some()
    }

    /// Check if this resource is failed (didn't load/wasn't created)
    pub fn is_failed(&self) -> (failed: bool)
        ensures
            failed == self is Failed,
    {
        self.error_msg().is_some()
    }
}

/// The message a resource fails with when its worker thread stalls
pub open spec fn stall_message() -> Seq<char> {
    "Worker thread lost or stalled execution."@
}

/// Milliseconds from `since` to `now`; zero when `since` is later
pub open spec fn elapsed(now: u64, since: u64) -> int {
    if now >= since {
        now - since
    } else {
        0
    }
}

/// A resource leaves the handler at time `now`: a ready resource that has a hold time and was
/// not accessed for longer than it, or a failed resource that failed more than
/// `failed_timeout` seconds ago
pub open spec fn status_expires<R>(st: ResourceStatus<R>, now: u64, failed_timeout: u64) -> bool {
    match st {
        ResourceStatus::Ready(r) => r.hold_time is Some && elapsed(now, r.accessed) > r.hold_time->0
            * 1000,
        ResourceStatus::Pending(_) => false,
        ResourceStatus::Failed(f) => elapsed(now, f.failed_at) > failed_timeout * 1000,
    }
}

/// A pending resource whose worker was started more than `thread_timeout` seconds before `now`
pub open spec fn status_stalls<R>(st: ResourceStatus<R>, now: u64, thread_timeout: u64) -> bool {
    st is Pending && elapsed(now, st->Pending_0.requested_at) > thread_timeout * 1000
}

/// `after` is `before` once evaluated at time `now`: expired resources are gone, stalled ones
/// failed now with the stall message, all others unchanged
pub open spec fn evaluated<R>(
    before: Map<Seq<char>, ResourceStatus<R>>,
    after: Map<Seq<char>, ResourceStatus<R>>,
    now: u64,
    thread_timeout: u64,
    failed_timeout: u64,
) -> bool {
    &&& forall|k: Seq<char>|
        #[trigger] after.contains_key(k) <==> before.contains_key(k) && !status_expires(
            before[k],
            now,
            failed_timeout,
        )
    &&& forall|k: Seq<char>|
        #[trigger] after.contains_key(k) ==> if status_stalls(before[k], now, thread_timeout) {
            &&& after[k] is Failed
            &&& after[k]->Failed_0.err_msg@ == stall_message()
            &&& after[k]->Failed_0.failed_at == now
        } else {
            after[k] == before[k]
        }
}

/// The hold time recorded with the request of `k`, if `k` is pending; no hold time otherwise
pub open spec fn recorded_hold_time<R>(statuses: Map<Seq<char>, ResourceStatus<R>>, k: Seq<char>) -> Option<u64> {
    if statuses.contains_key(k) && statuses[k] is Pending {
        statuses[k]->Pending_0.hold_time
    } else {
        None
    }
}

/// The status a finished task leaves: its resource ready, with the hold time of the request and
/// accessed at `now`, or failed at `now` with its error message
pub open spec fn completed_status<R>(result: Result<R, String>, hold_time: Option<u64>, now: u64) -> ResourceStatus<
    R,
> {
    match result {
        Ok(rsc) => ResourceStatus::Ready(Ready { rsc, hold_time, accessed: now }),
        Err(msg) => ResourceStatus::Failed(Failed { err_msg: msg, failed_at: now }),
    }
}

/// The name of the key of the `i`-th entry
pub open spec fn entry_key<K: ResourceKey, R>(entries: Seq<(K, ResourceStatus<R>)>, i: int) -> Seq<
    char,
> {
    entries[i].0.key_view()
}

/// One of the keys has the name `k`
pub open spec fn listed<K: ResourceKey>(keys: Seq<K>, k: Seq<char>) -> bool {
    exists|a: int| 0 <= a < keys.len() && #[trigger] keys[a].key_view() == k
}

pub(crate) proof fn lemma_listed_push<K: ResourceKey>(keys: Seq<K>, x: K, k: Seq<char>)
    ensures
        listed(keys.push(x), k) == (listed(keys, k) || x.key_view() == k),
{
    if listed(keys.push(x), k) {
        let a = choose|a: int| 0 <= a < keys.push(x).len() && #[trigger] keys.push(x)[a].key_view() == k;
        if a < keys.len() {
            assert(keys[a].key_view() == k);
        }
    }
    if listed(keys, k) {
        let a = choose|a: int| 0 <= a < keys.len() && #[trigger] keys[a].key_view() == k;
        assert(keys.push(x)[a].key_view() == k);
    }
    if x.key_view() == k {
        assert(keys.push(x)[keys.len() as int].key_view() == k);
    }
}

/// What a lookup found: the resource, or that it was (re)requested and a worker must be started,
/// or that it is still being created
pub enum Lookup<'a, R> {
    Found(&'a R),
    Requested,
    Waiting,
}

/// Manages and stores resources that are created concurrently by workers, keyed by `K`.
///
/// The handler decides what happens to each resource; the caller runs the workers, reports
/// their results through `complete`, and aborts the workers that `sync` reports as stalled.
/// Time stamps are in milliseconds; timeouts in seconds.
pub struct ResourceHandler<K, R> {
    entries: Vec<(K, ResourceStatus<R>)>,
    statuses: Ghost<Map<Seq<char>, ResourceStatus<R>>>,
    /// time before a worker thread is considered 'dead', in seconds
    thread_timeout: u64,
    /// time before a failed resource is removed from the map, in seconds
    failed_timeout: u64,
}

impl<K: ResourceKey, R> ResourceHandler<K, R> {
    /// The status of each known resource, by key name
    pub closed spec fn statuses(&self) -> Map<Seq<char>, ResourceStatus<R>> {
        self.statuses@
    }

    /// Seconds before a worker is considered dead
    pub closed spec fn thread_timeout(&self) -> u64 {
        self.thread_timeout
    }

    /// Seconds before a failed resource is dropped
    pub closed spec fn failed_timeout(&self) -> u64 {
        self.failed_timeout
    }


    /// The stored entries are exactly the statuses, one entry per key
    pub closed spec fn wf(&self) -> bool {
        &&& forall|i: int|
            0 <= i < self.entries@.len() ==> self.statuses@.contains_key(#[trigger] entry_key(self.entries@, i))
                && self.statuses@[entry_key(self.entries@, i)] == self.entries@[i].1
        &&& forall|i: int, j: int|
            0 <= i < self.entries@.len() && 0 <= j < self.entries@.len() && i != j
                ==> #[trigger] entry_key(self.entries@, i) != #[trigger] entry_key(self.entries@, j)
        &&& forall|k: Seq<char>|
            #[trigger] self.statuses@.contains_key(k) ==> exists|i: int|
                0 <= i < self.entries@.len() && #[trigger] entry_key(self.entries@, i) == k
    }

    /// Create a new resource handler, with a worker timeout of 5 seconds and a failure timeout
    /// of 3 seconds.
    pub fn new() -> (handler: Self)
        ensures
            handler.wf(),
            handler.statuses() == Map::<Seq<char>, ResourceStatus<R>>::empty(),
            handler.thread_timeout() == 5,
            handler.failed_timeout() == 3,
    {
        Self {
            entries: Vec::new(),
            statuses: Ghost(Map::empty()),
            thread_timeout: 5,
            failed_timeout: 3,
        }
    }

    /// Set the resource timeout for worker threads, in seconds. The default is 5 seconds.
    ///
    /// This is the amount of time before a thread is considered 'dead' and is told to stop executing.
    pub fn set_thread_tmt(&mut self, timeout: u64)
        requires
            old(self).wf(),
        ensures
            final(self).wf(),
            final(self).thread_timeout() == timeout,
            final(self).failed_timeout() == old(self).failed_timeout(),
            final(self).statuses() == old(self).statuses(),
    {
        self.thread_timeout = timeout;
        assert(self.entries@ == old(self).entries@);
        assert(self.statuses@ == old(self).statuses@);
    }

    /// Set the timeout for failed resources, in seconds. The default is 3 seconds.
    ///
    /// This is the amount of time before a failed resource is removed from the internal map.
    pub fn set_failed_tmt(&mut self, timeout: u64)
        requires
            old(self).wf(),
        ensures
            final(self).wf(),
            final(self).failed_timeout() == timeout,
            final(self).thread_timeout() == old(self).thread_timeout(),
            final(self).statuses() == old(self).statuses(),
    {
        self.failed_timeout = timeout;
        assert(self.entries@ == old(self).entries@);
        assert(self.statuses@ == old(self).statuses@);
    }

    /// The position of the entry for `key`, if there is one
    fn find(&self, key: &K) -> (idx: Option<usize>)
        requires
            self.wf(),
        ensures
            match idx {
                Some(i) => i < self.entries@.len() && entry_key(self.entries@, i as int) == key.key_view(),
                None => !self.statuses@.contains_key(key.key_view()),
            },
    {
        let mut i: usize = 0;
        while i < self.entries.len()
            invariant
                self.wf(),
                i <= self.entries@.len(),
                forall|j: int| 0 <= j < i ==> #[trigger] entry_key(self.entries@, j) != key.key_view(),
            decreases self.entries@.len() - i,
        {
            if self.entries[i].0.same_key(key) {
                return Some(i);
            }
            i += 1;
        }
        None
    }

    /// Add an entry for a key that has none
    fn insert_new(&mut self, key: K, status: ResourceStatus<R>)
        requires
            old(self).wf(),
            !old(self).statuses@.contains_key(key.key_view()),
        ensures
            final(self).wf(),
            final(self).statuses@ == old(self).statuses@.insert(key.key_view(), status),
            final(self).thread_timeout == old(self).thread_timeout,
            final(self).failed_timeout == old(self).failed_timeout,
    {
        let ghost k = key.key_view();
        self.entries.push((key, status));
        self.statuses = Ghost(self.statuses@.insert(k, status));
        assert forall|i: int| 0 <= i < self.entries@.len() implies self.statuses@.contains_key(#[trigger] entry_key(self.entries@, i))
            && self.statuses@[entry_key(self.entries@, i)] == self.entries@[i].1 by {
            if i < old(self).entries@.len() {
                assert(entry_key(self.entries@, i) == entry_key(old(self).entries@, i));
            }
        }
        assert forall|i: int, j: int|
            0 <= i < self.entries@.len() && 0 <= j < self.entries@.len() && i != j
                implies #[trigger] entry_key(self.entries@, i) != #[trigger] entry_key(self.entries@, j) by {
            if i < old(self).entries@.len() {
                assert(entry_key(self.entries@, i) == entry_key(old(self).entries@, i));
            }
            if j < old(self).entries@.len() {
                assert(entry_key(self.entries@, j) == entry_key(old(self).entries@, j));
            }
        }
        assert forall|kk: Seq<char>| #[trigger] self.statuses@.contains_key(kk) implies exists|i: int|
            0 <= i < self.entries@.len() && #[trigger] entry_key(self.entries@, i) == kk by {
            if kk == k {
                assert(entry_key(self.entries@, self.entries@.len() - 1) == kk);
            } else {
                let i = choose|i: int| 0 <= i < old(self).entries@.len() && #[trigger] entry_key(old(self).entries@, i) == kk;
                assert(entry_key(self.entries@, i) == kk);
            }
        }
    }

    /// Replace the status of the entry at `i`, returning the status it had
    fn replace_at(&mut self, i: usize, status: ResourceStatus<R>) -> (previous: ResourceStatus<R>)
        requires
            old(self).wf(),
            i < old(self).entries@.len(),
        ensures
            final(self).wf(),
            final(self).statuses@ == old(self).statuses@.insert(entry_key(old(self).entries@, i as int), status),
            previous == old(self).statuses@[entry_key(old(self).entries@, i as int)],
            final(self).entries@.len() == old(self).entries@.len(),
            entry_key(final(self).entries@, i as int) == entry_key(old(self).entries@, i as int),
            final(self).thread_timeout == old(self).thread_timeout,
            final(self).failed_timeout == old(self).failed_timeout,
    {
        let ghost k = entry_key(self.entries@, i as int);
        let (key, previous) = self.entries.remove(i);
        self.entries.insert(i, (key, status));
        self.statuses = Ghost(self.statuses@.insert(k, status));
        assert forall|j: int| 0 <= j < self.entries@.len() && j != i implies #[trigger] entry_key(self.entries@, j) == entry_key(old(self).entries@, j) by {
        }
        assert forall|kk: Seq<char>| #[trigger] self.statuses@.contains_key(kk) implies exists|j: int|
            0 <= j < self.entries@.len() && #[trigger] entry_key(self.entries@, j) == kk by {
            let j = choose|j: int| 0 <= j < old(self).entries@.len() && #[trigger] entry_key(old(self).entries@, j) == kk;
            assert(entry_key(self.entries@, j) == kk);
        }
        assert forall|j: int, l: int|
            0 <= j < self.entries@.len() && 0 <= l < self.entries@.len() && j != l
                implies #[trigger] entry_key(self.entries@, j) != #[trigger] entry_key(self.entries@, l) by {
            assert(entry_key(old(self).entries@, j) != entry_key(old(self).entries@, l));
        }
        previous
    }

    /// Remove the entry at `i`, returning its status
    fn remove_at(&mut self, i: usize) -> (previous: ResourceStatus<R>)
        requires
            old(self).wf(),
            i < old(self).entries@.len(),
        ensures
            final(self).wf(),
            final(self).statuses@ == old(self).statuses@.remove(entry_key(old(self).entries@, i as int)),
            previous == old(self).statuses@[entry_key(old(self).entries@, i as int)],
            final(self).thread_timeout == old(self).thread_timeout,
            final(self).failed_timeout == old(self).failed_timeout,
    {
        let ghost k = entry_key(self.entries@, i as int);
        let (_key, previous) = self.entries.remove(i);
        self.statuses = Ghost(self.statuses@.remove(k));
        assert forall|j: int| 0 <= j < self.entries@.len() implies #[trigger] entry_key(self.entries@, j) == entry_key(old(self).entries@, 
            if j < i { j } else { j + 1 },
        ) by {
        }
        assert forall|j: int| 0 <= j < self.entries@.len() implies self.statuses@.contains_key(#[trigger] entry_key(self.entries@, j))
            && self.statuses@[entry_key(self.entries@, j)] == self.entries@[j].1 by {
            let oj = if j < i { j } else { j + 1 };
            assert(entry_key(old(self).entries@, oj) != entry_key(old(self).entries@, i as int));
        }
        assert forall|kk: Seq<char>| #[trigger] self.statuses@.contains_key(kk) implies exists|j: int|
            0 <= j < self.entries@.len() && #[trigger] entry_key(self.entries@, j) == kk by {
            let oj = choose|j: int| 0 <= j < old(self).entries@.len() && #[trigger] entry_key(old(self).entries@, j) == kk;
            let j = if oj < i { oj } else { oj - 1 };
            assert(entry_key(self.entries@, j) == kk);
        }
        assert forall|j: int, l: int|
            0 <= j < self.entries@.len() && 0 <= l < self.entries@.len() && j != l
                implies #[trigger] entry_key(self.entries@, j) != #[trigger] entry_key(self.entries@, l) by {
            let oj = if j < i { j } else { j + 1 };
            let ol = if l < i { l } else { l + 1 };
            assert(entry_key(old(self).entries@, oj) != entry_key(old(self).entries@, ol));
        }
        previous
    }

    /// Check if the internal map contains a resource with the specified key (in any state)
    pub fn contains(&self, key: &K) -> (found: bool)
        requires
            self.wf(),
        ensures
            found == self.statuses().contains_key(key.key_view()),
    {
        self.find(key).is_some()
    }

    /// Get the status of a resource. None is returned if the resource does not exist.
    pub fn status_of(&self, key: &K) -> (status: Option<&ResourceStatus<R>>)
        requires
            self.wf(),
        ensures
            match status {
                Some(st) => self.statuses().contains_key(key.key_view()) && *st == self.statuses()[key.key_view()],
                None => !self.statuses().contains_key(key.key_view()),
            },
    {
        match self.find(key) {
            Some(i) => Some(&self.entries[i].1),
            None => None,
        }
    }

    /// Check if a requested resource has finished completion and is stored in the map.
    pub fn is_ready(&self, key: &K) -> (ready: bool)
        requires
            self.wf(),
        ensures
            ready == (self.statuses().contains_key(key.key_view()) && self.statuses()[key.key_view()] is Ready),
    {
        match self.status_of(key) {
            Some(st) => st.is_ready(),
            None => false,
        }
    }

    /// Check if requested resource is still pending completion
    pub fn is_pending(&self, key: &K) -> (pending: bool)
        requires
            self.wf(),
        ensures
            pending == (self.statuses().contains_key(key.key_view()) && self.statuses()[key.key_view()] is Pending),
    {
        match self.status_of(key) {
            Some(st) => st.is_pending(),
            None => false,
        }
    }

    /// Check if a requested resource failed completion.
    pub fn is_failed(&self, key: &K) -> (failed: bool)
        requires
            self.wf(),
        ensures
            failed == (self.statuses().contains_key(key.key_view()) && self.statuses()[key.key_view()] is Failed),
    {
        match self.status_of(key) {
            Some(st) => st.is_failed(),
            None => false,
        }
    }

    /// Get the error message of a failed resource, if applicable.
    pub fn get_err(&self, key: &K) -> (msg: Option<&str>)
        requires
            self.wf(),
        ensures
            (self.statuses().contains_key(key.key_view()) && self.statuses()[key.key_view()] is Failed)
                ==> msg is Some && msg->0@ == self.statuses()[key.key_view()]->Failed_0.err_msg@,
            !(self.statuses().contains_key(key.key_view()) && self.statuses()[key.key_view()] is Failed)
                ==> msg is None,
    {
        match self.status_of(key) {
            Some(st) => st.error_msg(),
            None => None,
        }
    }

    /// Store a preloaded resource, ready, accessed at `now`; it replaces whatever the key had.
    ///
    /// * 'key' - A handle K to query the handler for the resource
    /// * 'hold_time' - The time in seconds before a resource is considered 'dead' and is removed from the handler
    /// * 'resource' - An instance of the expected Resource this handler stores
    pub fn store(&mut self, key: &K, hold_time: Option<u64>, resource: R, now: u64)
        requires
            old(self).wf(),
        ensures
            final(self).wf(),
            final(self).statuses() == old(self).statuses().insert(
                key.key_view(),
                ResourceStatus::Ready(Ready { rsc: resource, hold_time, accessed: now }),
            ),
            final(self).thread_timeout() == old(self).thread_timeout(),
            final(self).failed_timeout() == old(self).failed_timeout(),
    {
        let status = ResourceStatus::Ready(Ready { rsc: resource, hold_time, accessed: now });
        match self.find(key) {
            Some(i) => {
                let _ = self.replace_at(i, status);
            },
            None => {
                self.insert_new(key.clone_key(), status);
            },
        }
    }

    /// Remove a resource from the internal map. Returns the resource if it was ready.
    pub fn remove(&mut self, key: &K) -> (rsc: Option<R>)
        requires
            old(self).wf(),
        ensures
            final(self).wf(),
            final(self).statuses() == old(self).statuses().remove(key.key_view()),
            (old(self).statuses().contains_key(key.key_view()) && old(self).statuses()[key.key_view()] is Ready)
                ==> rsc == Some(old(self).statuses()[key.key_view()]->Ready_0.rsc),
            !(old(self).statuses().contains_key(key.key_view()) && old(self).statuses()[key.key_view()] is Ready)
                ==> rsc is None,
            final(self).thread_timeout() == old(self).thread_timeout(),
            final(self).failed_timeout() == old(self).failed_timeout(),
    {
        match self.find(key) {
            Some(i) => {
                let previous = self.remove_at(i);
                previous.take()
            },
            None => {
                assert(self.statuses@.remove(key.key_view()) =~= self.statuses@);
                None
            },
        }
    }

    /// Mark a resource as accessed at `now`, if it is ready.
    ///
    /// This is useful in cases where a resource may have dependencies, but you don't need to access the dependencies directly.
    pub fn mark_accessed(&mut self, key: &K, now: u64)
        requires
            old(self).wf(),
        ensures
            final(self).wf(),
            (old(self).statuses().contains_key(key.key_view()) && old(self).statuses()[key.key_view()] is Ready)
                ==> final(self).statuses() == old(self).statuses().insert(
                key.key_view(),
                ResourceStatus::Ready(Ready { accessed: now, ..old(self).statuses()[key.key_view()]->Ready_0 }),
            ),
            !(old(self).statuses().contains_key(key.key_view()) && old(self).statuses()[key.key_view()] is Ready)
                ==> final(self).statuses() == old(self).statuses(),
            final(self).thread_timeout() == old(self).thread_timeout(),
            final(self).failed_timeout() == old(self).failed_timeout(),
    {
        if let Some(i) = self.find(key) {
            if self.entries[i].1.is_ready() {
                let previous = self.remove_at(i);
                if let ResourceStatus::Ready(ready) = previous {
                    self.insert_new(key.clone_key(), ResourceStatus::Ready(Ready { rsc: ready.rsc, hold_time: ready.hold_time, accessed: now }));
                }
                assert(self.statuses@ =~= old(self).statuses@.insert(
                    key.key_view(),
                    ResourceStatus::Ready(Ready { accessed: now, ..old(self).statuses@[key.key_view()]->Ready_0 }),
                ));
            }
        }
    }

    /// Get a reference to a completed resource, marking it accessed at `now`. Returns None if
    /// the resource does not exist or is not ready.
    pub fn get(&mut self, key: &K, now: u64) -> (rsc: Option<&R>)
        requires
            old(self).wf(),
        ensures
            final(self).wf(),
            (old(self).statuses().contains_key(key.key_view()) && old(self).statuses()[key.key_view()] is Ready)
                ==> rsc == Some(&old(self).statuses()[key.key_view()]->Ready_0.rsc),
            !(old(self).statuses().contains_key(key.key_view()) && old(self).statuses()[key.key_view()] is Ready)
                ==> rsc is None,
            (old(self).statuses().contains_key(key.key_view()) && old(self).statuses()[key.key_view()] is Ready)
                ==> final(self).statuses() == old(self).statuses().insert(
                key.key_view(),
                ResourceStatus::Ready(Ready { accessed: now, ..old(self).statuses()[key.key_view()]->Ready_0 }),
            ),
            !(old(self).statuses().contains_key(key.key_view()) && old(self).statuses()[key.key_view()] is Ready)
                ==> final(self).statuses() == old(self).statuses(),
            final(self).thread_timeout() == old(self).thread_timeout(),
            final(self).failed_timeout() == old(self).failed_timeout(),
    {
        self.mark_accessed(key, now);
        match self.find(key) {
            Some(i) => match &self.entries[i].1 {
                ResourceStatus::Ready(ready) => Some(&ready.rsc),
                _ => None,
            },
            None => None,
        }
    }

    /// Retrieve a resource if it is ready, marking it accessed at `now`. If the resource is
    /// unknown or previously failed, it is requested anew from `now` and the caller must start a
    /// worker; a pending resource is left waiting.
    pub fn get_or_request(&mut self, key: &K, hold_time: Option<u64>, now: u64) -> (found: Lookup<'_, R>)
        requires
            old(self).wf(),
        ensures
            final(self).wf(),
            !old(self).statuses().contains_key(key.key_view()) || old(self).statuses()[key.key_view()] is Failed
                ==> found is Requested && final(self).statuses() == old(self).statuses().insert(
                key.key_view(),
                ResourceStatus::Pending(Pending { requested_at: now, hold_time }),
            ),
            old(self).statuses().contains_key(key.key_view()) && old(self).statuses()[key.key_view()] is Pending
                ==> found is Waiting && final(self).statuses() == old(self).statuses(),
            old(self).statuses().contains_key(key.key_view()) && old(self).statuses()[key.key_view()] is Ready
                ==> found == Lookup::Found(&old(self).statuses()[key.key_view()]->Ready_0.rsc)
                && final(self).statuses() == old(self).statuses().insert(
                key.key_view(),
                ResourceStatus::Ready(Ready { accessed: now, ..old(self).statuses()[key.key_view()]->Ready_0 }),
            ),
            final(self).thread_timeout() == old(self).thread_timeout(),
            final(self).failed_timeout() == old(self).failed_timeout(),
    {
        if self.request_retry(key, hold_time, now) {
            return Lookup::Requested;
        }
        match self.get(key, now) {
            Some(rsc) => Lookup::Found(rsc),
            None => Lookup::Waiting,
        }
    }

    /// The key of every entry, in storage order
    fn entry_keys(&self) -> (keys: Vec<K>)
        requires
            self.wf(),
        ensures
            keys@.len() == self.entries@.len(),
            forall|i: int| 0 <= i < keys@.len() ==> #[trigger] keys@[i].key_view() == entry_key(self.entries@, i),
    {
        let mut keys: Vec<K> = Vec::new();
        let mut i: usize = 0;
        while i < self.entries.len()
            invariant
                i <= self.entries@.len(),
                keys@.len() == i,
                forall|j: int| 0 <= j < i ==> #[trigger] keys@[j].key_view() == entry_key(self.entries@, j),
            decreases self.entries@.len() - i,
        {
            keys.push(self.entries[i].0.clone_key());
            i += 1;
        }
        keys
    }

    /// Whether the status expires at `now`, by this handler's failure timeout
    fn expires_now(&self, st: &ResourceStatus<R>, now: u64) -> (expires: bool)
        ensures
            expires == status_expires(*st, now, self.failed_timeout),
    {
        match st {
            ResourceStatus::Ready(ready) => match ready.hold_time {
                Some(hold) => (now.saturating_sub(ready.accessed) as u128) > (hold as u128) * 1000,
                None => false,
            },
            ResourceStatus::Pending(_) => false,
            ResourceStatus::Failed(failed) => (now.saturating_sub(failed.failed_at) as u128) > (self.failed_timeout as u128) * 1000,
        }
    }

    /// Whether the status is a stalled worker at `now`, by this handler's worker timeout
    fn stalls_now(&self, st: &ResourceStatus<R>, now: u64) -> (stalls: bool)
        ensures
            stalls == status_stalls(*st, now, self.thread_timeout),
    {
        match st {
            ResourceStatus::Pending(pending) => (now.saturating_sub(pending.requested_at) as u128) > (self.thread_timeout as u128) * 1000,
            _ => false,
        }
    }

    /// Evaluate the statuses of known resources at `now`: drop the ready resources not accessed
    /// for longer than their hold time and the resources that failed longer ago than the failure
    /// timeout, and fail the pending resources whose worker ran longer than the worker timeout.
    /// Returns the keys of those stalled workers, which the caller must abort.
    ///
    /// Should be called regularly (i.e. every frame)
    pub fn sync(&mut self, now: u64) -> (stalled: Vec<K>)
        requires
            old(self).wf(),
        ensures
            final(self).wf(),
            evaluated(old(self).statuses(), final(self).statuses(), now, old(self).thread_timeout(), old(self).failed_timeout()),
            forall|k: Seq<char>|
                #[trigger] listed(stalled@, k) <==> old(self).statuses().contains_key(k) && status_stalls(
                    old(self).statuses()[k],
                    now,
                    old(self).thread_timeout(),
                ),
            final(self).thread_timeout() == old(self).thread_timeout(),
            final(self).failed_timeout() == old(self).failed_timeout(),
    {
        let ghost before = self.statuses@;
        let keys = self.entry_keys();
        let mut stalled: Vec<K> = Vec::new();
        let ghost mut done: Set<Seq<char>> = Set::empty();
        let mut t: usize = 0;
        while t < keys.len()
            invariant
                self.wf(),
                self.thread_timeout == old(self).thread_timeout,
                self.failed_timeout == old(self).failed_timeout,
                t <= keys@.len(),
                keys@.len() == old(self).entries@.len(),
                forall|i: int| 0 <= i < keys@.len() ==> #[trigger] keys@[i].key_view() == entry_key(old(self).entries@, i),
                before == old(self).statuses@,
                old(self).wf(),
                forall|x: Seq<char>| #[trigger] done.contains(x) <==> exists|s: int| 0 <= s < t && #[trigger] keys@[s].key_view() == x,
                forall|k: Seq<char>| #[trigger] self.statuses@.contains_key(k) ==> before.contains_key(k),
                forall|k: Seq<char>|
                    #[trigger] before.contains_key(k) && !done.contains(k) ==> self.statuses@.contains_key(k)
                        && self.statuses@[k] == before[k],
                forall|k: Seq<char>|
                    #[trigger] before.contains_key(k) && done.contains(k) ==> (self.statuses@.contains_key(k)
                        <==> !status_expires(before[k], now, self.failed_timeout)),
                forall|k: Seq<char>|
                    #[trigger] self.statuses@.contains_key(k) && done.contains(k) ==> if status_stalls(before[k], now, self.thread_timeout) {
                        &&& self.statuses@[k] is Failed
                        &&& self.statuses@[k]->Failed_0.err_msg@ == stall_message()
                        &&& self.statuses@[k]->Failed_0.failed_at == now
                    } else {
                        self.statuses@[k] == before[k]
                    },
                forall|k: Seq<char>|
                    #[trigger] listed(stalled@, k) <==> before.contains_key(k) && done.contains(k) && status_stalls(before[k], now, self.thread_timeout),
            decreases keys@.len() - t,
        {
            let key = &keys[t];
            let ghost k = key.key_view();
            proof {
                assert(entry_key(old(self).entries@, t as int) == k);
                assert(before.contains_key(k));
                assert(!done.contains(k)) by {
                    if done.contains(k) {
                        let s = choose|s: int| 0 <= s < t && #[trigger] keys@[s].key_view() == k;
                        assert(entry_key(old(self).entries@, s) == entry_key(old(self).entries@, t as int));
                    }
                }
            }
            let ghost prev = self.statuses@;
            let ghost prev_stalled = stalled@;
            match self.find(key) {
                Some(i) => {
                    if self.expires_now(&self.entries[i].1, now) {
                        let _ = self.remove_at(i);
                    } else if self.stalls_now(&self.entries[i].1, now) {
                        let failed = ResourceStatus::Failed(Failed {
                            err_msg: String::from_str("Worker thread lost or stalled execution."),
                            failed_at: now,
                        });
                        proof {
                            reveal_strlit("Worker thread lost or stalled execution.");
                        }
                        let _ = self.replace_at(i, failed);
                        stalled.push(key.clone_key());
                    }
                },
                None => {},
            }
            proof {
                assert(prev.contains_key(k) && prev[k] == before[k]);
                if status_stalls(before[k], now, self.thread_timeout) {
                    assert(!status_expires(before[k], now, self.failed_timeout));
                    assert(stalled@ =~= prev_stalled.push(stalled@[stalled@.len() - 1]));
                    assert(stalled@[stalled@.len() - 1].key_view() == k);
                } else {
                    assert(stalled@ == prev_stalled);
                }
                done = done.insert(k);
                assert forall|x: Seq<char>| #[trigger] done.contains(x) <==> exists|s: int| 0 <= s < t + 1 && #[trigger] keys@[s].key_view() == x by {
                    if x == k {
                        assert(keys@[t as int].key_view() == x);
                    }
                }
                assert forall|kk: Seq<char>|
                    #[trigger] listed(stalled@, kk) <==> before.contains_key(kk) && done.contains(kk) && status_stalls(before[kk], now, self.thread_timeout) by {
                    if status_stalls(before[k], now, self.thread_timeout) {
                        lemma_listed_push(prev_stalled, stalled@[stalled@.len() - 1], kk);
                    }
                }
            }
            t += 1;
        }
        proof {
            assert forall|k: Seq<char>| #[trigger] before.contains_key(k) implies done.contains(k) by {
                let i = choose|i: int| 0 <= i < old(self).entries@.len() && #[trigger] entry_key(old(self).entries@, i) == k;
                assert(keys@[i].key_view() == k);
            }
            assert forall|k: Seq<char>|
                #[trigger] listed(stalled@, k) <==> before.contains_key(k) && status_stalls(before[k], now, self.thread_timeout) by {
                if before.contains_key(k) {
                    assert(done.contains(k));
                }
            }
        }
        stalled
    }

    /// Request a new worker to create a resource: returns whether the caller must start one.
    /// Does nothing if a resource with the matching key was already requested; otherwise the
    /// resource is pending from `now`, and keeps `hold_time` (the task's) for when it is created.
    pub fn request_new(&mut self, key: &K, hold_time: Option<u64>, now: u64) -> (start_worker: bool)
        requires
            old(self).wf(),
        ensures
            final(self).wf(),
            start_worker == !old(self).statuses().contains_key(key.key_view()),
            start_worker ==> final(self).statuses() == old(self).statuses().insert(
                key.key_view(),
                ResourceStatus::Pending(Pending { requested_at: now, hold_time }),
            ),
            !start_worker ==> final(self).statuses() == old(self).statuses(),
            final(self).thread_timeout() == old(self).thread_timeout(),
            final(self).failed_timeout() == old(self).failed_timeout(),
    {
        if self.contains(key) {
            return false;
        }
        self.insert_new(key.clone_key(), ResourceStatus::Pending(Pending { requested_at: now, hold_time }));
        true
    }

    /// Request a worker to create a resource if it is unknown or previously failed: returns
    /// whether the caller must start one. A resource that is pending or ready is left alone.
    pub fn request_retry(&mut self, key: &K, hold_time: Option<u64>, now: u64) -> (start_worker: bool)
        requires
            old(self).wf(),
        ensures
            final(self).wf(),
            start_worker == (!old(self).statuses().contains_key(key.key_view())
                || old(self).statuses()[key.key_view()] is Failed),
            start_worker ==> final(self).statuses() == old(self).statuses().insert(
                key.key_view(),
                ResourceStatus::Pending(Pending { requested_at: now, hold_time }),
            ),
            !start_worker ==> final(self).statuses() == old(self).statuses(),
            final(self).thread_timeout() == old(self).thread_timeout(),
            final(self).failed_timeout() == old(self).failed_timeout(),
    {
        let needs_retry = match self.status_of(key) {
            None => true,
            Some(st) => st.is_failed(),
        };
        if needs_retry {
            self.remove(key);
            let started = self.request_new(key, hold_time, now);
            assert(started);
            assert(self.statuses@ =~= old(self).statuses@.insert(
                key.key_view(),
                ResourceStatus::Pending(Pending { requested_at: now, hold_time }),
            ));
        }
        needs_retry
    }

    /// Record the result of a finished worker at `now`: the resource becomes ready, accessed at
    /// `now` and with the hold time its request recorded (none if the key is no longer
    /// pending), or failed with the worker's error message. The result replaces whatever the
    /// key had.
    pub fn complete(&mut self, key: K, result: Result<R, String>, now: u64)
        requires
            old(self).wf(),
        ensures
            final(self).wf(),
            final(self).statuses() == old(self).statuses().insert(
                key.key_view(),
                completed_status(result, recorded_hold_time(old(self).statuses(), key.key_view()), now),
            ),
            final(self).thread_timeout() == old(self).thread_timeout(),
            final(self).failed_timeout() == old(self).failed_timeout(),
    {
        let hold_time = match self.status_of(&key) {
            Some(ResourceStatus::Pending(pending)) => pending.hold_time,
            _ => None,
        };
        let status = match result {
            Ok(rsc) => ResourceStatus::Ready(Ready { rsc, hold_time, accessed: now }),
            Err(e) => ResourceStatus::Failed(Failed { err_msg: e, failed_at: now }),
        };
        match self.find(&key) {
            Some(i) => {
                let _ = self.replace_at(i, status);
            },
            None => {
                self.insert_new(key, status);
            },
        }
    }
}

impl<K: ResourceKey, R> ResourceHandler<K, R> {
    /// Request a resource and wait for its creation, unless the key is already known: then the
    /// resource is looked up as by `get`. The task's work is run in place, and a resource it
    /// creates is stored, ready and accessed at `now`, with the task's hold time; its error is
    /// handed back and nothing is stored.
    pub fn request_wait<F: FnOnce() -> Result<R, String>>(&mut self, key: &K, task: Task<F, R>, now: u64) -> (result: Result<Option<&R>, String>)
        requires
            old(self).wf(),
            call_requires(task.fut, ()),
        ensures
            final(self).wf(),
            final(self).thread_timeout() == old(self).thread_timeout(),
            final(self).failed_timeout() == old(self).failed_timeout(),
            (old(self).statuses().contains_key(key.key_view()) && old(self).statuses()[key.key_view()] is Ready)
                ==> result == Ok::<Option<&R>, String>(Some(&old(self).statuses()[key.key_view()]->Ready_0.rsc))
                && final(self).statuses() == old(self).statuses().insert(
                key.key_view(),
                ResourceStatus::Ready(Ready { accessed: now, ..old(self).statuses()[key.key_view()]->Ready_0 }),
            ),
            (old(self).statuses().contains_key(key.key_view()) && !(old(self).statuses()[key.key_view()] is Ready))
                ==> result == Ok::<Option<&R>, String>(None) && final(self).statuses() == old(self).statuses(),
            !old(self).statuses().contains_key(key.key_view()) ==> exists|out: Result<R, String>|
                #[trigger] call_ensures(task.fut, (), out) && match out {
                    Ok(rsc) => result == Ok::<Option<&R>, String>(Some(&rsc)) && final(self).statuses()
                        == old(self).statuses().insert(
                        key.key_view(),
                        ResourceStatus::Ready(Ready { rsc, hold_time: task.hold_time, accessed: now }),
                    ),
                    Err(msg) => result == Err::<Option<&R>, String>(msg) && final(self).statuses() == old(self).statuses(),
                },
    {
        if self.contains(key) {
            return Ok(self.get(key, now));
        }
        let hold_time = task.hold_time;
        let work = task.fut;
        let out = work();
        match out {
            Ok(rsc) => {
                self.store(key, hold_time, rsc, now);
                proof {
                    assert(self.statuses@.insert(
                        key.key_view(),
                        ResourceStatus::Ready(Ready { accessed: now, ..self.statuses@[key.key_view()]->Ready_0 }),
                    ) =~= self.statuses@);
                }
                Ok(self.get(key, now))
            },
            Err(msg) => Err(msg),
        }
    }
}

/// The text that `Debug` gives for a duration of `ms` milliseconds
pub uninterp spec fn duration_debug_text(ms: u64) -> Seq<char>;

/// Formats `std::time::Duration::from_millis(ms)` with `Debug`; the text is named, not stated.
#[verifier::external_body]
fn duration_debug(ms: u64) -> (text: String)
    ensures
        text@ == duration_debug_text(ms),
{
    format!("{:?}", std::time::Duration::from_millis(ms))
}

/// How a status reads in a report at time `now`
pub open spec fn status_text<R>(st: ResourceStatus<R>, now: u64) -> Seq<char> {
    match st {
        ResourceStatus::Failed(f) => "[FAILED] Error Message: "@ + f.err_msg@,
        ResourceStatus::Pending(p) => "[PENDING] Time since requested: "@ + duration_debug_text(
            elapsed(now, p.requested_at) as u64,
        ) + "s."@,
        ResourceStatus::Ready(r) => "[READY] Time since last accessed: "@ + duration_debug_text(
            elapsed(now, r.accessed) as u64,
        ) + "s"@,
    }
}

/// The report line of one status at time `now`
fn describe_status<R>(st: &ResourceStatus<R>, now: u64) -> (text: String)
    ensures
        text@ == status_text(*st, now),
{
    match st {
        ResourceStatus::Failed(failed) => String::from_str("[FAILED] Error Message: ").concat(failed.err_msg.as_str()),
        ResourceStatus::Pending(pending) => {
            let time = duration_debug(now.saturating_sub(pending.requested_at));
            String::from_str("[PENDING] Time since requested: ").concat(time.as_str()).concat("s.")
        },
        ResourceStatus::Ready(ready) => {
            let time = duration_debug(now.saturating_sub(ready.accessed));
            String::from_str("[READY] Time since last accessed: ").concat(time.as_str()).concat("s")
        },
    }
}

impl<K: ResourceKey, R> ResourceHandler<K, R> {
    /// Every known key with a line that describes its status at time `now`, in storage order.
    /// Useful for debugging purposes.
    pub fn status_of_all(&self, now: u64) -> (all: Vec<(&K, String)>)
        requires
            self.wf(),
        ensures
            forall|i: int| 0 <= i < all@.len() ==> self.statuses().contains_key(#[trigger] all@[i].0.key_view())
                && all@[i].1@ == status_text(self.statuses()[all@[i].0.key_view()], now),
            forall|k: Seq<char>| #[trigger] self.statuses().contains_key(k) ==> exists|i: int|
                0 <= i < all@.len() && #[trigger] all@[i].0.key_view() == k,
            forall|i: int, j: int| 0 <= i < all@.len() && 0 <= j < all@.len() && i != j
                ==> #[trigger] all@[i].0.key_view() != #[trigger] all@[j].0.key_view(),
    {
        let mut all: Vec<(&K, String)> = Vec::new();
        let mut i: usize = 0;
        while i < self.entries.len()
            invariant
                self.wf(),
                i <= self.entries@.len(),
                all@.len() == i,
                forall|j: int| 0 <= j < i ==> #[trigger] all@[j].0.key_view() == entry_key(self.entries@, j)
                    && all@[j].1@ == status_text(self.entries@[j].1, now),
            decreases self.entries@.len() - i,
        {
            let entry = &self.entries[i];
            let text = describe_status(&entry.1, now);
            all.push((&entry.0, text));
            i += 1;
        }
        proof {
            assert forall|k: Seq<char>| #[trigger] self.statuses().contains_key(k) implies exists|j: int|
                0 <= j < all@.len() && #[trigger] all@[j].0.key_view() == k by {
                let j = choose|j: int| 0 <= j < self.entries@.len() && #[trigger] entry_key(self.entries@, j) == k;
                assert(all@[j].0.key_view() == k);
            }
            assert forall|a: int, b: int| 0 <= a < all@.len() && 0 <= b < all@.len() && a != b
                implies #[trigger] all@[a].0.key_view() != #[trigger] all@[b].0.key_view() by {
                assert(entry_key(self.entries@, a) != entry_key(self.entries@, b));
            }
        }
        all
    }
}

/// Evaluating twice at the same time changes nothing the second time: a worker that stalled
/// failed at that very time, and nothing else the first pass kept is due.
pub proof fn law_evaluation_settles<R>(
    first: Map<Seq<char>, ResourceStatus<R>>,
    second: Map<Seq<char>, ResourceStatus<R>>,
    third: Map<Seq<char>, ResourceStatus<R>>,
    now: u64,
    thread_timeout: u64,
    failed_timeout: u64,
)
    requires
        evaluated(first, second, now, thread_timeout, failed_timeout),
        evaluated(second, third, now, thread_timeout, failed_timeout),
    ensures
        third == second,
{
    assert forall|k: Seq<char>| #[trigger] second.contains_key(k) implies third.contains_key(k) && third[k] == second[k] by {
        assert(first.contains_key(k) && !status_expires(first[k], now, failed_timeout));
        if status_stalls(first[k], now, thread_timeout) {
            assert(elapsed(now, second[k]->Failed_0.failed_at) == 0);
        }
    }
    assert(third =~= second);
}

/// A resource stored in the handler is what a lookup of its key gives back, as long as nothing
/// removed it: storing puts the resource, ready, under the key's name.
pub proof fn law_store_then_lookup<R>(
    statuses: Map<Seq<char>, ResourceStatus<R>>,
    k: Seq<char>,
    rsc: R,
    hold_time: Option<u64>,
    now: u64,
)
    ensures
        ({
            let after = statuses.insert(k, ResourceStatus::Ready(Ready { rsc, hold_time, accessed: now }));
            after.contains_key(k) && after[k] is Ready && after[k]->Ready_0.rsc == rsc
        }),
{
}

/// What a worker made is what a lookup of its key gives back once it is recorded: a resource
/// becomes ready under the key's name, and an error leaves the key failed with that message.
pub proof fn law_complete_then_lookup<R>(
    statuses: Map<Seq<char>, ResourceStatus<R>>,
    k: Seq<char>,
    result: Result<R, String>,
    now: u64,
)
    ensures
        ({
            let after = statuses.insert(k, completed_status(result, recorded_hold_time(statuses, k), now));
            &&& after.contains_key(k)
            &&& result is Ok ==> after[k] is Ready && after[k]->Ready_0.rsc == result->Ok_0
            &&& result is Err ==> after[k] is Failed && after[k]->Failed_0.err_msg == result->Err_0
        }),
{
}

/// A resource requested with a hold time keeps that hold time once its worker has created it:
/// after the request and the completion, the key holds the resource, ready, accessed when it
/// was completed and with the hold time of the request.
pub proof fn law_request_then_complete_keeps_hold_time<R>(
    statuses: Map<Seq<char>, ResourceStatus<R>>,
    k: Seq<char>,
    hold_time: Option<u64>,
    requested_at: u64,
    rsc: R,
    now: u64,
)
    ensures
        ({
            let pending = statuses.insert(k, ResourceStatus::Pending(Pending { requested_at, hold_time }));
            let after = pending.insert(k, completed_status(Ok(rsc), recorded_hold_time(pending, k), now));
            after[k] == ResourceStatus::Ready(Ready { rsc, hold_time, accessed: now })
        }),
{
}

/// A sync drops a ready resource only once it outlives its hold time: one stored without a
/// hold time stays, unchanged, however long it goes unaccessed; one with a hold time of `h`
/// seconds stays, unchanged, until it has gone unaccessed for more than `h * 1000`
/// milliseconds, and is gone after that.
pub proof fn law_ready_kept_until_hold_time_passes<R>(
    before: Map<Seq<char>, ResourceStatus<R>>,
    after: Map<Seq<char>, ResourceStatus<R>>,
    k: Seq<char>,
    now: u64,
    thread_timeout: u64,
    failed_timeout: u64,
)
    requires
        evaluated(before, after, now, thread_timeout, failed_timeout),
        before.contains_key(k),
        before[k] is Ready,
    ensures
        before[k]->Ready_0.hold_time is None ==> after.contains_key(k) && after[k] == before[k],
        before[k]->Ready_0.hold_time matches Some(h) ==> {
            let unaccessed: int = if now >= before[k]->Ready_0.accessed {
                now - before[k]->Ready_0.accessed
            } else {
                0
            };
            &&& unaccessed <= h * 1000 ==> after.contains_key(k) && after[k] == before[k]
            &&& unaccessed > h * 1000 ==> !after.contains_key(k)
        },
{
    assert(after.contains_key(k) <==> !status_expires(before[k], now, failed_timeout));
}

/// A sync drops a failed resource once it has been failed for more than the failure timeout,
/// and keeps it, unchanged, until then.
pub proof fn law_failed_kept_until_failure_timeout<R>(
    before: Map<Seq<char>, ResourceStatus<R>>,
    after: Map<Seq<char>, ResourceStatus<R>>,
    k: Seq<char>,
    now: u64,
    thread_timeout: u64,
    failed_timeout: u64,
)
    requires
        evaluated(before, after, now, thread_timeout, failed_timeout),
        before.contains_key(k),
        before[k] is Failed,
    ensures
        ({
            let failed_for: int = if now >= before[k]->Failed_0.failed_at {
                now - before[k]->Failed_0.failed_at
            } else {
                0
            };
            &&& failed_for <= failed_timeout * 1000 ==> after.contains_key(k) && after[k] == before[k]
            &&& failed_for > failed_timeout * 1000 ==> !after.contains_key(k)
        }),
{
    assert(after.contains_key(k) <==> !status_expires(before[k], now, failed_timeout));
}

/// A pending resource never expires; it only fails once its worker stalls.
pub proof fn law_pending_never_expires<R>(st: ResourceStatus<R>, now: u64, failed_timeout: u64)
    requires
        st is Pending,
    ensures
        !status_expires(st, now, failed_timeout),
{
}

/// Keys under which a resource handler stores resources: identified by a name
pub trait ResourceKey: Sized {
    /// The name that identifies the key
    spec fn key_view(&self) -> Seq<char>;

    /// A copy of the key
    fn clone_key(&self) -> (copy: Self)
        ensures
            copy.key_view() == self.key_view(),
    ;

    /// Whether two keys have the same name
    fn same_key(&self, other: &Self) -> (same: bool)
        ensures
            same == (self.key_view() == other.key_view()),
    ;
}

impl ResourceKey for BufferId {
    open spec fn key_view(&self) -> Seq<char> {
        self.0@
    }

    fn clone_key(&self) -> (copy: Self) {
        *self
    }

    fn same_key(&self, other: &Self) -> (same: bool) {
        str_eq(self.0, other.0)
    }
}

impl ResourceKey for TextureId {
    open spec fn key_view(&self) -> Seq<char> {
        self.0@
    }

    fn clone_key(&self) -> (copy: Self) {
        *self
    }

    fn same_key(&self, other: &Self) -> (same: bool) {
        str_eq(self.0, other.0)
    }
}

impl ResourceKey for SamplerId {
    open spec fn key_view(&self) -> Seq<char> {
        self.0@
    }

    fn clone_key(&self) -> (copy: Self) {
        *self
    }

    fn same_key(&self, other: &Self) -> (same: bool) {
        str_eq(self.0, other.0)
    }
}

impl ResourceKey for PipelineId {
    open spec fn key_view(&self) -> Seq<char> {
        self.0@
    }

    fn clone_key(&self) -> (copy: Self) {
        *self
    }

    fn same_key(&self, other: &Self) -> (same: bool) {
        str_eq(self.0, other.0)
    }
}

impl ResourceKey for BindGroupId {
    open spec fn key_view(&self) -> Seq<char> {
        self.0@
    }

    fn clone_key(&self) -> (copy: Self) {
        *self
    }

    fn same_key(&self, other: &Self) -> (same: bool) {
        str_eq(self.0, other.0)
    }
}

impl ResourceKey for LayoutId {
    open spec fn key_view(&self) -> Seq<char> {
        self.0@
    }

    fn clone_key(&self) -> (copy: Self) {
        *self
    }

    fn same_key(&self, other: &Self) -> (same: bool) {
        str_eq(self.0, other.0)
    }
}

} // verus!
