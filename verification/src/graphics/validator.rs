use vstd::prelude::*;

use crate::graphics::context::{BindGroupId, PipelineId};
use crate::graphics::handler::{ResourceKey, lemma_listed_push, listed};

verus! {

/// Whether one of the keys is named like `key`
fn contains_key<K: ResourceKey>(keys: &Vec<K>, key: &K) -> (found: bool)
    ensures
        found == listed(keys@, key.key_view()),
{
    let mut i: usize = 0;
    while i < keys.len()
        invariant
            i <= keys@.len(),
            forall|a: int| 0 <= a < i ==> #[trigger] keys@[a].key_view() != key.key_view(),
        decreases keys@.len() - i,
    {
        if keys[i].same_key(key) {
            return true;
        }
        i += 1;
    }
    false
}

/// Remove every key named like `key`
fn remove_key<K: ResourceKey>(keys: &mut Vec<K>, key: &K)
    ensures
        forall|x: Seq<char>| #[trigger] listed(final(keys)@, x) == (listed(old(keys)@, x) && x != key.key_view()),
{
    let mut kept: Vec<K> = Vec::new();
    let mut i: usize = 0;
    while i < keys.len()
        invariant
            i <= keys@.len(),
            keys@ == old(keys)@,
            forall|x: Seq<char>|
                #[trigger] listed(kept@, x) == (listed(keys@.take(i as int), x) && x != key.key_view()),
        decreases keys@.len() - i,
    {
        let ghost before = kept@;
        if !keys[i].same_key(key) {
            kept.push(keys[i].clone_key());
        }
        proof {
            assert(keys@.take(i + 1) =~= keys@.take(i as int).push(keys@[i as int]));
            assert forall|x: Seq<char>| #[trigger] listed(kept@, x) == (listed(keys@.take(i + 1), x) && x != key.key_view()) by {
                lemma_listed_push(keys@.take(i as int), keys@[i as int], x);
                if kept@.len() > before.len() {
                    assert(kept@ =~= before.push(kept@[before.len() as int]));
                    lemma_listed_push(before, kept@[before.len() as int], x);
                }
            }
        }
        i += 1;
    }
    assert(keys@.take(keys@.len() as int) =~= keys@);
    *keys = kept;
}

/// Add a key unless one named like it is there
fn insert_key<K: ResourceKey>(keys: &mut Vec<K>, key: K)
    ensures
        forall|x: Seq<char>| #[trigger] listed(final(keys)@, x) == (listed(old(keys)@, x) || x == key.key_view()),
{
    if !contains_key(keys, &key) {
        let ghost before = keys@;
        keys.push(key);
        proof {
            assert forall|x: Seq<char>| #[trigger] listed(keys@, x) == (listed(before, x) || x == key.key_view()) by {
                lemma_listed_push(before, key, x);
            }
        }
    }
}

/// Tracks which bind groups and pipelines are known to be ready, so that they need not be
/// validated again until something they depend on is invalidated
pub struct PassValidator {
    known_bind_groups: Vec<BindGroupId>,
    known_pipelines: Vec<PipelineId>,
}

impl PassValidator {
    /// The names of the bind groups known to be ready
    pub closed spec fn known_bind_groups(&self) -> Set<Seq<char>> {
        Set::new(|x: Seq<char>| listed(self.known_bind_groups@, x))
    }

    /// The names of the pipelines known to be ready
    pub closed spec fn known_pipelines(&self) -> Set<Seq<char>> {
        Set::new(|x: Seq<char>| listed(self.known_pipelines@, x))
    }

    pub fn new() -> (validator: Self)
        ensures
            validator.known_bind_groups() == Set::<Seq<char>>::empty(),
            validator.known_pipelines() == Set::<Seq<char>>::empty(),
    {
        let validator = Self { known_bind_groups: Vec::new(), known_pipelines: Vec::new() };
        assert(validator.known_bind_groups() =~= Set::<Seq<char>>::empty());
        assert(validator.known_pipelines() =~= Set::<Seq<char>>::empty());
        validator
    }

    /// Whether the bind group is known to be ready
    pub fn is_bind_group_known(&self, bg_id: &BindGroupId) -> (known: bool)
        ensures
            known == self.known_bind_groups().contains(bg_id.0@),
    {
        contains_key(&self.known_bind_groups, bg_id)
    }

    /// Whether the pipeline is known to be ready
    pub fn is_pipeline_known(&self, pip_id: &PipelineId) -> (known: bool)
        ensures
            known == self.known_pipelines().contains(pip_id.0@),
    {
        contains_key(&self.known_pipelines, pip_id)
    }

    /// Record that the bind group passed validation
    pub fn mark_bind_group_known(&mut self, bg_id: BindGroupId)
        ensures
            final(self).known_bind_groups() == old(self).known_bind_groups().insert(bg_id.0@),
            final(self).known_pipelines() == old(self).known_pipelines(),
    {
        insert_key(&mut self.known_bind_groups, bg_id);
        assert(self.known_bind_groups() =~= old(self).known_bind_groups().insert(bg_id.0@));
        assert(self.known_pipelines() =~= old(self).known_pipelines());
    }

    /// Record that the pipeline passed validation
    pub fn mark_pipeline_known(&mut self, pip_id: PipelineId)
        ensures
            final(self).known_pipelines() == old(self).known_pipelines().insert(pip_id.0@),
            final(self).known_bind_groups() == old(self).known_bind_groups(),
    {
        insert_key(&mut self.known_pipelines, pip_id);
        assert(self.known_pipelines() =~= old(self).known_pipelines().insert(pip_id.0@));
        assert(self.known_bind_groups() =~= old(self).known_bind_groups());
    }

    /// Invalidate a bind group, indicating it was destroyed/removed. This also invalidates the
    /// pipelines that use it, which the caller lists in `dependents`.
    pub fn invalidate_bind_group(&mut self, bg_id: &BindGroupId, dependents: &[PipelineId])
        ensures
            final(self).known_bind_groups() == old(self).known_bind_groups().remove(bg_id.0@),
            final(self).known_pipelines() == old(self).known_pipelines().difference(
                Set::new(|x: Seq<char>| listed(dependents@, x)),
            ),
    {
        remove_key(&mut self.known_bind_groups, bg_id);
        assert(self.known_bind_groups() =~= old(self).known_bind_groups().remove(bg_id.0@));
        let ghost start = self.known_pipelines@;
        let ghost bgs = self.known_bind_groups@;
        let mut i: usize = 0;
        while i < dependents.len()
            invariant
                i <= dependents@.len(),
                self.known_bind_groups@ == bgs,
                forall|x: Seq<char>|
                    #[trigger] listed(self.known_pipelines@, x) == (listed(start, x) && !listed(
                        dependents@.take(i as int),
                        x,
                    )),
            decreases dependents@.len() - i,
        {
            remove_key(&mut self.known_pipelines, &dependents[i]);
            proof {
                assert(dependents@.take(i + 1) =~= dependents@.take(i as int).push(dependents@[i as int]));
                assert forall|x: Seq<char>| #[trigger] listed(self.known_pipelines@, x) == (listed(start, x) && !listed(dependents@.take(i + 1), x)) by {
                    lemma_listed_push(dependents@.take(i as int), dependents@[i as int], x);
                }
            }
            i += 1;
        }
        assert(dependents@.take(dependents@.len() as int) =~= dependents@);
        assert(self.known_bind_groups() =~= old(self).known_bind_groups().remove(bg_id.0@));
        assert(self.known_pipelines() =~= old(self).known_pipelines().difference(
            Set::new(|x: Seq<char>| listed(dependents@, x)),
        ));
    }

    /// Invalidate a pipeline, indicating it was destroyed/removed.
    pub fn invalidate_pipeline(&mut self, pip_id: &PipelineId)
        ensures
            final(self).known_pipelines() == old(self).known_pipelines().remove(pip_id.0@),
            final(self).known_bind_groups() == old(self).known_bind_groups(),
    {
        remove_key(&mut self.known_pipelines, pip_id);
        assert(self.known_pipelines() =~= old(self).known_pipelines().remove(pip_id.0@));
        assert(self.known_bind_groups() =~= old(self).known_bind_groups());
    }
}

} // verus!
