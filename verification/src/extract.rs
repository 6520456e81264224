use vstd::prelude::*;
use core::ops::Range;
use bevy_ecs::entity::{Entity, EntityHashMap};

verus! {

#[verifier::external_type_specification]
#[verifier::external_body]
#[verifier::reject_recursive_types(V)]
pub struct ExEntityHashMap<V>(EntityHashMap<V>);

/// The instance ranges that an `EntityHashMap` of ranges holds, keyed by the
/// entities' bits (`Entity::to_bits`), each range as its start and end.
pub uninterp spec fn batch_ranges(m: EntityHashMap<Range<u32>>) -> Map<u64, (u32, u32)>;

/// `bits` came from `Entity::to_bits`: its low half, the entity index, is never zero.
pub open spec fn is_entity_bits(bits: u64) -> bool {
    bits % 0x1_0000_0000 != 0
}

/// Calls `EntityHashMap::default`: the new map is empty.
#[verifier::external_body]
fn new_batch_map() -> (m: EntityHashMap<Range<u32>>)
    ensures
        batch_ranges(m).dom() == Set::<u64>::empty(),
{
    EntityHashMap::default()
}

/// Calls `HashMap::clear` on the map: it becomes empty.
#[verifier::external_body]
fn batch_map_clear(m: &mut EntityHashMap<Range<u32>>)
    ensures
        batch_ranges(*final(m)).dom() == Set::<u64>::empty(),
{
    m.clear();
}

/// Calls `HashMap::insert` with the entity that `Entity::from_bits` rebuilds from
/// `entity` (whose `to_bits` gives `entity` back): the entity now maps to `range`,
/// whatever it mapped to before, and every other entry stays.
#[verifier::external_body]
fn batch_map_insert(m: &mut EntityHashMap<Range<u32>>, entity: u64, range: Range<u32>)
    requires
        is_entity_bits(entity),
    ensures
        batch_ranges(*final(m)) == batch_ranges(*old(m)).insert(entity, (range.start, range.end)),
{
    m.insert(Entity::from_bits(entity), range);
}

/// Calls `HashMap::contains_key` with the entity rebuilt from `entity`: true
/// exactly when the map holds a range for it.
#[verifier::external_body]
fn batch_map_contains(m: &EntityHashMap<Range<u32>>, entity: u64) -> (b: bool)
    requires
        is_entity_bits(entity),
    ensures
        b == batch_ranges(*m).contains_key(entity),
{
    m.contains_key(&Entity::from_bits(entity))
}

/// Calls `HashMap::iter` and hands each entry out as the entity's bits and its
/// range. The iteration order is the map's own and is not stated; each entry
/// comes out exactly once.
#[verifier::external_body]
fn batch_map_entries(m: &EntityHashMap<Range<u32>>) -> (entries: Vec<(u64, Range<u32>)>)
    ensures
        forall|e: u64| #[trigger] batch_ranges(*m).contains_key(e) ==>
            exists|i: int| 0 <= i < entries@.len() && #[trigger] entries@[i].0 == e,
        forall|i: int| 0 <= i < entries@.len() ==> #[trigger] batch_ranges(*m).contains_key(entries@[i].0)
            && batch_ranges(*m)[entries@[i].0] == (entries@[i].1.start, entries@[i].1.end),
        forall|i: int, j: int| 0 <= i < j < entries@.len() ==> #[trigger] entries@[i].0 != #[trigger] entries@[j].0,
{
    let mut entries = Vec::new();
    for (entity, range) in m.iter() {
        entries.push((entity.to_bits(), range.clone()));
    }
    entries
}

/// The outcome of queueing the first `n` visible entities of a view, each with
/// its depth key if it has one: entities without a batch are skipped; an
/// entity with a batch but no depth key stops the whole queueing (`false`);
/// otherwise the entity is queued (its index in `visible` and its key).
pub open spec fn queue_outcome<Z>(batches: Map<u64, (u32, u32)>, visible: Seq<(u64, Option<Z>)>, n: int) -> (Seq<(usize, Z)>, bool)
    decreases n,
{
    if n <= 0 {
        (Seq::empty(), true)
    } else {
        let (items, go_on) = queue_outcome(batches, visible, n - 1);
        if !go_on {
            (items, false)
        } else if !batches.contains_key(visible[n - 1].0) {
            (items, true)
        } else {
            match visible[n - 1].1 {
                Some(z) => (items.push(((n - 1) as usize, z)), true),
                None => (items, false),
            }
        }
    }
}

proof fn lemma_queue_stays_stopped<Z>(batches: Map<u64, (u32, u32)>, visible: Seq<(u64, Option<Z>)>, i: int, m: int)
    requires
        0 <= i <= m,
        !queue_outcome(batches, visible, i).1,
    ensures
        queue_outcome(batches, visible, m) == queue_outcome(batches, visible, i),
    decreases m - i,
{
    if m > i {
        lemma_queue_stays_stopped(batches, visible, i, m - 1);
    }
}

/// Queueing draws only visible entities that have a batch, each with its own
/// depth key and in the order they are visible; when it does not stop, it
/// queues every visible entity that has a batch; it stops only at a visible
/// entity that has a batch but no depth key.
pub proof fn lemma_queue_draws_only_batched_entities<Z>(batches: Map<u64, (u32, u32)>, visible: Seq<(u64, Option<Z>)>, n: int)
    requires
        0 <= n <= visible.len(),
        visible.len() <= usize::MAX,
    ensures
        ({
            let (items, go_on) = queue_outcome(batches, visible, n);
            &&& forall|k: int| 0 <= k < items.len() ==> {
                let i = #[trigger] items[k].0 as int;
                &&& 0 <= i < n
                &&& batches.contains_key(visible[i].0)
                &&& visible[i].1 == Some(items[k].1)
            }
            &&& forall|k: int, l: int| 0 <= k < l < items.len() ==> #[trigger] items[k].0 < #[trigger] items[l].0
            &&& go_on ==> forall|i: int| 0 <= i < n && #[trigger] batches.contains_key(visible[i].0) ==>
                visible[i].1 is Some && exists|k: int| 0 <= k < items.len() && items[k].0 == i
            &&& !go_on ==> exists|i: int| 0 <= i < n && #[trigger] batches.contains_key(visible[i].0)
                && visible[i].1 is None
        }),
    decreases n,
{
    if n > 0 {
        lemma_queue_draws_only_batched_entities(batches, visible, n - 1);
        let (items, go_on) = queue_outcome(batches, visible, n - 1);
        let (items2, go2) = queue_outcome(batches, visible, n);
        if go_on && batches.contains_key(visible[n - 1].0) {
            if let Some(z) = visible[n - 1].1 {
                assert(items2 == items.push(((n - 1) as usize, z)));
                assert forall|i: int| 0 <= i < n && #[trigger] batches.contains_key(visible[i].0) implies
                    visible[i].1 is Some && exists|k: int| 0 <= k < items2.len() && items2[k].0 == i by {
                    if i == n - 1 {
                        assert(items2[items2.len() - 1].0 == i);
                    } else {
                        let k = choose|k: int| 0 <= k < items.len() && items[k].0 == i;
                        assert(items2[k].0 == i);
                    }
                }
            } else {
                assert(batches.contains_key(visible[n - 1].0) && visible[n - 1].1 is None);
            }
        }
    }
}

/// Marks a render entity that draws a particle batch.
#[derive(Clone, Copy, Debug, PartialEq, Eq, Structural)]
pub struct ParticleTag;

impl Default for ParticleTag {
    fn default() -> (r: Self)
        ensures
            r == ParticleTag,
    {
        ParticleTag
    }
}

/// The range of instances in the shared instance buffer that one spawner draws.
#[derive(Debug, PartialEq, Eq)]
pub struct ParticleInstanceBatch {
    pub range: Range<u32>,
}

/// The instance ranges of the spawners extracted for rendering this frame.
#[derive(Debug)]
pub struct ExtracedParticleSpawner {
    particles: EntityHashMap<Range<u32>>,
}

impl View for ExtracedParticleSpawner {
    type V = Map<u64, (u32, u32)>;

    /// Each extracted spawner's render entity (as its bits) and its instance range.
    closed spec fn view(&self) -> Map<u64, (u32, u32)> {
        batch_ranges(self.particles)
    }
}

impl Default for ExtracedParticleSpawner {
    fn default() -> (r: Self)
        ensures
            r@ == Map::<u64, (u32, u32)>::empty(),
    {
        ExtracedParticleSpawner { particles: new_batch_map() }
    }
}

impl ExtracedParticleSpawner {
    /// Forgets last frame's batches.
    pub fn clear(&mut self)
        ensures
            final(self)@ == Map::<u64, (u32, u32)>::empty(),
    {
        batch_map_clear(&mut self.particles);
    }

    /// Records that `entity` draws the instances appended to the instance buffer
    /// while it grew from `len_before` to `len_after` entries; the range bounds
    /// are the lengths cut to 32 bits.
    pub fn record_batch(&mut self, entity: u64, len_before: usize, len_after: usize)
        requires
            is_entity_bits(entity),
        ensures
            final(self)@ == old(self)@.insert(entity, (len_before as u32, len_after as u32)),
    {
        let start = len_before as u32;
        let end = len_after as u32;
        batch_map_insert(&mut self.particles, entity, start..end);
    }

    /// Whether `entity` has a batch this frame.
    pub fn has_batch(&self, entity: u64) -> (b: bool)
        requires
            is_entity_bits(entity),
        ensures
            b == self@.contains_key(entity),
    {
        batch_map_contains(&self.particles, entity)
    }

    /// The batch component for every extracted entity whose range is not empty,
    /// in the map's own order, each entity once.
    pub fn instance_batches(&self) -> (batches: Vec<(u64, ParticleInstanceBatch)>)
        ensures
            forall|i: int| 0 <= i < batches@.len() ==> {
                let (e, b) = #[trigger] batches@[i];
                &&& self@.contains_key(e)
                &&& self@[e] == (b.range.start, b.range.end)
                &&& b.range.start < b.range.end
            },
            forall|e: u64| #[trigger] self@.contains_key(e) && self@[e].0 < self@[e].1 ==>
                exists|i: int| 0 <= i < batches@.len() && #[trigger] batches@[i].0 == e,
            forall|i: int, j: int| 0 <= i < j < batches@.len() ==> #[trigger] batches@[i].0 != #[trigger] batches@[j].0,
    {
        let entries = batch_map_entries(&self.particles);
        let ghost m = self@;
        let mut batches: Vec<(u64, ParticleInstanceBatch)> = Vec::new();
        let ghost mut taken: Seq<int> = Seq::empty();
        let mut i: usize = 0;
        while i < entries.len()
            invariant
                i <= entries@.len(),
                m == self@,
                forall|e: u64| #[trigger] m.contains_key(e) ==>
                    exists|k: int| 0 <= k < entries@.len() && #[trigger] entries@[k].0 == e,
                forall|k: int| 0 <= k < entries@.len() ==> #[trigger] m.contains_key(entries@[k].0)
                    && m[entries@[k].0] == (entries@[k].1.start, entries@[k].1.end),
                forall|k: int, l: int| 0 <= k < l < entries@.len() ==> #[trigger] entries@[k].0 != #[trigger] entries@[l].0,
                taken.len() == batches@.len(),
                forall|k: int| 0 <= k < batches@.len() ==> 0 <= #[trigger] taken[k] < i
                    && batches@[k].0 == entries@[taken[k]].0
                    && batches@[k].1.range == entries@[taken[k]].1
                    && batches@[k].1.range.start < batches@[k].1.range.end,
                forall|k: int, l: int| 0 <= k < l < batches@.len() ==> #[trigger] taken[k] < #[trigger] taken[l],
                forall|k: int| 0 <= k < i && entries@[k].1.start < entries@[k].1.end ==>
                    exists|l: int| 0 <= l < batches@.len() && #[trigger] taken[l] == k,
            decreases entries@.len() - i,
        {
            let range = &entries[i].1;
            let ghost old_taken = taken;
            if range.start < range.end {
                let batch = ParticleInstanceBatch { range: range.start..range.end };
                batches.push((entries[i].0, batch));
                proof {
                    taken = taken.push(i as int);
                }
            }
            proof {
                assert forall|k: int| 0 <= k < i + 1 && entries@[k].1.start < entries@[k].1.end implies
                    exists|l: int| 0 <= l < batches@.len() && #[trigger] taken[l] == k by {
                    if k == i {
                        assert(taken[taken.len() - 1] == k);
                    } else {
                        let l = choose|l: int| 0 <= l < old_taken.len() && #[trigger] old_taken[l] == k;
                        assert(taken[l] == k);
                    }
                }
            }
            i += 1;
        }
        proof {
            assert forall|k: int| 0 <= k < batches@.len() implies {
                let (e, b) = #[trigger] batches@[k];
                &&& m.contains_key(e)
                &&& m[e] == (b.range.start, b.range.end)
                &&& b.range.start < b.range.end
            } by {
                assert(m.contains_key(entries@[taken[k]].0));
            }
            assert forall|k: int, l: int| 0 <= k < l < batches@.len() implies
                #[trigger] batches@[k].0 != #[trigger] batches@[l].0 by {
                assert(taken[k] < taken[l]);
                assert(entries@[taken[k]].0 != entries@[taken[l]].0);
            }
            assert forall|e: u64| #[trigger] m.contains_key(e) && m[e].0 < m[e].1 implies
                exists|l: int| 0 <= l < batches@.len() && #[trigger] batches@[l].0 == e by {
                let k = choose|k: int| 0 <= k < entries@.len() && #[trigger] entries@[k].0 == e;
                assert(entries@[k].1.start < entries@[k].1.end);
                let l = choose|l: int| 0 <= l < batches@.len() && #[trigger] taken[l] == k;
                assert(batches@[l].0 == e);
            }
        }
        batches
    }

    /// Decides which of a view's visible entities (each with its depth key, if
    /// it has one) are queued for drawing, in order; the flag is `false` when
    /// an entity with a batch lacked a depth key, which ends all queueing for
    /// the frame.
    pub fn queue_visible<Z: Copy>(&self, visible: &Vec<(u64, Option<Z>)>) -> (r: (Vec<(usize, Z)>, bool))
        requires
            forall|i: int| 0 <= i < visible@.len() ==> is_entity_bits(#[trigger] visible@[i].0),
        ensures
            (r.0@, r.1) == queue_outcome(self@, visible@, visible@.len() as int),
            forall|k: int| 0 <= k < r.0@.len() ==> {
                let i = #[trigger] r.0@[k].0 as int;
                &&& 0 <= i < visible@.len()
                &&& self@.contains_key(visible@[i].0)
                &&& visible@[i].1 == Some(r.0@[k].1)
            },
            forall|k: int, l: int| 0 <= k < l < r.0@.len() ==> #[trigger] r.0@[k].0 < #[trigger] r.0@[l].0,
            r.1 ==> forall|i: int| 0 <= i < visible@.len() && #[trigger] self@.contains_key(visible@[i].0) ==>
                visible@[i].1 is Some && exists|k: int| 0 <= k < r.0@.len() && r.0@[k].0 == i,
            !r.1 ==> exists|i: int| 0 <= i < visible@.len() && #[trigger] self@.contains_key(visible@[i].0)
                && visible@[i].1 is None,
    {
        let mut items: Vec<(usize, Z)> = Vec::new();
        let mut i: usize = 0;
        while i < visible.len()
            invariant
                i <= visible@.len(),
                forall|k: int| 0 <= k < visible@.len() ==> is_entity_bits(#[trigger] visible@[k].0),
                queue_outcome(self@, visible@, i as int) == (items@, true),
            decreases visible@.len() - i,
        {
            let entity = visible[i].0;
            if self.has_batch(entity) {
                match visible[i].1 {
                    Some(z) => {
                        items.push((i, z));
                    },
                    None => {
                        assert(queue_outcome(self@, visible@, i + 1) == (items@, false));
                        proof {
                            lemma_queue_stays_stopped(self@, visible@, i + 1, visible@.len() as int);
                            lemma_queue_draws_only_batched_entities(self@, visible@, visible@.len() as int);
                        }
                        return (items, false);
                    },
                }
            }
            i += 1;
        }
        proof {
            lemma_queue_draws_only_batched_entities(self@, visible@, visible@.len() as int);
        }
        (items, true)
    }
}

} // verus!
