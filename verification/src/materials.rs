use vstd::prelude::*;

verus! {

/// Identifies a material asset: by its runtime index (`AssetIndex::to_bits`) or
/// by the UUID it was registered with.
#[derive(Clone, Copy, Debug, PartialEq, Eq, Structural)]
pub enum MaterialId {
    Index(u64),
    Uuid(u128),
}

/// A change to the material assets.
#[derive(Clone, Copy, Debug, PartialEq, Eq, Structural)]
pub enum MaterialEvent {
    Added(MaterialId),
    Modified(MaterialId),
    Removed(MaterialId),
    Unused(MaterialId),
    LoadedWithDependencies(MaterialId),
}

/// Whether an entry is for another material than `id`.
pub open spec fn other_id<M>(id: MaterialId) -> spec_fn((MaterialId, M)) -> bool {
    |e: (MaterialId, M)| e.0 != id
}

/// The entries whose id is not `id`, in their order.
pub open spec fn without_id<M>(entries: Seq<(MaterialId, M)>, id: MaterialId) -> Seq<(MaterialId, M)> {
    entries.filter(other_id(id))
}

/// What the extracted materials become after `event`, where `asset` is the
/// material that the asset store holds for an added or modified id, if any.
pub open spec fn after_event<M>(entries: Seq<(MaterialId, M)>, event: MaterialEvent, asset: Option<M>) -> Seq<(MaterialId, M)> {
    match event {
        MaterialEvent::Added(id) | MaterialEvent::Modified(id) => match asset {
            Some(m) => entries.push((id, m)),
            None => entries,
        },
        MaterialEvent::Removed(id) => without_id(entries, id),
        _ => entries,
    }
}

/// After a material is removed, no entry for it remains, and every entry for
/// another material is still there.
pub proof fn lemma_removed_material_is_gone<M>(entries: Seq<(MaterialId, M)>, id: MaterialId)
    ensures
        forall|i: int| 0 <= i < without_id(entries, id).len() ==> #[trigger] without_id(entries, id)[i].0 != id,
        forall|i: int| 0 <= i < entries.len() && entries[i].0 != id ==> without_id(entries, id).contains(#[trigger] entries[i]),
        without_id(entries, id).len() <= entries.len(),
{
    broadcast use vstd::seq_lib::group_filter_ensures;

    assert forall|i: int| 0 <= i < without_id(entries, id).len() implies #[trigger] without_id(entries, id)[i].0 != id by {
        assert(other_id::<M>(id)(without_id(entries, id)[i]));
    }
    assert forall|i: int| 0 <= i < entries.len() && entries[i].0 != id implies without_id(entries, id).contains(#[trigger] entries[i]) by {
        assert(other_id::<M>(id)(entries[i]));
    }
}

/// What each asset event does to the extracted materials: a removal drops every
/// entry of the removed material, wherever it stands, and keeps every other
/// entry in order; an addition or modification with a loaded asset appends it;
/// anything else leaves the entries as they are.
pub proof fn lemma_material_events<M>(entries: Seq<(MaterialId, M)>, event: MaterialEvent, asset: Option<M>)
    ensures
        event matches MaterialEvent::Removed(id) ==> {
            &&& after_event(entries, event, asset) == entries.filter(other_id(id))
            &&& forall|k: int| 0 <= k < after_event(entries, event, asset).len()
                ==> #[trigger] after_event(entries, event, asset)[k].0 != id
            &&& forall|i: int| 0 <= i < entries.len() && entries[i].0 != id
                ==> after_event(entries, event, asset).contains(#[trigger] entries[i])
        },
        event matches MaterialEvent::Added(id) ==> {
            &&& asset matches Some(m) ==> after_event(entries, event, asset) == entries.push((id, m))
            &&& asset is None ==> after_event(entries, event, asset) == entries
        },
        event matches MaterialEvent::Modified(id) ==> {
            &&& asset matches Some(m) ==> after_event(entries, event, asset) == entries.push((id, m))
            &&& asset is None ==> after_event(entries, event, asset) == entries
        },
        (event is Unused || event is LoadedWithDependencies) ==> after_event(entries, event, asset) == entries,
{
    if let MaterialEvent::Removed(id) = event {
        lemma_removed_material_is_gone(entries, id);
    }
}

/// The material assets copied into the render world, in the order their
/// additions and modifications arrived.
#[derive(Clone, Debug)]
pub struct ExtractedParticleMaterials<M> {
    materials: Vec<(MaterialId, M)>,
}

impl<M> View for ExtractedParticleMaterials<M> {
    type V = Seq<(MaterialId, M)>;

    closed spec fn view(&self) -> Seq<(MaterialId, M)> {
        self.materials@
    }
}

impl<M> Default for ExtractedParticleMaterials<M> {
    fn default() -> (r: Self)
        ensures
            r@ == Seq::<(MaterialId, M)>::empty(),
    {
        ExtractedParticleMaterials { materials: Vec::new() }
    }
}

impl<M> ExtractedParticleMaterials<M> {
    /// The extracted materials.
    pub fn materials(&self) -> (entries: &Vec<(MaterialId, M)>)
        ensures
            entries@ == self@,
    {
        &self.materials
    }

    /// Drops every entry for `id`, keeping the others in order.
    pub fn remove_id(&mut self, id: MaterialId)
        ensures
            final(self)@ == without_id(old(self)@, id),
    {
        let ghost entries = self.materials@;
        let ghost pred = other_id::<M>(id);
        let n = self.materials.len();
        // Move the entries, last first, into `reversed`...
        let mut reversed: Vec<(MaterialId, M)> = Vec::new();
        while self.materials.len() > 0
            invariant
                self.materials@ == entries.subrange(0, self.materials@.len() as int),
                self.materials@.len() + reversed@.len() == n,
                n == entries.len(),
                forall|k: int| 0 <= k < reversed@.len() ==> #[trigger] reversed@[k] == entries[n - 1 - k],
            decreases self.materials@.len(),
        {
            let entry = self.materials.pop().unwrap();
            reversed.push(entry);
        }
        // ...then back, first first, keeping those with another id.
        while reversed.len() > 0
            invariant
                n == entries.len(),
                reversed@.len() <= n,
                pred == other_id::<M>(id),
                forall|k: int| 0 <= k < reversed@.len() ==> #[trigger] reversed@[k] == entries[n - 1 - k],
                self.materials@ == entries.subrange(0, n - reversed@.len()).filter(pred),
            decreases reversed@.len(),
        {
            let ghost done = n - reversed@.len();
            let entry = reversed.pop().unwrap();
            assert(entry == entries[done]);
            assert(entries.subrange(0, done + 1).drop_last() =~= entries.subrange(0, done));
            let keep = !(entry.0 == id);
            proof {
                reveal_with_fuel(Seq::filter, 1);
                assert(keep == pred(entry));
            }
            if keep {
                self.materials.push(entry);
            }
        }
        assert(entries.subrange(0, n as int) =~= entries);
    }

    /// Applies one asset event: an added or modified material that the asset
    /// store holds (`asset`) is appended; a removed one is dropped.
    pub fn apply_event(&mut self, event: MaterialEvent, asset: Option<M>)
        ensures
            final(self)@ == after_event(old(self)@, event, asset),
            event matches MaterialEvent::Removed(id) ==> final(self)@ == old(self)@.filter(other_id(id))
                && forall|k: int| 0 <= k < final(self)@.len() ==> #[trigger] final(self)@[k].0 != id,
            event matches MaterialEvent::Added(id) ==> final(self)@ == match asset {
                Some(m) => old(self)@.push((id, m)),
                None => old(self)@,
            },
            event matches MaterialEvent::Modified(id) ==> final(self)@ == match asset {
                Some(m) => old(self)@.push((id, m)),
                None => old(self)@,
            },
            (event is Unused || event is LoadedWithDependencies) ==> final(self)@ == old(self)@,
    {
        proof {
            lemma_material_events(self@, event, asset);
        }
        match event {
            MaterialEvent::Added(id) | MaterialEvent::Modified(id) => {
                if let Some(m) = asset {
                    self.materials.push((id, m));
                }
            },
            MaterialEvent::Removed(id) => {
                self.remove_id(id);
            },
            _ => {},
        }
    }
}

} // verus!
