//! The records of the materials, each under a handle that is never given out twice.

use crate::error::MaterialError;
use crate::material::{LinearRgba, ShaderMaterial};
use vstd::prelude::*;

verus! {

/// The identity of a material: the handle that the store gave it when it was created.
#[derive(Clone, Copy, Debug, PartialEq, Eq, Structural, Hash)]
pub struct MaterialId {
    index: usize,
}

impl View for MaterialId {
    type V = nat;

    /// The place of the material among all that its store ever created, counted from zero.
    closed spec fn view(&self) -> nat {
        self.index as nat
    }
}

impl MaterialId {
    /// The handle of the material created at place `index`.
    pub(crate) fn at(index: usize) -> (id: MaterialId)
        ensures
            id@ == index,
    {
        MaterialId { index }
    }

    /// The place of the material among all that its store ever created.
    pub fn index(&self) -> (index: usize)
        ensures
            index == self@,
    {
        self.index
    }

    /// Two handles with the same place are the same handle.
    pub proof fn lemma_view(self, other: MaterialId)
        ensures
            self@ == other@ ==> self == other,
    {
    }
}

/// The live records in the first `upto` slots, each with its place, in the order in
/// which they were created.
pub open spec fn live_records(slots: Seq<Option<ShaderMaterial>>, upto: nat) -> Seq<
    (nat, ShaderMaterial),
>
    decreases upto,
{
    if upto == 0 {
        Seq::empty()
    } else {
        let before = live_records(slots, (upto - 1) as nat);
        match slots[upto - 1] {
            Some(record) => before.push(((upto - 1) as nat, record)),
            None => before,
        }
    }
}

/// Every entry of `live_records` is a live record under its own place, the entries come
/// in rising order of place, and every live record among the first `upto` slots has its
/// entry.
pub proof fn lemma_live_records(slots: Seq<Option<ShaderMaterial>>, upto: nat)
    requires
        upto <= slots.len(),
    ensures
        live_records(slots, upto).len() <= upto,
        forall|k: int|
            0 <= k < live_records(slots, upto).len() ==> {
                let entry = #[trigger] live_records(slots, upto)[k];
                entry.0 < upto && slots[entry.0 as int] == Some(entry.1)
            },
        forall|j: int, k: int|
            0 <= j < k < live_records(slots, upto).len() ==> (#[trigger] live_records(
                slots,
                upto,
            )[j]).0 < (#[trigger] live_records(slots, upto)[k]).0,
        forall|i: int|
            0 <= i < upto && (#[trigger] slots[i]) is Some ==> exists|k: int|
                0 <= k < live_records(slots, upto).len() && (#[trigger] live_records(
                    slots,
                    upto,
                )[k]).0 == i,
    decreases upto,
{
    if upto > 0 {
        let before = live_records(slots, (upto - 1) as nat);
        let now = live_records(slots, upto);
        lemma_live_records(slots, (upto - 1) as nat);
        assert forall|i: int| 0 <= i < upto && (#[trigger] slots[i]) is Some implies exists|k: int|
            0 <= k < now.len() && (#[trigger] now[k]).0 == i by {
            if i < upto - 1 {
                let k = choose|k: int| 0 <= k < before.len() && (#[trigger] before[k]).0 == i;
                assert(now[k] == before[k]);
            } else {
                assert(now[now.len() - 1].0 == i);
            }
        }
    }
}

/// The store of material records. A slot holds the record of a live material and is
/// empty once the material has been removed; slots are never used again.
pub struct MaterialStore {
    slots: Vec<Option<ShaderMaterial>>,
}

impl View for MaterialStore {
    type V = Seq<Option<ShaderMaterial>>;

    /// One slot for every material ever created, in the order of creation.
    closed spec fn view(&self) -> Seq<Option<ShaderMaterial>> {
        self.slots@
    }
}

impl MaterialStore {
    /// Whether `id` names a live record.
    pub open spec fn contains(self, id: MaterialId) -> bool {
        id@ < self@.len() && self@[id@ as int] is Some
    }

    /// A store without records.
    pub fn new() -> (store: MaterialStore)
        ensures
            store@ == Seq::<Option<ShaderMaterial>>::empty(),
    {
        MaterialStore { slots: Vec::new() }
    }

    /// The number of materials ever created, removed ones included.
    pub fn len(&self) -> (len: usize)
        ensures
            len == self@.len(),
    {
        self.slots.len()
    }

    /// Adds a record and returns its handle, which no earlier record of this store has.
    pub fn create(&mut self, initial: ShaderMaterial) -> (id: MaterialId)
        ensures
            id@ == old(self)@.len(),
            final(self)@ == old(self)@.push(Some(initial)),
            !old(self).contains(id),
            final(self).contains(id),
    {
        let index: usize = self.slots.len();
        self.slots.push(Some(initial));
        MaterialId { index }
    }

    /// The record under `id`, to be changed in place.
    pub fn get_mut(&mut self, id: MaterialId) -> (found: Result<&mut ShaderMaterial, MaterialError>)
        ensures
            found is Ok <==> old(self).contains(id),
            found matches Err(e) ==> e == MaterialError::NotFound && final(self)@ == old(self)@,
            found matches Ok(record) ==> *record == old(self)@[id@ as int]->0 && final(self)@
                == old(self)@.update(id@ as int, Some(*final(record))),
    {
        if id.index >= self.slots.len() {
            return Err(MaterialError::NotFound);
        }
        match &mut self.slots[id.index] {
            Some(record) => Ok(record),
            None => Err(MaterialError::NotFound),
        }
    }

    /// The live records with their handles, in the order in which they were created.
    pub fn iterate(&self) -> (entries: Vec<(MaterialId, &ShaderMaterial)>)
        ensures
            entries@.len() == live_records(self@, self@.len()).len(),
            forall|k: int|
                0 <= k < entries@.len() ==> {
                    let entry = #[trigger] entries@[k];
                    let live = live_records(self@, self@.len())[k];
                    entry.0@ == live.0 && *entry.1 == live.1
                },
    {
        let mut entries: Vec<(MaterialId, &ShaderMaterial)> = Vec::new();
        let mut index: usize = 0;
        while index < self.slots.len()
            invariant
                index <= self.slots@.len(),
                entries@.len() == live_records(self@, index as nat).len(),
                forall|k: int|
                    0 <= k < entries@.len() ==> {
                        let entry = #[trigger] entries@[k];
                        let live = live_records(self@, index as nat)[k];
                        entry.0@ == live.0 && *entry.1 == live.1
                    },
            decreases self.slots@.len() - index,
        {
            match &self.slots[index] {
                Some(record) => {
                    entries.push((MaterialId { index }, record));
                },
                None => {},
            }
            index = index + 1;
        }
        entries
    }

    /// Takes the record under `id` out of the store. Its handle is stale from then on.
    pub fn remove(&mut self, id: MaterialId) -> (removed: Result<ShaderMaterial, MaterialError>)
        ensures
            removed is Ok <==> old(self).contains(id),
            removed matches Err(e) ==> e == MaterialError::NotFound && final(self)@ == old(self)@,
            removed matches Ok(record) ==> Some(record) == old(self)@[id@ as int] && final(self)@
                == old(self)@.update(id@ as int, None),
    {
        if id.index >= self.slots.len() {
            return Err(MaterialError::NotFound);
        }
        match self.slots[id.index] {
            Some(record) => {
                self.slots[id.index] = None;
                Ok(record)
            },
            None => Err(MaterialError::NotFound),
        }
    }
}

/// Creates the material that a run starts with: the given colour at frame zero.
pub fn setup(store: &mut MaterialStore, color: LinearRgba) -> (id: MaterialId)
    ensures
        id@ == old(store)@.len(),
        final(store)@ == old(store)@.push(Some(ShaderMaterial { color, frame: 0 })),
        final(store).contains(id),
{
    store.create(ShaderMaterial { color, frame: 0 })
}

} // verus!
