//! The first stage of a frame: the records are moved on by one frame and copied for the
//! render side.
//!
//! The frame counter advances here and nowhere else, once for every frame. What the render
//! side later writes is the copy as it was taken.

use crate::material::ShaderMaterial;
use crate::store::{live_records, MaterialId, MaterialStore};
use vstd::prelude::*;

verus! {

/// The records as extraction leaves them: every live record moved on by one frame.
pub open spec fn extracted(records: Seq<Option<ShaderMaterial>>) -> Seq<Option<ShaderMaterial>> {
    Seq::new(
        records.len(),
        |i: int|
            match records[i] {
                Some(record) => Some(record.advanced()),
                None => None,
            },
    )
}

/// The records after `frames` extractions.
pub open spec fn extracted_by(records: Seq<Option<ShaderMaterial>>, frames: nat) -> Seq<
    Option<ShaderMaterial>,
>
    decreases frames,
{
    if frames == 0 {
        records
    } else {
        extracted(extracted_by(records, (frames - 1) as nat))
    }
}

/// The place where extraction leaves the snapshots for preparation: one slot for every
/// material of the store, which holds the latest snapshot of a live material and nothing
/// for a removed one.
pub struct Snapshots {
    slots: Vec<Option<ShaderMaterial>>,
}

impl View for Snapshots {
    type V = Seq<Option<ShaderMaterial>>;

    /// The slots, by the place of the material.
    closed spec fn view(&self) -> Seq<Option<ShaderMaterial>> {
        self.slots@
    }
}

impl Snapshots {
    /// The snapshot under `id`, if there is one.
    pub open spec fn snapshot(self, id: nat) -> Option<ShaderMaterial> {
        if id < self@.len() {
            self@[id as int]
        } else {
            None
        }
    }

    /// A handoff area without snapshots.
    pub fn new() -> (handoff: Snapshots)
        ensures
            handoff@ == Seq::<Option<ShaderMaterial>>::empty(),
    {
        Snapshots { slots: Vec::new() }
    }

    /// The number of slots.
    pub fn len(&self) -> (len: usize)
        ensures
            len == self@.len(),
    {
        self.slots.len()
    }

    /// The snapshot that was last published for `id`.
    pub fn get(&self, id: MaterialId) -> (snapshot: Option<ShaderMaterial>)
        ensures
            snapshot == self.snapshot(id@),
    {
        if id.index() < self.slots.len() {
            self.slots[id.index()]
        } else {
            None
        }
    }

    /// The snapshots with the handles of their materials, in the order in which the
    /// materials were created.
    pub fn iterate(&self) -> (entries: Vec<(MaterialId, ShaderMaterial)>)
        ensures
            entries@.len() == live_records(self@, self@.len()).len(),
            forall|k: int|
                0 <= k < entries@.len() ==> {
                    let entry = #[trigger] entries@[k];
                    let live = live_records(self@, self@.len())[k];
                    entry.0@ == live.0 && entry.1 == live.1
                },
    {
        let mut entries: Vec<(MaterialId, ShaderMaterial)> = Vec::new();
        let mut index: usize = 0;
        while index < self.slots.len()
            invariant
                index <= self.slots@.len(),
                entries@.len() == live_records(self@, index as nat).len(),
                forall|k: int|
                    0 <= k < entries@.len() ==> {
                        let entry = #[trigger] entries@[k];
                        let live = live_records(self@, index as nat)[k];
                        entry.0@ == live.0 && entry.1 == live.1
                    },
            decreases self.slots@.len() - index,
        {
            match self.slots[index] {
                Some(snapshot) => {
                    entries.push((MaterialId::at(index), snapshot));
                },
                None => {},
            }
            index = index + 1;
        }
        entries
    }

    /// The snapshot in slot `index`.
    pub(crate) fn slot(&self, index: usize) -> (snapshot: Option<ShaderMaterial>)
        requires
            index < self@.len(),
        ensures
            snapshot == self@[index as int],
    {
        self.slots[index]
    }
}

/// Runs extraction for one frame. Every live record of the store moves on by one frame,
/// and the handoff area then holds a copy of every record as it stands after that; what
/// it held before is overwritten. No record is added or removed, no colour changes, and
/// no frame counter decreases.
pub fn extract_material(store: &mut MaterialStore, handoff: &mut Snapshots)
    ensures
        final(store)@ == extracted(old(store)@),
        final(handoff)@ == final(store)@,
        final(store)@.len() == old(store)@.len(),
        forall|i: int|
            0 <= i < old(store)@.len() ==> match (#[trigger] old(store)@[i], final(store)@[i]) {
                (Some(before), Some(after)) => after.color == before.color && after.frame
                    >= before.frame,
                (None, None) => true,
                _ => false,
            },
{
    let mut slots: Vec<Option<ShaderMaterial>> = Vec::new();
    let mut index: usize = 0;
    while index < store.len()
        invariant
            index <= store@.len(),
            store@.len() == old(store)@.len(),
            slots@.len() == index,
            forall|i: int| 0 <= i < index ==> #[trigger] store@[i] == extracted(old(store)@)[i],
            forall|i: int| index <= i < store@.len() ==> #[trigger] store@[i] == old(store)@[i],
            forall|i: int| 0 <= i < index ==> #[trigger] slots@[i] == store@[i],
        decreases store@.len() - index,
    {
        let snapshot: Option<ShaderMaterial> = match store.get_mut(MaterialId::at(index)) {
            Ok(record) => {
                record.advance();
                Some(record.extract_asset())
            },
            Err(_) => None,
        };
        slots.push(snapshot);
        index = index + 1;
    }
    handoff.slots = slots;
    assert(store@ =~= extracted(old(store)@));
    assert(handoff@ =~= store@);
}

/// After `frames` extractions every live record has moved on by `frames` frames, and a
/// removed one is still removed. The frame counter of a live record has grown by
/// `frames`, or stands at the largest value if that is less, and it is never lower after
/// one more extraction.
pub proof fn lemma_frames_extracted(records: Seq<Option<ShaderMaterial>>, frames: nat)
    ensures
        extracted_by(records, frames).len() == records.len(),
        forall|i: int|
            0 <= i < records.len() ==> #[trigger] extracted_by(records, frames)[i] == match records[i] {
                Some(record) => Some(record.advanced_by(frames)),
                None => None,
            },
        forall|i: int|
            0 <= i < records.len() && records[i] is Some ==> {
                let then = records[i]->0.frame;
                let now = (#[trigger] extracted_by(records, frames)[i])->0.frame;
                let next = extracted_by(records, frames + 1)[i]->0.frame;
                &&& now == if then + frames <= u32::MAX {
                    then + frames
                } else {
                    u32::MAX as int
                }
                &&& then <= now <= next
            },
    decreases frames,
{
    if frames > 0 {
        lemma_frames_extracted(records, (frames - 1) as nat);
    }
    assert(extracted_by(records, frames + 1) == extracted(extracted_by(records, frames)));
    assert forall|i: int| 0 <= i < records.len() && records[i] is Some implies {
        let then = records[i]->0.frame;
        let now = (#[trigger] extracted_by(records, frames)[i])->0.frame;
        let next = extracted_by(records, frames + 1)[i]->0.frame;
        &&& now == if then + frames <= u32::MAX {
            then + frames
        } else {
            u32::MAX as int
        }
        &&& then <= now <= next
    } by {
        records[i]->0.lemma_frames_counted(frames);
    }
}

} // verus!
