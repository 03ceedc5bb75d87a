//! The second stage of a frame: every material that has a snapshot gets its buffer and
//! binding set, once, and its snapshot written into the buffer; a material that is gone
//! gives its resources back.
//!
//! The stage does not talk to the backend. It tells the host what to ask of the backend
//! and is told what the backend answered.

use crate::error::MaterialError;
use crate::extract::Snapshots;
use crate::gpu::{
    report, reported, BindGroupId, BindingLayout, BufferBinding, BufferId, BufferUsage, GpuAction,
    GpuRequest, PrepareEvent, Released, ShaderMaterialGpu, StageVisibility,
};
use crate::layout::{block_size, BLOCK_SIZE};
use crate::material::ShaderMaterial;
use crate::store::MaterialId;
use vstd::prelude::*;

verus! {

/// How far a material has come on the render side.
#[derive(Clone, Copy, Debug, PartialEq, Eq, Structural)]
pub enum Residency {
    /// It has no resources and none are under way.
    Uninitialized,
    /// Its buffer has been asked for.
    AwaitingBuffer,
    /// Its buffer exists and its binding set has been asked for.
    AwaitingBindGroup { buffer: BufferId },
    /// Its buffer and binding set exist.
    Resident(ShaderMaterialGpu),
    /// The backend refused a resource. The material has none and gets none unless the
    /// host asks for another attempt.
    Failed(MaterialError),
    /// The material is gone from the store, and its resources were given back.
    Destroyed,
}

/// The use that the material's buffer is created for: shaders read it as a uniform
/// block, and the queue copies into it.
pub open spec fn uniform_usage() -> BufferUsage {
    BufferUsage { uniform: true, copy_dst: true }
}

/// The binding of all of `buffer` to slot zero.
pub open spec fn whole_buffer(buffer: BufferId) -> BufferBinding {
    BufferBinding { binding: 0, buffer, offset: 0, size: None }
}

/// The request that gives back a resource that came without being waited for.
pub open spec fn unwanted(event: PrepareEvent) -> GpuRequest {
    match event {
        PrepareEvent::BufferCreated(buffer) => GpuRequest::Release(
            Released { buffer: Some(buffer), bind_group: None },
        ),
        PrepareEvent::BindGroupCreated(bind_group) => GpuRequest::Release(
            Released { buffer: None, bind_group: Some(bind_group) },
        ),
        _ => GpuRequest::Nothing,
    }
}

/// The state of a material after an event. An event that the state does not wait for
/// leaves it as it is.
pub open spec fn next_state(state: Residency, event: PrepareEvent) -> Residency {
    match (state, event) {
        (Residency::Uninitialized, PrepareEvent::Requested) => Residency::AwaitingBuffer,
        (Residency::AwaitingBuffer, PrepareEvent::BufferCreated(buffer)) => {
            Residency::AwaitingBindGroup { buffer }
        },
        (Residency::AwaitingBuffer, PrepareEvent::Refused(error)) => Residency::Failed(
            reported(error),
        ),
        (Residency::AwaitingBindGroup { buffer }, PrepareEvent::BindGroupCreated(bind_group)) => {
            Residency::Resident(ShaderMaterialGpu { buffer, bind_group })
        },
        (Residency::AwaitingBindGroup { buffer }, PrepareEvent::Refused(error)) => {
            Residency::Failed(reported(error))
        },
        _ => state,
    }
}

/// What the host is to do after an event for a material whose snapshot is `extracted`.
/// The buffer is asked for with the snapshot's block as its contents, the binding set as
/// soon as the buffer exists. When the binding set is refused, the buffer is given back.
/// A resource that comes without being waited for is given back at once.
pub open spec fn next_request(
    state: Residency,
    extracted: ShaderMaterial,
    event: PrepareEvent,
) -> GpuRequest {
    match (state, event) {
        (Residency::Uninitialized, PrepareEvent::Requested) => GpuRequest::CreateBuffer {
            contents: extracted.std140_bytes(),
            usage: uniform_usage(),
        },
        (Residency::AwaitingBuffer, PrepareEvent::BufferCreated(buffer)) => {
            GpuRequest::CreateBindGroup(whole_buffer(buffer))
        },
        (Residency::AwaitingBindGroup { buffer }, PrepareEvent::BindGroupCreated(bind_group)) => {
            GpuRequest::Nothing
        },
        (Residency::AwaitingBindGroup { buffer }, PrepareEvent::Refused(error)) => {
            GpuRequest::Release(Released { buffer: Some(buffer), bind_group: None })
        },
        _ => unwanted(event),
    }
}

/// The state of a material once the frame's snapshots have been seen to. A material
/// without a snapshot is gone.
pub open spec fn settled_state(state: Residency, snapshot: Option<ShaderMaterial>) -> Residency {
    match snapshot {
        Some(_) => state,
        None => Residency::Destroyed,
    }
}

/// What the host is to do for a material once the frame's snapshots have been seen to.
/// The snapshot of a resident material is written over its buffer, from the start. The
/// resources of a material that is gone are given back.
pub open spec fn settled_request(state: Residency, snapshot: Option<ShaderMaterial>) -> GpuRequest {
    match (state, snapshot) {
        (Residency::Resident(gpu), Some(extracted)) => GpuRequest::WriteBuffer {
            buffer: gpu.buffer,
            offset: 0,
            bytes: extracted.std140_bytes(),
            frame: extracted.frame,
        },
        (Residency::Resident(gpu), None) => GpuRequest::Release(
            Released { buffer: Some(gpu.buffer), bind_group: Some(gpu.bind_group) },
        ),
        (Residency::AwaitingBindGroup { buffer }, None) => GpuRequest::Release(
            Released { buffer: Some(buffer), bind_group: None },
        ),
        _ => GpuRequest::Nothing,
    }
}

/// The layout that the material declares for its binding: one uniform buffer in slot
/// zero, seen by the fragment stage alone, at a fixed offset, of at least the block's size.
pub open spec fn material_binding_layout() -> BindingLayout {
    BindingLayout {
        binding: 0,
        visibility: StageVisibility { vertex: false, fragment: true, compute: false },
        uniform: true,
        has_dynamic_offset: false,
        min_binding_size: BLOCK_SIZE as u64,
    }
}

/// The material's block is as long as the least size that its binding's layout
/// declares, so that the buffer created for a snapshot can always be bound.
pub proof fn lemma_block_fits_binding(material: ShaderMaterial)
    ensures
        material.std140_bytes().len() == material_binding_layout().min_binding_size,
        material_binding_layout().min_binding_size > 0,
{
}

impl ShaderMaterial {
    /// Takes the preparation of this snapshot's material one step on: from its state and
    /// what happened, to its next state and what the host is to do.
    pub fn prepare_asset(&self, state: Residency, event: PrepareEvent) -> (step: (
        Residency,
        GpuAction,
    ))
        ensures
            step.0 == next_state(state, event),
            step.1@ == next_request(state, *self, event),
    {
        match (state, event) {
            (Residency::Uninitialized, PrepareEvent::Requested) => (
                Residency::AwaitingBuffer,
                GpuAction::CreateBuffer {
                    contents: self.as_std140_bytes(),
                    usage: BufferUsage { uniform: true, copy_dst: true },
                },
            ),
            (Residency::AwaitingBuffer, PrepareEvent::BufferCreated(buffer)) => (
                Residency::AwaitingBindGroup { buffer },
                GpuAction::CreateBindGroup(
                    BufferBinding { binding: 0, buffer, offset: 0, size: None },
                ),
            ),
            (Residency::AwaitingBuffer, PrepareEvent::Refused(error)) => (
                Residency::Failed(report(error)),
                GpuAction::Nothing,
            ),
            (
                Residency::AwaitingBindGroup { buffer },
                PrepareEvent::BindGroupCreated(bind_group),
            ) => (
                Residency::Resident(ShaderMaterialGpu { buffer, bind_group }),
                GpuAction::Nothing,
            ),
            (Residency::AwaitingBindGroup { buffer }, PrepareEvent::Refused(error)) => (
                Residency::Failed(report(error)),
                GpuAction::Release(Released { buffer: Some(buffer), bind_group: None }),
            ),
            (_, PrepareEvent::BufferCreated(buffer)) => (
                state,
                GpuAction::Release(Released { buffer: Some(buffer), bind_group: None }),
            ),
            (_, PrepareEvent::BindGroupCreated(bind_group)) => (
                state,
                GpuAction::Release(Released { buffer: None, bind_group: Some(bind_group) }),
            ),
            _ => (state, GpuAction::Nothing),
        }
    }

    /// Where the material's fragment shader lies among the assets.
    pub fn fragment_shader() -> (path: &'static str)
        ensures
            path@ == "shaders/custom_material.wgsl"@,
    {
        "shaders/custom_material.wgsl"
    }

    /// The binding set of a resident material, for the draw call.
    pub fn bind_group(render_asset: &ShaderMaterialGpu) -> (bind_group: BindGroupId)
        ensures
            bind_group == render_asset.bind_group,
    {
        render_asset.bind_group
    }

    /// The layout of the material's binding, which the shader must match.
    pub fn bind_group_layout() -> (layout: BindingLayout)
        ensures
            layout == material_binding_layout(),
    {
        BindingLayout {
            binding: 0,
            visibility: StageVisibility { vertex: false, fragment: true, compute: false },
            uniform: true,
            has_dynamic_offset: false,
            min_binding_size: block_size() as u64,
        }
    }
}

/// The table in which no material has anything.
pub open spec fn vacant() -> Map<nat, Residency> {
    Map::new(|id: nat| true, |id: nat| Residency::Uninitialized)
}

/// The table after an event for the material `id`: that material takes its step, and
/// every other material stays as it is.
pub open spec fn table_after(table: Map<nat, Residency>, id: nat, event: PrepareEvent) -> Map<
    nat,
    Residency,
> {
    table.insert(id, next_state(table[id], event))
}

/// The table once the frame's snapshots have been seen to.
pub open spec fn table_settled(
    table: Map<nat, Residency>,
    snapshots: Seq<Option<ShaderMaterial>>,
) -> Map<nat, Residency> {
    Map::new(
        |id: nat| true,
        |id: nat|
            if id < snapshots.len() {
                settled_state(table[id], snapshots[id as int])
            } else {
                table[id]
            },
    )
}

/// The render side's table of materials, by identity.
pub struct PrepareStage {
    table: Vec<Residency>,
}

impl View for PrepareStage {
    type V = Map<nat, Residency>;

    /// The state of every material. One that the stage has not heard of is uninitialized.
    closed spec fn view(&self) -> Map<nat, Residency> {
        Map::new(
            |id: nat| true,
            |id: nat|
                if id < self.table@.len() {
                    self.table@[id as int]
                } else {
                    Residency::Uninitialized
                },
        )
    }
}

impl PrepareStage {
    /// A stage that has prepared nothing.
    pub fn new() -> (stage: PrepareStage)
        ensures
            stage@ == vacant(),
    {
        let stage = PrepareStage { table: Vec::new() };
        assert(stage@ =~= vacant());
        stage
    }

    /// Makes the table at least `len` entries long without changing any state.
    fn reserve(&mut self, len: usize)
        ensures
            final(self)@ == old(self)@,
            final(self).table@.len() == if old(self).table@.len() < len {
                len as nat
            } else {
                old(self).table@.len()
            },
    {
        while self.table.len() < len
            invariant
                self@ == old(self)@,
                self.table@.len() >= old(self).table@.len(),
                self.table@.len() > old(self).table@.len() ==> self.table@.len() <= len,
            decreases len - self.table@.len(),
        {
            self.table.push(Residency::Uninitialized);
            assert(self@ =~= old(self)@);
        }
    }

    /// How far the material `id` has come.
    pub fn residency(&self, id: MaterialId) -> (state: Residency)
        ensures
            state == self@[id@],
    {
        if id.index() < self.table.len() {
            self.table[id.index()]
        } else {
            Residency::Uninitialized
        }
    }

    /// The binding set of the material `id` for the draw call, if the material is
    /// resident.
    pub fn bind_group(&self, id: MaterialId) -> (bind_group: Option<BindGroupId>)
        ensures
            bind_group == match self@[id@] {
                Residency::Resident(gpu) => Some(gpu.bind_group),
                _ => None,
            },
    {
        match self.residency(id) {
            Residency::Resident(gpu) => Some(ShaderMaterial::bind_group(&gpu)),
            _ => None,
        }
    }

    /// Takes in an event for the material `id`, whose snapshot is `extracted`, and says
    /// what the host is to do next for it. No other material is touched.
    pub fn on_event(
        &mut self,
        id: MaterialId,
        extracted: &ShaderMaterial,
        event: PrepareEvent,
    ) -> (action: GpuAction)
        ensures
            final(self)@ == table_after(old(self)@, id@, event),
            action@ == next_request(old(self)@[id@], *extracted, event),
    {
        let state: Residency = self.residency(id);
        let step: (Residency, GpuAction) = extracted.prepare_asset(state, event);
        if id.index() < self.table.len() {
            self.table[id.index()] = step.0;
        } else if step.0 != Residency::Uninitialized {
            self.reserve(id.index());
            self.table.push(step.0);
        }
        assert(self@ =~= table_after(old(self)@, id@, event));
        step.1
    }

    /// Lets a failed material be prepared anew, on the host's decision. Says whether the
    /// material was a failed one.
    pub fn retry(&mut self, id: MaterialId) -> (again: bool)
        ensures
            again == (old(self)@[id@] is Failed),
            final(self)@ == if again {
                old(self)@.insert(id@, Residency::Uninitialized)
            } else {
                old(self)@
            },
    {
        match self.residency(id) {
            Residency::Failed(_) => {
                self.table[id.index()] = Residency::Uninitialized;
                assert(self@ =~= old(self)@.insert(id@, Residency::Uninitialized));
                true
            },
            _ => false,
        }
    }
}

/// Runs preparation for one frame, after the host has seen to the resources of the
/// materials that have a snapshot. Entry `i` of the result says what the host is to do
/// for the material at place `i`: write its snapshot over its buffer if it is resident,
/// give back what it holds if it is gone from the store, and nothing otherwise. The
/// bytes written are those of the snapshot in `handoff`, whatever the store holds by now.
pub fn prepare_material(stage: &mut PrepareStage, handoff: &Snapshots) -> (actions: Vec<GpuAction>)
    ensures
        actions@.len() == handoff@.len(),
        forall|i: int|
            0 <= i < actions@.len() ==> (#[trigger] actions@[i])@ == settled_request(
                old(stage)@[i as nat],
                handoff@[i],
            ),
        final(stage)@ == table_settled(old(stage)@, handoff@),
{
    stage.reserve(handoff.len());
    let mut actions: Vec<GpuAction> = Vec::new();
    let mut index: usize = 0;
    while index < handoff.len()
        invariant
            index <= handoff@.len() <= stage.table@.len(),
            actions@.len() == index,
            forall|i: int|
                0 <= i < index ==> (#[trigger] actions@[i])@ == settled_request(
                    old(stage)@[i as nat],
                    handoff@[i],
                ),
            forall|i: nat|
                i < index ==> #[trigger] stage@[i] == settled_state(
                    old(stage)@[i],
                    handoff@[i as int],
                ),
            forall|i: nat| i >= index ==> #[trigger] stage@[i] == old(stage)@[i],
        decreases handoff@.len() - index,
    {
        let state: Residency = stage.table[index];
        let snapshot: Option<ShaderMaterial> = handoff.slot(index);
        let ghost before = stage@;
        assert(before[index as nat] == state);
        let action: GpuAction = match (state, snapshot) {
            (Residency::Resident(gpu), Some(extracted)) => GpuAction::WriteBuffer {
                buffer: gpu.buffer,
                offset: 0,
                bytes: extracted.as_std140_bytes(),
                frame: extracted.frame,
            },
            (Residency::Resident(gpu), None) => GpuAction::Release(
                Released { buffer: Some(gpu.buffer), bind_group: Some(gpu.bind_group) },
            ),
            (Residency::AwaitingBindGroup { buffer }, None) => GpuAction::Release(
                Released { buffer: Some(buffer), bind_group: None },
            ),
            _ => GpuAction::Nothing,
        };
        if snapshot.is_none() {
            stage.table[index] = Residency::Destroyed;
        }
        assert forall|i: nat| i != index implies #[trigger] stage@[i] == before[i] by {}
        actions.push(action);
        index = index + 1;
    }
    assert(stage@ =~= table_settled(old(stage)@, handoff@));
    actions
}

/// The buffers that a material in `state` holds.
pub open spec fn buffers_held(state: Residency) -> Set<BufferId> {
    match state {
        Residency::AwaitingBindGroup { buffer } => set![buffer],
        Residency::Resident(gpu) => set![gpu.buffer],
        _ => Set::empty(),
    }
}

/// The binding sets that a material in `state` holds.
pub open spec fn bind_groups_held(state: Residency) -> Set<BindGroupId> {
    match state {
        Residency::Resident(gpu) => set![gpu.bind_group],
        _ => Set::empty(),
    }
}

/// The buffers that come into being with `event`.
pub open spec fn buffers_delivered(event: PrepareEvent) -> Set<BufferId> {
    match event {
        PrepareEvent::BufferCreated(buffer) => set![buffer],
        _ => Set::empty(),
    }
}

/// The binding sets that come into being with `event`.
pub open spec fn bind_groups_delivered(event: PrepareEvent) -> Set<BindGroupId> {
    match event {
        PrepareEvent::BindGroupCreated(bind_group) => set![bind_group],
        _ => Set::empty(),
    }
}

/// The buffers that `request` gives back.
pub open spec fn buffers_released(request: GpuRequest) -> Set<BufferId> {
    match request {
        GpuRequest::Release(Released { buffer: Some(buffer), bind_group }) => set![buffer],
        _ => Set::empty(),
    }
}

/// The binding sets that `request` gives back.
pub open spec fn bind_groups_released(request: GpuRequest) -> Set<BindGroupId> {
    match request {
        GpuRequest::Release(Released { buffer, bind_group: Some(bind_group) }) => set![bind_group],
        _ => Set::empty(),
    }
}

/// Creation is all or nothing. A material holds a binding set only together with its
/// buffer, and a failed, destroyed or untouched one holds neither. No step loses a
/// resource: what a material held and what came with the event is held afterwards or
/// given back, and nothing else is.
pub proof fn lemma_all_or_nothing(state: Residency, extracted: ShaderMaterial, event: PrepareEvent)
    ensures
        bind_groups_held(state).len() <= buffers_held(state).len() <= 1,
        state is Failed || state is Destroyed || state is Uninitialized ==> buffers_held(state)
            == Set::<BufferId>::empty() && bind_groups_held(state) == Set::<BindGroupId>::empty(),
        buffers_held(next_state(state, event)) + buffers_released(
            next_request(state, extracted, event),
        ) == buffers_held(state) + buffers_delivered(event),
        bind_groups_held(next_state(state, event)) + bind_groups_released(
            next_request(state, extracted, event),
        ) == bind_groups_held(state) + bind_groups_delivered(event),
{
}

/// Seeing to a frame's snapshots loses no resource either: what a material held is held
/// afterwards or given back.
pub proof fn lemma_settling_keeps_or_releases(state: Residency, snapshot: Option<ShaderMaterial>)
    ensures
        buffers_held(settled_state(state, snapshot)) + buffers_released(
            settled_request(state, snapshot),
        ) == buffers_held(state),
        bind_groups_held(settled_state(state, snapshot)) + bind_groups_released(
            settled_request(state, snapshot),
        ) == bind_groups_held(state),
{
}

/// What a run of frames has come to for one material.
pub struct Tally {
    pub state: Residency,
    /// How often a buffer was created.
    pub buffers_created: nat,
    /// How often a binding set was created.
    pub bind_groups_created: nat,
    /// How often the buffer was written.
    pub writes: nat,
}

/// One frame for a material whose snapshot is `extracted`: the host asks the stage to
/// see to it, the backend creates whatever is asked of it and names it as `gpu` says, and
/// the frame's snapshots are seen to.
pub open spec fn frame_served(
    before: Tally,
    extracted: ShaderMaterial,
    gpu: ShaderMaterialGpu,
) -> Tally {
    let asked = next_request(before.state, extracted, PrepareEvent::Requested);
    let begun = next_state(before.state, PrepareEvent::Requested);
    let has_buffer = if asked is CreateBuffer {
        next_state(begun, PrepareEvent::BufferCreated(gpu.buffer))
    } else {
        begun
    };
    let asked_next = if asked is CreateBuffer {
        next_request(begun, extracted, PrepareEvent::BufferCreated(gpu.buffer))
    } else {
        GpuRequest::Nothing
    };
    let has_both = if asked_next is CreateBindGroup {
        next_state(has_buffer, PrepareEvent::BindGroupCreated(gpu.bind_group))
    } else {
        has_buffer
    };
    Tally {
        state: settled_state(has_both, Some(extracted)),
        buffers_created: before.buffers_created + if asked is CreateBuffer {
            1nat
        } else {
            0nat
        },
        bind_groups_created: before.bind_groups_created + if asked_next is CreateBindGroup {
            1nat
        } else {
            0nat
        },
        writes: before.writes + if settled_request(has_both, Some(extracted)) is WriteBuffer {
            1nat
        } else {
            0nat
        },
    }
}

/// The first `frames` frames of a material that starts as `record` and is extracted
/// before each of them, with a backend that names what it creates in frame `k`, counted
/// from zero, as `gpus(k)` says.
pub open spec fn frames_served(
    record: ShaderMaterial,
    gpus: spec_fn(nat) -> ShaderMaterialGpu,
    frames: nat,
) -> Tally
    decreases frames,
{
    if frames == 0 {
        Tally {
            state: Residency::Uninitialized,
            buffers_created: 0,
            bind_groups_created: 0,
            writes: 0,
        }
    } else {
        frame_served(
            frames_served(record, gpus, (frames - 1) as nat),
            record.advanced_by(frames),
            gpus((frames - 1) as nat),
        )
    }
}

/// Over any number of frames a material gets one buffer and one binding set, those of
/// its first frame, and its buffer is written in every frame, the first included. The
/// write of the last frame carries the record as that frame's extraction left it.
pub proof fn lemma_created_once(
    record: ShaderMaterial,
    gpus: spec_fn(nat) -> ShaderMaterialGpu,
    frames: nat,
)
    requires
        frames >= 1,
    ensures
        frames_served(record, gpus, frames).state == Residency::Resident(gpus(0)),
        frames_served(record, gpus, frames).buffers_created == 1,
        frames_served(record, gpus, frames).bind_groups_created == 1,
        frames_served(record, gpus, frames).writes == frames,
        settled_request(
            frames_served(record, gpus, frames).state,
            Some(record.advanced_by(frames)),
        ) == (GpuRequest::WriteBuffer {
            buffer: gpus(0).buffer,
            offset: 0,
            bytes: record.advanced_by(frames).std140_bytes(),
            frame: record.advanced_by(frames).frame,
        }),
    decreases frames,
{
    if frames > 1 {
        lemma_created_once(record, gpus, (frames - 1) as nat);
    } else {
        assert(frames_served(record, gpus, 0).state == Residency::Uninitialized);
    }
}

/// The table after a run of events for the material `id`.
pub open spec fn table_after_all(
    table: Map<nat, Residency>,
    id: nat,
    events: Seq<PrepareEvent>,
) -> Map<nat, Residency>
    decreases events.len(),
{
    if events.len() == 0 {
        table
    } else {
        table_after(table_after_all(table, id, events.drop_last()), id, events.last())
    }
}

/// Whatever happens to one material, a failure included, leaves every other material as
/// it was.
pub proof fn lemma_events_touch_one_material(
    table: Map<nat, Residency>,
    id: nat,
    events: Seq<PrepareEvent>,
    other: nat,
)
    requires
        other != id,
    ensures
        table_after_all(table, id, events)[other] == table[other],
    decreases events.len(),
{
    if events.len() > 0 {
        lemma_events_touch_one_material(table, id, events.drop_last(), other);
    }
}

/// A material whose preparation fails does not keep another from becoming resident in
/// the same frame. After any run of events for `troubled`, an untouched material `sound`
/// whose resources the backend creates is resident with them, its snapshot is written,
/// and `troubled` is where its own events left it.
pub proof fn lemma_failure_is_isolated(
    table: Map<nat, Residency>,
    troubled: nat,
    events: Seq<PrepareEvent>,
    sound: nat,
    gpu: ShaderMaterialGpu,
    snapshots: Seq<Option<ShaderMaterial>>,
)
    requires
        troubled != sound,
        table[sound] is Uninitialized,
        sound < snapshots.len(),
        snapshots[sound as int] is Some,
    ensures
        ({
            let after_trouble = table_after_all(table, troubled, events);
            let served = table_after(
                table_after(
                    table_after(after_trouble, sound, PrepareEvent::Requested),
                    sound,
                    PrepareEvent::BufferCreated(gpu.buffer),
                ),
                sound,
                PrepareEvent::BindGroupCreated(gpu.bind_group),
            );
            &&& served[sound] == Residency::Resident(gpu)
            &&& served[troubled] == after_trouble[troubled]
            &&& table_settled(served, snapshots)[sound] == Residency::Resident(gpu)
            &&& settled_request(served[sound], snapshots[sound as int]) is WriteBuffer
        }),
{
    lemma_events_touch_one_material(table, troubled, events, sound);
}

/// What is written for a frame is the record as extraction left it. A change to the
/// store's record after extraction does not reach the bytes: they are the block of the
/// snapshot, and the block of a different record is a different block.
pub proof fn lemma_write_is_of_snapshot(
    records: Seq<Option<ShaderMaterial>>,
    id: nat,
    changed: ShaderMaterial,
    gpu: ShaderMaterialGpu,
)
    requires
        id < records.len(),
        records[id as int] is Some,
        records[id as int]->0.color.is_finite(),
        changed.color.is_finite(),
    ensures
        ({
            let snapshots = crate::extract::extracted(records);
            let store_later = snapshots.update(id as int, Some(changed));
            let snapshot = records[id as int]->0.advanced();
            &&& snapshots[id as int] == Some(snapshot)
            &&& settled_request(Residency::Resident(gpu), snapshots[id as int])
                == (GpuRequest::WriteBuffer {
                buffer: gpu.buffer,
                offset: 0,
                bytes: snapshot.std140_bytes(),
                frame: snapshot.frame,
            })
            &&& store_later[id as int] != snapshots[id as int] ==> changed.std140_bytes()
                != snapshot.std140_bytes()
        }),
{
    let snapshot = records[id as int]->0.advanced();
    snapshot.lemma_round_trip(changed);
    changed.lemma_round_trip(snapshot);
}

} // verus!
