use vstd::prelude::*;

use crate::animation::AnimationDescriptor;
use crate::ble::{
    characteristics_after, BLECharacteristicSimImpl, BLEServiceSimImpl, CharacteristicView,
};
use crate::messages::{
    decode_set_animation, decode_set_bpm, encode_set_animation, encode_set_bpm, set_animation_bytes,
    set_animation_of, set_bpm_bytes, set_bpm_of, WireError,
};
use crate::queue::{offered, UpdateQueue, QUEUE_CAPACITY};
use crate::state::{merged, merged_all, DeviceState, PartialDeviceState};
use crate::sync::{received, DevicesSyncer, PeerAnnouncement};

verus! {

/// The level at which the render bridge is asked to start.
pub const RENDER_PRIORITY: u32 = 1;

/// What the orchestrator hands to the render bridge.
#[derive(Clone, Copy, Debug, PartialEq, Eq, Structural)]
pub enum ControlMessage {
    /// Start rendering at the given level.
    Init(u32),
    /// Render this state from now on.
    SetState(DeviceState),
}

/// What became of a write to a characteristic.
#[derive(Clone, Copy, Debug, PartialEq, Eq, Structural)]
pub enum WriteOutcome {
    /// The update waits in the queue for the control-plane task.
    Queued,
    /// The queue was full and the update was dropped.
    Dropped,
    /// The payload did not decode; nothing was queued.
    Invalid(WireError),
}

/// What starting the orchestrator amounts to: the message that starts the render bridge,
/// the values the two characteristics start with, and whether the master task runs.
pub struct InitPlan {
    pub render: ControlMessage,
    pub animation_value: Vec<u8>,
    pub bpm_value: Vec<u8>,
    pub start_master_task: bool,
}

/// The partial state that a decoded `SetAnimation` stands for.
pub open spec fn animation_update(a: AnimationDescriptor) -> PartialDeviceState {
    PartialDeviceState { animation: Some(a), bpm: None }
}

/// The partial state that a decoded `SetBPM` stands for: the tempo cast to 16 bits.
pub open spec fn bpm_update(bpm: i32) -> PartialDeviceState {
    PartialDeviceState { animation: None, bpm: Some(bpm as u16) }
}

/// The outcome of offering `u` to the queue `q`, and the queue after it.
pub open spec fn enqueued(q: Seq<PartialDeviceState>, u: PartialDeviceState) -> (
    Seq<PartialDeviceState>,
    WriteOutcome,
) {
    let (q2, taken) = offered(q, u);
    (q2, if taken { WriteOutcome::Queued } else { WriteOutcome::Dropped })
}

/// The queue `q` after each of `us` was offered to it, in order.
pub open spec fn offered_all(q: Seq<PartialDeviceState>, us: Seq<PartialDeviceState>) -> Seq<
    PartialDeviceState,
>
    decreases us.len(),
{
    if us.len() == 0 {
        q
    } else {
        offered(offered_all(q, us.drop_last()), us.last()).0
    }
}

/// The messages for the render bridge while the updates `us` are merged into `s` in order:
/// the new state after each update that changes it.
pub open spec fn notifications(s: DeviceState, us: Seq<PartialDeviceState>) -> Seq<ControlMessage>
    decreases us.len(),
{
    if us.len() == 0 {
        Seq::empty()
    } else {
        let before = merged_all(s, us.drop_last());
        let after = merged(before, us.last());
        notifications(s, us.drop_last()) + if after == before {
            Seq::empty()
        } else {
            seq![ControlMessage::SetState(after)]
        }
    }
}

/// Wires the `animation` and `bpm` characteristics to the synchronizer and the render bridge.
/// Writes only ever enter the queue; the control-plane task drains it into the synchronizer.
pub struct AnimationsOrchestrator {
    animation_characteristic: BLECharacteristicSimImpl,
    bpm_characteristic: BLECharacteristicSimImpl,
    devices_syncer: DevicesSyncer,
    queue: UpdateQueue,
    master: bool,
}

impl AnimationsOrchestrator {
    pub closed spec fn wf(&self) -> bool {
        self.queue.wf()
    }

    pub closed spec fn state_spec(&self) -> DeviceState {
        self.devices_syncer.state_spec()
    }

    pub closed spec fn stamp_spec(&self) -> u64 {
        self.devices_syncer.stamp_spec()
    }

    pub closed spec fn syncer_master_spec(&self) -> bool {
        self.devices_syncer.master_spec()
    }

    pub closed spec fn queue_spec(&self) -> Seq<PartialDeviceState> {
        self.queue@
    }

    pub closed spec fn master_spec(&self) -> bool {
        self.master
    }

    pub closed spec fn animation_characteristic_spec(&self) -> CharacteristicView {
        self.animation_characteristic@
    }

    pub closed spec fn bpm_characteristic_spec(&self) -> CharacteristicView {
        self.bpm_characteristic@
    }

    /// Registers the readable and writable characteristics `animation` and then `bpm` on
    /// `ble_service`, and keeps the synchronizer and the role of this device.
    pub fn new(ble_service: &mut BLEServiceSimImpl, devices_syncer: DevicesSyncer, master: bool) -> (r:
        Self)
        requires
            old(ble_service).wf(),
        ensures
            final(ble_service).wf(),
            r.wf(),
            r.animation_characteristic_spec() == (CharacteristicView {
                name: "animation"@,
                is_read: true,
                is_write: true,
            }),
            r.bpm_characteristic_spec() == (CharacteristicView {
                name: "bpm"@,
                is_read: true,
                is_write: true,
            }),
            final(ble_service)@.name == old(ble_service)@.name,
            final(ble_service)@.characteristics == characteristics_after(
                characteristics_after(
                    old(ble_service)@.characteristics,
                    r.animation_characteristic_spec(),
                ),
                r.bpm_characteristic_spec(),
            ),
            r.state_spec() == devices_syncer.state_spec(),
            r.stamp_spec() == devices_syncer.stamp_spec(),
            r.syncer_master_spec() == devices_syncer.master_spec(),
            r.queue_spec() == Seq::<PartialDeviceState>::empty(),
            r.master_spec() == master,
    {
        let animation_characteristic = ble_service.register_characteristic("animation", true, true);
        let bpm_characteristic = ble_service.register_characteristic("bpm", true, true);
        AnimationsOrchestrator {
            animation_characteristic,
            bpm_characteristic,
            devices_syncer,
            queue: UpdateQueue::new(),
            master,
        }
    }

    /// The steps of start-up that are decisions: start the render bridge, give both
    /// characteristics the current state's fields, and run the master task on the master only.
    pub fn init(&self) -> (r: InitPlan)
        ensures
            r.render == ControlMessage::Init(RENDER_PRIORITY),
            r.animation_value@ == set_animation_bytes(self.state_spec().animation),
            r.bpm_value@ == set_bpm_bytes(self.state_spec().bpm),
            r.start_master_task == self.master_spec(),
    {
        let state = self.devices_syncer.state();
        InitPlan {
            render: ControlMessage::Init(RENDER_PRIORITY),
            animation_value: encode_set_animation(&state.animation),
            bpm_value: encode_set_bpm(state.bpm),
            start_master_task: self.master,
        }
    }

    pub fn animation_characteristic(&self) -> (r: &BLECharacteristicSimImpl)
        ensures
            r@ == self.animation_characteristic_spec(),
    {
        &self.animation_characteristic
    }

    pub fn bpm_characteristic(&self) -> (r: &BLECharacteristicSimImpl)
        ensures
            r@ == self.bpm_characteristic_spec(),
    {
        &self.bpm_characteristic
    }

    pub fn state(&self) -> (r: DeviceState)
        ensures
            r == self.state_spec(),
    {
        self.devices_syncer.state()
    }

    pub fn is_master(&self) -> (r: bool)
        ensures
            r == self.master_spec(),
    {
        self.master
    }

    pub fn pending(&self) -> (r: usize)
        ensures
            r == self.queue_spec().len(),
    {
        self.queue.len()
    }

    /// What this device broadcasts to its peers.
    pub fn announcement(&self) -> (r: PeerAnnouncement)
        ensures
            r == (PeerAnnouncement {
                state: self.state_spec(),
                stamp: self.stamp_spec(),
                from_master: self.syncer_master_spec(),
            }),
    {
        self.devices_syncer.announcement()
    }

    /// Handles a write to the `animation` characteristic: a payload that decodes becomes an
    /// update offered to the queue; one that does not is refused and nothing is queued.
    pub fn on_animation_write(&mut self, value: &[u8]) -> (r: WriteOutcome)
        requires
            old(self).wf(),
        ensures
            final(self).wf(),
            final(self).state_spec() == old(self).state_spec(),
            final(self).stamp_spec() == old(self).stamp_spec(),
            final(self).master_spec() == old(self).master_spec(),
            final(self).syncer_master_spec() == old(self).syncer_master_spec(),
            final(self).animation_characteristic_spec() == old(self).animation_characteristic_spec(),
            final(self).bpm_characteristic_spec() == old(self).bpm_characteristic_spec(),
            match set_animation_of(value@) {
                Err(e) => r == WriteOutcome::Invalid(e) && final(self).queue_spec() == old(
                    self,
                ).queue_spec(),
                Ok(a) => (final(self).queue_spec(), r) == enqueued(
                    old(self).queue_spec(),
                    animation_update(a),
                ),
            },
    {
        match decode_set_animation(value) {
            Err(e) => WriteOutcome::Invalid(e),
            Ok(a) => self.enqueue(PartialDeviceState { animation: Some(a), bpm: None }),
        }
    }

    /// Handles a write to the `bpm` characteristic, as `on_animation_write` does.
    pub fn on_bpm_write(&mut self, value: &[u8]) -> (r: WriteOutcome)
        requires
            old(self).wf(),
        ensures
            final(self).wf(),
            final(self).state_spec() == old(self).state_spec(),
            final(self).stamp_spec() == old(self).stamp_spec(),
            final(self).master_spec() == old(self).master_spec(),
            final(self).syncer_master_spec() == old(self).syncer_master_spec(),
            final(self).animation_characteristic_spec() == old(self).animation_characteristic_spec(),
            final(self).bpm_characteristic_spec() == old(self).bpm_characteristic_spec(),
            match set_bpm_of(value@) {
                Err(e) => r == WriteOutcome::Invalid(e) && final(self).queue_spec() == old(
                    self,
                ).queue_spec(),
                Ok(m) => (final(self).queue_spec(), r) == enqueued(
                    old(self).queue_spec(),
                    bpm_update(m.bpm),
                ),
            },
    {
        match decode_set_bpm(value) {
            Err(e) => WriteOutcome::Invalid(e),
            Ok(m) => self.enqueue(PartialDeviceState { animation: None, bpm: Some(m.bpm as u16) }),
        }
    }

    fn enqueue(&mut self, u: PartialDeviceState) -> (r: WriteOutcome)
        requires
            old(self).wf(),
        ensures
            final(self).wf(),
            final(self).devices_syncer == old(self).devices_syncer,
            final(self).master == old(self).master,
            final(self).animation_characteristic == old(self).animation_characteristic,
            final(self).bpm_characteristic == old(self).bpm_characteristic,
            (final(self).queue_spec(), r) == enqueued(old(self).queue_spec(), u),
    {
        if self.queue.try_push(u) {
            WriteOutcome::Queued
        } else {
            WriteOutcome::Dropped
        }
    }

    /// The control-plane task's work: takes the queued updates out one at a time, oldest
    /// first, merges each into the synchronizer, and returns a `SetState` for each change.
    pub fn drain(&mut self) -> (r: Vec<ControlMessage>)
        requires
            old(self).wf(),
        ensures
            final(self).wf(),
            final(self).queue_spec() == Seq::<PartialDeviceState>::empty(),
            final(self).state_spec() == merged_all(old(self).state_spec(), old(self).queue_spec()),
            r@ == notifications(old(self).state_spec(), old(self).queue_spec()),
            final(self).master_spec() == old(self).master_spec(),
            final(self).syncer_master_spec() == old(self).syncer_master_spec(),
    {
        let ghost s0 = self.state_spec();
        let ghost q0 = self.queue_spec();
        let mut out: Vec<ControlMessage> = Vec::new();
        let ghost mut k: int = 0;
        while self.queue.len() > 0
            invariant
                self.wf(),
                0 <= k <= q0.len(),
                self.queue_spec() == q0.subrange(k, q0.len() as int),
                self.state_spec() == merged_all(s0, q0.subrange(0, k)),
                out@ == notifications(s0, q0.subrange(0, k)),
                self.master_spec() == old(self).master_spec(),
                self.syncer_master_spec() == old(self).syncer_master_spec(),
            decreases self.queue_spec().len(),
        {
            let u = self.queue.pop().unwrap();
            proof {
                assert(q0.subrange(0, k + 1).drop_last() =~= q0.subrange(0, k));
                assert(q0.subrange(0, k + 1).last() == u);
            }
            let changed = self.devices_syncer.partial_state_update(&u);
            match changed {
                Some(s) => out.push(ControlMessage::SetState(s)),
                None => {},
            }
            proof {
                k = k + 1;
                assert(self.queue_spec() =~= q0.subrange(k, q0.len() as int));
            }
        }
        assert(q0.subrange(0, k) =~= q0);
        out
    }

    /// Takes in a peer's announcement; returns the `SetState` for the render bridge when the
    /// canonical state changed.
    pub fn on_peer_state(&mut self, a: &PeerAnnouncement) -> (r: Option<ControlMessage>)
        requires
            old(self).wf(),
        ensures
            final(self).wf(),
            final(self).queue_spec() == old(self).queue_spec(),
            final(self).master_spec() == old(self).master_spec(),
            final(self).syncer_master_spec() == old(self).syncer_master_spec(),
            (final(self).state_spec(), final(self).stamp_spec()) == received(
                old(self).state_spec(),
                old(self).stamp_spec(),
                old(self).syncer_master_spec(),
                *a,
            ),
            r == (if final(self).state_spec() == old(self).state_spec() {
                None
            } else {
                Some(ControlMessage::SetState(final(self).state_spec()))
            }),
    {
        match self.devices_syncer.receive_peer_state(a) {
            Some(s) => Some(ControlMessage::SetState(s)),
            None => None,
        }
    }
}

/// Routes a write that the radio delivered for the characteristic named `char_id` to its
/// handler. Returns whether a handler was found; what the handler did with the payload does
/// not change the answer.
pub fn on_characteristic_write(orchestrator: &mut AnimationsOrchestrator, char_id: &str, data: &[u8]) -> (r:
    bool)
    requires
        old(orchestrator).wf(),
    ensures
        final(orchestrator).wf(),
        r == (char_id@ == old(orchestrator).animation_characteristic_spec().name || char_id@
            == old(orchestrator).bpm_characteristic_spec().name),
        char_id@ == old(orchestrator).animation_characteristic_spec().name ==> match set_animation_of(data@) {
            Err(_) => final(orchestrator).queue_spec() == old(orchestrator).queue_spec(),
            Ok(a) => final(orchestrator).queue_spec() == offered(
                old(orchestrator).queue_spec(),
                animation_update(a),
            ).0,
        },
        char_id@ != old(orchestrator).animation_characteristic_spec().name && char_id@
            == old(orchestrator).bpm_characteristic_spec().name ==> match set_bpm_of(data@) {
            Err(_) => final(orchestrator).queue_spec() == old(orchestrator).queue_spec(),
            Ok(m) => final(orchestrator).queue_spec() == offered(
                old(orchestrator).queue_spec(),
                bpm_update(m.bpm),
            ).0,
        },
        !r ==> final(orchestrator).queue_spec() == old(orchestrator).queue_spec(),
        final(orchestrator).state_spec() == old(orchestrator).state_spec(),
        final(orchestrator).master_spec() == old(orchestrator).master_spec(),
        final(orchestrator).animation_characteristic_spec() == old(orchestrator).animation_characteristic_spec(),
        final(orchestrator).bpm_characteristic_spec() == old(orchestrator).bpm_characteristic_spec(),
{
    let id = char_id.to_owned();
    if id == orchestrator.animation_characteristic.name() {
        orchestrator.on_animation_write(data);
        true
    } else if id == orchestrator.bpm_characteristic.name() {
        orchestrator.on_bpm_write(data);
        true
    } else {
        false
    }
}

/// Updates offered in order to a queue with room for all of them wait there in that same
/// order, behind what was queued before; draining then merges them in that order.
pub proof fn lemma_queue_keeps_arrival_order(q: Seq<PartialDeviceState>, us: Seq<PartialDeviceState>)
    requires
        q.len() + us.len() <= QUEUE_CAPACITY,
    ensures
        offered_all(q, us) == q + us,
    decreases us.len(),
{
    if us.len() > 0 {
        lemma_queue_keeps_arrival_order(q, us.drop_last());
        assert(q + us =~= (q + us.drop_last()).push(us.last()));
    } else {
        assert(q + us =~= q);
    }
}

/// Updates written one after the other into an empty queue, with room for all of them,
/// leave the state, once drained, as merging them into it in the order written does.
pub proof fn lemma_drain_follows_write_order(s: DeviceState, us: Seq<PartialDeviceState>)
    requires
        us.len() <= QUEUE_CAPACITY,
    ensures
        merged_all(s, offered_all(Seq::empty(), us)) == merged_all(s, us),
{
    lemma_queue_keeps_arrival_order(Seq::empty(), us);
    assert(Seq::<PartialDeviceState>::empty() + us =~= us);
}

} // verus!
