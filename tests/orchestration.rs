use ledsync::animation::{AnimationDescriptor, RainbowAnimation, SolidAnimation};
use ledsync::ble::BLEServiceSimImpl;
use ledsync::driver::create_ble_server;
use ledsync::messages::{encode_set_animation, encode_set_bpm, WireError};
use ledsync::orchestrator::{
    on_characteristic_write, AnimationsOrchestrator, ControlMessage, WriteOutcome, RENDER_PRIORITY,
};
use ledsync::queue::QUEUE_CAPACITY;
use ledsync::state::{DeviceState, DEFAULT_BPM};
use ledsync::sync::DevicesSyncer;

fn orchestrator(master: bool) -> AnimationsOrchestrator {
    let mut service = BLEServiceSimImpl::new("animations");
    AnimationsOrchestrator::new(&mut service, DevicesSyncer::new(DeviceState::default(), master), master)
}

#[test]
fn new_registers_both_characteristics() {
    let mut service = BLEServiceSimImpl::new("animations");
    let o = AnimationsOrchestrator::new(&mut service, DevicesSyncer::new(DeviceState::default(), false), false);
    assert_eq!(o.animation_characteristic().get_name(), "animation");
    assert_eq!(o.bpm_characteristic().get_name(), "bpm");
    assert!(o.animation_characteristic().is_read() && o.animation_characteristic().is_write());
    assert!(o.bpm_characteristic().is_read() && o.bpm_characteristic().is_write());
    assert_eq!(service.get_name(), "animations");
    assert!(!o.is_master());
}

#[test]
fn registering_a_name_twice_keeps_one_entry() {
    let mut service = BLEServiceSimImpl::new("svc");
    let a = service.register_characteristic("x", true, false);
    let b = service.register_characteristic("x", false, true);
    assert_eq!(a.get_name(), b.get_name());
    assert!(b.is_write() && !b.is_read());
    let c = b.clone();
    assert_eq!(c.get_name(), "x");
    let copy = service.clone();
    assert_eq!(copy.get_name(), "svc");
}

#[test]
fn server_registers_services() {
    let mut server = create_ble_server();
    let s = server.register_service("animations");
    assert_eq!(s.get_name(), "animations");
    let again = server.register_service("animations");
    assert_eq!(again.get_name(), "animations");
}

#[test]
fn init_preloads_current_state() {
    let o = orchestrator(true);
    let plan = o.init();
    assert_eq!(plan.render, ControlMessage::Init(RENDER_PRIORITY));
    assert_eq!(
        plan.animation_value,
        encode_set_animation(&AnimationDescriptor::Rainbow(RainbowAnimation { speed: 0 }))
    );
    assert_eq!(plan.bpm_value, encode_set_bpm(DEFAULT_BPM));
    assert!(plan.start_master_task);
    assert!(!orchestrator(false).init().start_master_task);
}

#[test]
fn bpm_write_reaches_state_and_render_once() {
    let mut o = orchestrator(false);
    assert_eq!(o.on_bpm_write(&encode_set_bpm(128)), WriteOutcome::Queued);
    assert_eq!(o.state(), DeviceState::default());
    let messages = o.drain();
    let expected = DeviceState {
        animation: AnimationDescriptor::Rainbow(RainbowAnimation { speed: 0 }),
        bpm: 128,
    };
    assert_eq!(messages, vec![ControlMessage::SetState(expected)]);
    assert_eq!(o.state(), expected);
    assert_eq!(o.pending(), 0);
    assert_eq!(o.drain(), Vec::new());
}

#[test]
fn malformed_animation_write_changes_nothing() {
    let mut o = orchestrator(false);
    assert_eq!(o.on_animation_write(&[0xFF, 0xFF]), WriteOutcome::Invalid(WireError::Malformed));
    assert_eq!(o.pending(), 0);
    assert_eq!(o.drain(), Vec::new());
    assert_eq!(o.state(), DeviceState::default());
    assert_eq!(o.on_animation_write(&[]), WriteOutcome::Invalid(WireError::MissingAnimation));
    assert_eq!(o.pending(), 0);
}

#[test]
fn updates_apply_in_arrival_order() {
    let mut o = orchestrator(false);
    let red = AnimationDescriptor::Solid(SolidAnimation { color: 0xFF0000 });
    assert_eq!(o.on_bpm_write(&encode_set_bpm(90)), WriteOutcome::Queued);
    assert_eq!(o.on_animation_write(&encode_set_animation(&red)), WriteOutcome::Queued);
    assert_eq!(o.on_bpm_write(&encode_set_bpm(100)), WriteOutcome::Queued);
    let messages = o.drain();
    assert_eq!(
        messages,
        vec![
            ControlMessage::SetState(DeviceState { animation: DeviceState::default().animation, bpm: 90 }),
            ControlMessage::SetState(DeviceState { animation: red, bpm: 90 }),
            ControlMessage::SetState(DeviceState { animation: red, bpm: 100 }),
        ]
    );
    assert_eq!(o.state(), DeviceState { animation: red, bpm: 100 });
}

#[test]
fn write_beyond_capacity_is_dropped() {
    let mut o = orchestrator(false);
    for i in 0..QUEUE_CAPACITY {
        assert_eq!(o.on_bpm_write(&encode_set_bpm(i as u16 + 1)), WriteOutcome::Queued);
    }
    assert_eq!(o.on_bpm_write(&encode_set_bpm(500)), WriteOutcome::Dropped);
    o.drain();
    assert_eq!(o.state().bpm, QUEUE_CAPACITY as u16);
    assert_eq!(o.on_bpm_write(&encode_set_bpm(500)), WriteOutcome::Queued);
    o.drain();
    assert_eq!(o.state().bpm, 500);
}

#[test]
fn large_bpm_is_cast_to_16_bits() {
    let mut o = orchestrator(false);
    assert_eq!(o.on_bpm_write(&[0x08, 0xF0, 0xA2, 0x04]), WriteOutcome::Queued);
    o.drain();
    assert_eq!(o.state().bpm, (70000u32 % 65536) as u16);
}

#[test]
fn writes_route_by_characteristic_name() {
    let mut o = orchestrator(false);
    assert!(on_characteristic_write(&mut o, "bpm", &encode_set_bpm(77)));
    assert!(on_characteristic_write(&mut o, "animation", &[0x01]));
    assert!(!on_characteristic_write(&mut o, "color", &encode_set_bpm(1)));
    assert_eq!(o.pending(), 1);
    o.drain();
    assert_eq!(o.state().bpm, 77);
}

#[test]
fn peer_from_master_settles_a_tie() {
    let mut peer = orchestrator(false);
    let mut master = orchestrator(true);
    peer.on_bpm_write(&encode_set_bpm(140));
    peer.drain();
    master.on_bpm_write(&encode_set_bpm(100));
    master.drain();
    let from_peer = peer.announcement();
    let from_master = master.announcement();
    assert_eq!(master.on_peer_state(&from_peer), None);
    let expected = master.state();
    assert_eq!(peer.on_peer_state(&from_master), Some(ControlMessage::SetState(expected)));
    assert_eq!(peer.state().bpm, 100);
    assert_eq!(master.state().bpm, 100);
}

#[test]
fn animation_write_sets_animation_only() {
    let mut o = orchestrator(false);
    let a = AnimationDescriptor::Rainbow(RainbowAnimation { speed: 42 });
    assert_eq!(o.on_animation_write(&encode_set_animation(&a)), WriteOutcome::Queued);
    o.drain();
    assert_eq!(o.state(), DeviceState { animation: a, bpm: DEFAULT_BPM });
}
