use ledsync::animation::{AnimationDescriptor, RainbowAnimation, SolidAnimation};
use ledsync::queue::{UpdateQueue, QUEUE_CAPACITY};
use ledsync::state::{DeviceState, PartialDeviceState, DEFAULT_BPM};
use ledsync::sync::{DevicesSyncer, PeerAnnouncement};

fn solid(color: u32) -> AnimationDescriptor {
    AnimationDescriptor::Solid(SolidAnimation { color })
}

#[test]
fn default_state_is_default_rainbow() {
    let s = DeviceState::default();
    assert_eq!(s.animation, AnimationDescriptor::Rainbow(RainbowAnimation { speed: 0 }));
    assert_eq!(s.bpm, DEFAULT_BPM);
}

#[test]
fn merging_twice_equals_merging_once() {
    let s = DeviceState::default();
    let p = PartialDeviceState { animation: Some(solid(3)), bpm: Some(90) };
    let once = s.merge(&p);
    assert_eq!(once.merge(&p), once);
    assert_eq!(once, DeviceState { animation: solid(3), bpm: 90 });
}

#[test]
fn bpm_only_update_keeps_animation() {
    let s = DeviceState { animation: solid(5), bpm: 60 };
    let p = PartialDeviceState { animation: None, bpm: Some(128) };
    assert_eq!(s.merge(&p), DeviceState { animation: solid(5), bpm: 128 });
    let q = PartialDeviceState { animation: Some(solid(6)), bpm: None };
    assert_eq!(s.merge(&q), DeviceState { animation: solid(6), bpm: 60 });
    assert_eq!(s.merge(&PartialDeviceState::default()), s);
}

#[test]
fn full_queue_drops_newest_and_recovers() {
    let mut q = UpdateQueue::new();
    for i in 0..QUEUE_CAPACITY {
        assert!(q.try_push(PartialDeviceState { animation: None, bpm: Some(i as u16) }));
    }
    assert!(q.is_full());
    assert!(!q.try_push(PartialDeviceState { animation: None, bpm: Some(999) }));
    assert_eq!(q.len(), QUEUE_CAPACITY);
    assert_eq!(q.pop(), Some(PartialDeviceState { animation: None, bpm: Some(0) }));
    assert!(q.try_push(PartialDeviceState { animation: None, bpm: Some(1000) }));
    let mut last = None;
    while let Some(u) = q.pop() {
        last = Some(u);
    }
    assert_eq!(last, Some(PartialDeviceState { animation: None, bpm: Some(1000) }));
    assert_eq!(q.pop(), None);
}

#[test]
fn local_change_moves_clock_and_no_change_does_not() {
    let mut s = DevicesSyncer::new(DeviceState::default(), false);
    let p = PartialDeviceState { animation: None, bpm: Some(128) };
    assert_eq!(s.partial_state_update(&p), Some(DeviceState { bpm: 128, ..DeviceState::default() }));
    assert_eq!(s.stamp(), 1);
    assert_eq!(s.partial_state_update(&p), None);
    assert_eq!(s.stamp(), 1);
}

#[test]
fn master_wins_tie_between_peers() {
    let mut m = DevicesSyncer::new(DeviceState { animation: solid(1), bpm: 100 }, true);
    let mut p = DevicesSyncer::new(DeviceState { animation: solid(1), bpm: 140 }, false);
    let from_m = m.announcement();
    let from_p = p.announcement();
    assert_eq!(m.receive_peer_state(&from_p), None);
    assert_eq!(p.receive_peer_state(&from_m), Some(DeviceState { animation: solid(1), bpm: 100 }));
    assert_eq!(m.state(), p.state());
    assert_eq!(p.state().bpm, 100);
    assert_eq!(p.stamp(), m.stamp());
}

#[test]
fn later_stamp_wins_over_master() {
    let mut m = DevicesSyncer::new(DeviceState::default(), true);
    let newer = PeerAnnouncement {
        state: DeviceState { animation: solid(2), bpm: 70 },
        stamp: 3,
        from_master: false,
    };
    assert_eq!(m.receive_peer_state(&newer), Some(newer.state));
    assert_eq!(m.stamp(), 3);
    let older = PeerAnnouncement { state: DeviceState::default(), stamp: 2, from_master: true };
    assert_eq!(m.receive_peer_state(&older), None);
    assert_eq!(m.state(), newer.state);
}
