use vstd::prelude::*;

use crate::state::{merged, DeviceState, PartialDeviceState};

verus! {

/// A device's canonical state as it is announced to its peers. `stamp` is a logical clock
/// that grows with each local change; `from_master` tells whether the master sent it.
#[derive(Clone, Copy, Debug, PartialEq, Eq, Structural)]
pub struct PeerAnnouncement {
    pub state: DeviceState,
    pub stamp: u64,
    pub from_master: bool,
}

/// Holds the canonical state of the local device and reconciles it with its peers.
///
/// Conflicts are settled in one place, `adopts`: the announcement with the later stamp wins;
/// when the stamps are equal no order can be told, and the master's state wins.
pub struct DevicesSyncer {
    state: DeviceState,
    stamp: u64,
    master: bool,
}

/// Whether a device with logical clock `stamp` and role `master` takes over the state that
/// `a` announces.
pub open spec fn adopts(stamp: u64, master: bool, a: PeerAnnouncement) -> bool {
    a.stamp > stamp || (a.stamp == stamp && a.from_master && !master)
}

/// The state and clock of a device after it took in `a`.
pub open spec fn received(state: DeviceState, stamp: u64, master: bool, a: PeerAnnouncement) -> (
    DeviceState,
    u64,
) {
    if adopts(stamp, master, a) {
        (a.state, a.stamp)
    } else {
        (state, stamp)
    }
}

impl DevicesSyncer {
    pub closed spec fn state_spec(&self) -> DeviceState {
        self.state
    }

    pub closed spec fn stamp_spec(&self) -> u64 {
        self.stamp
    }

    pub closed spec fn master_spec(&self) -> bool {
        self.master
    }

    /// A synchronizer that starts from `state` with its clock at zero.
    pub fn new(state: DeviceState, master: bool) -> (r: Self)
        ensures
            r.state_spec() == state,
            r.stamp_spec() == 0,
            r.master_spec() == master,
    {
        DevicesSyncer { state, stamp: 0, master }
    }

    pub fn state(&self) -> (r: DeviceState)
        ensures
            r == self.state_spec(),
    {
        self.state
    }

    pub fn stamp(&self) -> (r: u64)
        ensures
            r == self.stamp_spec(),
    {
        self.stamp
    }

    pub fn is_master(&self) -> (r: bool)
        ensures
            r == self.master_spec(),
    {
        self.master
    }

    /// What this device broadcasts to its peers.
    pub fn announcement(&self) -> (r: PeerAnnouncement)
        ensures
            r == (PeerAnnouncement {
                state: self.state_spec(),
                stamp: self.stamp_spec(),
                from_master: self.master_spec(),
            }),
    {
        PeerAnnouncement { state: self.state, stamp: self.stamp, from_master: self.master }
    }

    /// Merges `p` into the canonical state. Where that changes the state, the clock moves on
    /// (it stays at its largest value once there) and the new state is returned for the
    /// observer; otherwise nothing changes and `None` comes back.
    pub fn partial_state_update(&mut self, p: &PartialDeviceState) -> (r: Option<DeviceState>)
        ensures
            final(self).state_spec() == merged(old(self).state_spec(), *p),
            final(self).master_spec() == old(self).master_spec(),
            r == (if merged(old(self).state_spec(), *p) == old(self).state_spec() {
                None
            } else {
                Some(merged(old(self).state_spec(), *p))
            }),
            final(self).stamp_spec() == (if r.is_none() || old(self).stamp_spec() == u64::MAX {
                old(self).stamp_spec()
            } else {
                (old(self).stamp_spec() + 1) as u64
            }),
    {
        let next = self.state.merge(p);
        if next == self.state {
            None
        } else {
            self.state = next;
            if self.stamp < u64::MAX {
                self.stamp = self.stamp + 1;
            }
            Some(next)
        }
    }

    /// Takes in a peer's announcement. Where `adopts` says so, the announced state and stamp
    /// become this device's; the new state is returned when it differs from the old one.
    pub fn receive_peer_state(&mut self, a: &PeerAnnouncement) -> (r: Option<DeviceState>)
        ensures
            final(self).master_spec() == old(self).master_spec(),
            (final(self).state_spec(), final(self).stamp_spec()) == received(
                old(self).state_spec(),
                old(self).stamp_spec(),
                old(self).master_spec(),
                *a,
            ),
            r == (if final(self).state_spec() == old(self).state_spec() {
                None
            } else {
                Some(final(self).state_spec())
            }),
    {
        let take = a.stamp > self.stamp || (a.stamp == self.stamp && a.from_master && !self.master);
        if !take {
            return None;
        }
        let changed = a.state != self.state;
        self.state = a.state;
        self.stamp = a.stamp;
        if changed {
            Some(a.state)
        } else {
            None
        }
    }
}

/// A master and a non-master peer whose states carry the same stamp, so that neither is
/// known to be later: once each has taken in the other's announcement, both hold the
/// master's state.
pub proof fn lemma_master_breaks_ties(master_state: DeviceState, peer_state: DeviceState, stamp: u64)
    ensures
        received(
            master_state,
            stamp,
            true,
            PeerAnnouncement { state: peer_state, stamp, from_master: false },
        ).0 == master_state,
        received(
            peer_state,
            stamp,
            false,
            PeerAnnouncement { state: master_state, stamp, from_master: true },
        ).0 == master_state,
{
}

} // verus!
