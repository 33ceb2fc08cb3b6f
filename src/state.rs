use vstd::prelude::*;

use crate::animation::{default_animation, AnimationDescriptor, RainbowAnimation};

verus! {

/// The tempo a device keeps until one is chosen.
pub const DEFAULT_BPM: u16 = 120;

/// The canonical state of one device: every field always holds a value.
#[derive(Clone, Copy, Debug, PartialEq, Eq, Structural)]
pub struct DeviceState {
    pub animation: AnimationDescriptor,
    pub bpm: u16,
}

/// What changed: each field that is `Some` overrides the state's, each `None` keeps it.
#[derive(Clone, Copy, Debug, PartialEq, Eq, Structural)]
pub struct PartialDeviceState {
    pub animation: Option<AnimationDescriptor>,
    pub bpm: Option<u16>,
}

pub open spec fn default_state() -> DeviceState {
    DeviceState { animation: default_animation(), bpm: DEFAULT_BPM }
}

impl Default for DeviceState {
    fn default() -> (r: Self)
        ensures
            r == default_state(),
    {
        DeviceState { animation: AnimationDescriptor::Rainbow(RainbowAnimation { speed: 0 }), bpm: DEFAULT_BPM }
    }
}

impl Default for PartialDeviceState {
    fn default() -> (r: Self)
        ensures
            r.animation.is_none(),
            r.bpm.is_none(),
    {
        PartialDeviceState { animation: None, bpm: None }
    }
}

/// `s` with every field that `p` holds written over it.
pub open spec fn merged(s: DeviceState, p: PartialDeviceState) -> DeviceState {
    DeviceState {
        animation: match p.animation {
            Some(a) => a,
            None => s.animation,
        },
        bpm: match p.bpm {
            Some(b) => b,
            None => s.bpm,
        },
    }
}

/// `s` with the updates of `us` merged in one after the other, first to last.
pub open spec fn merged_all(s: DeviceState, us: Seq<PartialDeviceState>) -> DeviceState
    decreases us.len(),
{
    if us.len() == 0 {
        s
    } else {
        merged(merged_all(s, us.drop_last()), us.last())
    }
}

impl DeviceState {
    /// This state with the fields that `p` holds written over it.
    pub fn merge(&self, p: &PartialDeviceState) -> (r: DeviceState)
        ensures
            r == merged(*self, *p),
    {
        DeviceState {
            animation: match p.animation {
                Some(a) => a,
                None => self.animation,
            },
            bpm: match p.bpm {
                Some(b) => b,
                None => self.bpm,
            },
        }
    }
}

/// Merging the same partial state twice gives what merging it once gives.
pub proof fn lemma_merge_idempotent(s: DeviceState, p: PartialDeviceState)
    ensures
        merged(merged(s, p), p) == merged(s, p),
{
}

/// A partial state without an animation leaves the animation as it was, and one without a
/// tempo leaves the tempo as it was.
pub proof fn lemma_merge_isolates_fields(s: DeviceState, p: PartialDeviceState)
    ensures
        p.animation.is_none() ==> merged(s, p).animation == s.animation,
        p.bpm.is_none() ==> merged(s, p).bpm == s.bpm,
        p.animation matches Some(a) ==> merged(s, p).animation == a,
        p.bpm matches Some(b) ==> merged(s, p).bpm == b,
{
}

} // verus!
