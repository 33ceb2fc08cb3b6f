use vstd::prelude::*;

pub mod animation;
pub mod ble;
pub mod driver;
pub mod messages;
pub mod orchestrator;
pub mod queue;
pub mod state;
pub mod sync;
pub mod wire;

verus! {

} // verus!
