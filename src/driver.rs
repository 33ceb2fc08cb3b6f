use vstd::prelude::*;

use crate::ble::{BLEServerSimImpl, ServiceView};

verus! {

/// The BLE server of the simulation harness, without services yet.
pub fn create_ble_server() -> (r: BLEServerSimImpl)
    ensures
        r.wf(),
        r@ == Seq::<ServiceView>::empty(),
{
    BLEServerSimImpl::new()
}

} // verus!
