//! The Bluetooth driver: the controller together with the Bluedroid host.
use vstd::prelude::*;

use core::marker::PhantomData;

use crate::bt::{BtMode, ControllerMode};
use crate::esp_error::EspError;
use crate::private::bt_controller::{bringup_plan, Bringup};

verus! {

/// An initialized and enabled Bluetooth controller and Bluedroid host in the
/// mode of `M`.
pub struct BtDriver<'d, M: BtMode> {
    _p: PhantomData<&'d mut ()>,
    _m: PhantomData<M>,
}

impl<'d, M: BtMode> BtDriver<'d, M> {
    /// The bring-up of the driver: initialize the controller, enable it in
    /// `M`'s mode, then initialize and enable Bluedroid.
    pub fn bringup(ctrl: ControllerMode) -> (r: Bringup)
        ensures
            r.wf(),
            r.steps() == bringup_plan(M::spec_mode(ctrl), true),
            r.spec_mode() == M::spec_mode(ctrl),
            r.done() == 0,
            r.failure() is None,
    {
        Bringup::new(M::mode(ctrl), true)
    }

    /// The driver, once its bring-up has ended: it exists when every call
    /// succeeded, and otherwise the first failure is returned.
    pub fn new(ctrl: ControllerMode, bringup: &Bringup) -> (r: Result<Self, EspError>)
        requires
            bringup.wf(),
            bringup.is_finished(),
            bringup.steps() == bringup_plan(M::spec_mode(ctrl), true),
        ensures
            r is Ok <==> bringup.failure() is None,
            r matches Err(e) ==> bringup.failure() == Some(e),
    {
        match bringup.outcome() {
            Some(Err(e)) => Err(e),
            _ => Ok(BtDriver { _p: PhantomData, _m: PhantomData }),
        }
    }
}

} // verus!
