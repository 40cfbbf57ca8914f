//! A Bluetooth controller without a host, for use with an external host
//! stack through the virtual HCI transport.
use vstd::prelude::*;

use core::marker::PhantomData;

use crate::bt::{ControllerMode, EspBtMode};
use crate::esp_error::EspError;
use crate::private::bt_controller::{bringup_plan, Bringup};

pub mod trouble;

verus! {

/// A Bluetooth operating mode, as a type.
pub trait BtMode {
    /// The ESP-IDF mode of this type under a controller configuration.
    spec fn spec_mode(ctrl: ControllerMode) -> EspBtMode;

    /// The ESP-IDF mode of this type under the controller configuration
    /// `ctrl` that the firmware was built with.
    fn mode(ctrl: ControllerMode) -> (r: EspBtMode)
        ensures
            r == Self::spec_mode(ctrl),
    ;
}

/// Modes in which BLE is available.
pub trait BleEnabled: BtMode {}

/// Modes in which Classic Bluetooth is available.
pub trait BtClassicEnabled: BtMode {}

/// Classic Bluetooth. Exists unless the controller is BLE-only.
#[derive(Clone, Copy)]
pub struct BtClassic(());

impl BtClassicEnabled for BtClassic {}

impl BtMode for BtClassic {
    /// Classic Bluetooth, or dual mode when the controller runs in dual mode.
    open spec fn spec_mode(ctrl: ControllerMode) -> EspBtMode {
        if ctrl == ControllerMode::Btdm {
            EspBtMode::Btdm
        } else {
            EspBtMode::ClassicBt
        }
    }

    fn mode(ctrl: ControllerMode) -> (r: EspBtMode) {
        match ctrl {
            ControllerMode::Btdm => EspBtMode::Btdm,
            _ => EspBtMode::ClassicBt,
        }
    }
}

/// BLE. Exists unless the controller is Classic-only.
#[derive(Clone, Copy)]
pub struct Ble(());

impl BleEnabled for Ble {}

impl BtMode for Ble {
    /// BLE, or dual mode when the controller runs in dual mode.
    open spec fn spec_mode(ctrl: ControllerMode) -> EspBtMode {
        if ctrl == ControllerMode::Btdm {
            EspBtMode::Btdm
        } else {
            EspBtMode::Ble
        }
    }

    fn mode(ctrl: ControllerMode) -> (r: EspBtMode) {
        match ctrl {
            ControllerMode::Btdm => EspBtMode::Btdm,
            _ => EspBtMode::Ble,
        }
    }
}

/// Both BLE and Classic Bluetooth. Exists when the controller runs in dual mode.
#[derive(Clone, Copy)]
pub struct BtDual(());

impl BtClassicEnabled for BtDual {}

impl BleEnabled for BtDual {}

impl BtMode for BtDual {
    /// Always dual mode.
    open spec fn spec_mode(ctrl: ControllerMode) -> EspBtMode {
        EspBtMode::Btdm
    }

    fn mode(ctrl: ControllerMode) -> (r: EspBtMode) {
        EspBtMode::Btdm
    }
}

/// Every mode type of the bare controller selects dual mode when the
/// controller runs in dual mode, and its own radio otherwise: a dual-mode
/// controller is always enabled for both radios.
pub proof fn lemma_modes(ctrl: ControllerMode)
    ensures
        BtDual::spec_mode(ctrl) == EspBtMode::Btdm,
        ctrl == ControllerMode::Btdm ==> Ble::spec_mode(ctrl) == EspBtMode::Btdm
            && BtClassic::spec_mode(ctrl) == EspBtMode::Btdm,
        ctrl != ControllerMode::Btdm ==> Ble::spec_mode(ctrl) == EspBtMode::Ble
            && BtClassic::spec_mode(ctrl) == EspBtMode::ClassicBt,
{
}

/// An initialized and enabled ESP-IDF Bluetooth controller without a host,
/// in the mode of `M`.
pub struct EspBtController<'d, M: BtMode> {
    _p: PhantomData<&'d mut ()>,
    _m: PhantomData<M>,
}

impl<'d, M: BtMode> EspBtController<'d, M> {
    /// The bring-up of the controller: initialize it, then enable it in `M`'s mode.
    pub fn bringup(ctrl: ControllerMode) -> (r: Bringup)
        ensures
            r.wf(),
            r.steps() == bringup_plan(M::spec_mode(ctrl), false),
            r.spec_mode() == M::spec_mode(ctrl),
            r.done() == 0,
            r.failure() is None,
    {
        Bringup::new(M::mode(ctrl), false)
    }

    /// The controller, once its bring-up has ended: it exists when every
    /// call succeeded, and otherwise the first failure is returned.
    pub fn new(ctrl: ControllerMode, bringup: &Bringup) -> (r: Result<Self, EspError>)
        requires
            bringup.wf(),
            bringup.is_finished(),
            bringup.steps() == bringup_plan(M::spec_mode(ctrl), false),
        ensures
            r is Ok <==> bringup.failure() is None,
            r matches Err(e) ==> bringup.failure() == Some(e),
    {
        match bringup.outcome() {
            Some(Err(e)) => Err(e),
            _ => Ok(EspBtController { _p: PhantomData, _m: PhantomData }),
        }
    }
}

} // verus!
