//! Handing the memory reserved for unused Bluetooth modes back to the heap.
//!
//! ESP-IDF can release the memory of a Bluetooth mode once, before the
//! controller is initialized. The release is a call into ESP-IDF; this module
//! decides whether and what to release, and records the outcome.
use vstd::prelude::*;

use crate::bt::{ControllerMode, EspBtMode};
use crate::esp_error::{EspError, ESP_ERR_INVALID_STATE, ESP_OK};

verus! {

/// Whether the Bluetooth memory has already been released.
pub struct BtMemory {
    freed: bool,
}

/// The mode whose memory `reduce_bt_memory` releases under a controller
/// configuration: the BLE memory of a Classic-only controller. Under the other
/// configurations nothing is released.
pub open spec fn spec_reduce_release(ctrl: ControllerMode) -> Option<EspBtMode> {
    if ctrl == ControllerMode::BrEdrOnly {
        Some(EspBtMode::Ble)
    } else {
        None
    }
}

impl BtMemory {
    /// Whether the memory has been released.
    pub closed spec fn is_freed(&self) -> bool {
        self.freed
    }

    /// The state after the release call answered `code` (`None` when no call
    /// was made), and whether the release succeeded.
    pub closed spec fn spec_complete(self, code: Option<i32>) -> (Self, bool) {
        match code {
            Some(c) => if c == ESP_OK {
                (BtMemory { freed: true }, true)
            } else {
                (self, false)
            },
            None => (BtMemory { freed: true }, true),
        }
    }

    /// Nothing released yet.
    pub fn new() -> (r: Self)
        ensures
            !r.is_freed(),
    {
        BtMemory { freed: false }
    }

    /// The second half: records what the release call answered (`None` when
    /// no call was made). A failed call leaves the memory unreleased and is
    /// returned as the error.
    pub fn complete(&mut self, code: Option<i32>) -> (r: Result<(), EspError>)
        requires
            !old(self).is_freed(),
        ensures
            *final(self) == old(self).spec_complete(code).0,
            r is Ok <==> old(self).spec_complete(code).1,
            r is Ok <==> (code is None || code == Some(ESP_OK)),
            final(self).is_freed() <==> r is Ok,
            r matches Err(e) ==> code == Some(e.spec_code()),
    {
        match code {
            Some(c) => {
                if c == ESP_OK {
                    self.freed = true;
                    Ok(())
                } else {
                    Err(EspError::from_nonzero(c))
                }
            },
            None => {
                self.freed = true;
                Ok(())
            },
        }
    }
}

/// The first half of `reduce_bt_memory`: fails with `ESP_ERR_INVALID_STATE`
/// when the memory was already released, and otherwise names the mode whose
/// memory to release under the controller configuration `ctrl` (`None`: make
/// no call). `BtMemory::complete` records the outcome.
pub fn reduce_bt_memory(memory: &BtMemory, ctrl: ControllerMode) -> (r: Result<
    Option<EspBtMode>,
    EspError,
>)
    ensures
        r is Err <==> memory.is_freed(),
        r matches Err(e) ==> e.spec_code() == ESP_ERR_INVALID_STATE,
        r matches Ok(m) ==> m == spec_reduce_release(ctrl),
{
    if memory.freed {
        Err(EspError::invalid_state())
    } else {
        match ctrl {
            ControllerMode::BrEdrOnly => Ok(Some(EspBtMode::Ble)),
            _ => Ok(None),
        }
    }
}

/// The first half of `free_bt_memory`: fails with `ESP_ERR_INVALID_STATE`
/// when the memory was already released, and otherwise releases the memory
/// of both modes. `BtMemory::complete` records the outcome.
pub fn free_bt_memory(memory: &BtMemory) -> (r: Result<EspBtMode, EspError>)
    ensures
        r is Err <==> memory.is_freed(),
        r matches Err(e) ==> e.spec_code() == ESP_ERR_INVALID_STATE,
        r matches Ok(m) ==> m == EspBtMode::Btdm,
{
    if memory.freed {
        Err(EspError::invalid_state())
    } else {
        Ok(EspBtMode::Btdm)
    }
}

/// The memory is released at most once: after a successful release, both
/// `reduce_bt_memory` and `free_bt_memory` refuse, while after a failed
/// release call they may be tried again.
pub proof fn lemma_release_once(m: BtMemory, code: Option<i32>)
    requires
        !m.is_freed(),
    ensures
        m.spec_complete(code).1 ==> m.spec_complete(code).0.is_freed(),
        !m.spec_complete(code).1 ==> !m.spec_complete(code).0.is_freed(),
{
}

} // verus!
