//! Bluetooth support for ESP-IDF: device addresses, UUIDs, status codes,
//! controller configuration and bring-up, and the virtual HCI transport.
use vstd::prelude::*;

pub mod esp_error;
pub mod text;
pub mod bt;
pub mod bt_controller;
pub mod private;

verus! {

} // verus!
