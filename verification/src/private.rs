//! Internal building blocks.
use vstd::prelude::*;

pub mod bt_controller;
pub mod controller_config;
pub mod cstr;

verus! {

} // verus!
