//! Controller-emulation core for a train-controller USB gadget.
//!
//! A physical panel of buttons and levers impersonates one of several
//! commercial train controllers. This crate holds the verified core: the
//! model-selection chain, the per-model report encoders, and the
//! control-request handler. Reading raw events from the input devices and
//! writing bytes to the gadget endpoints belong to the thin I/O layer
//! around the crate.

pub mod emulated;
pub mod physical;

use vstd::prelude::*;

verus! {

} // verus!
