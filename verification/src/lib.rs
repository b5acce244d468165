//! Verified core of a desktop-shell integration layer: audio volume state,
//! the volume-change observer's callback object, worker lifecycle and
//! controller, Bluetooth radio decisions, and power-transition policy.
//!
//! The platform calls themselves (COM, WinRT) are performed by an unverified
//! shell around this crate; this crate holds every decision and every data
//! transformation, each with a proved contract.

pub mod audio;
pub mod audio_observer;
pub mod bluetooth;
pub mod power;
pub mod shutdown_privilege;

use vstd::prelude::*;

verus! {

} // verus!
