//! Emulation for legacy devices: a 16550A serial port, a PL031 real time
//! clock and a minimal i8042 controller that only knows the CPU reset.

use vstd::prelude::*;

pub mod clock;
pub mod i8042;
pub mod proofs;
pub mod registers;
pub mod rtc_pl031;
pub mod serial;
pub mod sink;
pub mod state_ser;

pub use i8042::I8042Device;
pub use serial::Serial;

verus! {

/// Something that can be asked to assert a device's interrupt line.
///
/// The devices in this crate call [`Trigger::trigger`] whenever the guest
/// driver has to be notified. Nothing is assumed about the outcome.
pub trait Trigger {
    /// What a failed notification reports.
    type E;

    /// Asserts the interrupt line once.
    fn trigger(&self) -> Result<(), Self::E>;
}

} // verus!
