//! Provides emulation for a super minimal i8042 controller.
//!
//! This emulates just the CPU reset command.

use vmm_sys_util::eventfd::EventFd;
use vstd::prelude::*;

verus! {

/// Offset of the command register, for write accesses (port 0x64). The same
/// offset can be used, in case of read operations, to access the status
/// register (in which we are not interested for an i8042 that only knows
/// about reset).
pub const COMMAND_OFFSET: u8 = 4;

/// Reset CPU command.
pub const CMD_RESET_CPU: u8 = 0xFE;

/// What is added to the counter of the reset event to signal a reset.
pub const RESET_SIGNAL: u64 = 1;

/// The event of [`vmm_sys_util`] that wraps an eventfd of the kernel,
/// carried through without looking inside.
#[verifier::external_type_specification]
#[verifier::external_body]
pub struct ExEventFd(vmm_sys_util::eventfd::EventFd);

/// [`EventFd::write`] asks the kernel to add `v` to the counter of the
/// eventfd. Nothing is claimed of the outcome: it is the kernel's.
pub assume_specification[ EventFd::write ](evt: &EventFd, v: u64) -> (r: Result<
    (),
    std::io::Error,
>)
;

/// Errors encountered while handling i8042 operations.
#[derive(Debug)]
pub enum Error {
    /// Failed to trigger interrupt.
    TriggerInterrupt(std::io::Error),
}

impl Error {
    /// What went wrong, in words.
    pub fn message(&self) -> (text: String)
        ensures
            text@ == "Cannot trigger interrupt"@,
    {
        match self {
            Error::TriggerInterrupt(_) => "Cannot trigger interrupt".to_owned(),
        }
    }
}

/// The guest asks for a CPU reset by writing `value` at `offset`.
pub open spec fn requests_reset(offset: u8, value: u8) -> bool {
    offset == COMMAND_OFFSET && value == CMD_RESET_CPU
}

/// What a write that asked for a reset returns, given what came of
/// signalling the reset event: success as it is, and a failure as
/// [`Error::TriggerInterrupt`].
pub fn reset_outcome(signalled: Result<(), std::io::Error>) -> (r: Result<(), Error>)
    ensures
        match signalled {
            Ok(()) => r is Ok,
            Err(e) => r == Err::<(), Error>(Error::TriggerInterrupt(e)),
        },
{
    match signalled {
        Ok(()) => Ok(()),
        Err(e) => Err(Error::TriggerInterrupt(e)),
    }
}

/// An i8042 PS/2 controller that emulates just enough to shutdown the machine.
pub struct I8042Device {
    /// CPU reset event fd. We will trigger this event when the guest issues
    /// the reset CPU command.
    reset_evt: EventFd,
    // The values handed to the reset event, noted beside each call.
    signals: Ghost<Seq<u64>>,
}

impl I8042Device {
    /// The reset event that the device holds.
    pub closed spec fn reset_evt(&self) -> EventFd {
        self.reset_evt
    }

    /// The values that the device has handed to the reset event since it
    /// was created, oldest first.
    pub closed spec fn signals(&self) -> Seq<u64> {
        self.signals@
    }

    /// How often the device has signalled the reset event.
    pub open spec fn resets(&self) -> nat {
        self.signals().len()
    }

    /// Constructs an i8042 device that will signal the given event when the
    /// guest requests it.
    pub fn new(reset_evt: EventFd) -> (device: I8042Device)
        ensures
            device.reset_evt() == reset_evt,
            device.signals() == Seq::<u64>::empty(),
    {
        I8042Device { reset_evt, signals: Ghost(Seq::empty()) }
    }

    /// Handles a read request from the driver at `_offset` offset from the
    /// base I/O address.
    ///
    /// Returns the read value, which at this moment is 0x00, since we're not
    /// interested in an i8042 operation other than CPU reset.
    ///
    /// # Arguments
    /// * `_offset` - The offset that will be added to the base address
    ///              for writing to a specific register.
    pub fn read(&mut self, _offset: u8) -> (value: u8)
        ensures
            value == 0x00,
            *final(self) == *old(self),
    {
        0x00
    }

    /// Handles a write request from the driver at `offset` offset from the
    /// base I/O address.
    ///
    /// The reset CPU command at the command register signals the reset
    /// event once, by adding 1 to its counter, and the write fails if that
    /// fails. Every other write
    /// does nothing and succeeds.
    ///
    /// # Arguments
    /// * `offset` - The offset that will be added to the base address
    ///              for writing to a specific register.
    /// * `value` - The byte that should be written.
    pub fn write(&mut self, offset: u8, value: u8) -> (r: Result<(), Error>)
        ensures
            !requests_reset(offset, value) ==> r is Ok,
            final(self).reset_evt() == old(self).reset_evt(),
            final(self).signals() == if requests_reset(offset, value) {
                old(self).signals().push(RESET_SIGNAL)
            } else {
                old(self).signals()
            },
    {
        if offset == COMMAND_OFFSET && value == CMD_RESET_CPU {
            proof {
                self.signals@ = self.signals@.push(RESET_SIGNAL);
            }
            // Trigger the exit event fd.
            reset_outcome(self.reset_evt.write(RESET_SIGNAL))
        } else {
            Ok(())
        }
    }
}

} // verus!
