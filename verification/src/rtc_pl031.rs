//! Provides emulation for a minimal ARM PL031 Real Time Clock.
//!
//! This module implements a PL031 Real Time Clock (RTC) that provides a long
//! time base counter. The counter ticks once a second; the value that the
//! driver reads is the count plus an offset that the driver loads.

use std::time::Instant;
use vstd::prelude::*;

verus! {

// As you can see in
//  https://static.docs.arm.com/ddi0224/c/real_time_clock_pl031_r1p3_technical_reference_manual_DDI0224C.pdf
//  at section 3.2 Summary of RTC registers, the total size occupied by this
//  device is 0x000 -> 0xFFC + 4 = 0x1000 bytes.
/// Data Register.
pub const RTCDR: u16 = 0x000;

/// Match Register.
pub const RTCMR: u16 = 0x004;

/// Load Register.
pub const RTCLR: u16 = 0x008;

/// Control Register.
pub const RTCCR: u16 = 0x00C;

/// Interrupt Mask Set or Clear Register.
pub const RTCIMSC: u16 = 0x010;

/// Raw Interrupt Status.
pub const RTCRIS: u16 = 0x014;

/// Masked Interrupt Status.
pub const RTCMIS: u16 = 0x018;

/// Interrupt Clear Register.
pub const RTCICR: u16 = 0x01C;

// From 0x020 to 0xFDC => reserved space.
/// The Peripheral and PrimeCell Identification Registers, which are read
/// only: their values are the 'Reset value' column of Table 3.1 (Summary of
/// RTC registers) in the reference manual.
pub const AMBA_IDS: [u8; 8] = [0x31, 0x10, 0x04, 0x00, 0x0d, 0xf0, 0x05, 0xb1];

/// First address of the identification registers.
pub const AMBA_ID_LOW: u16 = 0xFE0;

/// Last address of the identification registers.
pub const AMBA_ID_HIGH: u16 = 0xFFF;

/// The value of the four bytes `bytes`, least significant byte first.
pub open spec fn le_value(bytes: Seq<u8>) -> u32
    recommends
        bytes.len() == 4,
{
    (bytes[0] + 0x100 * bytes[1] + 0x1_0000 * bytes[2] + 0x100_0000 * bytes[3]) as u32
}

/// The four bytes of `value`, least significant byte first.
pub open spec fn le_bytes(value: u32) -> Seq<u8> {
    seq![
        (value % 0x100) as u8,
        (value / 0x100 % 0x100) as u8,
        (value / 0x1_0000 % 0x100) as u8,
        (value / 0x100_0000) as u8,
    ]
}

/// The identification registers as a sequence.
pub open spec fn amba_ids() -> Seq<u8> {
    seq![0x31u8, 0x10u8, 0x04u8, 0x00u8, 0x0du8, 0xf0u8, 0x05u8, 0xb1u8]
}

/// The value of the clock once it has counted `elapsed` seconds from
/// `offset`. The value wraps around at 32 bits.
pub open spec fn rtc_value(elapsed: u64, offset: i64) -> u32 {
    ((elapsed + offset) % 0x1_0000_0000) as u32
}

/// The state of an [`RTC`] as plain values.
#[derive(Clone, Copy, Debug, PartialEq, Eq, Structural)]
pub struct RtcState {
    /// The load register.
    pub lr: u32,
    /// The offset applied to the counter to get the RTC value.
    pub offset: i64,
    /// The MR register.
    pub mr: u32,
    /// The interrupt mask.
    pub imsc: u32,
    /// The raw interrupt value.
    pub ris: u32,
}

impl RtcState {
    /// The state of a clock that was just created.
    pub open spec fn reset() -> RtcState {
        RtcState { lr: 0, offset: 0, mr: 0, imsc: 0, ris: 0 }
    }

    /// A write of `value` at `offset` starts the counter anew.
    pub open spec fn write_restarts(offset: u16, value: u32) -> bool {
        offset == RTCLR || (offset == RTCCR && value == 1)
    }

    /// The state after a write of `value` at `offset`.
    ///
    /// The load register takes the value, which also becomes the offset of
    /// the counter. Writing 1 to the control register resets both. The
    /// interrupt mask takes the lowest bit, and the interrupt clear
    /// register clears the raw interrupt bits that are set in the value.
    /// Writes anywhere else are ignored.
    pub open spec fn after_write(self, offset: u16, value: u32) -> RtcState {
        if offset == RTCMR {
            RtcState { mr: value, ..self }
        } else if offset == RTCLR {
            RtcState { lr: value, offset: value as i64, ..self }
        } else if offset == RTCCR {
            if value == 1 {
                RtcState { lr: 0, offset: 0, ..self }
            } else {
                self
            }
        } else if offset == RTCIMSC {
            RtcState { imsc: value & 1, ..self }
        } else if offset == RTCICR {
            RtcState { ris: self.ris & !value, ..self }
        } else {
            self
        }
    }

    /// What a read at `offset` returns once the counter has counted
    /// `elapsed` seconds, or `None` where there is nothing to read.
    pub open spec fn register(self, offset: u16, elapsed: u64) -> Option<u32> {
        if AMBA_ID_LOW <= offset <= AMBA_ID_HIGH {
            Some(amba_ids()[(offset - AMBA_ID_LOW) / 4] as u32)
        } else if offset == RTCDR {
            Some(rtc_value(elapsed, self.offset))
        } else if offset == RTCMR {
            Some(self.mr)
        } else if offset == RTCLR {
            Some(self.lr)
        } else if offset == RTCCR {
            Some(1)
        } else if offset == RTCIMSC {
            Some(self.imsc)
        } else if offset == RTCRIS {
            Some(self.ris)
        } else if offset == RTCMIS {
            Some(self.ris & self.imsc)
        } else {
            None
        }
    }
}

impl RtcState {
    /// The state with the value that the clock shows after `elapsed`
    /// seconds as its offset.
    pub open spec fn after(self, elapsed: u64) -> RtcState {
        RtcState { offset: rtc_value(elapsed, self.offset) as i64, ..self }
    }

    /// The four bytes that the driver holds after a read at `offset`, once
    /// the counter has counted `elapsed` seconds: those of the register, or
    /// `data` as it was where there is no register to read.
    pub open spec fn read_into(self, offset: u16, elapsed: u64, data: Seq<u8>) -> Seq<u8> {
        match self.register(offset, elapsed) {
            Some(value) => le_bytes(value),
            None => data,
        }
    }
}

impl Default for RtcState {
    fn default() -> (state: RtcState)
        ensures
            state == RtcState::reset(),
    {
        RtcState { lr: 0, offset: 0, mr: 0, imsc: 0, ris: 0 }
    }
}

/// A PL031 Real Time Clock (RTC) that emulates a long time base counter.
///
/// This structure emulates the registers for the RTC.
pub struct RTC {
    // Counts up from 0 at 1Hz since it was started.
    counter: Instant,
    // The load register.
    lr: u32,
    // The offset value applied to the counter to get the RTC value.
    offset: i64,
    // The MR register is used for implementing the RTC alarm. A
    // real time clock alarm is a feature that can be used to allow
    // a computer to 'wake up' after shut down to execute tasks
    // every day or on a certain day. It can sometimes be found in
    // the 'Power Management' section of a motherboard's BIOS setup.
    // The alarm is not emulated: the register only keeps its value.
    mr: u32,
    // The interrupt mask.
    imsc: u32,
    // The raw interrupt value.
    ris: u32,
}

impl View for RTC {
    type V = RtcState;

    closed spec fn view(&self) -> RtcState {
        RtcState { lr: self.lr, offset: self.offset, mr: self.mr, imsc: self.imsc, ris: self.ris }
    }
}

/// Reads four bytes as a number, least significant byte first.
fn u32_from_le(data: &[u8; 4]) -> (value: u32)
    ensures
        value == le_value(data@),
{
    data[0] as u32 + 0x100 * (data[1] as u32) + 0x1_0000 * (data[2] as u32) + 0x100_0000 * (
    data[3] as u32)
}

/// Writes a number as four bytes, least significant byte first.
fn u32_to_le(value: u32) -> (data: [u8; 4])
    ensures
        data@ == le_bytes(value),
{
    let data = [
        (value % 0x100) as u8,
        (value / 0x100 % 0x100) as u8,
        (value / 0x1_0000 % 0x100) as u8,
        (value / 0x100_0000) as u8,
    ];
    assert(data@ =~= le_bytes(value));
    data
}

impl RTC {
    /// The point in time at which the counter was started.
    pub closed spec fn started(&self) -> Instant {
        self.counter
    }

    /// Creates a new `AMBA PL031 RTC` instance.
    pub fn new() -> (rtc: RTC)
        ensures
            rtc@ == RtcState::reset(),
    {
        RTC {
            // Counts up from now at 1Hz (emulated).
            counter: Instant::now(),
            // The load register is initialized to zero.
            lr: 0,
            offset: 0,
            // The match register is initialised to zero (not currently used).
            mr: 0,
            // The interrupt mask is initialised as not set.
            imsc: 0,
            // The raw interrupt is initialised as not asserted.
            ris: 0,
        }
    }

    /// The value of the clock once its counter has counted `elapsed`
    /// seconds.
    pub fn value_after(&self, elapsed: u64) -> (value: u32)
        ensures
            value == rtc_value(elapsed, self@.offset),
    {
        // Using wrapping_add() eliminates the possibility of a panic
        // and makes the desired behaviour (a wrap) explicit.
        let counted = #[verifier::truncate]
        (elapsed as u32);
        let offset = #[verifier::truncate]
        (self.offset as u32);
        proof {
            lemma_wrapped_sum(elapsed, self.offset);
        }
        counted.wrapping_add(offset)
    }

    /// Creates an `RTC` that is in `state`, with a counter that starts now.
    pub fn from_state(state: &RtcState) -> (rtc: RTC)
        ensures
            rtc@ == *state,
    {
        RTC {
            counter: Instant::now(),
            lr: state.lr,
            offset: state.offset,
            mr: state.mr,
            imsc: state.imsc,
            ris: state.ris,
        }
    }

    /// The state of the clock once its counter has counted `elapsed`
    /// seconds: the registers as they are, and as offset the value that the
    /// clock shows then, so that a clock created from this state goes on
    /// from that value.
    pub fn state_after(&self, elapsed: u64) -> (state: RtcState)
        ensures
            state == self@.after(elapsed),
    {
        RtcState {
            lr: self.lr,
            offset: self.value_after(elapsed) as i64,
            mr: self.mr,
            imsc: self.imsc,
            ris: self.ris,
        }
    }

    /// The state of the clock now: [`RTC::state_after`] the seconds that the
    /// counter has counted.
    pub fn state(&self) -> (state: RtcState)
        ensures
            exists|elapsed: u64| state == #[trigger] self@.after(elapsed),
    {
        let elapsed = self.counter.elapsed().as_secs();
        self.state_after(elapsed)
    }

    /// What a read at `offset` gives once the counter has counted `elapsed`
    /// seconds, or `None` where there is no register to read.
    pub fn read_after(&self, offset: u16, elapsed: u64) -> (value: Option<u32>)
        ensures
            value == self@.register(offset, elapsed),
    {
        if AMBA_ID_LOW <= offset && offset <= AMBA_ID_HIGH {
            let index = ((offset - AMBA_ID_LOW) >> 2) as usize;
            proof {
                lemma_id_index((offset - AMBA_ID_LOW) as u16);
            }
            Some(AMBA_IDS[index] as u32)
        } else {
            match offset {
                RTCDR => Some(self.value_after(elapsed)),
                // Read the match register, though this is not currently used.
                RTCMR => Some(self.mr),
                RTCLR => Some(self.lr),
                // RTC is always enabled.
                RTCCR => Some(1),
                RTCIMSC => Some(self.imsc),
                RTCRIS => Some(self.ris),
                RTCMIS => Some(self.ris & self.imsc),
                // If the offset is invalid, there is nothing to read.
                _ => None,
            }
        }
    }

    fn get_rtc_value(&self) -> (value: u32)
        ensures
            exists|elapsed: u64| value == #[trigger] rtc_value(elapsed, self@.offset),
    {
        // Add the counter offset to the seconds elapsed since reset.
        let elapsed = self.counter.elapsed().as_secs();
        self.value_after(elapsed)
    }

    /// Handles a write request from the driver at `offset` offset from the
    /// base register address.
    ///
    /// # Arguments
    /// * `offset` - The offset from the base register specifying
    ///              the register to be written.
    /// * `data` - The little endian, 4 byte array to write to the register
    pub fn write(&mut self, offset: u16, data: &[u8; 4])
        ensures
            final(self)@ == old(self)@.after_write(offset, le_value(data@)),
            !RtcState::write_restarts(offset, le_value(data@)) ==> final(self).started() == old(
                self,
            ).started(),
    {
        let val = u32_from_le(data);

        match offset {
            RTCMR => {
                // Set the match register, though this is not currently used.
                self.mr = val;
            },
            RTCLR => {
                // Writing to the load register adjusts both the load register
                // and the counter to ensure that a write to RTCLR followed by
                // an immediate read of RTCDR will return the loaded value.
                self.counter = Instant::now();
                self.offset = val as i64;
                self.lr = val;
            },
            RTCCR => {
                // Writing 1 to the control register resets the RTC value,
                // which means both the counter and load register are reset.
                if val == 1 {
                    self.counter = Instant::now();
                    self.offset = 0;
                    self.lr = 0;
                }
            },
            RTCIMSC => {
                // Set or clear the interrupt mask.
                self.imsc = val & 1;
            },
            RTCICR => {
                // Writing 1 clears the interrupt.
                self.ris &= !val;
            },
            _ => {
                // Writes to RTCDR, RTCRIS, RTCMIS, or an invalid offset
                // are ignored.
            },
        };
    }

    /// Handles a read request from the driver at `offset` offset from the
    /// base register address.
    ///
    /// The data register shows the value of the clock at the time of the
    /// call; every other register shows what [`RTC::read_after`] gives for
    /// it. `data` is left as it is where there is no register to read.
    ///
    /// # Arguments
    /// * `offset` - The offset from the base register specifying
    ///              the register to be read.
    /// * `data` - The little-endian, 4 byte array storing the read value.
    pub fn read(&mut self, offset: u16, data: &mut [u8; 4])
        ensures
            final(self)@ == old(self)@,
            final(self).started() == old(self).started(),
            exists|elapsed: u64|
                final(data)@ == #[trigger] old(self)@.read_into(offset, elapsed, old(data)@),
            offset != RTCDR ==> final(data)@ == old(self)@.read_into(offset, 0, old(data)@),
    {
        let v = if offset == RTCDR {
            Some(self.get_rtc_value())
        } else {
            self.read_after(offset, 0)
        };
        match v {
            Some(v) => {
                *data = u32_to_le(v);
            },
            None => {},
        }
        proof {
            let elapsed = if offset == RTCDR {
                choose|elapsed: u64| v == Some(#[trigger] rtc_value(elapsed, self@.offset))
            } else {
                0
            };
            assert(data@ == old(self)@.read_into(offset, elapsed, old(data)@));
        }
    }
}

impl Default for RTC {
    fn default() -> (rtc: RTC)
        ensures
            rtc@ == RtcState::reset(),
    {
        RTC::new()
    }
}

/// An identification register takes four addresses.
proof fn lemma_id_index(distance: u16)
    by (bit_vector)
    requires
        distance < 32,
    ensures
        distance >> 2 == distance / 4,
        distance >> 2 < 8,
{
}

/// Adding the low halves of two numbers and dropping the carry gives the
/// low half of their sum.
proof fn lemma_wrapped_sum(elapsed: u64, offset: i64)
    ensures
        (elapsed as u32).wrapping_add(offset as u32) == rtc_value(elapsed, offset),
{
    let m = 0x1_0000_0000int;
    assert(elapsed as u32 == elapsed % 0x1_0000_0000) by (bit_vector);
    assert((offset as u32) as int == (offset as int) % 0x1_0000_0000) by (bit_vector);
    vstd::arithmetic::div_mod::lemma_add_mod_noop(elapsed as int, offset as int, m);
}

} // verus!
