//! The states of the devices in the shape in which they are stored.
//!
//! [`SerialStateSer`] mirrors [`SerialState`] and [`RtcStateSer`] mirrors
//! [`RtcState`], field by field. They are the types to give the traits of a
//! storage format to; the conversions here take a device's state to its
//! stored shape and back without changing a value.

use vstd::prelude::*;
use vstd::std_specs::convert::FromSpec;

use crate::registers::RegisterFile;
use crate::rtc_pl031::RtcState;
use crate::serial::SerialState;

verus! {

/// Wrapper over an `SerialState` that has serialization capabilities.
#[derive(Clone, Debug, PartialEq, Eq)]
pub struct SerialStateSer {
    /// Divisor Latch Low Byte
    pub baud_divisor_low: u8,
    /// Divisor Latch High Byte
    pub baud_divisor_high: u8,
    /// Interrupt Enable Register
    pub interrupt_enable: u8,
    /// Interrupt Identification Register
    pub interrupt_identification: u8,
    /// Line Control Register
    pub line_control: u8,
    /// Line Status Register
    pub line_status: u8,
    /// Modem Control Register
    pub modem_control: u8,
    /// Modem Status Register
    pub modem_status: u8,
    /// Scratch Register
    pub scratch: u8,
    /// Transmitter Holding Buffer/Receiver Buffer
    pub in_buffer: Vec<u8>,
}

impl View for SerialStateSer {
    type V = RegisterFile;

    open spec fn view(&self) -> RegisterFile {
        RegisterFile {
            baud_divisor_low: self.baud_divisor_low,
            baud_divisor_high: self.baud_divisor_high,
            interrupt_enable: self.interrupt_enable,
            interrupt_identification: self.interrupt_identification,
            line_control: self.line_control,
            line_status: self.line_status,
            modem_control: self.modem_control,
            modem_status: self.modem_status,
            scratch: self.scratch,
            receive_queue: self.in_buffer@,
        }
    }
}

// The following `From` implementations can be used to convert from an `SerialStateSer` to the
// `SerialState` and vice versa. Both hold a vector, so what they promise is stated over the
// views: a copy of a vector holds the same bytes.
impl<'a> From<&'a SerialStateSer> for SerialState {
    fn from(state: &'a SerialStateSer) -> (converted: SerialState)
        ensures
            converted@ == state@,
    {
        SerialState {
            baud_divisor_low: state.baud_divisor_low,
            baud_divisor_high: state.baud_divisor_high,
            interrupt_enable: state.interrupt_enable,
            interrupt_identification: state.interrupt_identification,
            line_control: state.line_control,
            line_status: state.line_status,
            modem_control: state.modem_control,
            modem_status: state.modem_status,
            scratch: state.scratch,
            in_buffer: state.in_buffer.clone(),
        }
    }
}

impl<'a> vstd::std_specs::convert::FromSpecImpl<&'a SerialStateSer> for SerialState {
    open spec fn obeys_from_spec() -> bool {
        false
    }

    open spec fn from_spec(state: &'a SerialStateSer) -> SerialState {
        SerialState {
            baud_divisor_low: state.baud_divisor_low,
            baud_divisor_high: state.baud_divisor_high,
            interrupt_enable: state.interrupt_enable,
            interrupt_identification: state.interrupt_identification,
            line_control: state.line_control,
            line_status: state.line_status,
            modem_control: state.modem_control,
            modem_status: state.modem_status,
            scratch: state.scratch,
            in_buffer: state.in_buffer,
        }
    }
}

impl<'a> From<&'a SerialState> for SerialStateSer {
    fn from(state: &'a SerialState) -> (converted: SerialStateSer)
        ensures
            converted@ == state@,
    {
        SerialStateSer {
            baud_divisor_low: state.baud_divisor_low,
            baud_divisor_high: state.baud_divisor_high,
            interrupt_enable: state.interrupt_enable,
            interrupt_identification: state.interrupt_identification,
            line_control: state.line_control,
            line_status: state.line_status,
            modem_control: state.modem_control,
            modem_status: state.modem_status,
            scratch: state.scratch,
            in_buffer: state.in_buffer.clone(),
        }
    }
}

impl<'a> vstd::std_specs::convert::FromSpecImpl<&'a SerialState> for SerialStateSer {
    open spec fn obeys_from_spec() -> bool {
        false
    }

    open spec fn from_spec(state: &'a SerialState) -> SerialStateSer {
        SerialStateSer {
            baud_divisor_low: state.baud_divisor_low,
            baud_divisor_high: state.baud_divisor_high,
            interrupt_enable: state.interrupt_enable,
            interrupt_identification: state.interrupt_identification,
            line_control: state.line_control,
            line_status: state.line_status,
            modem_control: state.modem_control,
            modem_status: state.modem_status,
            scratch: state.scratch,
            in_buffer: state.in_buffer,
        }
    }
}

impl Default for SerialStateSer {
    fn default() -> (state: SerialStateSer)
        ensures
            state@ == RegisterFile::reset(),
    {
        SerialStateSer::from(&SerialState::default())
    }
}

/// Wrapper over an `RtcState` that has serialization capabilities.
#[derive(Clone, Copy, Debug, PartialEq, Eq, Structural)]
pub struct RtcStateSer {
    /// The load register.
    pub lr: u32,
    /// The offset applied to the counter to get the RTC value.
    pub offset: i64,
    /// The MR register.
    pub mr: u32,
    /// The interrupt mask.
    pub imsc: u32,
    /// The raw interrupt value.
    pub ris: u32,
}

// The following `From` implementations can be used to convert from an `RtcStateSer` to the
// `RtcState` and vice versa.
impl<'a> From<&'a RtcStateSer> for RtcState {
    fn from(state: &'a RtcStateSer) -> (converted: RtcState) {
        RtcState {
            lr: state.lr,
            offset: state.offset,
            mr: state.mr,
            imsc: state.imsc,
            ris: state.ris,
        }
    }
}

impl<'a> vstd::std_specs::convert::FromSpecImpl<&'a RtcStateSer> for RtcState {
    open spec fn obeys_from_spec() -> bool {
        true
    }

    open spec fn from_spec(state: &'a RtcStateSer) -> RtcState {
        RtcState {
            lr: state.lr,
            offset: state.offset,
            mr: state.mr,
            imsc: state.imsc,
            ris: state.ris,
        }
    }
}

impl<'a> From<&'a RtcState> for RtcStateSer {
    fn from(state: &'a RtcState) -> (converted: RtcStateSer) {
        RtcStateSer {
            lr: state.lr,
            offset: state.offset,
            mr: state.mr,
            imsc: state.imsc,
            ris: state.ris,
        }
    }
}

impl<'a> vstd::std_specs::convert::FromSpecImpl<&'a RtcState> for RtcStateSer {
    open spec fn obeys_from_spec() -> bool {
        true
    }

    open spec fn from_spec(state: &'a RtcState) -> RtcStateSer {
        RtcStateSer {
            lr: state.lr,
            offset: state.offset,
            mr: state.mr,
            imsc: state.imsc,
            ris: state.ris,
        }
    }
}

impl Default for RtcStateSer {
    fn default() -> (state: RtcStateSer)
        ensures
            state == RtcStateSer::from_spec(&RtcState::reset()),
    {
        RtcStateSer::from(&RtcState::default())
    }
}

/// Taking the state of a clock to its stored shape and back gives the state
/// again, and so the other way round.
pub proof fn lemma_rtc_state_round_trip(state: RtcState, stored: RtcStateSer)
    ensures
        RtcState::from_spec(&RtcStateSer::from_spec(&state)) == state,
        RtcStateSer::from_spec(&RtcState::from_spec(&stored)) == stored,
{
}

} // verus!
