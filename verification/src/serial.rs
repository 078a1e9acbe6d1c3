//! Emulation of the Linux serial console: a 16550A UART.
//!
//! The guest driver reads and writes eight one-byte registers. [`Serial`]
//! keeps them, queues what the driver is to receive, hands what the driver
//! sends to an output sink and asks an interrupt signal to fire when the
//! driver has to be told of either. What each access does is stated over
//! [`RegisterFile`], the device's view.

use std::collections::VecDeque;
use vstd::prelude::*;

use crate::registers::{
    Effect, RegisterFile, DATA_OFFSET, DEFAULT_BAUD_DIVISOR_HIGH, DEFAULT_BAUD_DIVISOR_LOW,
    DEFAULT_INTERRUPT_ENABLE, DEFAULT_INTERRUPT_IDENTIFICATION, DEFAULT_LINE_CONTROL,
    DEFAULT_LINE_STATUS, DEFAULT_MODEM_CONTROL, DEFAULT_MODEM_STATUS, DEFAULT_SCRATCH,
    DLAB_HIGH_OFFSET, DLAB_LOW_OFFSET, FIFO_SIZE, IER_OFFSET, IER_RDA_BIT, IER_THR_EMPTY_BIT,
    IER_UART_VALID_BITS, IIR_BOTH_CAUSES, IIR_FIFO_BITS, IIR_NONE_BIT, IIR_OFFSET, IIR_RDA_BIT,
    IIR_THR_EMPTY_BIT, LCR_DLAB_BIT, LCR_OFFSET, LINE_STATUS_WITH_DATA, LSR_DATA_READY_BIT,
    LSR_OFFSET, MCR_DTR_BIT, MCR_LOOP_BIT, MCR_OFFSET, MCR_OUT1_BIT, MCR_OUT2_BIT, MCR_RTS_BIT,
    MSR_CTS_BIT, MSR_DCD_BIT, MSR_DSR_BIT, MSR_INPUT_BITS, MSR_OFFSET, MSR_RI_BIT, SCR_OFFSET,
};
use crate::proofs::{lemma_enqueue_keeps_inv, lemma_read_keeps_inv, lemma_write_keeps_inv};
use crate::sink;
use crate::Trigger;

verus! {

proof fn lemma_or_nothing(x: u8)
    by (bit_vector)
    ensures
        x | 0 == x,
{
}

/// Errors encountered while handling serial console operations.
#[derive(Debug)]
pub enum Error<E> {
    /// Failed to trigger interrupt.
    Trigger(E),
    /// Couldn't write/flush to the given destination.
    IOError(std::io::Error),
}

/// What an access returns once the interrupt signal has answered: success
/// as it is, and a failure as [`Error::Trigger`] around what the signal
/// reported.
pub fn signalled<E>(outcome: Result<(), E>) -> (r: Result<(), Error<E>>)
    ensures
        match outcome {
            Ok(()) => r is Ok,
            Err(e) => r == Err::<(), Error<E>>(Error::Trigger(e)),
        },
{
    match outcome {
        Ok(()) => Ok(()),
        Err(e) => Err(Error::Trigger(e)),
    }
}

/// The state of a [`Serial`] as plain values: one field per register, and
/// the bytes that wait in the receive queue, oldest first.
#[derive(Clone, Debug, PartialEq, Eq)]
pub struct SerialState {
    /// Divisor Latch Low Byte
    pub baud_divisor_low: u8,
    /// Divisor Latch High Byte
    pub baud_divisor_high: u8,
    /// Interrupt Enable Register
    pub interrupt_enable: u8,
    /// Interrupt Identification Register
    pub interrupt_identification: u8,
    /// Line Control Register
    pub line_control: u8,
    /// Line Status Register
    pub line_status: u8,
    /// Modem Control Register
    pub modem_control: u8,
    /// Modem Status Register
    pub modem_status: u8,
    /// Scratch Register
    pub scratch: u8,
    /// Transmitter Holding Buffer/Receiver Buffer
    pub in_buffer: Vec<u8>,
}

impl View for SerialState {
    type V = RegisterFile;

    open spec fn view(&self) -> RegisterFile {
        RegisterFile {
            baud_divisor_low: self.baud_divisor_low,
            baud_divisor_high: self.baud_divisor_high,
            interrupt_enable: self.interrupt_enable,
            interrupt_identification: self.interrupt_identification,
            line_control: self.line_control,
            line_status: self.line_status,
            modem_control: self.modem_control,
            modem_status: self.modem_status,
            scratch: self.scratch,
            receive_queue: self.in_buffer@,
        }
    }
}

impl Default for SerialState {
    /// The state of a device that was just created.
    fn default() -> (state: SerialState)
        ensures
            state@ == RegisterFile::reset(),
    {
        SerialState {
            baud_divisor_low: DEFAULT_BAUD_DIVISOR_LOW,
            baud_divisor_high: DEFAULT_BAUD_DIVISOR_HIGH,
            interrupt_enable: DEFAULT_INTERRUPT_ENABLE,
            interrupt_identification: DEFAULT_INTERRUPT_IDENTIFICATION,
            line_control: DEFAULT_LINE_CONTROL,
            line_status: DEFAULT_LINE_STATUS,
            modem_control: DEFAULT_MODEM_CONTROL,
            modem_status: DEFAULT_MODEM_STATUS,
            scratch: DEFAULT_SCRATCH,
            in_buffer: Vec::new(),
        }
    }
}

impl SerialState {
    /// Whether a device can be in this state: whether its view meets
    /// [`RegisterFile::inv`].
    pub fn is_valid(&self) -> (valid: bool)
        ensures
            valid == self@.inv(),
    {
        self.interrupt_enable <= IER_UART_VALID_BITS && (self.line_status == DEFAULT_LINE_STATUS
            || self.line_status == LINE_STATUS_WITH_DATA) && (self.interrupt_identification
            == IIR_NONE_BIT || self.interrupt_identification == IIR_THR_EMPTY_BIT
            || self.interrupt_identification == IIR_RDA_BIT || self.interrupt_identification
            == IIR_BOTH_CAUSES) && (self.line_status != LINE_STATUS_WITH_DATA
            || self.in_buffer.len() > 0) && (self.in_buffer.len() <= 1 || self.line_status
            == LINE_STATUS_WITH_DATA)
    }
}

/// The serial console emulation is done by emulating a serial COM port.
///
/// Each serial COM port (COM1-4) has an associated Port I/O address base and
/// 12 registers mapped into 8 consecutive Port I/O locations (with the first
/// one being the base). This structure emulates the registers that make
/// sense for UART 16550 (and below) and helps in the interaction between the
/// driver and device by using a [`Trigger`] object for notifications. It
/// also writes the guest's output to `out`, a [`std::io::Write`] object.
pub struct Serial<T: Trigger, W> {
    baud_divisor_low: u8,
    baud_divisor_high: u8,
    interrupt_enable: u8,
    interrupt_identification: u8,
    line_control: u8,
    line_status: u8,
    modem_control: u8,
    modem_status: u8,
    scratch: u8,
    // Reading the receiver returns the oldest unread byte of this buffer;
    // a loopback write or bytes from outside extend it.
    in_buffer: VecDeque<u8>,
    // Used for notifying the driver about some in/out events.
    interrupt_evt: T,
    out: W,
    // The calls made on `interrupt_evt` and `out`, noted beside each call.
    effects: Ghost<Seq<Effect>>,
}

impl<T: Trigger, W> View for Serial<T, W> {
    type V = RegisterFile;

    closed spec fn view(&self) -> RegisterFile {
        RegisterFile {
            baud_divisor_low: self.baud_divisor_low,
            baud_divisor_high: self.baud_divisor_high,
            interrupt_enable: self.interrupt_enable,
            interrupt_identification: self.interrupt_identification,
            line_control: self.line_control,
            line_status: self.line_status,
            modem_control: self.modem_control,
            modem_status: self.modem_status,
            scratch: self.scratch,
            receive_queue: self.in_buffer@,
        }
    }
}

impl<T: Trigger, W> Serial<T, W> {
    /// The calls that the device made on its interrupt signal and its output
    /// sink since it was created, oldest first.
    pub closed spec fn effects(&self) -> Seq<Effect> {
        self.effects@
    }

    /// The interrupt signal that the device holds.
    pub closed spec fn signal(&self) -> T {
        self.interrupt_evt
    }

    /// The output sink that the device holds.
    pub closed spec fn sink(&self) -> W {
        self.out
    }

    /// The device made no call on a capability between `before` and now,
    /// and holds the same two capabilities.
    pub open spec fn quiet_since(&self, before: &Self) -> bool {
        &&& self.effects() == before.effects()
        &&& self.signal() == before.signal()
        &&& self.sink() == before.sink()
    }

    fn is_dlab_set(&self) -> (set: bool)
        ensures
            set == self@.dlab(),
    {
        (self.line_control & LCR_DLAB_BIT) != 0
    }

    fn is_rda_interrupt_enabled(&self) -> (enabled: bool)
        ensures
            enabled == self@.rda_enabled(),
    {
        (self.interrupt_enable & IER_RDA_BIT) != 0
    }

    fn is_thr_interrupt_enabled(&self) -> (enabled: bool)
        ensures
            enabled == self@.thr_enabled(),
    {
        (self.interrupt_enable & IER_THR_EMPTY_BIT) != 0
    }

    fn is_in_loop_mode(&self) -> (looped: bool)
        ensures
            looped == self@.loopback(),
    {
        (self.modem_control & MCR_LOOP_BIT) != 0
    }

    fn trigger_interrupt(&mut self) -> (r: Result<(), T::E>)
        ensures
            final(self)@ == old(self)@,
            final(self).effects() == old(self).effects().push(Effect::Raised),
            final(self).signal() == old(self).signal(),
            final(self).sink() == old(self).sink(),
    {
        proof {
            self.effects@ = self.effects@.push(Effect::Raised);
        }
        self.interrupt_evt.trigger()
    }

    fn set_lsr_rda_bit(&mut self)
        ensures
            final(self)@ == old(self)@.with_data_ready(),
            final(self).quiet_since(old(self)),
    {
        self.line_status |= LSR_DATA_READY_BIT
    }

    fn clear_lsr_rda_bit(&mut self)
        ensures
            final(self)@ == old(self)@.without_data_ready(),
            final(self).quiet_since(old(self)),
    {
        self.line_status &= !LSR_DATA_READY_BIT
    }

    fn add_interrupt(&mut self, interrupt_bits: u8)
        ensures
            final(self)@ == old(self)@.with_cause(interrupt_bits),
            final(self).quiet_since(old(self)),
    {
        self.interrupt_identification &= !IIR_NONE_BIT;
        self.interrupt_identification |= interrupt_bits;
    }

    fn del_interrupt(&mut self, interrupt_bits: u8)
        ensures
            final(self)@ == old(self)@.without_cause(interrupt_bits),
            final(self).quiet_since(old(self)),
    {
        self.interrupt_identification &= !interrupt_bits;
        if self.interrupt_identification == 0x00 {
            self.interrupt_identification = IIR_NONE_BIT;
        }
    }

    fn thr_empty_interrupt(&mut self) -> (r: Result<(), T::E>)
        ensures
            final(self)@ == old(self)@.note_sent(),
            final(self).effects() == if old(self)@.thr_due() {
                old(self).effects().push(Effect::Raised)
            } else {
                old(self).effects()
            },
            final(self).signal() == old(self).signal(),
            final(self).sink() == old(self).sink(),
            r is Err ==> old(self)@.thr_due(),
    {
        if self.is_thr_interrupt_enabled() {
            // Trigger the interrupt only if the identification bit wasn't
            // set or acknowledged.
            if self.interrupt_identification & IIR_THR_EMPTY_BIT == 0 {
                self.add_interrupt(IIR_THR_EMPTY_BIT);
                self.trigger_interrupt()?
            }
        }
        Ok(())
    }

    fn received_data_interrupt(&mut self) -> (r: Result<(), T::E>)
        ensures
            final(self)@ == old(self)@.note_received(),
            final(self).effects() == if old(self)@.rda_due() {
                old(self).effects().push(Effect::Raised)
            } else {
                old(self).effects()
            },
            final(self).signal() == old(self).signal(),
            final(self).sink() == old(self).sink(),
            r is Err ==> old(self)@.rda_due(),
    {
        if self.is_rda_interrupt_enabled() {
            // Trigger the interrupt only if the identification bit wasn't
            // set or acknowledged.
            if self.interrupt_identification & IIR_RDA_BIT == 0 {
                self.add_interrupt(IIR_RDA_BIT);
                self.trigger_interrupt()?
            }
        }
        Ok(())
    }

    /// What the modem status register shows in loopback mode.
    fn loopback_modem_status(&self) -> (msr: u8)
        ensures
            msr == self@.loopback_modem_status(),
    {
        // In loopback mode, the four modem control inputs (CTS, DSR, RI, DCD) are
        // internally connected to the four modem control outputs (RTS, DTR, OUT1, OUT2).
        // This way CTS is controlled by RTS, DSR by DTR, RI by OUT1 and DCD by OUT2.
        // (so they will basically contain the same value).
        let mut msr = self.modem_status & !MSR_INPUT_BITS;
        proof {
            lemma_or_nothing(msr);
        }
        if (self.modem_control & MCR_DTR_BIT) != 0 {
            msr |= MSR_DSR_BIT;
        }
        proof {
            lemma_or_nothing(msr);
        }
        if (self.modem_control & MCR_RTS_BIT) != 0 {
            msr |= MSR_CTS_BIT;
        }
        proof {
            lemma_or_nothing(msr);
        }
        if (self.modem_control & MCR_OUT1_BIT) != 0 {
            msr |= MSR_RI_BIT;
        }
        proof {
            lemma_or_nothing(msr);
        }
        if (self.modem_control & MCR_OUT2_BIT) != 0 {
            msr |= MSR_DCD_BIT;
        }
        msr
    }

    /// What the device does once the output sink has answered to a byte of
    /// the driver.
    ///
    /// A refusal of the sink is returned as [`Error::IOError`] around what
    /// the sink reported: no register changes and the interrupt signal is
    /// not asked. After a success the empty transmitter is signalled where
    /// that is due, and a refusal of the signal is returned as
    /// [`Error::Trigger`].
    pub fn after_sending(&mut self, answer: Result<(), std::io::Error>) -> (r: Result<
        (),
        Error<T::E>,
    >)
        ensures
            match answer {
                Err(e) => {
                    &&& r == Err::<(), Error<T::E>>(Error::IOError(e))
                    &&& final(self)@ == old(self)@
                    &&& final(self).quiet_since(old(self))
                },
                Ok(()) => {
                    &&& final(self)@ == old(self)@.note_sent()
                    &&& final(self).effects() == if old(self)@.thr_due() {
                        old(self).effects().push(Effect::Raised)
                    } else {
                        old(self).effects()
                    }
                    &&& final(self).signal() == old(self).signal()
                    &&& final(self).sink() == old(self).sink()
                    &&& r matches Err(e) ==> e is Trigger && old(self)@.thr_due()
                    &&& !old(self)@.thr_due() ==> r is Ok
                },
            },
    {
        match answer {
            Err(e) => Err(Error::IOError(e)),
            Ok(()) => signalled(self.thr_empty_interrupt()),
        }
    }

    /// Appends every byte of `input` to the receive queue.
    fn extend_in_buffer(&mut self, input: &[u8])
        ensures
            final(self)@ == (RegisterFile {
                receive_queue: old(self)@.receive_queue + input@,
                ..old(self)@
            }),
            final(self).quiet_since(old(self)),
    {
        let mut i: usize = 0;
        while i < input.len()
            invariant
                i <= input.len(),
                self@ == (RegisterFile {
                    receive_queue: old(self)@.receive_queue + input@.subrange(0, i as int),
                    ..old(self)@
                }),
                self.quiet_since(old(self)),
            decreases input.len() - i,
        {
            self.in_buffer.push_back(input[i]);
            assert(input@.subrange(0, i + 1) =~= input@.subrange(0, i as int).push(input@[i as int]));
            i += 1;
        }
        assert(input@.subrange(0, i as int) =~= input@);
    }

    fn reset_iir(&mut self)
        ensures
            final(self)@ == (RegisterFile {
                interrupt_identification: DEFAULT_INTERRUPT_IDENTIFICATION,
                ..old(self)@
            }),
            final(self).quiet_since(old(self)),
    {
        self.interrupt_identification = DEFAULT_INTERRUPT_IDENTIFICATION
    }
}

impl<T: Trigger, W: std::io::Write> Serial<T, W> {
    /// Creates a new `Serial` instance which writes the guest's output to
    /// `out` and uses `trigger` object to notify the driver about new
    /// events.
    ///
    /// # Arguments
    /// * `trigger` - The Trigger object that will be used to notify the driver
    ///               about events.
    /// * `out` - An object for writing guest's output to. In case the output
    ///           is not of interest, [`std::io::Sink`] can be used here.
    pub fn new(trigger: T, out: W) -> (serial: Serial<T, W>)
        ensures
            serial@ == RegisterFile::reset(),
            serial@.inv(),
            serial.effects() == Seq::<Effect>::empty(),
            serial.signal() == trigger,
            serial.sink() == out,
    {
        Serial {
            baud_divisor_low: DEFAULT_BAUD_DIVISOR_LOW,
            baud_divisor_high: DEFAULT_BAUD_DIVISOR_HIGH,
            interrupt_enable: DEFAULT_INTERRUPT_ENABLE,
            interrupt_identification: DEFAULT_INTERRUPT_IDENTIFICATION,
            line_control: DEFAULT_LINE_CONTROL,
            line_status: DEFAULT_LINE_STATUS,
            modem_control: DEFAULT_MODEM_CONTROL,
            modem_status: DEFAULT_MODEM_STATUS,
            scratch: DEFAULT_SCRATCH,
            in_buffer: VecDeque::new(),
            interrupt_evt: trigger,
            out,
            effects: Ghost(Seq::empty()),
        }
    }

    /// Provides a reference to the interrupt event object.
    pub fn interrupt_evt(&self) -> (evt: &T)
        ensures
            *evt == self.signal(),
    {
        &self.interrupt_evt
    }

    /// Provides a reference to the object that takes the guest's output.
    pub fn writer(&self) -> (out: &W)
        ensures
            *out == self.sink(),
    {
        &self.out
    }

    /// The state of the device as plain values.
    pub fn state(&self) -> (state: SerialState)
        ensures
            state@ == self@,
    {
        let mut in_buffer: Vec<u8> = Vec::new();
        let mut i: usize = 0;
        while i < self.in_buffer.len()
            invariant
                i <= self.in_buffer@.len(),
                in_buffer@ == self.in_buffer@.subrange(0, i as int),
            decreases self.in_buffer@.len() - i,
        {
            in_buffer.push(self.in_buffer[i]);
            assert(self.in_buffer@.subrange(0, i + 1) =~= self.in_buffer@.subrange(
                0,
                i as int,
            ).push(self.in_buffer@[i as int]));
            i += 1;
        }
        assert(self.in_buffer@.subrange(0, i as int) =~= self.in_buffer@);
        SerialState {
            baud_divisor_low: self.baud_divisor_low,
            baud_divisor_high: self.baud_divisor_high,
            interrupt_enable: self.interrupt_enable,
            interrupt_identification: self.interrupt_identification,
            line_control: self.line_control,
            line_status: self.line_status,
            modem_control: self.modem_control,
            modem_status: self.modem_status,
            scratch: self.scratch,
            in_buffer,
        }
    }

    /// Creates a `Serial` that is in `state`, with `trigger` to notify the
    /// driver and `out` to take the guest's output.
    ///
    /// Returns `None` when no device can be in `state`, that is when
    /// [`SerialState::is_valid`] does not hold of it. No capability is
    /// called: an interrupt that is outstanding in `state` is not signalled
    /// again.
    pub fn from_state(state: &SerialState, trigger: T, out: W) -> (restored: Option<
        Serial<T, W>,
    >)
        ensures
            restored is Some <==> state@.inv(),
            restored matches Some(serial) ==> {
                &&& serial@ == state@
                &&& serial.effects() == Seq::<Effect>::empty()
                &&& serial.signal() == trigger
                &&& serial.sink() == out
            },
    {
        if !state.is_valid() {
            return None;
        }
        let mut serial = Serial {
            baud_divisor_low: state.baud_divisor_low,
            baud_divisor_high: state.baud_divisor_high,
            interrupt_enable: state.interrupt_enable,
            interrupt_identification: state.interrupt_identification,
            line_control: state.line_control,
            line_status: state.line_status,
            modem_control: state.modem_control,
            modem_status: state.modem_status,
            scratch: state.scratch,
            in_buffer: VecDeque::new(),
            interrupt_evt: trigger,
            out,
            effects: Ghost(Seq::empty()),
        };
        serial.extend_in_buffer(state.in_buffer.as_slice());
        assert(serial@.receive_queue =~= state@.receive_queue);
        Some(serial)
    }

    /// Hands `value` to the output sink and flushes it.
    fn transmit(&mut self, value: u8) -> (r: Result<(), std::io::Error>)
        ensures
            final(self)@ == old(self)@,
            final(self).signal() == old(self).signal(),
            r is Ok ==> final(self).effects() == old(self).effects().push(Effect::Sent(value)).push(
                Effect::Flushed,
            ),
            r is Err ==> final(self).effects() == old(self).effects().push(Effect::Sent(value))
                || final(self).effects() == old(self).effects().push(Effect::Sent(value)).push(
                Effect::Flushed,
            ),
    {
        proof {
            self.effects@ = self.effects@.push(Effect::Sent(value));
        }
        sink::write_byte(&mut self.out, value)?;
        proof {
            self.effects@ = self.effects@.push(Effect::Flushed);
        }
        sink::flush(&mut self.out)
    }

    /// Handles a write request from the driver at `offset` offset from the
    /// base Port I/O address.
    ///
    /// A write to the transmitter hands `value` to the output sink, or in
    /// loopback mode to the receive queue if fewer than 64 bytes wait
    /// there. A refusal of the sink is returned as [`Error::IOError`] and
    /// leaves the registers as they were. The interrupt signal fires when
    /// the cause is enabled and not outstanding; its refusal is returned as
    /// [`Error::Trigger`], with the registers already updated.
    ///
    /// # Arguments
    /// * `offset` - The offset that will be added to the base PIO address
    ///              for writing to a specific register.
    /// * `value` - The byte that should be written.
    pub fn write(&mut self, offset: u8, value: u8) -> (r: Result<(), Error<T::E>>)
        ensures
            match r {
                Ok(()) => {
                    &&& final(self)@ == old(self)@.after_write(offset, value)
                    &&& final(self).effects() == old(self).effects() + old(self)@.write_effects(
                        offset,
                        value,
                    )
                },
                Err(Error::Trigger(_)) => {
                    &&& old(self)@.write_raises(offset)
                    &&& final(self)@ == old(self)@.after_write(offset, value)
                    &&& final(self).effects() == old(self).effects() + old(self)@.write_effects(
                        offset,
                        value,
                    )
                },
                Err(Error::IOError(_)) => {
                    &&& old(self)@.write_sends(offset)
                    &&& final(self)@ == old(self)@
                    &&& (final(self).effects() == old(self).effects().push(Effect::Sent(value))
                        || final(self).effects() == old(self).effects().push(
                        Effect::Sent(value),
                    ).push(Effect::Flushed))
                },
            },
            !old(self)@.write_sends(offset) && !old(self)@.write_raises(offset) ==> r is Ok,
            final(self).signal() == old(self).signal(),
            !old(self)@.write_sends(offset) ==> final(self).sink() == old(self).sink(),
            old(self)@.inv() ==> final(self)@.inv(),
    {
        proof {
            if self@.inv() {
                lemma_write_keeps_inv(self@, offset, value);
            }
        }
        match offset {
            DLAB_LOW_OFFSET if self.is_dlab_set() => self.baud_divisor_low = value,
            DLAB_HIGH_OFFSET if self.is_dlab_set() => self.baud_divisor_high = value,
            DATA_OFFSET => {
                if self.is_in_loop_mode() {
                    // In loopback mode, what is written in the transmit register
                    // will be immediately found in the receive register, so we
                    // simulate this behavior by adding in `in_buffer` the
                    // transmitted bytes and letting the driver know there is some
                    // pending data to be read, by setting RDA bit and its
                    // corresponding interrupt.
                    if self.in_buffer.len() < FIFO_SIZE {
                        self.in_buffer.push_back(value);
                        self.set_lsr_rda_bit();
                        return signalled(self.received_data_interrupt());
                    }
                } else {
                    let answer = self.transmit(value);
                    return self.after_sending(answer);
                }
            },
            // We want to enable only the interrupts that are available for 16550A (and below).
            IER_OFFSET => self.interrupt_enable = value & IER_UART_VALID_BITS,
            LCR_OFFSET => self.line_control = value,
            MCR_OFFSET => self.modem_control = value,
            SCR_OFFSET => self.scratch = value,
            // We are not interested in writing to other offsets (such as FCR offset).
            _ => {},
        }
        Ok(())
    }

    /// Handles a read request from the driver at `offset` offset from the
    /// base Port I/O address.
    ///
    /// Returns the read value. Reading the receiver takes the oldest queued
    /// byte, or gives 0 when none is queued, and acknowledges received data;
    /// the data ready bit is cleared when at most one byte is left after
    /// that. Reading the interrupt identification acknowledges every cause.
    /// An offset beyond the eight registers reads as 0.
    ///
    /// # Arguments
    /// * `offset` - The offset that will be added to the base PIO address
    ///              for reading from a specific register.
    pub fn read(&mut self, offset: u8) -> (value: u8)
        ensures
            value == old(self)@.read_value(offset),
            final(self)@ == old(self)@.after_read(offset),
            final(self).quiet_since(old(self)),
            old(self)@.inv() ==> final(self)@.inv(),
    {
        proof {
            if self@.inv() {
                lemma_read_keeps_inv(self@, offset);
            }
        }
        match offset {
            DLAB_LOW_OFFSET if self.is_dlab_set() => self.baud_divisor_low,
            DLAB_HIGH_OFFSET if self.is_dlab_set() => self.baud_divisor_high,
            DATA_OFFSET => {
                // Here we emulate the reset method for when RDA interrupt
                // was raised (i.e. read the receive buffer and clear the
                // interrupt identification register and RDA bit when no
                // more data is available).
                self.del_interrupt(IIR_RDA_BIT);
                let oldest = self.in_buffer.pop_front();
                assert(self.in_buffer@ =~= old(self)@.after_read(offset).receive_queue);
                if self.in_buffer.len() <= 1 {
                    self.clear_lsr_rda_bit();
                }
                match oldest {
                    Some(byte) => byte,
                    None => 0,
                }
            },
            IER_OFFSET => self.interrupt_enable,
            IIR_OFFSET => {
                // We're enabling FIFO capability by setting the serial port to 16550A:
                // https://elixir.bootlin.com/linux/latest/source/drivers/tty/serial/8250/8250_port.c#L1299.
                let iir = self.interrupt_identification | IIR_FIFO_BITS;
                self.reset_iir();
                iir
            },
            LCR_OFFSET => self.line_control,
            MCR_OFFSET => self.modem_control,
            LSR_OFFSET => self.line_status,
            MSR_OFFSET => {
                if self.is_in_loop_mode() {
                    self.loopback_modem_status()
                } else {
                    self.modem_status
                }
            },
            SCR_OFFSET => self.scratch,
            _ => 0,
        }
    }

    /// Helps in sending more bytes to the guest in one shot, by storing
    /// `input` bytes in UART buffer and letting the driver know there is
    /// some pending data to be read by setting RDA bit and its corresponding
    /// interrupt when not already triggered.
    ///
    /// In loopback mode nothing happens, nor where `input` is empty.
    /// Otherwise every byte of `input` is queued: the bound of 64 bytes
    /// holds for loopback writes only.
    ///
    /// # Arguments
    /// * `input` - The data to be sent to the guest.
    pub fn enqueue_raw_bytes(&mut self, input: &[u8]) -> (r: Result<(), Error<T::E>>)
        ensures
            final(self)@ == old(self)@.after_enqueue(input@),
            final(self).effects() == if old(self)@.enqueue_raises(input@) {
                old(self).effects().push(Effect::Raised)
            } else {
                old(self).effects()
            },
            final(self).signal() == old(self).signal(),
            final(self).sink() == old(self).sink(),
            r matches Err(e) ==> e is Trigger && old(self)@.enqueue_raises(input@),
            !old(self)@.enqueue_raises(input@) ==> r is Ok,
            old(self)@.inv() ==> final(self)@.inv(),
    {
        proof {
            if self@.inv() {
                lemma_enqueue_keeps_inv(self@, input@);
            }
        }
        if !self.is_in_loop_mode() && input.len() > 0 {
            self.extend_in_buffer(input);
            self.set_lsr_rda_bit();
            return signalled(self.received_data_interrupt());
        }
        Ok(())
    }
}

} // verus!
