//! The register file of a 16550A UART as a mathematical object.
//!
//! [`RegisterFile`] holds one byte per hardware register and the receive
//! queue as a sequence. The spec functions on it say what a driver access
//! does to those values; the executable device in [`crate::serial`] is
//! verified against them.

use vstd::prelude::*;

verus! {

/// Receiver and transmitter register: a write goes to the transmitter, a
/// read comes from the receiver.
pub const DATA_OFFSET: u8 = 0;

/// Interrupt enable register.
pub const IER_OFFSET: u8 = 1;

/// Interrupt identification register.
pub const IIR_OFFSET: u8 = 2;

/// Line control register.
pub const LCR_OFFSET: u8 = 3;

/// Modem control register.
pub const MCR_OFFSET: u8 = 4;

/// Line status register.
pub const LSR_OFFSET: u8 = 5;

/// Modem status register.
pub const MSR_OFFSET: u8 = 6;

/// Scratch register.
pub const SCR_OFFSET: u8 = 7;

/// Low byte of the baud divisor, visible while DLAB is set.
pub const DLAB_LOW_OFFSET: u8 = 0;

/// High byte of the baud divisor, visible while DLAB is set.
pub const DLAB_HIGH_OFFSET: u8 = 1;

/// Number of bytes that loopback writes may queue up.
pub const FIFO_SIZE: usize = 0x40;

/// Received data available interrupt.
pub const IER_RDA_BIT: u8 = 0b0000_0001;

/// Transmitter holding register empty interrupt.
pub const IER_THR_EMPTY_BIT: u8 = 0b0000_0010;

/// The interrupts that exist on a 16550 and older models.
pub const IER_UART_VALID_BITS: u8 = 0b0000_1111;

/// Read back in the identification register to announce the FIFO.
pub const IIR_FIFO_BITS: u8 = 0b1100_0000;

/// No interrupt is outstanding.
pub const IIR_NONE_BIT: u8 = 0b0000_0001;

/// The transmitter holding register became empty.
pub const IIR_THR_EMPTY_BIT: u8 = 0b0000_0010;

/// Received data is available.
pub const IIR_RDA_BIT: u8 = 0b0000_0100;

/// Divisor latch access bit of the line control register.
pub const LCR_DLAB_BIT: u8 = 0b1000_0000;

/// The receive queue holds data.
pub const LSR_DATA_READY_BIT: u8 = 0b0000_0001;

/// The transmitter holding register is empty.
pub const LSR_EMPTY_THR_BIT: u8 = 0b0010_0000;

/// The transmitter shift register is empty.
pub const LSR_IDLE_BIT: u8 = 0b0100_0000;

/// Data terminal ready.
pub const MCR_DTR_BIT: u8 = 0b0000_0001;

/// Request to send.
pub const MCR_RTS_BIT: u8 = 0b0000_0010;

/// Auxiliary output 1.
pub const MCR_OUT1_BIT: u8 = 0b0000_0100;

/// Auxiliary output 2.
pub const MCR_OUT2_BIT: u8 = 0b0000_1000;

/// Loopback mode.
pub const MCR_LOOP_BIT: u8 = 0b0001_0000;

/// Clear to send.
pub const MSR_CTS_BIT: u8 = 0b0001_0000;

/// Data set ready.
pub const MSR_DSR_BIT: u8 = 0b0010_0000;

/// Ring indicator.
pub const MSR_RI_BIT: u8 = 0b0100_0000;

/// Data carrier detect.
pub const MSR_DCD_BIT: u8 = 0b1000_0000;

/// The four modem inputs that loopback mode wires to the modem outputs.
pub const MSR_INPUT_BITS: u8 = 0b1111_0000;

/// The four modem outputs: DTR, RTS, OUT1 and OUT2.
pub const MCR_OUTPUT_BITS: u8 = 0b0000_1111;

/// Both causes are outstanding: empty transmitter and received data.
pub const IIR_BOTH_CAUSES: u8 = 0b0000_0110;

/// Transmitter empty and idle, and data ready.
pub const LINE_STATUS_WITH_DATA: u8 = 0b0110_0001;

/// Divisor for 9600 bps, high byte.
pub const DEFAULT_BAUD_DIVISOR_HIGH: u8 = 0x00;

/// Divisor for 9600 bps, low byte.
pub const DEFAULT_BAUD_DIVISOR_LOW: u8 = 0x0C;

/// No interrupt enabled.
pub const DEFAULT_INTERRUPT_ENABLE: u8 = 0x00;

/// No interrupt outstanding.
pub const DEFAULT_INTERRUPT_IDENTIFICATION: u8 = 0b0000_0001;

/// Transmitter empty and idle: a virtual device is always ready for output.
pub const DEFAULT_LINE_STATUS: u8 = 0b0110_0000;

/// Words of 8 bits.
pub const DEFAULT_LINE_CONTROL: u8 = 0b0000_0011;

/// Auxiliary output 2 set, which most drivers need to see interrupts.
pub const DEFAULT_MODEM_CONTROL: u8 = 0b0000_1000;

/// Data set ready, clear to send and data carrier detect.
pub const DEFAULT_MODEM_STATUS: u8 = 0b1011_0000;

/// Nothing in the scratch register.
pub const DEFAULT_SCRATCH: u8 = 0x00;

/// One call that the device made on a capability it was given.
pub enum Effect {
    /// The byte was handed to the output sink.
    Sent(u8),
    /// The output sink was asked to flush.
    Flushed,
    /// The interrupt signal was asked to fire.
    Raised,
}

/// The state of the UART: its registers and its receive queue.
pub struct RegisterFile {
    pub baud_divisor_low: u8,
    pub baud_divisor_high: u8,
    pub interrupt_enable: u8,
    pub interrupt_identification: u8,
    pub line_control: u8,
    pub line_status: u8,
    pub modem_control: u8,
    pub modem_status: u8,
    pub scratch: u8,
    pub receive_queue: Seq<u8>,
}

impl RegisterFile {
    /// The state of a device that was just created.
    pub open spec fn reset() -> RegisterFile {
        RegisterFile {
            baud_divisor_low: DEFAULT_BAUD_DIVISOR_LOW,
            baud_divisor_high: DEFAULT_BAUD_DIVISOR_HIGH,
            interrupt_enable: DEFAULT_INTERRUPT_ENABLE,
            interrupt_identification: DEFAULT_INTERRUPT_IDENTIFICATION,
            line_control: DEFAULT_LINE_CONTROL,
            line_status: DEFAULT_LINE_STATUS,
            modem_control: DEFAULT_MODEM_CONTROL,
            modem_status: DEFAULT_MODEM_STATUS,
            scratch: DEFAULT_SCRATCH,
            receive_queue: Seq::empty(),
        }
    }

    /// What holds of every state that the device can reach.
    ///
    /// Only legacy interrupts are enabled. The transmitter always reports
    /// empty and idle. The identification register holds the sentinel alone
    /// or one or both causes without it. The data ready bit is set only
    /// while bytes are queued, and is set whenever more than one is: a
    /// single byte may wait with the bit clear, after the read that left it
    /// behind.
    pub open spec fn inv(self) -> bool {
        &&& self.interrupt_enable <= IER_UART_VALID_BITS
        &&& (self.line_status == DEFAULT_LINE_STATUS || self.line_status
            == LINE_STATUS_WITH_DATA)
        &&& (self.interrupt_identification == IIR_NONE_BIT || self.interrupt_identification
            == IIR_THR_EMPTY_BIT || self.interrupt_identification == IIR_RDA_BIT
            || self.interrupt_identification == IIR_BOTH_CAUSES)
        &&& (self.line_status == LINE_STATUS_WITH_DATA ==> self.receive_queue.len() > 0)
        &&& (self.receive_queue.len() > 1 ==> self.line_status == LINE_STATUS_WITH_DATA)
    }

    /// Offsets 0 and 1 show the baud divisor.
    pub open spec fn dlab(self) -> bool {
        self.line_control & LCR_DLAB_BIT != 0
    }

    /// The transmitter is wired to the receiver.
    pub open spec fn loopback(self) -> bool {
        self.modem_control & MCR_LOOP_BIT != 0
    }

    /// The driver asked to hear of received data.
    pub open spec fn rda_enabled(self) -> bool {
        self.interrupt_enable & IER_RDA_BIT != 0
    }

    /// The driver asked to hear of an empty transmitter.
    pub open spec fn thr_enabled(self) -> bool {
        self.interrupt_enable & IER_THR_EMPTY_BIT != 0
    }

    /// Received data has to be signalled: the interrupt is enabled and not
    /// outstanding yet.
    pub open spec fn rda_due(self) -> bool {
        self.rda_enabled() && self.interrupt_identification & IIR_RDA_BIT == 0
    }

    /// An empty transmitter has to be signalled: the interrupt is enabled
    /// and not outstanding yet.
    pub open spec fn thr_due(self) -> bool {
        self.thr_enabled() && self.interrupt_identification & IIR_THR_EMPTY_BIT == 0
    }

    /// The identification register with `bits` outstanding.
    pub open spec fn with_cause(self, bits: u8) -> RegisterFile {
        RegisterFile {
            interrupt_identification: (self.interrupt_identification & !IIR_NONE_BIT) | bits,
            ..self
        }
    }

    /// The identification register with `bits` acknowledged.
    pub open spec fn without_cause(self, bits: u8) -> RegisterFile {
        RegisterFile {
            interrupt_identification: if self.interrupt_identification & !bits == 0 {
                IIR_NONE_BIT
            } else {
                self.interrupt_identification & !bits
            },
            ..self
        }
    }

    /// The line status register with the data ready bit set.
    pub open spec fn with_data_ready(self) -> RegisterFile {
        RegisterFile { line_status: self.line_status | LSR_DATA_READY_BIT, ..self }
    }

    /// The line status register with the data ready bit cleared.
    pub open spec fn without_data_ready(self) -> RegisterFile {
        RegisterFile { line_status: self.line_status & !LSR_DATA_READY_BIT, ..self }
    }

    /// Received data was queued: the cause becomes outstanding when due.
    pub open spec fn note_received(self) -> RegisterFile {
        if self.rda_due() {
            self.with_cause(IIR_RDA_BIT)
        } else {
            self
        }
    }

    /// A byte left the transmitter: the cause becomes outstanding when due.
    pub open spec fn note_sent(self) -> RegisterFile {
        if self.thr_due() {
            self.with_cause(IIR_THR_EMPTY_BIT)
        } else {
            self
        }
    }

    /// A write at `offset` hands its byte to the output sink.
    pub open spec fn write_sends(self, offset: u8) -> bool {
        offset == DATA_OFFSET && !self.dlab() && !self.loopback()
    }

    /// A write at `offset` puts its byte into the receive queue.
    pub open spec fn write_loops(self, offset: u8) -> bool {
        offset == DATA_OFFSET && !self.dlab() && self.loopback() && self.receive_queue.len()
            < FIFO_SIZE
    }

    /// A write at `offset` asks the interrupt signal to fire, once the
    /// output sink has taken the byte where there is one to send.
    pub open spec fn write_raises(self, offset: u8) -> bool {
        (self.write_loops(offset) && self.rda_due()) || (self.write_sends(offset)
            && self.thr_due())
    }

    /// The calls that a write at `offset` makes on the capabilities when none
    /// of them fails, in their order.
    pub open spec fn write_effects(self, offset: u8, value: u8) -> Seq<Effect> {
        let sent = if self.write_sends(offset) {
            seq![Effect::Sent(value), Effect::Flushed]
        } else {
            Seq::<Effect>::empty()
        };
        if self.write_raises(offset) {
            sent.push(Effect::Raised)
        } else {
            sent
        }
    }

    /// The state after a write of `value` at `offset` that the output sink
    /// did not refuse.
    pub open spec fn after_write(self, offset: u8, value: u8) -> RegisterFile {
        if offset == DLAB_LOW_OFFSET && self.dlab() {
            RegisterFile { baud_divisor_low: value, ..self }
        } else if offset == DLAB_HIGH_OFFSET && self.dlab() {
            RegisterFile { baud_divisor_high: value, ..self }
        } else if offset == DATA_OFFSET {
            if self.write_loops(offset) {
                RegisterFile { receive_queue: self.receive_queue.push(value), ..self }
                    .with_data_ready().note_received()
            } else if self.write_sends(offset) {
                self.note_sent()
            } else {
                self
            }
        } else if offset == IER_OFFSET {
            RegisterFile { interrupt_enable: value & IER_UART_VALID_BITS, ..self }
        } else if offset == LCR_OFFSET {
            RegisterFile { line_control: value, ..self }
        } else if offset == MCR_OFFSET {
            RegisterFile { modem_control: value, ..self }
        } else if offset == SCR_OFFSET {
            RegisterFile { scratch: value, ..self }
        } else {
            self
        }
    }

    /// The modem status in loopback mode: each of the four inputs shows the
    /// output it is wired to (DSR shows DTR, CTS shows RTS, RI shows OUT1,
    /// DCD shows OUT2), and the four low bits are those of the stored
    /// register.
    pub open spec fn loopback_modem_status(self) -> u8 {
        let low = self.modem_status & !MSR_INPUT_BITS;
        let dsr = if self.modem_control & MCR_DTR_BIT != 0 {
            MSR_DSR_BIT
        } else {
            0
        };
        let cts = if self.modem_control & MCR_RTS_BIT != 0 {
            MSR_CTS_BIT
        } else {
            0
        };
        let ri = if self.modem_control & MCR_OUT1_BIT != 0 {
            MSR_RI_BIT
        } else {
            0
        };
        let dcd = if self.modem_control & MCR_OUT2_BIT != 0 {
            MSR_DCD_BIT
        } else {
            0
        };
        low | dsr | cts | ri | dcd
    }

    /// The byte that a read at `offset` returns.
    pub open spec fn read_value(self, offset: u8) -> u8 {
        if offset == DLAB_LOW_OFFSET && self.dlab() {
            self.baud_divisor_low
        } else if offset == DLAB_HIGH_OFFSET && self.dlab() {
            self.baud_divisor_high
        } else if offset == DATA_OFFSET {
            if self.receive_queue.len() > 0 {
                self.receive_queue[0]
            } else {
                0
            }
        } else if offset == IER_OFFSET {
            self.interrupt_enable
        } else if offset == IIR_OFFSET {
            self.interrupt_identification | IIR_FIFO_BITS
        } else if offset == LCR_OFFSET {
            self.line_control
        } else if offset == MCR_OFFSET {
            self.modem_control
        } else if offset == LSR_OFFSET {
            self.line_status
        } else if offset == MSR_OFFSET {
            if self.loopback() {
                self.loopback_modem_status()
            } else {
                self.modem_status
            }
        } else if offset == SCR_OFFSET {
            self.scratch
        } else {
            0
        }
    }

    /// The state after a read at `offset`.
    ///
    /// Reading the receiver acknowledges received data and takes the oldest
    /// byte; the data ready bit goes when at most one byte is left after
    /// that. Reading the identification register acknowledges every cause.
    /// No other read changes anything.
    pub open spec fn after_read(self, offset: u8) -> RegisterFile {
        if offset == DATA_OFFSET && !self.dlab() {
            let acked = self.without_cause(IIR_RDA_BIT);
            let left = if self.receive_queue.len() > 0 {
                self.receive_queue.drop_first()
            } else {
                self.receive_queue
            };
            if left.len() > 1 {
                RegisterFile { receive_queue: left, ..acked }
            } else {
                RegisterFile { receive_queue: left, ..acked.without_data_ready() }
            }
        } else if offset == IIR_OFFSET {
            RegisterFile { interrupt_identification: DEFAULT_INTERRUPT_IDENTIFICATION, ..self }
        } else {
            self
        }
    }

    /// Bytes from outside are queued: there is at least one, and loopback
    /// mode is off.
    pub open spec fn enqueue_stores(self, bytes: Seq<u8>) -> bool {
        !self.loopback() && bytes.len() > 0
    }

    /// The arrival of `bytes` from outside asks the interrupt signal to
    /// fire: they are queued, and received data is due to be signalled.
    pub open spec fn enqueue_raises(self, bytes: Seq<u8>) -> bool {
        self.enqueue_stores(bytes) && self.rda_due()
    }

    /// The state after `bytes` arrived from outside: in loopback mode, or
    /// where there are none, nothing changes; else all of them are queued,
    /// however many there are.
    pub open spec fn after_enqueue(self, bytes: Seq<u8>) -> RegisterFile {
        if !self.enqueue_stores(bytes) {
            self
        } else {
            RegisterFile { receive_queue: self.receive_queue + bytes, ..self }
                .with_data_ready().note_received()
        }
    }

    /// The line status register reports received data.
    pub open spec fn data_ready(self) -> bool {
        self.line_status & LSR_DATA_READY_BIT != 0
    }

    /// The state after the bytes of `bytes` were written to the transmitter
    /// one after the other.
    pub open spec fn after_data_writes(self, bytes: Seq<u8>) -> RegisterFile
        decreases bytes.len(),
    {
        if bytes.len() == 0 {
            self
        } else {
            self.after_data_writes(bytes.drop_last()).after_write(DATA_OFFSET, bytes.last())
        }
    }

    /// The state after `n` reads of the receiver.
    pub open spec fn after_data_reads(self, n: nat) -> RegisterFile
        decreases n,
    {
        if n == 0 {
            self
        } else {
            self.after_data_reads((n - 1) as nat).after_read(DATA_OFFSET)
        }
    }

    /// The bytes that `n` reads of the receiver return, in their order.
    pub open spec fn data_reads(self, n: nat) -> Seq<u8>
        decreases n,
    {
        if n == 0 {
            Seq::empty()
        } else {
            self.data_reads((n - 1) as nat).push(
                self.after_data_reads((n - 1) as nat).read_value(DATA_OFFSET),
            )
        }
    }
}

} // verus!
