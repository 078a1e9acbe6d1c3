//! What follows from the register file's definition: the invariant that
//! every access keeps, and what a driver may rely on across several
//! accesses.

use vstd::prelude::*;

use crate::registers::{
    Effect, RegisterFile, DATA_OFFSET, FIFO_SIZE, IER_OFFSET, IER_UART_VALID_BITS, IIR_OFFSET,
    IIR_RDA_BIT, IIR_THR_EMPTY_BIT, LCR_DLAB_BIT, LCR_OFFSET, MCR_DTR_BIT, MCR_OFFSET,
    MCR_OUT1_BIT, MCR_OUT2_BIT, MCR_OUTPUT_BITS, MCR_RTS_BIT, MSR_CTS_BIT, MSR_DCD_BIT,
    MSR_DSR_BIT, MSR_INPUT_BITS, MSR_OFFSET, MSR_RI_BIT, SCR_OFFSET,
};

verus! {

/// The two values that the line status register takes differ in the data
/// ready bit alone.
pub proof fn lemma_line_status_bits(lsr: u8)
    by (bit_vector)
    requires
        lsr == 0x60 || lsr == 0x61,
    ensures
        lsr | 0x01 == 0x61,
        lsr & !0x01u8 == 0x60,
        (lsr & 0x01 != 0) <==> lsr == 0x61,
{
}

/// How the four values of the interrupt identification register change
/// when a cause becomes outstanding or is acknowledged.
pub proof fn lemma_identification_bits(iir: u8)
    by (bit_vector)
    requires
        iir == 0x01 || iir == 0x02 || iir == 0x04 || iir == 0x06,
    ensures
        (iir & 0x04 == 0) <==> (iir == 0x01 || iir == 0x02),
        (iir & 0x02 == 0) <==> (iir == 0x01 || iir == 0x04),
        iir == 0x01 ==> (iir & !0x01u8) | 0x04 == 0x04,
        iir == 0x02 ==> (iir & !0x01u8) | 0x04 == 0x06,
        iir == 0x01 ==> (iir & !0x01u8) | 0x02 == 0x02,
        iir == 0x04 ==> (iir & !0x01u8) | 0x02 == 0x06,
        iir == 0x01 ==> iir & !0x04u8 == 0x01,
        iir == 0x02 ==> iir & !0x04u8 == 0x02,
        iir == 0x04 ==> iir & !0x04u8 == 0x00,
        iir == 0x06 ==> iir & !0x04u8 == 0x02,
{
}

/// Masking with the legacy interrupts leaves no other bit.
pub proof fn lemma_enable_mask(value: u8)
    by (bit_vector)
    ensures
        value & 0x0f <= 0x0f,
{
}

/// A device that was just created is in a state that the invariant admits.
pub proof fn lemma_reset_inv()
    ensures
        RegisterFile::reset().inv(),
{
}

/// A write keeps the invariant, whatever the offset and the value.
pub proof fn lemma_write_keeps_inv(s: RegisterFile, offset: u8, value: u8)
    requires
        s.inv(),
    ensures
        s.after_write(offset, value).inv(),
{
    lemma_line_status_bits(s.line_status);
    lemma_identification_bits(s.interrupt_identification);
    lemma_enable_mask(value);
}

/// A read keeps the invariant, whatever the offset.
pub proof fn lemma_read_keeps_inv(s: RegisterFile, offset: u8)
    requires
        s.inv(),
    ensures
        s.after_read(offset).inv(),
{
    lemma_line_status_bits(s.line_status);
    lemma_identification_bits(s.interrupt_identification);
}

/// Bytes from outside keep the invariant, however many there are.
pub proof fn lemma_enqueue_keeps_inv(s: RegisterFile, bytes: Seq<u8>)
    requires
        s.inv(),
    ensures
        s.after_enqueue(bytes).inv(),
{
    lemma_line_status_bits(s.line_status);
    lemma_identification_bits(s.interrupt_identification);
}

/// Neither a write nor a read makes a receive queue of at most 64 bytes
/// longer than 64 bytes.
pub proof fn lemma_accesses_keep_queue_bound(s: RegisterFile, offset: u8, value: u8)
    requires
        s.receive_queue.len() <= FIFO_SIZE,
    ensures
        s.after_write(offset, value).receive_queue.len() <= FIFO_SIZE,
        s.after_read(offset).receive_queue.len() <= FIFO_SIZE,
{
}

/// What is written to the line control, modem control or scratch register
/// is what the next read of that register returns. The write makes no call
/// on a capability, and the read changes nothing.
pub proof fn lemma_plain_register_round_trip(s: RegisterFile, offset: u8, value: u8)
    requires
        offset == LCR_OFFSET || offset == MCR_OFFSET || offset == SCR_OFFSET,
    ensures
        s.after_write(offset, value).read_value(offset) == value,
        s.write_effects(offset, value) == Seq::<Effect>::empty(),
        s.after_write(offset, value).after_read(offset) == s.after_write(offset, value),
{
}

/// While DLAB is unset, offsets 0 and 1 are the data path and the interrupt
/// enable register: no access there reads or changes the baud divisor.
pub proof fn lemma_divisor_hidden_without_dlab(s: RegisterFile, offset: u8, value: u8)
    requires
        !s.dlab(),
        offset == DATA_OFFSET || offset == IER_OFFSET,
    ensures
        s.after_write(offset, value).baud_divisor_low == s.baud_divisor_low,
        s.after_write(offset, value).baud_divisor_high == s.baud_divisor_high,
        s.after_read(offset).baud_divisor_low == s.baud_divisor_low,
        s.after_read(offset).baud_divisor_high == s.baud_divisor_high,
        s.read_value(DATA_OFFSET) == if s.receive_queue.len() > 0 {
            s.receive_queue[0]
        } else {
            0
        },
        s.read_value(IER_OFFSET) == s.interrupt_enable,
        s.after_write(IER_OFFSET, value).interrupt_enable == value & IER_UART_VALID_BITS,
{
}

/// While DLAB is set, offsets 0 and 1 are the two bytes of the baud divisor
/// and nothing else: a write there changes that byte alone and calls no
/// capability, a read returns it and changes nothing.
pub proof fn lemma_divisor_shown_with_dlab(s: RegisterFile, value: u8)
    requires
        s.dlab(),
    ensures
        s.after_write(DATA_OFFSET, value) == (RegisterFile { baud_divisor_low: value, ..s }),
        s.after_write(IER_OFFSET, value) == (RegisterFile { baud_divisor_high: value, ..s }),
        s.write_effects(DATA_OFFSET, value) == Seq::<Effect>::empty(),
        s.write_effects(IER_OFFSET, value) == Seq::<Effect>::empty(),
        s.read_value(DATA_OFFSET) == s.baud_divisor_low,
        s.read_value(IER_OFFSET) == s.baud_divisor_high,
        s.after_read(DATA_OFFSET) == s,
        s.after_read(IER_OFFSET) == s,
{
}

/// Once DLAB is unset again, offsets 0 and 1 read as if the divisor had
/// never been written: the oldest queued byte, or 0, and the interrupt
/// enable register.
pub proof fn lemma_divisor_hidden_after_dlab(
    s: RegisterFile,
    low: u8,
    high: u8,
    line_control: u8,
)
    requires
        s.dlab(),
        line_control & LCR_DLAB_BIT == 0,
    ensures
        ({
            let after = s.after_write(DATA_OFFSET, low).after_write(
                IER_OFFSET,
                high,
            ).after_write(LCR_OFFSET, line_control);
            &&& after.baud_divisor_low == low
            &&& after.baud_divisor_high == high
            &&& after.read_value(DATA_OFFSET) == if s.receive_queue.len() > 0 {
                s.receive_queue[0]
            } else {
                0
            }
            &&& after.read_value(IER_OFFSET) == s.interrupt_enable
        }),
{
}

/// What is written to the interrupt enable register reads back with the
/// legacy interrupts alone.
pub proof fn lemma_enable_round_trip(s: RegisterFile, value: u8)
    requires
        !s.dlab(),
    ensures
        s.after_write(IER_OFFSET, value).read_value(IER_OFFSET) == value & IER_UART_VALID_BITS,
        s.after_write(IER_OFFSET, value).interrupt_enable <= IER_UART_VALID_BITS,
{
    lemma_enable_mask(value);
}

/// A cause that became outstanding shows in the identification register,
/// and the sentinel shows none.
pub proof fn lemma_cause_bits(iir: u8)
    by (bit_vector)
    ensures
        ((iir & !0x01u8) | 0x04) & 0x04 != 0,
        ((iir & !0x01u8) | 0x02) & 0x02 != 0,
        (iir & !0x04u8) & 0x04 == 0,
        0x01u8 & 0x04 == 0,
        0x01u8 & 0x02 == 0,
{
}

/// The interrupt signal fires on the edge, not on the level. With received
/// data enabled, of two loopback writes in a row only the first asks the
/// signal to fire, and only if the cause was not outstanding before. Once
/// the driver has acknowledged, by reading the identification register or
/// the receiver, the next loopback write asks again.
pub proof fn lemma_received_data_signalled_once(s: RegisterFile, first: u8, second: u8)
    requires
        s.loopback(),
        !s.dlab(),
        s.rda_enabled(),
        s.receive_queue.len() + 2 < FIFO_SIZE,
    ensures
        ({
            let s1 = s.after_write(DATA_OFFSET, first);
            let s2 = s1.after_write(DATA_OFFSET, second);
            &&& s.write_raises(DATA_OFFSET) == (s.interrupt_identification & IIR_RDA_BIT == 0)
            &&& !s1.write_raises(DATA_OFFSET)
            &&& s.write_effects(DATA_OFFSET, first) + s1.write_effects(DATA_OFFSET, second)
                == if s.interrupt_identification & IIR_RDA_BIT == 0 {
                seq![Effect::Raised]
            } else {
                Seq::<Effect>::empty()
            }
            &&& s2.receive_queue == s.receive_queue.push(first).push(second)
            &&& s2.after_read(IIR_OFFSET).write_raises(DATA_OFFSET)
            &&& s2.after_read(DATA_OFFSET).write_raises(DATA_OFFSET)
        }),
{
    lemma_cause_bits(s.interrupt_identification);
    let s1 = s.after_write(DATA_OFFSET, first);
    let s2 = s1.after_write(DATA_OFFSET, second);
    lemma_cause_bits(s2.interrupt_identification);
    assert(s.write_effects(DATA_OFFSET, first) + s1.write_effects(DATA_OFFSET, second)
        =~= if s.interrupt_identification & IIR_RDA_BIT == 0 {
        seq![Effect::Raised]
    } else {
        Seq::<Effect>::empty()
    });
}

/// The same holds of the output path. With the empty transmitter enabled,
/// of two bytes sent in a row only the first asks the signal to fire, and
/// only if the cause was not outstanding before. Once the driver has read
/// the identification register, the next byte sent asks again.
pub proof fn lemma_transmitter_empty_signalled_once(s: RegisterFile, first: u8, second: u8)
    requires
        !s.loopback(),
        !s.dlab(),
        s.thr_enabled(),
    ensures
        ({
            let s1 = s.after_write(DATA_OFFSET, first);
            let s2 = s1.after_write(DATA_OFFSET, second);
            &&& s.write_raises(DATA_OFFSET) == (s.interrupt_identification & IIR_THR_EMPTY_BIT
                == 0)
            &&& !s1.write_raises(DATA_OFFSET)
            &&& s.write_effects(DATA_OFFSET, first) + s1.write_effects(DATA_OFFSET, second)
                == if s.interrupt_identification & IIR_THR_EMPTY_BIT == 0 {
                seq![
                    Effect::Sent(first),
                    Effect::Flushed,
                    Effect::Raised,
                    Effect::Sent(second),
                    Effect::Flushed,
                ]
            } else {
                seq![
                    Effect::Sent(first),
                    Effect::Flushed,
                    Effect::Sent(second),
                    Effect::Flushed,
                ]
            }
            &&& s2.after_read(IIR_OFFSET).write_raises(DATA_OFFSET)
        }),
{
    lemma_cause_bits(s.interrupt_identification);
    let s1 = s.after_write(DATA_OFFSET, first);
    let s2 = s1.after_write(DATA_OFFSET, second);
    assert(s.write_effects(DATA_OFFSET, first) + s1.write_effects(DATA_OFFSET, second)
        =~= if s.interrupt_identification & IIR_THR_EMPTY_BIT == 0 {
        seq![
            Effect::Sent(first),
            Effect::Flushed,
            Effect::Raised,
            Effect::Sent(second),
            Effect::Flushed,
        ]
    } else {
        seq![Effect::Sent(first), Effect::Flushed, Effect::Sent(second), Effect::Flushed]
    });
}

/// The modem status that loopback mode derives from a modem control byte
/// and the stored modem status: every input shows its output, and the low
/// half is that of the stored register.
pub proof fn lemma_modem_wiring(control: u8, stored: u8)
    by (bit_vector)
    ensures
        ({
            let low = stored & !0xf0u8;
            let dsr = if control & 0x01 != 0 {
                0x20u8
            } else {
                0u8
            };
            let cts = if control & 0x02 != 0 {
                0x10u8
            } else {
                0u8
            };
            let ri = if control & 0x04 != 0 {
                0x40u8
            } else {
                0u8
            };
            let dcd = if control & 0x08 != 0 {
                0x80u8
            } else {
                0u8
            };
            let status = low | dsr | cts | ri | dcd;
            &&& (status & 0x20 != 0) == (control & 0x01 != 0)
            &&& (status & 0x10 != 0) == (control & 0x02 != 0)
            &&& (status & 0x40 != 0) == (control & 0x04 != 0)
            &&& (status & 0x80 != 0) == (control & 0x08 != 0)
            &&& status & 0x0f == stored & 0x0f
            &&& (control & 0x0f == 0x08 && stored & 0x0f == 0) ==> status == 0x80
            &&& (control & 0x0f == 0x03 && stored & 0x0f == 0) ==> status == 0x30
            &&& (control & 0x0f == 0x04 && stored & 0x0f == 0) ==> status == 0x40
            &&& (control & 0x0f == 0x00 && stored & 0x0f == 0) ==> status == 0x00
        }),
{
}

/// In loopback mode the modem status register shows the modem outputs on
/// the modem inputs: DSR shows DTR, CTS shows RTS, RI shows OUT1 and DCD
/// shows OUT2. The four low bits are those of the stored register.
pub proof fn lemma_loopback_modem_status(s: RegisterFile)
    requires
        s.loopback(),
    ensures
        ({
            let status = s.read_value(MSR_OFFSET);
            &&& (status & MSR_DSR_BIT != 0) == (s.modem_control & MCR_DTR_BIT != 0)
            &&& (status & MSR_CTS_BIT != 0) == (s.modem_control & MCR_RTS_BIT != 0)
            &&& (status & MSR_RI_BIT != 0) == (s.modem_control & MCR_OUT1_BIT != 0)
            &&& (status & MSR_DCD_BIT != 0) == (s.modem_control & MCR_OUT2_BIT != 0)
            &&& status & !MSR_INPUT_BITS == s.modem_status & !MSR_INPUT_BITS
        }),
{
    lemma_modem_wiring(s.modem_control, s.modem_status);
    lemma_low_half(s.read_value(MSR_OFFSET));
    lemma_low_half(s.modem_status);
}

/// The low half of a byte, written in the two ways that the register
/// definitions use.
pub proof fn lemma_low_half(x: u8)
    by (bit_vector)
    ensures
        x & !0xf0u8 == x & 0x0f,
{
}

/// In loopback mode, with the low half of the stored modem status clear:
/// where OUT2 is the only modem output set, the modem status register reads
/// as DCD alone; where DTR and RTS are the only ones, as DSR and CTS.
pub proof fn lemma_loopback_modem_status_of_outputs(s: RegisterFile)
    requires
        s.loopback(),
        s.modem_status & !MSR_INPUT_BITS == 0,
    ensures
        s.modem_control & MCR_OUTPUT_BITS == MCR_OUT2_BIT ==> s.read_value(MSR_OFFSET)
            == MSR_DCD_BIT,
        s.modem_control & MCR_OUTPUT_BITS == MCR_DTR_BIT | MCR_RTS_BIT ==> s.read_value(
            MSR_OFFSET,
        ) == MSR_DSR_BIT | MSR_CTS_BIT,
        s.modem_control & MCR_OUTPUT_BITS == MCR_OUT1_BIT ==> s.read_value(MSR_OFFSET)
            == MSR_RI_BIT,
        s.modem_control & MCR_OUTPUT_BITS == 0 ==> s.read_value(MSR_OFFSET) == 0,
{
    lemma_modem_wiring(s.modem_control, s.modem_status);
    lemma_low_half(s.modem_status);
    assert(0x01u8 | 0x02u8 == 0x03u8 && 0x20u8 | 0x10u8 == 0x30u8) by (bit_vector);
}

/// Setting the data ready bit sets it.
pub proof fn lemma_data_ready_bit(lsr: u8)
    by (bit_vector)
    ensures
        (lsr | 0x01) & 0x01 != 0,
        (lsr & !0x01u8) & 0x01 == 0,
{
}

/// Loopback writes fill the receive queue in their order, up to 64 bytes:
/// of `bytes`, as many are queued as there is room for, and the rest is
/// dropped. The device stays in loopback mode, and the data ready bit is
/// set once a byte was queued.
pub proof fn lemma_loopback_writes_fill_queue(s: RegisterFile, bytes: Seq<u8>)
    requires
        s.loopback(),
        !s.dlab(),
        s.receive_queue.len() <= FIFO_SIZE,
    ensures
        ({
            let after = s.after_data_writes(bytes);
            let room = FIFO_SIZE - s.receive_queue.len();
            let kept = if bytes.len() <= room {
                bytes.len() as int
            } else {
                room as int
            };
            &&& after.receive_queue == s.receive_queue + bytes.take(kept)
            &&& after.loopback()
            &&& !after.dlab()
            &&& after.interrupt_enable == s.interrupt_enable
            &&& kept > 0 ==> after.data_ready()
            &&& s.inv() ==> after.inv()
        }),
    decreases bytes.len(),
{
    if bytes.len() > 0 {
        let before = s.after_data_writes(bytes.drop_last());
        lemma_loopback_writes_fill_queue(s, bytes.drop_last());
        lemma_data_ready_bit(before.line_status);
        if s.inv() {
            lemma_write_keeps_inv(before, DATA_OFFSET, bytes.last());
        }
        let after = s.after_data_writes(bytes);
        let room = FIFO_SIZE - s.receive_queue.len();
        if bytes.len() <= room {
            assert(bytes.take(bytes.len() as int) =~= bytes.drop_last().take(bytes.len() - 1).push(
                bytes.last(),
            ));
            assert(after.receive_queue =~= s.receive_queue + bytes.take(bytes.len() as int));
        } else {
            assert(bytes.drop_last().take(room as int) =~= bytes.take(room as int));
        }
    } else {
        assert(s.receive_queue + bytes.take(0) =~= s.receive_queue);
    }
}

/// Reads of the receiver return the queued bytes oldest first, and 0 once
/// the queue is empty.
pub proof fn lemma_data_reads_drain_queue(s: RegisterFile, n: nat)
    requires
        !s.dlab(),
    ensures
        s.data_reads(n).len() == n,
        forall|i: int|
            0 <= i < n ==> s.data_reads(n)[i] == if i < s.receive_queue.len() {
                s.receive_queue[i]
            } else {
                0
            },
        s.after_data_reads(n).receive_queue == if n <= s.receive_queue.len() {
            s.receive_queue.skip(n as int)
        } else {
            Seq::empty()
        },
        !s.after_data_reads(n).dlab(),
        s.after_data_reads(n).modem_control == s.modem_control,
        s.after_data_reads(n).interrupt_enable == s.interrupt_enable,
        s.inv() ==> s.after_data_reads(n).inv(),
    decreases n,
{
    if n > 0 {
        let m = (n - 1) as nat;
        lemma_data_reads_drain_queue(s, m);
        let before = s.after_data_reads(m);
        if s.inv() {
            lemma_read_keeps_inv(before, DATA_OFFSET);
        }
        assert(s.after_data_reads(n).receive_queue =~= if n <= s.receive_queue.len() {
            s.receive_queue.skip(n as int)
        } else {
            Seq::empty()
        });
    } else {
        assert(s.receive_queue.skip(0) =~= s.receive_queue);
    }
}

/// The data ready bit follows the receive queue. It is set only while
/// bytes are queued and whenever more than one is. After a read of the
/// receiver it is set exactly when more than one byte is left: the read
/// that leaves a single byte behind, or none, clears it.
pub proof fn lemma_data_ready_follows_queue(s: RegisterFile, n: nat)
    requires
        s.inv(),
        !s.dlab(),
    ensures
        s.data_ready() ==> s.receive_queue.len() > 0,
        s.receive_queue.len() > 1 ==> s.data_ready(),
        n > 0 ==> s.after_data_reads(n).data_ready() == (s.receive_queue.len() > n + 1),
{
    lemma_line_status_bits(s.line_status);
    lemma_data_reads_drain_queue(s, n);
    lemma_line_status_bits(s.after_data_reads(n).line_status);
    if n > 0 {
        let m = (n - 1) as nat;
        lemma_data_reads_drain_queue(s, m);
        let before = s.after_data_reads(m);
        lemma_line_status_bits(before.line_status);
    }
}

/// The receive queue is first in, first out, and bounded for loopback
/// writes. After `bytes` were written in loopback mode to a device with an
/// empty queue, as many reads of the receiver as bytes were kept return
/// those bytes in the order of writing; at most 64 are kept. The data
/// ready bit is set once a byte was kept; after each of those reads it is
/// set exactly when more than one byte is left, so it is clear from the
/// read that leaves the last byte behind, and the queue is empty in the
/// end.
pub proof fn lemma_loopback_fifo(s: RegisterFile, bytes: Seq<u8>)
    requires
        s.inv(),
        s.loopback(),
        !s.dlab(),
        s.receive_queue.len() == 0,
    ensures
        ({
            let written = s.after_data_writes(bytes);
            let kept = if bytes.len() <= FIFO_SIZE {
                bytes.len()
            } else {
                FIFO_SIZE as nat
            };
            &&& written.receive_queue == bytes.take(kept as int)
            &&& written.data_reads(kept) == bytes.take(kept as int)
            &&& kept > 0 ==> written.data_ready()
            &&& forall|k: nat|
                0 < k <= kept ==> #[trigger] written.after_data_reads(k).data_ready() == (kept
                    > k + 1)
            &&& written.after_data_reads(kept).receive_queue == Seq::<u8>::empty()
        }),
{
    let written = s.after_data_writes(bytes);
    let kept = if bytes.len() <= FIFO_SIZE {
        bytes.len()
    } else {
        FIFO_SIZE as nat
    };
    lemma_loopback_writes_fill_queue(s, bytes);
    assert(written.receive_queue =~= bytes.take(kept as int));
    lemma_data_reads_drain_queue(written, kept);
    assert(written.data_reads(kept) =~= bytes.take(kept as int));
    assert forall|k: nat| 0 < k <= kept implies #[trigger] written.after_data_reads(
        k,
    ).data_ready() == (kept > k + 1) by {
        lemma_data_ready_follows_queue(written, k);
    }
    assert(written.after_data_reads(kept).receive_queue =~= Seq::<u8>::empty());
}

} // verus!
