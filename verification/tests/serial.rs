use std::io::{sink, Error, Result};

use vm_superio::registers::{
    DATA_OFFSET, DEFAULT_BAUD_DIVISOR_LOW, DEFAULT_INTERRUPT_IDENTIFICATION,
    DEFAULT_MODEM_CONTROL, DEFAULT_MODEM_STATUS, DLAB_HIGH_OFFSET, DLAB_LOW_OFFSET, FIFO_SIZE,
    IER_OFFSET, IER_RDA_BIT, IER_THR_EMPTY_BIT, IER_UART_VALID_BITS, IIR_FIFO_BITS, IIR_OFFSET,
    IIR_THR_EMPTY_BIT, LCR_DLAB_BIT, LCR_OFFSET, LSR_DATA_READY_BIT, LSR_OFFSET, MCR_DTR_BIT,
    MCR_LOOP_BIT, MCR_OFFSET, MCR_OUT1_BIT, MCR_RTS_BIT, MSR_CTS_BIT, MSR_DCD_BIT, MSR_DSR_BIT,
    MSR_OFFSET, MSR_RI_BIT, SCR_OFFSET,
};
use vm_superio::serial::Serial;
use vm_superio::Trigger;
use vmm_sys_util::eventfd::EventFd;

const RAW_INPUT_BUF: [u8; 3] = [b'a', b'b', b'c'];

struct EventFdTrigger(EventFd);

impl Trigger for EventFdTrigger {
    type E = Error;

    fn trigger(&self) -> Result<()> {
        self.0.write(1)
    }
}

#[test]
fn test_serial_output() {
    let intr_evt = EventFd::new(libc::EFD_NONBLOCK).unwrap();
    let mut serial = Serial::new(EventFdTrigger(intr_evt), Vec::new());

    // Valid one char at a time writes.
    RAW_INPUT_BUF
        .iter()
        .for_each(|&c| serial.write(DATA_OFFSET, c).unwrap());
    assert_eq!(serial.writer().as_slice(), &RAW_INPUT_BUF);
}

#[test]
fn test_serial_raw_input() {
    let intr_evt = EventFd::new(libc::EFD_NONBLOCK).unwrap();
    let mut serial = Serial::new(EventFdTrigger(intr_evt.try_clone().unwrap()), sink());

    serial.write(IER_OFFSET, IER_RDA_BIT).unwrap();
    serial.enqueue_raw_bytes(&RAW_INPUT_BUF).unwrap();

    // Verify the serial raised an interrupt.
    assert_eq!(intr_evt.read().unwrap(), 1);

    // `DATA_READY` bit should've been set by `enqueue_raw_bytes()`.
    let mut lsr = serial.read(LSR_OFFSET);
    assert_ne!(lsr & LSR_DATA_READY_BIT, 0);

    // Verify reading the previously pushed buffer.
    RAW_INPUT_BUF.iter().enumerate().for_each(|(i, &c)| {
        lsr = serial.read(LSR_OFFSET);
        // `DATA_READY` bit is cleared by the read that leaves
        // just one byte in the receive buffer.
        if RAW_INPUT_BUF.len() - i > 1 {
            assert_ne!(lsr & LSR_DATA_READY_BIT, 0);
        } else {
            assert_eq!(lsr & LSR_DATA_READY_BIT, 0);
        }
        assert_eq!(serial.read(DATA_OFFSET), c);
        // The Received Data Available interrupt bit should be
        // cleared after reading the first pending byte.
        assert_eq!(
            serial.state().interrupt_identification,
            DEFAULT_INTERRUPT_IDENTIFICATION
        );
    });

    lsr = serial.read(LSR_OFFSET);
    assert_eq!(lsr & LSR_DATA_READY_BIT, 0);
}

#[test]
fn test_serial_thr() {
    let intr_evt = EventFd::new(libc::EFD_NONBLOCK).unwrap();
    let mut serial = Serial::new(EventFdTrigger(intr_evt.try_clone().unwrap()), sink());

    serial.write(IER_OFFSET, IER_THR_EMPTY_BIT).unwrap();
    assert_eq!(
        serial.state().interrupt_enable,
        IER_THR_EMPTY_BIT & IER_UART_VALID_BITS
    );
    serial.write(DATA_OFFSET, b'a').unwrap();

    // Verify the serial raised an interrupt.
    assert_eq!(intr_evt.read().unwrap(), 1);

    let ier = serial.read(IER_OFFSET);
    assert_eq!(ier & IER_UART_VALID_BITS, IER_THR_EMPTY_BIT);
    let iir = serial.read(IIR_OFFSET);
    // Verify the raised interrupt is indeed the empty THR one.
    assert_ne!(iir & IIR_THR_EMPTY_BIT, 0);

    // When reading from IIR offset, the returned value will tell us that
    // FIFO feature is enabled.
    assert_eq!(iir, IIR_THR_EMPTY_BIT | IIR_FIFO_BITS);
    assert_eq!(
        serial.state().interrupt_identification,
        DEFAULT_INTERRUPT_IDENTIFICATION
    );
}

#[test]
fn test_serial_loop_mode() {
    let intr_evt = EventFd::new(libc::EFD_NONBLOCK).unwrap();
    let mut serial = Serial::new(EventFdTrigger(intr_evt.try_clone().unwrap()), sink());

    serial.write(MCR_OFFSET, MCR_LOOP_BIT).unwrap();
    serial.write(IER_OFFSET, IER_RDA_BIT).unwrap();

    for value in 0..FIFO_SIZE as u8 {
        serial.write(DATA_OFFSET, value).unwrap();
        assert_eq!(intr_evt.read().unwrap(), 1);
        assert_eq!(serial.state().in_buffer.len(), 1);
        // Immediately read a pushed value.
        assert_eq!(serial.read(DATA_OFFSET), value);
    }

    assert_eq!(serial.state().line_status & LSR_DATA_READY_BIT, 0);

    for value in 0..FIFO_SIZE as u8 {
        serial.write(DATA_OFFSET, value).unwrap();
    }

    assert_eq!(intr_evt.read().unwrap(), 1);
    assert_eq!(serial.state().in_buffer.len(), FIFO_SIZE);

    // Read the pushed values at the end.
    for value in 0..FIFO_SIZE as u8 {
        // The bit is set until a read leaves just one byte behind.
        if FIFO_SIZE - value as usize > 1 {
            assert_ne!(serial.state().line_status & LSR_DATA_READY_BIT, 0);
        } else {
            assert_eq!(serial.state().line_status & LSR_DATA_READY_BIT, 0);
        }
        assert_eq!(serial.read(DATA_OFFSET), value);
    }
    assert_eq!(serial.state().line_status & LSR_DATA_READY_BIT, 0);
}

#[test]
fn test_serial_dlab() {
    let intr_evt = EventFd::new(libc::EFD_NONBLOCK).unwrap();
    let mut serial = Serial::new(EventFdTrigger(intr_evt), sink());

    // For writing to DLAB registers, `DLAB` bit from LCR should be set.
    serial.write(LCR_OFFSET, LCR_DLAB_BIT).unwrap();
    serial.write(DLAB_HIGH_OFFSET, 0x12).unwrap();
    assert_eq!(serial.read(DLAB_LOW_OFFSET), DEFAULT_BAUD_DIVISOR_LOW);
    assert_eq!(serial.read(DLAB_HIGH_OFFSET), 0x12);

    serial.write(DLAB_LOW_OFFSET, 0x34).unwrap();

    assert_eq!(serial.read(DLAB_LOW_OFFSET), 0x34);
    assert_eq!(serial.read(DLAB_HIGH_OFFSET), 0x12);

    // If LCR_DLAB_BIT is not set, the values from `DLAB_LOW_OFFSET` and
    // `DLAB_HIGH_OFFSET` won't be the expected ones.
    serial.write(LCR_OFFSET, 0x00).unwrap();
    assert_ne!(serial.read(DLAB_LOW_OFFSET), 0x12);
    assert_ne!(serial.read(DLAB_HIGH_OFFSET), 0x34);
}

#[test]
fn test_basic_register_accesses() {
    let intr_evt = EventFd::new(libc::EFD_NONBLOCK).unwrap();
    let mut serial = Serial::new(EventFdTrigger(intr_evt), sink());

    // Writing to these registers does not alter the initial values to be written
    // and reading from these registers just returns those values, without
    // modifying them.
    let basic_register_accesses = [LCR_OFFSET, MCR_OFFSET, SCR_OFFSET];
    for offset in basic_register_accesses.iter() {
        serial.write(*offset, 0x12).unwrap();
        assert_eq!(serial.read(*offset), 0x12);
    }
}

#[test]
fn test_invalid_access() {
    let intr_evt = EventFd::new(libc::EFD_NONBLOCK).unwrap();
    let mut serial = Serial::new(EventFdTrigger(intr_evt), sink());

    // Check if reading from an offset outside 0-7 returns for sure 0.
    serial.write(SCR_OFFSET + 1, 5).unwrap();
    assert_eq!(serial.read(SCR_OFFSET + 1), 0);
}

#[test]
fn test_serial_msr() {
    let intr_evt = EventFd::new(libc::EFD_NONBLOCK).unwrap();
    let mut serial = Serial::new(EventFdTrigger(intr_evt), sink());

    assert_eq!(serial.read(MSR_OFFSET), DEFAULT_MODEM_STATUS);

    // Activate loopback mode.
    serial.write(MCR_OFFSET, MCR_LOOP_BIT).unwrap();

    // In loopback mode, MSR won't contain the default value anymore.
    assert_ne!(serial.read(MSR_OFFSET), DEFAULT_MODEM_STATUS);
    assert_eq!(serial.read(MSR_OFFSET), 0x00);

    // Depending on which bytes we enable for MCR, MSR will be modified accordingly.
    serial
        .write(MCR_OFFSET, DEFAULT_MODEM_CONTROL | MCR_LOOP_BIT)
        .unwrap();
    // DEFAULT_MODEM_CONTROL sets OUT2 from MCR to 1. In loopback mode, OUT2 is equivalent
    // to DCD bit from MSR.
    assert_eq!(serial.read(MSR_OFFSET), MSR_DCD_BIT);

    // The same should happen with OUT1 and RI.
    serial
        .write(MCR_OFFSET, MCR_OUT1_BIT | MCR_LOOP_BIT)
        .unwrap();
    assert_eq!(serial.read(MSR_OFFSET), MSR_RI_BIT);

    serial
        .write(MCR_OFFSET, MCR_LOOP_BIT | MCR_DTR_BIT | MCR_RTS_BIT)
        .unwrap();
    // DSR and CTS from MSR are "matching wires" to DTR and RTS from MCR (so they will
    // have the same value).
    assert_eq!(serial.read(MSR_OFFSET), MSR_DSR_BIT | MSR_CTS_BIT);
}
