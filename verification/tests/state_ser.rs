use std::io::sink;

use vm_superio::rtc_pl031::{RtcState, RTC};
use vm_superio::serial::{Serial, SerialState};
use vm_superio::state_ser::{RtcStateSer, SerialStateSer};
use vm_superio::Trigger;
use vmm_sys_util::eventfd::EventFd;

const RAW_INPUT_BUF: [u8; 3] = [b'a', b'b', b'c'];

struct EventFdTrigger(EventFd);

impl Trigger for EventFdTrigger {
    type E = std::io::Error;

    fn trigger(&self) -> std::io::Result<()> {
        self.0.write(1)
    }
}

impl EventFdTrigger {
    pub fn new(flag: i32) -> Self {
        EventFdTrigger(EventFd::new(flag).unwrap())
    }

    pub fn try_clone(&self) -> Self {
        EventFdTrigger(self.0.try_clone().unwrap())
    }
}

#[test]
fn test_state_ser_default() {
    let default_serial_state_ser = SerialStateSer::default();
    assert_eq!(
        SerialState::from(&default_serial_state_ser),
        SerialState::default()
    );
}

#[test]
fn test_state_ser_idempotency() {
    let state = SerialState::default();
    let state_ser = SerialStateSer::from(&state);
    let state_from_ser = SerialState::from(&state_ser);

    assert_eq!(state, state_from_ser);
}

#[test]
fn serial_test_state_ser() {
    let intr_evt = EventFdTrigger::new(libc::EFD_NONBLOCK);
    let mut serial = Serial::new(intr_evt.try_clone(), sink());

    serial.enqueue_raw_bytes(&RAW_INPUT_BUF).unwrap();

    let state = serial.state();
    let ser_state = SerialStateSer::from(&state);

    let state_after_restore = SerialState::from(&ser_state);
    let mut serial_after_restore =
        Serial::from_state(&state_after_restore, intr_evt.try_clone(), sink()).unwrap();

    RAW_INPUT_BUF.iter().for_each(|&c| {
        assert_eq!(serial_after_restore.read(0), c);
    });
    assert_eq!(state, state_after_restore);
}

#[test]
fn rtc_pl031_test_state_ser() {
    let mut rtc = RTC::new();
    let mut data = [0; 4];

    // Do some operations with the RTC.
    // Get the RTC value with a load register of 0 (the initial value).
    rtc.read(0x000, &mut data);

    let data2 = [1; 4];
    // Write to LR register.
    rtc.write(0x008, &data2);

    let state = rtc.state();
    let ser_state = RtcStateSer::from(&state);

    let state_after_restore = RtcState::from(&ser_state);
    let mut rtc_after_restore = RTC::from_state(&state_after_restore);

    // Reading from the LR register should return the same value as before saving the state.
    rtc_after_restore.read(0x008, &mut data);
    assert_eq!(data, data2);

    // Check that the old and the new state are identical when using the intermediate
    // `RtcStateSer` object as well.
    assert_eq!(state, state_after_restore);

    // Test the `Default` implementation of RtcStateSer.
    let default_rtc_state_ser = RtcStateSer::default();
    assert_eq!(RtcState::from(&default_rtc_state_ser), RtcState::default());
}

#[test]
fn stored_shape_keeps_every_field() {
    let state = SerialState {
        baud_divisor_low: 1,
        baud_divisor_high: 2,
        interrupt_enable: 3,
        interrupt_identification: 4,
        line_control: 5,
        line_status: 0x61,
        modem_control: 7,
        modem_status: 8,
        scratch: 9,
        in_buffer: vec![10, 11, 12],
    };
    let stored = SerialStateSer::from(&state);
    assert_eq!(
        stored,
        SerialStateSer {
            baud_divisor_low: 1,
            baud_divisor_high: 2,
            interrupt_enable: 3,
            interrupt_identification: 4,
            line_control: 5,
            line_status: 0x61,
            modem_control: 7,
            modem_status: 8,
            scratch: 9,
            in_buffer: vec![10, 11, 12],
        }
    );
    assert_eq!(SerialState::from(&stored), state);

    let clock = RtcState {
        lr: 1,
        offset: -2,
        mr: 3,
        imsc: 1,
        ris: 5,
    };
    let stored = RtcStateSer::from(&clock);
    assert_eq!(
        stored,
        RtcStateSer {
            lr: 1,
            offset: -2,
            mr: 3,
            imsc: 1,
            ris: 5
        }
    );
    assert_eq!(RtcState::from(&stored), clock);
}

#[test]
fn default_stored_shapes() {
    assert_eq!(
        SerialStateSer::default(),
        SerialStateSer {
            baud_divisor_low: 0x0c,
            baud_divisor_high: 0x00,
            interrupt_enable: 0x00,
            interrupt_identification: 0x01,
            line_control: 0x03,
            line_status: 0x60,
            modem_control: 0x08,
            modem_status: 0xb0,
            scratch: 0x00,
            in_buffer: Vec::new(),
        }
    );
    assert_eq!(
        RtcStateSer::default(),
        RtcStateSer {
            lr: 0,
            offset: 0,
            mr: 0,
            imsc: 0,
            ris: 0
        }
    );
}
