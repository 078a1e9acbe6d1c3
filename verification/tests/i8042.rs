use vm_superio::i8042::{Error, I8042Device, CMD_RESET_CPU, COMMAND_OFFSET, RESET_SIGNAL};
use vmm_sys_util::eventfd::EventFd;

#[test]
fn test_i8042_read_write_and_event() {
    let reset_evt = EventFd::new(libc::EFD_NONBLOCK).unwrap();
    let mut i8042 = I8042Device::new(reset_evt.try_clone().unwrap());

    assert_eq!(i8042.read(0), 0);

    // Check if reset works.
    i8042.write(COMMAND_OFFSET, CMD_RESET_CPU).unwrap();
    assert_eq!(reset_evt.read().unwrap(), 1);

    // Write something different than CPU reset and check that the reset event
    // was not triggered. For this we have to write 1 to the reset event fd, so
    // that read doesn't block.
    assert!(reset_evt.write(1).is_ok());
    i8042.write(COMMAND_OFFSET, CMD_RESET_CPU + 1).unwrap();
    assert_eq!(reset_evt.read().unwrap(), 1);
}

#[test]
fn reset_is_signalled_once_per_command() {
    let reset_evt = EventFd::new(libc::EFD_NONBLOCK).unwrap();
    let mut i8042 = I8042Device::new(reset_evt.try_clone().unwrap());

    assert_eq!(RESET_SIGNAL, 1);
    i8042.write(COMMAND_OFFSET, CMD_RESET_CPU).unwrap();
    assert_eq!(reset_evt.read().unwrap(), 1);
    i8042.write(COMMAND_OFFSET, CMD_RESET_CPU).unwrap();
    i8042.write(COMMAND_OFFSET, CMD_RESET_CPU).unwrap();
    i8042.write(COMMAND_OFFSET, CMD_RESET_CPU).unwrap();
    assert_eq!(reset_evt.read().unwrap(), 3);
}

#[test]
fn only_the_command_register_resets() {
    let reset_evt = EventFd::new(libc::EFD_NONBLOCK).unwrap();
    let mut i8042 = I8042Device::new(reset_evt.try_clone().unwrap());

    for offset in 0..=u8::MAX {
        if offset != COMMAND_OFFSET {
            i8042.write(offset, CMD_RESET_CPU).unwrap();
        }
        assert_eq!(i8042.read(offset), 0);
    }
    for value in 0..=u8::MAX {
        if value != CMD_RESET_CPU {
            i8042.write(COMMAND_OFFSET, value).unwrap();
        }
    }
    // Nothing was added to the counter, so a read that does not block fails.
    assert!(reset_evt.read().is_err());
}

#[test]
fn failed_reset_is_reported() {
    let reset_evt = EventFd::new(libc::EFD_NONBLOCK).unwrap();
    let mut i8042 = I8042Device::new(reset_evt.try_clone().unwrap());

    // Fill the counter of the eventfd: the next addition cannot be made.
    reset_evt.write(u64::MAX - 1).unwrap();
    let failed = i8042.write(COMMAND_OFFSET, CMD_RESET_CPU);
    match failed {
        Err(Error::TriggerInterrupt(_)) => {}
        Ok(()) => panic!("the reset event took one more"),
    }
    assert_eq!(failed.unwrap_err().message(), "Cannot trigger interrupt");

    // A write that asks for no reset still succeeds.
    i8042.write(COMMAND_OFFSET, 0x00).unwrap();
}

#[test]
fn outcome_of_a_reset() {
    assert!(vm_superio::i8042::reset_outcome(Ok(())).is_ok());
    let failure = std::io::Error::from_raw_os_error(11);
    match vm_superio::i8042::reset_outcome(Err(failure)) {
        Err(Error::TriggerInterrupt(e)) => assert_eq!(e.raw_os_error(), Some(11)),
        Ok(()) => panic!("a failure became a success"),
    }
}
