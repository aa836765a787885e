use axvm_core::serial::{SerialConsole, COM1_BASE, DATA_REGISTER, LINE_STATUS_REGISTER};

#[test]
fn newline_becomes_carriage_return_newline() {
    let mut serial = SerialConsole::new();
    let emitted = serial.write(COM1_BASE, &[b'\n']);
    assert_eq!(emitted, vec![b'\r', b'\n']);
    assert_eq!(serial.output(), &vec![b'\r', b'\n']);
}

#[test]
fn plain_bytes_pass_through() {
    let mut serial = SerialConsole::new();
    let emitted = serial.write(COM1_BASE, &[b'A']);
    assert_eq!(emitted, vec![b'A']);
    serial.write(COM1_BASE, &[b'B']);
    assert_eq!(serial.output(), &vec![b'A', b'B']);
}

#[test]
fn writes_to_other_registers_are_discarded() {
    let mut serial = SerialConsole::new();
    let emitted = serial.write(COM1_BASE + 1, &[b'x']);
    assert!(emitted.is_empty());
    let emitted = serial.write(COM1_BASE + DATA_REGISTER, &[]);
    assert!(emitted.is_empty());
    assert!(serial.output().is_empty());
}

#[test]
fn line_status_always_ready() {
    let serial = SerialConsole::new();
    assert_eq!(serial.read(COM1_BASE + LINE_STATUS_REGISTER), 0x60);
    assert_eq!(serial.read(COM1_BASE), 0);
    assert_eq!(serial.read(COM1_BASE + 3), 0);
}
