//! The COM1 serial console: a trap-based byte sink that translates
//! newline to carriage-return newline and records everything emitted.

use vstd::prelude::*;

verus! {

/// Base guest port of the COM1 window.
pub const COM1_BASE: u16 = 0x3F8;

/// Register offset of the data register.
pub const DATA_REGISTER: u16 = 0;

/// Register offset of the line-status register.
pub const LINE_STATUS_REGISTER: u16 = 5;

/// The host bytes that a guest port write produces: a write of `\n`
/// to the data register emits `\r\n`, any other byte passes through,
/// and writes to every other register emit nothing.
pub open spec fn spec_serial_output(port: u16, data: Seq<u8>) -> Seq<u8> {
    if port == COM1_BASE && data.len() > 0 {
        if data[0] == 10u8 {
            seq![13u8, 10u8]
        } else {
            seq![data[0]]
        }
    } else {
        Seq::<u8>::empty()
    }
}

/// The value a guest port read returns: the line-status register
/// always reports the transmitter empty and ready (0x60); every
/// other register reads as zero.
pub open spec fn spec_serial_read(port: u16) -> u8 {
    if port == COM1_BASE + LINE_STATUS_REGISTER {
        0x60u8
    } else {
        0u8
    }
}

/// The serial console.  Its view is the full sequence of bytes it
/// has emitted to the host, kept for introspection and tests.
pub struct SerialConsole {
    output: Vec<u8>,
}

impl View for SerialConsole {
    type V = Seq<u8>;

    closed spec fn view(&self) -> Seq<u8> {
        self.output@
    }
}

impl SerialConsole {
    /// A console that has emitted nothing yet.
    pub fn new() -> (r: Self)
        ensures
            r@ == Seq::<u8>::empty(),
    {
        let output: Vec<u8> = Vec::new();
        proof {
            assert(output@ =~= Seq::<u8>::empty());
        }
        SerialConsole { output }
    }

    /// Handles a guest port write inside the COM1 window and returns
    /// the bytes to hand to the host output stream, which are also
    /// appended to the capture buffer.
    pub fn write(&mut self, port: u16, data: &[u8]) -> (emitted: Vec<u8>)
        requires
            COM1_BASE <= port < COM1_BASE + 8,
        ensures
            emitted@ == spec_serial_output(port, data@),
            final(self)@ == old(self)@ + emitted@,
    {
        let mut emitted: Vec<u8> = Vec::new();
        let offset = port - COM1_BASE;
        if offset == DATA_REGISTER && data.len() > 0 {
            let byte = data[0];
            if byte == 10u8 {
                emitted.push(13u8);
                emitted.push(10u8);
            } else {
                emitted.push(byte);
            }
        }
        let mut k: usize = 0;
        while k < emitted.len()
            invariant
                k <= emitted@.len(),
                self.output@ == old(self)@ + emitted@.subrange(0, k as int),
            decreases emitted@.len() - k,
        {
            self.output.push(emitted[k]);
            k = k + 1;
            proof {
                assert(self.output@ =~= old(self)@ + emitted@.subrange(0, k as int));
            }
        }
        proof {
            assert(emitted@.subrange(0, emitted@.len() as int) =~= emitted@);
            assert(emitted@ =~= spec_serial_output(port, data@));
        }
        emitted
    }

    /// Handles a guest port read inside the COM1 window.
    pub fn read(&self, port: u16) -> (r: u8)
        requires
            COM1_BASE <= port < COM1_BASE + 8,
        ensures
            r == spec_serial_read(port),
    {
        let offset = port - COM1_BASE;
        if offset == LINE_STATUS_REGISTER {
            0x60u8
        } else {
            0u8
        }
    }

    /// Every byte this console has emitted to the host, in order.
    pub fn output(&self) -> (r: &Vec<u8>)
        ensures
            r@ == self@,
    {
        &self.output
    }
}

impl Default for SerialConsole {
    fn default() -> (r: Self)
        ensures
            r@ == Seq::<u8>::empty(),
    {
        SerialConsole::new()
    }
}

} // verus!
