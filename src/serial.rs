//! The main loop's side of the serial line: draining and echoing received
//! lines, and the text it sends back.
use vstd::prelude::*;
use vstd::string::StringSliceAdditionalSpecFns;
use crate::command::{command_of, parse_input, InputVariant};
use crate::serial_buffer::{
    empty_line, has_no_terminator, lemma_line_received, receive_all, SerialBuffer, BUFFER_CAPACITY,
    LINE_TERMINATOR,
};

verus! {

/// The firmware version that the status report names.
pub const FIRMWARE_VERSION: &'static str = "0.1.0";

/// What precedes the echo of a received line.
pub const ECHO_PREFIX: &'static str = "Got: ";

pub const STATUS_HEADER: &'static str = "\n\n~~~~~~~~~~ EQPlatform-PulseGuiding ~~~~~~~~~~\n~                                           ~\n~          Firmware-Version: ";

pub const STATUS_CURRENT: &'static str = "          ~\n~           Current Velocity: ";

pub const STATUS_DEFAULT: &'static str = "         ~\n~           Default Velocity: ";

pub const STATUS_STARTS: &'static str = "         ~\n~           Number of starts: ";

pub const STATUS_FOOTER: &'static str = "            ~\n~                                           ~\n~~~~~~~~~~~~~~~~~~~~~~~~~~~~~~~~~~~~~~~~~~~~~\n";

pub const NEWLINE: u8 = 10;

/// The decimal digits of `n`, most significant first.
pub open spec fn decimal_digits(n: nat) -> Seq<u8>
    decreases n,
{
    if n < 10 {
        seq![(48 + n) as u8]
    } else {
        decimal_digits(n / 10).push((48 + n % 10) as u8)
    }
}

/// The echo of a received line.
pub open spec fn echo_text(line: Seq<u8>) -> Seq<u8> {
    ECHO_PREFIX.spec_bytes() + line + seq![NEWLINE]
}

/// The status report.
pub open spec fn status_text(current_time: u32, default_time: u32, starts: u32) -> Seq<u8> {
    STATUS_HEADER.spec_bytes() + FIRMWARE_VERSION.spec_bytes() + STATUS_CURRENT.spec_bytes()
        + decimal_digits(current_time as nat) + STATUS_DEFAULT.spec_bytes() + decimal_digits(
        default_time as nat,
    ) + STATUS_STARTS.spec_bytes() + decimal_digits(starts as nat) + STATUS_FOOTER.spec_bytes()
}

/// Relies on ufmt's `uDisplay` for `u32`, written into a `String`: the
/// decimal digits of `n`, most significant first, with no sign or padding.
#[verifier::external_body]
fn decimal_bytes(n: u32) -> (r: Vec<u8>)
    ensures
        r@ == decimal_digits(n as nat),
{
    let mut text = String::new();
    let _ = ufmt::uDisplay::fmt(&n, &mut ufmt::Formatter::new(&mut text));
    text.into_bytes()
}

/// The transmit side of the serial line: the bytes written and not yet sent.
pub struct SerialHandler {
    usart0_tx: Vec<u8>,
}

impl View for SerialHandler {
    type V = Seq<u8>;

    closed spec fn view(&self) -> Seq<u8> {
        self.usart0_tx@
    }
}

impl SerialHandler {
    /// A handler with nothing written.
    pub fn new() -> (r: SerialHandler)
        ensures
            r@ == Seq::<u8>::empty(),
    {
        SerialHandler { usart0_tx: Vec::new() }
    }

    fn write_bytes(&mut self, bytes: &[u8])
        ensures
            final(self)@ == old(self)@ + bytes@,
    {
        let ghost start = self@;
        let mut i: usize = 0;
        while i < bytes.len()
            invariant
                i <= bytes@.len(),
                self@ == start + bytes@.take(i as int),
            decreases bytes@.len() - i,
        {
            self.usart0_tx.push(bytes[i]);
            i = i + 1;
            assert(self@ =~= start + bytes@.take(i as int));
        }
        assert(bytes@.take(i as int) =~= bytes@);
    }

    /// Takes a complete line from the buffer, echoes it, and returns the
    /// command it stands for; `None`, with nothing changed, while no line is
    /// complete.
    pub fn handle_input(&mut self, serial_buffer: &mut SerialBuffer) -> (r: Option<InputVariant>)
        requires
            old(serial_buffer).wf(),
        ensures
            final(serial_buffer).wf(),
            old(serial_buffer).view().complete ==> r == Some(command_of(old(serial_buffer).view().bytes))
                && final(serial_buffer).view() == empty_line()
                && final(self)@ == old(self)@ + echo_text(old(serial_buffer).view().bytes),
            !old(serial_buffer).view().complete ==> r is None && final(serial_buffer).view()
                == old(serial_buffer).view() && final(self)@ == old(self)@,
    {
        match serial_buffer.drain() {
            Some(line) => {
                let command = parse_input(line.as_slice());
                self.write_str(ECHO_PREFIX);
                self.write_bytes(line.as_slice());
                self.usart0_tx.push(NEWLINE);
                assert(self@ =~= old(self)@ + echo_text(line@));
                Some(command)
            },
            None => None,
        }
    }

    /// Writes the text `string`.
    pub fn write_str(&mut self, string: &str)
        ensures
            final(self)@ == old(self)@ + string.spec_bytes(),
    {
        self.write_bytes(string.as_bytes());
    }

    /// Writes `value` in decimal.
    pub fn write_number(&mut self, value: u32)
        ensures
            final(self)@ == old(self)@ + decimal_digits(value as nat),
    {
        let digits = decimal_bytes(value);
        self.write_bytes(digits.as_slice());
    }

    /// Writes the status report.
    pub fn send_status(&mut self, current_time: u32, default_time: u32, starts: u32)
        ensures
            final(self)@ == old(self)@ + status_text(current_time, default_time, starts),
    {
        self.write_str(STATUS_HEADER);
        self.write_str(FIRMWARE_VERSION);
        self.write_str(STATUS_CURRENT);
        self.write_number(current_time);
        self.write_str(STATUS_DEFAULT);
        self.write_number(default_time);
        self.write_str(STATUS_STARTS);
        self.write_number(starts);
        self.write_str(STATUS_FOOTER);
        assert(self@ =~= old(self)@ + status_text(current_time, default_time, starts));
    }

    /// Hands out the bytes written so far, to be sent, and forgets them.
    pub fn take_output(&mut self) -> (r: Vec<u8>)
        ensures
            r@ == old(self)@,
            final(self)@ == Seq::<u8>::empty(),
    {
        let mut out: Vec<u8> = Vec::new();
        core::mem::swap(&mut out, &mut self.usart0_tx);
        out
    }
}

/// A line that fits the buffer, received with its terminator and drained,
/// is parsed as the line itself.
pub proof fn lemma_received_line_parses(line: Seq<u8>)
    requires
        has_no_terminator(line),
        line.len() <= BUFFER_CAPACITY,
    ensures
        receive_all(empty_line(), line.push(LINE_TERMINATOR)).complete,
        command_of(receive_all(empty_line(), line.push(LINE_TERMINATOR)).bytes) == command_of(line),
{
    lemma_line_received(line);
}

} // verus!
