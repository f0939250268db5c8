//! The two ends of the echo test.

use vstd::prelude::*;
use vstd::string::*;
use crate::error::{invalid, Error, ErrorKind};
use crate::frame::{
    decode, defect, encode, frame_of, frame_valid, law_roundtrip, sequence_of, MAX_PAYLOAD,
    OVERHEAD,
};
use crate::rs485::options::{Command, Options};
use crate::text::{decimal_of, push_decimal};

verus! {

/// `a / b`, rounded up.
pub open spec fn ceil_div(a: int, b: int) -> int {
    (a + b - 1) / b
}

/// Microseconds in which a line turns around.
pub open spec fn turnaround_of(baud: u32) -> int {
    if ceil_div(40_000_000, baud as int) < 2000 {
        2000
    } else {
        ceil_div(40_000_000, baud as int)
    }
}

/// The time in microseconds in which a half-duplex line turns around: at least
/// four characters, or two milliseconds at high rates. Receiving the last byte
/// does not imply that the other transceiver has released its driver.
pub fn turnaround(baud: u32) -> (micros: u64)
    requires
        baud != 0,
    ensures
        micros == turnaround_of(baud),
{
    let micros: u64 = (40_000_000 + baud as u64 - 1) / baud as u64;
    if micros < 2000 {
        2000
    } else {
        micros
    }
}

/// Microseconds until a frame of `bytes` has left an adapter for certain.
pub open spec fn settling_of(bytes: int, baud: u32) -> int {
    ceil_div((bytes + 2) * 10_000_000 * 103, baud * 100) + 2000
}

/// The time in microseconds until a frame of `bytes` has left an adapter that
/// may report it as sent too early: the time of the frame and two more
/// characters on the wire, three percent of tolerance, and two milliseconds.
pub fn settling(bytes: usize, baud: u32) -> (micros: u64)
    requires
        baud != 0,
        bytes <= MAX_PAYLOAD + OVERHEAD,
    ensures
        micros == settling_of(bytes as int, baud),
{
    let bits: u64 = (bytes as u64 + 2) * 10_000_000 * 103;
    let rate: u64 = baud as u64 * 100;
    (bits + rate - 1) / rate + 2000
}

/// Byte `i` of the payload of frame `sequence`.
pub open spec fn payload_byte(sequence: u32, i: usize) -> u8 {
    (sequence ^ (i as u32) ^ (i as u32 >> 8)) as u8
}

/// The payload of frame `sequence`.
pub open spec fn payload_of(sequence: u32, size: usize) -> Seq<u8> {
    Seq::new(size as nat, |i: int| payload_byte(sequence, i as usize))
}

/// Makes the payload of frame `sequence`.
pub fn payload(sequence: u32, size: usize) -> (bytes: Vec<u8>)
    ensures
        bytes@ == payload_of(sequence, size),
{
    let mut bytes: Vec<u8> = Vec::new();
    let mut i: usize = 0;
    while i < size
        invariant
            i <= size,
            bytes@ == payload_of(sequence, i),
        decreases size - i,
    {
        let byte: u8 = #[verifier::truncate] ((sequence ^ (#[verifier::truncate] (i as u32)) ^ (
        #[verifier::truncate] (i as u32) >> 8)) as u8);
        bytes.push(byte);
        i = i + 1;
        assert(bytes@ =~= payload_of(sequence, i));
    }
    bytes
}

/// Whether two rows of bytes are the same.
pub fn same_bytes(a: &Vec<u8>, b: &Vec<u8>) -> (same: bool)
    ensures
        same == (a@ == b@),
{
    if a.len() != b.len() {
        return false;
    }
    let mut i: usize = 0;
    while i < a.len()
        invariant
            i <= a@.len(),
            a@.len() == b@.len(),
            forall|j: int| 0 <= j < i ==> a@[j] == b@[j],
        decreases a@.len() - i,
    {
        if a[i] != b[i] {
            return false;
        }
        i = i + 1;
    }
    assert(a@ =~= b@);
    true
}

/// A failure of one exchange, or of one device, which is named first.
pub fn named(name: &str, error: Error) -> (result: Error)
    ensures
        result.is(error.kind, name@ + ": "@ + error.message@),
{
    let mut message = name.to_owned();
    message.append(": ");
    message.append(error.message.as_str());
    Error { kind: error.kind, message }
}

/// Fails with `message` unless `condition` holds.
pub fn require(condition: bool, message: &str) -> (result: Result<(), Error>)
    ensures
        match result {
            Ok(()) => condition,
            Err(error) => !condition && error.is(ErrorKind::Other, message@),
        },
{
    if condition {
        Ok(())
    } else {
        Err(Error::new(ErrorKind::Other, message))
    }
}

/// What one end of the test needs next.
#[derive(Clone, Copy, Debug, PartialEq, Eq, Structural)]
pub enum SessionStep {
    /// To sleep for so many microseconds.
    Pause { micros: u64 },
    /// To write the frame before the deadline.
    Send,
    /// To read a frame before the deadline.
    Receive,
    /// To wait until everything has been sent.
    Drain,
    /// Nothing; the test has passed.
    Done,
    /// Nothing; the test has failed.
    Failed,
}

/// What a step came back with.
#[derive(Debug)]
pub enum SessionReply {
    Paused,
    Sent(Result<(), Error>),
    Received(Result<Vec<u8>, Error>),
    Drained(Result<(), Error>),
}

/// `reply` is one to `step`.
pub open spec fn answers(step: SessionStep, reply: SessionReply) -> bool {
    match step {
        SessionStep::Pause { .. } => reply is Paused,
        SessionStep::Send => reply is Sent,
        SessionStep::Receive => reply is Received,
        SessionStep::Drain => reply is Drained,
        _ => false,
    }
}

/// The end that sends numbered frames and requires exact echoes.
#[derive(Debug)]
pub struct UartSession {
    pub count: u32,
    pub size: usize,
    pub baud: u32,
    /// The line is half duplex, and has to turn around before each request.
    pub turns: bool,
    /// Number of the frame under way.
    pub sequence: u32,
    pub frame: Vec<u8>,
    pub step: SessionStep,
}

impl UartSession {
    /// The session is about to send frame `sequence`, or has passed.
    pub open spec fn prepared(self, sequence: u32) -> bool {
        &&& self.sequence == sequence
        &&& if sequence < self.count {
            &&& self.frame@ == frame_of(sequence, payload_of(sequence, self.size))
            &&& self.step == if self.turns {
                SessionStep::Pause { micros: turnaround_of(self.baud) as u64 }
            } else {
                SessionStep::Send
            }
        } else {
            self.step == SessionStep::Done
        }
    }

    /// The frame under way is the one with its number.
    pub open spec fn wf(self) -> bool {
        &&& self.baud != 0
        &&& self.size <= MAX_PAYLOAD
        &&& self.sequence <= self.count
        &&& match self.step {
            SessionStep::Done => self.sequence == self.count,
            SessionStep::Failed => true,
            SessionStep::Drain => false,
            _ => self.sequence < self.count && self.frame@ == frame_of(
                self.sequence,
                payload_of(self.sequence, self.size),
            ),
        }
    }

    /// The same test.
    pub open spec fn same_test(self, other: UartSession) -> bool {
        self.count == other.count && self.size == other.size && self.baud == other.baud
            && self.turns == other.turns
    }

    /// The session goes on after `reply`.
    pub open spec fn goes_on(self, reply: SessionReply, after: UartSession) -> bool {
        &&& after.same_test(self)
        &&& match reply {
            SessionReply::Paused => after.sequence == self.sequence && after.frame@ == self.frame@
                && after.step == SessionStep::Send,
            SessionReply::Sent(result) => result is Ok && after.sequence == self.sequence
                && after.frame@ == self.frame@ && after.step == SessionStep::Receive,
            SessionReply::Received(result) => result is Ok && result->Ok_0@ == self.frame@
                && after.prepared((self.sequence + 1) as u32),
            SessionReply::Drained(_) => false,
        }
    }

    /// The session ends with `error` after `reply`.
    pub open spec fn fails(self, reply: SessionReply, error: Error) -> bool {
        let number = decimal_of(self.sequence as int);
        match reply {
            SessionReply::Sent(Err(failure)) => error == failure,
            SessionReply::Received(Err(failure)) => error.is(
                failure.kind,
                "sequence "@ + number + ": "@ + failure.message@,
            ),
            SessionReply::Received(Ok(echo)) => echo@ != self.frame@ && error.is(
                ErrorKind::InvalidInput,
                "echo mismatch at sequence "@ + number,
            ),
            _ => false,
        }
    }

    /// The step begins a new timeout. One deadline covers a request and its
    /// echo.
    pub fn begins_deadline(&self) -> (begins: bool)
        ensures
            begins == (self.step is Send),
    {
        match self.step {
            SessionStep::Send => true,
            _ => false,
        }
    }

    /// Begins the test that `options` ask for. Only an external line has to
    /// turn around.
    pub fn new(options: &Options) -> (result: Result<UartSession, Error>)
        requires
            options.baud != 0,
        ensures
            match result {
                Ok(session) => {
                    &&& session.count == options.count
                    &&& session.size == options.size
                    &&& session.baud == options.baud
                    &&& session.turns == (options.command == Command::Uart)
                    &&& session.prepared(0)
                    &&& session.size <= MAX_PAYLOAD || session.count == 0
                    &&& session.size <= MAX_PAYLOAD ==> session.wf()
                },
                Err(error) => {
                    &&& options.count > 0
                    &&& options.size > MAX_PAYLOAD
                    &&& error.is(ErrorKind::InvalidInput, "payload exceeds 1024 bytes"@)
                },
            },
    {
        let mut session = UartSession {
            count: options.count,
            size: options.size,
            baud: options.baud,
            turns: match options.command {
                Command::Uart => true,
                _ => false,
            },
            sequence: 0,
            frame: Vec::new(),
            step: SessionStep::Failed,
        };
        match session.prepare(0) {
            Ok(()) => Ok(session),
            Err(error) => Err(error),
        }
    }

    /// Prepares frame `sequence`, if there is one more.
    fn prepare(&mut self, sequence: u32) -> (result: Result<(), Error>)
        requires
            old(self).baud != 0,
        ensures
            final(self).same_test(*old(self)),
            match result {
                Ok(()) => final(self).prepared(sequence) && (sequence >= old(self).count
                    || old(self).size <= MAX_PAYLOAD),
                Err(error) => {
                    &&& sequence < old(self).count
                    &&& old(self).size > MAX_PAYLOAD
                    &&& error.is(ErrorKind::InvalidInput, "payload exceeds 1024 bytes"@)
                },
            },
    {
        self.sequence = sequence;
        if sequence >= self.count {
            self.step = SessionStep::Done;
            return Ok(());
        }
        let data = payload(sequence, self.size);
        match encode(sequence, data.as_slice()) {
            Ok(frame) => {
                self.frame = frame;
            },
            Err(error) => {
                return Err(error);
            },
        }
        self.step = if self.turns {
            SessionStep::Pause { micros: turnaround(self.baud) }
        } else {
            SessionStep::Send
        };
        Ok(())
    }

    /// Takes the reply to the current step.
    pub fn resume(&mut self, reply: SessionReply) -> (result: Result<(), Error>)
        requires
            old(self).wf(),
            answers(old(self).step, reply),
        ensures
            final(self).wf(),
            match result {
                Ok(()) => old(self).goes_on(reply, *final(self)),
                Err(error) => {
                    &&& old(self).fails(reply, error)
                    &&& final(self).step == SessionStep::Failed
                    &&& final(self).same_test(*old(self))
                    &&& final(self).sequence == old(self).sequence
                    &&& final(self).frame@ == old(self).frame@
                },
            },
    {
        match reply {
            SessionReply::Paused => {
                self.step = SessionStep::Send;
                Ok(())
            },
            SessionReply::Sent(result) => {
                match result {
                    Ok(()) => {
                        self.step = SessionStep::Receive;
                        Ok(())
                    },
                    Err(error) => {
                        self.step = SessionStep::Failed;
                        Err(error)
                    },
                }
            },
            SessionReply::Received(Ok(echo)) => {
                if !same_bytes(&echo, &self.frame) {
                    self.step = SessionStep::Failed;
                    let mut message = "echo mismatch at sequence ".to_owned();
                    push_decimal(&mut message, self.sequence as u64);
                    return Err(Error { kind: ErrorKind::InvalidInput, message });
                }
                self.prepare(self.sequence + 1)
            },
            SessionReply::Received(Err(error)) => {
                self.step = SessionStep::Failed;
                let mut name = "sequence ".to_owned();
                push_decimal(&mut name, self.sequence as u64);
                Err(named(name.as_str(), error))
            },
            SessionReply::Drained(_) => Ok(()),
        }
    }
}

/// The end that validates frames and echoes them.
#[derive(Debug)]
pub struct PeerSession {
    pub count: u32,
    pub baud: u32,
    /// Number of the frame that comes next.
    pub expected: u32,
    /// The frame to echo.
    pub frame: Vec<u8>,
    /// Everything has been echoed and sent; only the adapter may still hold it.
    pub drained: bool,
    pub step: SessionStep,
}

impl PeerSession {
    /// The step before frame `expected`: another request, or the end.
    pub open spec fn next_step(self, expected: u32) -> SessionStep {
        if expected < self.count {
            SessionStep::Receive
        } else {
            SessionStep::Drain
        }
    }

    /// The frame that is echoed is valid and has the number that was due.
    pub open spec fn wf(self) -> bool {
        &&& self.baud != 0
        &&& self.expected <= self.count
        &&& self.expected > 0 ==> frame_valid(self.frame@)
        &&& self.expected == 0 ==> self.frame@.len() <= MAX_PAYLOAD + OVERHEAD
        &&& match self.step {
            SessionStep::Receive => !self.drained && self.expected < self.count,
            SessionStep::Pause { .. } => self.drained ==> self.expected == self.count,
            SessionStep::Send => !self.drained,
            SessionStep::Drain => !self.drained && self.expected == self.count,
            _ => true,
        }
    }

    /// The same test.
    pub open spec fn same_test(self, other: PeerSession) -> bool {
        self.count == other.count && self.baud == other.baud
    }

    /// The session goes on after `reply`.
    pub open spec fn goes_on(self, reply: SessionReply, after: PeerSession) -> bool {
        &&& after.same_test(self)
        &&& match reply {
            SessionReply::Received(result) => {
                &&& result is Ok
                &&& frame_valid(result->Ok_0@)
                &&& sequence_of(result->Ok_0@) == self.expected
                &&& after.frame@ == result->Ok_0@
                &&& after.expected == self.expected + 1
                &&& after.drained == self.drained
                &&& after.step == (SessionStep::Pause {
                    micros: turnaround_of(self.baud) as u64,
                })
            },
            SessionReply::Paused => {
                &&& after.expected == self.expected
                &&& after.frame@ == self.frame@
                &&& after.drained == self.drained
                &&& after.step == if self.drained {
                    SessionStep::Done
                } else {
                    SessionStep::Send
                }
            },
            SessionReply::Sent(result) => {
                &&& result is Ok
                &&& after.expected == self.expected
                &&& after.frame@ == self.frame@
                &&& after.drained == self.drained
                &&& after.step == self.next_step(self.expected)
            },
            SessionReply::Drained(result) => {
                &&& result is Ok
                &&& after.expected == self.expected
                &&& after.frame@ == self.frame@
                &&& after.drained
                &&& after.step == (SessionStep::Pause {
                    micros: settling_of(self.frame@.len() as int, self.baud) as u64,
                })
            },
        }
    }

    /// The session ends with `error` after `reply`.
    pub open spec fn fails(self, reply: SessionReply, error: Error) -> bool {
        match reply {
            SessionReply::Received(Err(failure)) => error == failure,
            SessionReply::Received(Ok(frame)) => if !frame_valid(frame@) {
                error.is(ErrorKind::InvalidInput, defect(frame@))
            } else {
                &&& sequence_of(frame@) != self.expected
                &&& error.is(
                    ErrorKind::InvalidInput,
                    "missing, duplicated, or reordered request"@,
                )
            },
            SessionReply::Sent(Err(failure)) => error == failure,
            SessionReply::Drained(Err(failure)) => error == failure,
            _ => false,
        }
    }

    /// The step begins a new timeout. Every transfer has a deadline of its own.
    pub fn begins_deadline(&self) -> (begins: bool)
        ensures
            begins == (self.step is Send || self.step is Receive),
    {
        match self.step {
            SessionStep::Send | SessionStep::Receive => true,
            _ => false,
        }
    }

    /// Begins the test that `options` ask for.
    pub fn new(options: &Options) -> (session: PeerSession)
        requires
            options.baud != 0,
        ensures
            session.count == options.count,
            session.baud == options.baud,
            session.expected == 0,
            session.frame@.len() == 0,
            !session.drained,
            session.step == session.next_step(0),
            session.wf(),
    {
        PeerSession {
            count: options.count,
            baud: options.baud,
            expected: 0,
            frame: Vec::new(),
            drained: false,
            step: if 0 < options.count {
                SessionStep::Receive
            } else {
                SessionStep::Drain
            },
        }
    }

    /// Takes the reply to the current step.
    pub fn resume(&mut self, reply: SessionReply) -> (result: Result<(), Error>)
        requires
            old(self).wf(),
            answers(old(self).step, reply),
        ensures
            final(self).wf(),
            match result {
                Ok(()) => old(self).goes_on(reply, *final(self)),
                Err(error) => {
                    &&& old(self).fails(reply, error)
                    &&& final(self).step == SessionStep::Failed
                    &&& final(self).same_test(*old(self))
                    &&& final(self).expected == old(self).expected
                    &&& final(self).frame@ == old(self).frame@
                    &&& final(self).drained == old(self).drained
                },
            },
    {
        self.step = SessionStep::Failed;
        match reply {
            SessionReply::Received(Ok(frame)) => {
                let sequence: u32 = match decode(frame.as_slice()) {
                    Ok((sequence, _)) => sequence,
                    Err(error) => {
                        return Err(error);
                    },
                };
                if sequence != self.expected {
                    return Err(invalid("missing, duplicated, or reordered request"));
                }
                self.frame = frame;
                self.expected = self.expected + 1;
                self.step = SessionStep::Pause { micros: turnaround(self.baud) };
                Ok(())
            },
            SessionReply::Received(Err(error)) => Err(error),
            SessionReply::Paused => {
                self.step = if self.drained {
                    SessionStep::Done
                } else {
                    SessionStep::Send
                };
                Ok(())
            },
            SessionReply::Sent(result) => match result {
                Ok(()) => {
                    self.step = if self.expected < self.count {
                        SessionStep::Receive
                    } else {
                        SessionStep::Drain
                    };
                    Ok(())
                },
                Err(error) => Err(error),
            },
            SessionReply::Drained(result) => match result {
                Ok(()) => {
                    self.drained = true;
                    self.step = SessionStep::Pause {
                        micros: settling(self.frame.len(), self.baud),
                    };
                    Ok(())
                },
                Err(error) => Err(error),
            },
        }
    }
}

// ---------------------------------------------------------------------------
// Laws
// ---------------------------------------------------------------------------

/// A peer that expects the frame under way accepts it and echoes it, and the
/// echo is one that the sender accepts: over a line that loses nothing the
/// test passes, frame by frame.
pub proof fn law_faithful_line_passes(
    uart: UartSession,
    peer: PeerSession,
    received: Vec<u8>,
    error: Error,
)
    requires
        uart.wf(),
        uart.step == SessionStep::Receive,
        peer.expected == uart.sequence,
        received@ == uart.frame@,
    ensures
        frame_valid(received@),
        sequence_of(received@) == peer.expected,
        !peer.fails(SessionReply::Received(Ok(received)), error),
        !uart.fails(SessionReply::Received(Ok(received)), error),
{
    law_roundtrip(uart.sequence, payload_of(uart.sequence, uart.size));
}

/// An echo is awaited right after its request was sent, so the deadline that
/// the request began is the one that the echo has to meet.
pub proof fn law_echo_shares_the_deadline_of_its_request(
    uart: UartSession,
    reply: SessionReply,
    after: UartSession,
)
    requires
        uart.wf(),
        answers(uart.step, reply),
        uart.goes_on(reply, after),
        after.step == SessionStep::Receive,
    ensures
        uart.step == SessionStep::Send,
        after.frame@ == uart.frame@,
        after.sequence == uart.sequence,
{
}

/// The sender passes over nothing but an exact echo.
pub proof fn law_only_exact_echoes_pass(
    uart: UartSession,
    echo: Vec<u8>,
    after: UartSession,
)
    requires
        uart.wf(),
        uart.step == SessionStep::Receive,
        uart.goes_on(SessionReply::Received(Ok(echo)), after),
    ensures
        echo@ == uart.frame@,
        after.sequence == uart.sequence + 1,
{
}

/// A lost, repeated or reordered request never goes unnoticed.
pub proof fn law_peer_takes_requests_in_order(
    peer: PeerSession,
    frame: Vec<u8>,
    after: PeerSession,
)
    requires
        frame_valid(frame@),
        sequence_of(frame@) != peer.expected,
    ensures
        !peer.goes_on(SessionReply::Received(Ok(frame)), after),
{
}

/// The pause before the line turns around is at least the time of four
/// characters at every rate, and the final one outlasts the whole frame.
pub proof fn law_pauses_cover_the_wire_time(bytes: int, baud: u32)
    requires
        baud != 0,
        bytes >= 0,
    ensures
        turnaround_of(baud) * baud >= 40_000_000,
        turnaround_of(baud) >= 2000,
        settling_of(bytes, baud) * baud >= bytes * 10_000_000,
{
    let b = baud as int;
    lemma_ceil_div_covers(40_000_000, b);
    let t = turnaround_of(baud);
    assert(t * b >= ceil_div(40_000_000, b) * b) by (nonlinear_arith)
        requires
            t >= ceil_div(40_000_000, b),
            b > 0,
    ;
    let bits = (bytes + 2) * 10_000_000 * 103;
    lemma_ceil_div_covers(bits, b * 100);
    let wait = ceil_div(bits, b * 100);
    assert((wait + 2000) * b >= bytes * 10_000_000) by (nonlinear_arith)
        requires
            wait * (b * 100) >= bits,
            bits == (bytes + 2) * 10_000_000 * 103,
            bytes >= 0,
            b > 0,
    ;
}

/// Rounding up covers what is divided.
proof fn lemma_ceil_div_covers(a: int, b: int)
    requires
        b > 0,
    ensures
        ceil_div(a, b) * b >= a,
{
    let n = a + b - 1;
    vstd::arithmetic::div_mod::lemma_fundamental_div_mod(n, b);
    vstd::arithmetic::div_mod::lemma_mod_bound(n, b);
    vstd::arithmetic::mul::lemma_mul_is_commutative(b, n / b);
}

/// The pauses are as short as they can be: the turnaround is the least number of
/// microseconds in which forty bits pass, but two milliseconds at least, and the
/// last pause is two milliseconds more than the least number in which the frame
/// and two characters pass, with three percent of tolerance.
pub proof fn law_pauses_are_short(
    baud: u32,
    bytes: usize,
    turn: u64,
    settle: u64,
)
    requires
        baud != 0,
        bytes <= 1038,
        call_ensures(turnaround, (baud,), turn),
        call_ensures(settling, (bytes, baud), settle),
    ensures
        turn >= 2000,
        turn * baud >= 40_000_000,
        turn > 2000 ==> (turn - 1) * baud < 40_000_000,
        settle >= 2000,
        (settle - 2000) * (baud * 100) >= (bytes + 2) * 1_030_000_000,
        (settle - 2001) * (baud * 100) < (bytes + 2) * 1_030_000_000,
{
    let b = baud as int;
    law_pauses_cover_the_wire_time(bytes as int, baud);
    lemma_ceil_div_is_least(40_000_000, b);
    let bits = (bytes + 2) * 10_000_000 * 103;
    lemma_ceil_div_covers(bits, b * 100);
    lemma_ceil_div_is_least(bits, b * 100);
}

/// Rounding up goes no further than it has to.
proof fn lemma_ceil_div_is_least(a: int, b: int)
    requires
        b > 0,
        a >= 0,
    ensures
        ceil_div(a, b) >= 0,
        (ceil_div(a, b) - 1) * b < a,
{
    let n = a + b - 1;
    vstd::arithmetic::div_mod::lemma_fundamental_div_mod(n, b);
    vstd::arithmetic::div_mod::lemma_mod_bound(n, b);
    vstd::arithmetic::div_mod::lemma_div_pos_is_pos(n, b);
    vstd::arithmetic::mul::lemma_mul_is_commutative(b, n / b);
    vstd::arithmetic::mul::lemma_mul_is_distributive_sub_other_way(b, n / b, 1);
}

/// The payload of a frame: its first byte is the low byte of the frame's number,
/// and any other differs from it in the bits of its index and in those of the
/// index divided by 256.
pub proof fn law_payload_is_numbered(sequence: u32, size: usize, bytes: Vec<u8>, i: int)
    requires
        call_ensures(payload, (sequence, size), bytes),
        0 <= i < size,
        i <= 0xffff_ffff,
    ensures
        bytes@.len() == size,
        bytes@[0] == sequence % 256,
        bytes@[i] ^ bytes@[0] == ((i % 256) as u8) ^ ((i / 256 % 256) as u8),
{
    let n = i as u32;
    let size_of_index = i as usize;
    assert(size_of_index as u32 == n);
    let low = (n % 256) as u8;
    let high = (n / 256 % 256) as u8;
    assert({
        &&& (sequence ^ 0u32 ^ (0u32 >> 8)) as u8 == sequence % 256
        &&& ((sequence ^ n ^ (n >> 8)) as u8) ^ ((sequence ^ 0u32 ^ (0u32 >> 8)) as u8) == ((n
            % 256) as u8) ^ ((n / 256 % 256) as u8)
    }) by (bit_vector);
    assert(bytes@[0] == payload_byte(sequence, 0));
    assert(bytes@[i] == payload_byte(sequence, size_of_index));
}

/// How the sender begins: with frame zero under way, or at the end where no
/// frames are asked for. Only an external line pauses first.
pub proof fn law_sender_begins(
    options: &Options,
    result: Result<UartSession, Error>,
    data: Vec<u8>,
    slice: &[u8],
    encoded: Result<Vec<u8>, Error>,
    turn: u64,
)
    requires
        options.baud != 0,
        call_ensures(UartSession::new, (options,), result),
        call_ensures(payload, (0u32, options.size), data),
        slice@ == data@,
        call_ensures(encode, (0u32, slice), encoded),
        call_ensures(turnaround, (options.baud,), turn),
    ensures
        result is Ok <==> options.count == 0 || encoded is Ok,
        result is Ok ==> {
            let session = result->Ok_0;
            &&& session.count == options.count && session.size == options.size && session.baud
                == options.baud
            &&& session.sequence == 0
            &&& session.turns <==> options.command == Command::Uart
            &&& options.count == 0 ==> session.step == SessionStep::Done
            &&& options.count > 0 ==> session.frame@ == encoded->Ok_0@
            &&& options.count > 0 && options.command == Command::Uart ==> session.step
                == SessionStep::Pause { micros: turn }
            &&& options.count > 0 && options.command != Command::Uart ==> session.step
                == SessionStep::Send
        },
        result is Err ==> result->Err_0.message@ == encoded->Err_0.message@,
{
}

/// How the sender goes on: after the pause it sends, after sending it receives,
/// and the exact echo leads to the next number and its frame, or to the end after
/// the last. Anything else that is received ends the test, with the number of
/// the frame.
pub proof fn law_sender_course(
    session: &mut UartSession,
    reply: SessionReply,
    result: Result<(), Error>,
    data: Vec<u8>,
    slice: &[u8],
    encoded: Result<Vec<u8>, Error>,
    turn: u64,
    number: &mut String,
)
    requires
        old(session).wf(),
        answers(old(session).step, reply),
        call_ensures(UartSession::resume, (session, reply), result),
        call_ensures(payload, ((old(session).sequence + 1) as u32, old(session).size), data),
        slice@ == data@,
        call_ensures(encode, ((old(session).sequence + 1) as u32, slice), encoded),
        call_ensures(turnaround, (old(session).baud,), turn),
        old(number)@.len() == 0,
        call_ensures(push_decimal, (number, old(session).sequence as u64), ()),
    ensures
        final(session).count == old(session).count,
        final(session).size == old(session).size,
        final(session).baud == old(session).baud,
        final(session).turns == old(session).turns,
        result is Err <==> final(session).step == SessionStep::Failed,
        match reply {
            SessionReply::Paused => final(session).step == SessionStep::Send
                && final(session).frame@ == old(session).frame@
                && final(session).sequence == old(session).sequence,
            SessionReply::Sent(Ok(())) => final(session).step == SessionStep::Receive
                && final(session).frame@ == old(session).frame@
                && final(session).sequence == old(session).sequence,
            SessionReply::Sent(Err(error)) => result == Err::<(), Error>(error),
            SessionReply::Received(Ok(echo)) => {
                &&& result is Ok <==> echo@ == old(session).frame@
                &&& result is Ok ==> final(session).sequence == old(session).sequence + 1
                &&& result is Ok && final(session).sequence == old(session).count
                    ==> final(session).step == SessionStep::Done
                &&& result is Ok && final(session).sequence < old(session).count ==> {
                    &&& encoded is Ok
                    &&& final(session).frame@ == encoded->Ok_0@
                    &&& old(session).turns ==> final(session).step == SessionStep::Pause {
                        micros: turn,
                    }
                    &&& !old(session).turns ==> final(session).step == SessionStep::Send
                }
                &&& result is Err ==> result->Err_0.kind == ErrorKind::InvalidInput
                    && result->Err_0.message@ == "echo mismatch at sequence "@ + final(number)@
            },
            SessionReply::Received(Err(error)) => {
                &&& result is Err
                &&& result->Err_0.kind == error.kind
                &&& result->Err_0.message@ == "sequence "@ + final(number)@ + ": "@
                    + error.message@
            },
            SessionReply::Drained(_) => false,
        },
{
    if old(session).sequence < old(session).count {
        assert(final(number)@ =~= decimal_of(old(session).sequence as int));
    }
}

/// How the peer begins and goes on: it receives as many frames as are asked for,
/// each of which has to decode and to have the number that is due; after a pause
/// it sends the same bytes back; and after the last it waits until everything
/// has been sent, and once more for the adapter.
pub proof fn law_peer_course(
    options: &Options,
    fresh: PeerSession,
    session: &mut PeerSession,
    reply: SessionReply,
    result: Result<(), Error>,
    frame: &[u8],
    decoded: Result<(u32, &[u8]), Error>,
    turn: u64,
    settle: u64,
)
    requires
        options.baud != 0,
        call_ensures(PeerSession::new, (options,), fresh),
        old(session).wf(),
        answers(old(session).step, reply),
        call_ensures(PeerSession::resume, (session, reply), result),
        reply is Received && reply->Received_0 is Ok ==> frame@ == reply->Received_0->Ok_0@,
        call_ensures(decode, (frame,), decoded),
        call_ensures(turnaround, (old(session).baud,), turn),
        old(session).frame@.len() <= 1038 ==> call_ensures(
            settling,
            (old(session).frame@.len() as usize, old(session).baud),
            settle,
        ),
    ensures
        fresh.count == options.count && fresh.baud == options.baud && fresh.expected == 0,
        fresh.frame@.len() == 0 && !fresh.drained,
        options.count > 0 ==> fresh.step == SessionStep::Receive,
        options.count == 0 ==> fresh.step == SessionStep::Drain,
        final(session).count == old(session).count,
        final(session).baud == old(session).baud,
        result is Err <==> final(session).step == SessionStep::Failed,
        reply !is Received || result is Err ==> final(session).expected == old(session).expected
            && final(session).frame@ == old(session).frame@,
        reply !is Drained ==> final(session).drained == old(session).drained,
        match reply {
            SessionReply::Received(Ok(bytes)) => {
                &&& result is Ok <==> decoded is Ok && decoded->Ok_0.0 == old(session).expected
                &&& result is Ok ==> final(session).frame@ == bytes@ && final(session).expected
                    == old(session).expected + 1 && final(session).step == SessionStep::Pause {
                    micros: turn,
                }
                &&& decoded is Err ==> result->Err_0.message@ == decoded->Err_0.message@
                &&& result is Err && decoded is Ok ==> result->Err_0.message@
                    == "missing, duplicated, or reordered request"@
            },
            SessionReply::Received(Err(error)) => result == Err::<(), Error>(error),
            SessionReply::Paused => {
                &&& old(session).drained ==> final(session).step == SessionStep::Done
                &&& !old(session).drained ==> final(session).step == SessionStep::Send
            },
            SessionReply::Sent(Ok(())) => {
                &&& old(session).expected < old(session).count ==> final(session).step
                    == SessionStep::Receive
                &&& old(session).expected == old(session).count ==> final(session).step
                    == SessionStep::Drain
            },
            SessionReply::Sent(Err(error)) => result == Err::<(), Error>(error),
            SessionReply::Drained(Ok(())) => final(session).drained && final(session).step
                == SessionStep::Pause { micros: settle },
            SessionReply::Drained(Err(error)) => result == Err::<(), Error>(error),
        },
{
}

/// A request begins the deadline that its echo shares, and each transfer of the
/// peer has one of its own.
pub proof fn law_deadlines_begin(
    uart: &UartSession,
    sender: bool,
    peer: &PeerSession,
    echoer: bool,
)
    requires
        call_ensures(UartSession::begins_deadline, (uart,), sender),
        call_ensures(PeerSession::begins_deadline, (peer,), echoer),
    ensures
        sender <==> uart.step == SessionStep::Send,
        echoer <==> peer.step == SessionStep::Send || peer.step == SessionStep::Receive,
{
}

/// An error of a part is named first and keeps its kind; a condition that does
/// not hold is reported with its message; and bytes are the same exactly if all
/// of them are.
pub proof fn law_failures_are_named(
    name: &str,
    error: Error,
    shown: Error,
    condition: bool,
    message: &str,
    result: Result<(), Error>,
    a: &Vec<u8>,
    b: &Vec<u8>,
    same: bool,
)
    requires
        call_ensures(named, (name, error), shown),
        call_ensures(require, (condition, message), result),
        call_ensures(same_bytes, (a, b), same),
    ensures
        shown.kind == error.kind,
        shown.message@ == name@ + ": "@ + error.message@,
        result is Ok <==> condition,
        result is Err ==> result->Err_0.kind == ErrorKind::Other && result->Err_0.message@
            == message@,
        same <==> a@ == b@,
{
}

} // verus!
