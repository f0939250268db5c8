//! Transfers that end by a deadline, and reading one frame.

use vstd::prelude::*;
use vstd::string::*;
use crate::error::{invalid, Error, ErrorKind};
use crate::frame::{
    announced_length, decode, defect, frame_valid, magic, starts_with_magic, HEADER_LEN,
    MAX_PAYLOAD, OVERHEAD,
};
use crate::rs485::wait::{
    poll_millis, poll_ready, shows, shows_failure, shows_nothing, wait_ready, Polled, POLLIN,
    POLLOUT,
};
use crate::text::{hex_of, push_hex};

verus! {

/// What a transfer needs next.
#[derive(Clone, Copy, Debug, PartialEq, Eq, Structural)]
pub enum Step {
    /// The time.
    Clock,
    /// A poll for these events, of at most so many milliseconds.
    Poll { events: i16, millis: i32 },
    /// To write the rest of the data, which starts at this offset.
    Write { offset: usize },
    /// To read at most so many bytes.
    Read { room: usize },
    /// Nothing; the transfer is complete.
    Done,
    /// Nothing; the transfer has failed.
    Failed,
}

/// What a step came back with.
#[derive(Debug)]
pub enum Reply {
    Now(u64),
    Polled(Polled),
    /// So many bytes were written.
    Written(usize),
    /// These bytes were read; none at the end of the file.
    Data(Vec<u8>),
    /// Nothing was transferred: a signal came first, or the device was not
    /// ready after all.
    Again,
    /// The call failed.
    Failed(Error),
}

/// Writing a piece of data before a deadline.
#[derive(Clone, Copy, Debug, PartialEq, Eq, Structural)]
pub struct WriteTransfer {
    pub deadline: u64,
    /// Length of the data.
    pub len: usize,
    /// Bytes already written.
    pub written: usize,
    pub step: Step,
}

/// The step that begins another wait, or ends a transfer that has nothing left.
pub open spec fn wait_or_done(left: int) -> Step {
    if left == 0 {
        Step::Done
    } else {
        Step::Clock
    }
}

/// Writes `len` bytes before `deadline`.
pub fn write_deadline(len: usize, deadline: u64) -> (transfer: WriteTransfer)
    ensures
        transfer == (WriteTransfer { deadline, len, written: 0, step: wait_or_done(len as int) }),
        transfer.wf(),
{
    WriteTransfer {
        deadline,
        len,
        written: 0,
        step: if len == 0 {
            Step::Done
        } else {
            Step::Clock
        },
    }
}

impl WriteTransfer {
    /// No more is written than there is; what is left is being waited for.
    pub open spec fn wf(self) -> bool {
        &&& self.written <= self.len
        &&& match self.step {
            Step::Clock => self.written < self.len,
            Step::Poll { events, .. } => events == POLLOUT && self.written < self.len,
            Step::Write { offset } => offset == self.written && self.written < self.len,
            Step::Read { .. } => false,
            Step::Done => self.written == self.len,
            Step::Failed => true,
        }
    }

    /// `reply` is one to the current step.
    pub open spec fn expects(self, reply: Reply) -> bool {
        match self.step {
            Step::Clock => reply is Now,
            Step::Poll { .. } => reply is Polled,
            Step::Write { .. } => match reply {
                Reply::Written(count) => count <= self.len - self.written,
                Reply::Again => true,
                Reply::Failed(_) => true,
                _ => false,
            },
            _ => false,
        }
    }

    /// The transfer goes on after `reply`, with this step.
    pub open spec fn goes_on(self, reply: Reply, after: WriteTransfer) -> bool {
        match reply {
            Reply::Now(now) => now <= self.deadline && after == (WriteTransfer {
                step: Step::Poll {
                    events: POLLOUT,
                    millis: poll_millis(self.deadline - now) as i32,
                },
                ..self
            }),
            Reply::Polled(polled) => {
                ||| shows(polled, POLLOUT) && after == (WriteTransfer {
                    step: Step::Write { offset: self.written },
                    ..self
                })
                ||| shows_nothing(polled, POLLOUT) && after == (WriteTransfer {
                    step: Step::Clock,
                    ..self
                })
            },
            Reply::Written(count) => count > 0 && after == (WriteTransfer {
                written: (self.written + count) as usize,
                step: wait_or_done(self.len - self.written - count),
                ..self
            }),
            Reply::Again => after == (WriteTransfer { step: Step::Clock, ..self }),
            _ => false,
        }
    }

    /// The transfer ends with `error` after `reply`.
    pub open spec fn fails(self, reply: Reply, error: Error) -> bool {
        match reply {
            Reply::Now(now) => now > self.deadline && error.is(
                ErrorKind::TimedOut,
                "I/O deadline expired"@,
            ),
            Reply::Polled(polled) => shows_failure(polled, POLLOUT, error),
            Reply::Written(count) => count == 0 && error.is(ErrorKind::WriteZero, "write zero"@),
            Reply::Failed(failure) => error == failure,
            _ => false,
        }
    }

    /// Takes the reply to the current step.
    pub fn resume(&mut self, reply: Reply) -> (result: Result<(), Error>)
        requires
            old(self).wf(),
            old(self).expects(reply),
        ensures
            final(self).wf(),
            match result {
                Ok(()) => old(self).goes_on(reply, *final(self)),
                Err(error) => {
                    &&& old(self).fails(reply, error)
                    &&& *final(self) == (WriteTransfer { step: Step::Failed, ..*old(self) })
                },
            },
    {
        self.step = Step::Failed;
        match reply {
            Reply::Now(now) => match wait_ready(now, self.deadline) {
                Ok(millis) => {
                    self.step = Step::Poll { events: POLLOUT, millis };
                    Ok(())
                },
                Err(error) => Err(error),
            },
            Reply::Polled(polled) => match poll_ready(polled, POLLOUT) {
                Ok(ready) => {
                    self.step = if ready {
                        Step::Write { offset: self.written }
                    } else {
                        Step::Clock
                    };
                    Ok(())
                },
                Err(error) => Err(error),
            },
            Reply::Written(count) => {
                if count == 0 {
                    return Err(Error::new(ErrorKind::WriteZero, "write zero"));
                }
                self.written = self.written + count;
                self.step = if self.written == self.len {
                    Step::Done
                } else {
                    Step::Clock
                };
                Ok(())
            },
            Reply::Again => {
                self.step = Step::Clock;
                Ok(())
            },
            Reply::Failed(error) => Err(error),
            Reply::Data(_) => Ok(()),
        }
    }
}

/// Reading a piece of data before a deadline.
#[derive(Debug)]
pub struct ReadTransfer {
    pub deadline: u64,
    /// Number of bytes wanted in all.
    pub want: usize,
    /// Bytes read so far.
    pub data: Vec<u8>,
    pub step: Step,
}

/// Reads `want` bytes before `deadline`.
pub fn read_deadline(want: usize, deadline: u64) -> (transfer: ReadTransfer)
    ensures
        transfer.begins(want, deadline, Seq::empty()),
        transfer.wf(),
{
    ReadTransfer {
        deadline,
        want,
        data: Vec::new(),
        step: if want == 0 {
            Step::Done
        } else {
            Step::Clock
        },
    }
}

impl ReadTransfer {
    /// A transfer of `want` bytes that has `data` and begins another wait.
    pub open spec fn begins(self, want: usize, deadline: u64, data: Seq<u8>) -> bool {
        &&& self.want == want
        &&& self.deadline == deadline
        &&& self.data@ == data
        &&& self.step == wait_or_done(want - data.len())
    }

    /// No more is read than is wanted; what is missing is being waited for.
    pub open spec fn wf(self) -> bool {
        let len = self.data@.len();
        &&& len <= self.want
        &&& match self.step {
            Step::Clock => len < self.want,
            Step::Poll { events, .. } => events == POLLIN && len < self.want,
            Step::Read { room } => room == self.want - len && len < self.want,
            Step::Write { .. } => false,
            Step::Done => len == self.want,
            Step::Failed => true,
        }
    }

    /// `reply` is one to the current step.
    pub open spec fn expects(self, reply: Reply) -> bool {
        match self.step {
            Step::Clock => reply is Now,
            Step::Poll { .. } => reply is Polled,
            Step::Read { room } => match reply {
                Reply::Data(bytes) => bytes@.len() <= room,
                Reply::Again => true,
                Reply::Failed(_) => true,
                _ => false,
            },
            _ => false,
        }
    }

    /// The transfer goes on after `reply`.
    pub open spec fn goes_on(self, reply: Reply, after: ReadTransfer) -> bool {
        &&& after.deadline == self.deadline
        &&& after.want == self.want
        &&& match reply {
            Reply::Now(now) => {
                &&& now <= self.deadline
                &&& after.data@ == self.data@
                &&& after.step == (Step::Poll {
                    events: POLLIN,
                    millis: poll_millis(self.deadline - now) as i32,
                })
            },
            Reply::Polled(polled) => {
                &&& after.data@ == self.data@
                &&& {
                    ||| shows(polled, POLLIN) && after.step == (Step::Read {
                        room: (self.want - self.data@.len()) as usize,
                    })
                    ||| shows_nothing(polled, POLLIN) && after.step == Step::Clock
                }
            },
            Reply::Data(bytes) => {
                &&& bytes@.len() > 0
                &&& after.data@ == self.data@ + bytes@
                &&& after.step == wait_or_done(self.want - after.data@.len())
            },
            Reply::Again => after.data@ == self.data@ && after.step == Step::Clock,
            _ => false,
        }
    }

    /// The transfer ends with `error` after `reply`.
    pub open spec fn fails(self, reply: Reply, error: Error) -> bool {
        match reply {
            Reply::Now(now) => now > self.deadline && error.is(
                ErrorKind::TimedOut,
                "I/O deadline expired"@,
            ),
            Reply::Polled(polled) => shows_failure(polled, POLLIN, error),
            Reply::Data(bytes) => bytes@.len() == 0 && error.is(
                ErrorKind::UnexpectedEof,
                "unexpected end of file"@,
            ),
            Reply::Failed(failure) => error == failure,
            _ => false,
        }
    }

    /// Takes the reply to the current step.
    pub fn resume(&mut self, reply: Reply) -> (result: Result<(), Error>)
        requires
            old(self).wf(),
            old(self).expects(reply),
        ensures
            final(self).wf(),
            match result {
                Ok(()) => old(self).goes_on(reply, *final(self)),
                Err(error) => {
                    &&& old(self).fails(reply, error)
                    &&& final(self).step == Step::Failed
                    &&& final(self).data@ == old(self).data@
                },
            },
            final(self).deadline == old(self).deadline,
            final(self).want == old(self).want,
    {
        self.step = Step::Failed;
        match reply {
            Reply::Now(now) => match wait_ready(now, self.deadline) {
                Ok(millis) => {
                    self.step = Step::Poll { events: POLLIN, millis };
                    Ok(())
                },
                Err(error) => Err(error),
            },
            Reply::Polled(polled) => match poll_ready(polled, POLLIN) {
                Ok(ready) => {
                    self.step = if ready {
                        Step::Read { room: self.want - self.data.len() }
                    } else {
                        Step::Clock
                    };
                    Ok(())
                },
                Err(error) => Err(error),
            },
            Reply::Data(bytes) => {
                if bytes.len() == 0 {
                    return Err(Error::new(ErrorKind::UnexpectedEof, "unexpected end of file"));
                }
                let mut bytes = bytes;
                self.data.append(&mut bytes);
                self.step = if self.data.len() == self.want {
                    Step::Done
                } else {
                    Step::Clock
                };
                Ok(())
            },
            Reply::Again => {
                self.step = Step::Clock;
                Ok(())
            },
            Reply::Failed(error) => Err(error),
            Reply::Written(_) => Ok(()),
        }
    }
}

// ---------------------------------------------------------------------------
// Frames
// ---------------------------------------------------------------------------

/// The header announces a frame that can follow.
pub open spec fn header_acceptable(data: Seq<u8>) -> bool {
    &&& data.len() >= HEADER_LEN
    &&& data.take(4) == magic()
    &&& announced_length(data) <= MAX_PAYLOAD
}

/// How the bytes in place of a magic number are shown.
pub open spec fn lost_synchronization(data: Seq<u8>) -> Seq<char> {
    "lost frame synchronization: ["@ + hex_of(data[0]) + ", "@ + hex_of(data[1]) + ", "@ + hex_of(
        data[2],
    ) + ", "@ + hex_of(data[3]) + "]"@
}

/// Why a header is refused.
pub open spec fn header_defect(data: Seq<u8>) -> Seq<char> {
    if data.take(4) != magic() {
        lost_synchronization(data)
    } else {
        "received oversized frame"@
    }
}

/// Checks a header, and gives the length of the frame that it announces.
fn check_header(data: &Vec<u8>) -> (result: Result<usize, Error>)
    requires
        data@.len() == HEADER_LEN,
    ensures
        match result {
            Ok(len) => header_acceptable(data@) && len == announced_length(data@) + OVERHEAD,
            Err(error) => !header_acceptable(data@) && error.is(
                ErrorKind::InvalidInput,
                header_defect(data@),
            ),
        },
{
    if !starts_with_magic(data.as_slice()) {
        let mut message = "lost frame synchronization: [".to_owned();
        push_hex(&mut message, data[0]);
        message.append(", ");
        push_hex(&mut message, data[1]);
        message.append(", ");
        push_hex(&mut message, data[2]);
        message.append(", ");
        push_hex(&mut message, data[3]);
        message.append("]");
        return Err(Error { kind: ErrorKind::InvalidInput, message });
    }
    let length: usize = data[8] as usize + 0x100 * data[9] as usize;
    if length > MAX_PAYLOAD {
        return Err(invalid("received oversized frame"));
    }
    Ok(length + OVERHEAD)
}

/// Reading one frame before a deadline: its header, and then as much as the
/// header announces.
#[derive(Debug)]
pub struct FrameReader {
    pub read: ReadTransfer,
    /// The header has been read, and the length of the frame is known.
    pub sized: bool,
}

/// Reads one frame before `deadline`.
pub fn read_frame(deadline: u64) -> (reader: FrameReader)
    ensures
        reader.read.begins(HEADER_LEN, deadline, Seq::empty()),
        !reader.sized,
        reader.wf(),
{
    FrameReader { read: read_deadline(HEADER_LEN, deadline), sized: false }
}

impl FrameReader {
    /// What is wanted follows from what has been read, and a complete frame is
    /// a valid one.
    pub open spec fn wf(self) -> bool {
        let data = self.read.data@;
        &&& self.read.wf()
        &&& if self.sized {
            &&& header_acceptable(data)
            &&& self.read.want == announced_length(data) + OVERHEAD
            &&& self.read.step == Step::Done ==> frame_valid(data)
        } else {
            &&& self.read.want == HEADER_LEN
            &&& self.read.step != Step::Done
        }
    }

    /// The reader goes on after `reply`.
    pub open spec fn goes_on(self, reply: Reply, after: FrameReader) -> bool {
        match reply {
            Reply::Data(bytes) => {
                let data = self.read.data@ + bytes@;
                &&& bytes@.len() > 0
                &&& if data.len() < self.read.want {
                    &&& after.sized == self.sized
                    &&& after.read.begins(self.read.want, self.read.deadline, data)
                } else if !self.sized {
                    &&& header_acceptable(data)
                    &&& after.sized
                    &&& after.read.begins(
                        (announced_length(data) + OVERHEAD) as usize,
                        self.read.deadline,
                        data,
                    )
                } else {
                    &&& frame_valid(data)
                    &&& after.sized
                    &&& after.read.begins(self.read.want, self.read.deadline, data)
                }
            },
            _ => self.read.goes_on(reply, after.read) && after.sized == self.sized,
        }
    }

    /// The bytes that the reader has after `reply`.
    pub open spec fn data_after(self, reply: Reply) -> Seq<u8> {
        match reply {
            Reply::Data(bytes) => self.read.data@ + bytes@,
            _ => self.read.data@,
        }
    }

    /// The reader ends with `error` after `reply`.
    pub open spec fn fails(self, reply: Reply, error: Error) -> bool {
        match reply {
            Reply::Data(bytes) if bytes@.len() > 0 => {
                let data = self.read.data@ + bytes@;
                &&& data.len() == self.read.want
                &&& if !self.sized {
                    &&& !header_acceptable(data)
                    &&& error.is(ErrorKind::InvalidInput, header_defect(data))
                } else {
                    &&& !frame_valid(data)
                    &&& error.is(ErrorKind::InvalidInput, defect(data))
                }
            },
            _ => self.read.fails(reply, error),
        }
    }

    /// Takes the reply to the current step.
    pub fn resume(&mut self, reply: Reply) -> (result: Result<(), Error>)
        requires
            old(self).wf(),
            old(self).read.expects(reply),
        ensures
            match result {
                Ok(()) => final(self).wf() && old(self).goes_on(reply, *final(self)),
                Err(error) => {
                    &&& old(self).fails(reply, error)
                    &&& final(self).read.step == Step::Failed
                    &&& final(self).read.data@ == old(self).data_after(reply)
                    &&& final(self).sized == old(self).sized
                },
            },
            final(self).read.deadline == old(self).read.deadline,
    {
        match self.read.resume(reply) {
            Ok(()) => {},
            Err(error) => {
                return Err(error);
            },
        }
        match self.read.step {
            Step::Done => {},
            _ => {
                assert(reply is Data && self.sized ==> self.read.data@.take(4)
                    =~= old(self).read.data@.take(4));
                return Ok(());
            },
        }
        if !self.sized {
            match check_header(&self.read.data) {
                Ok(len) => {
                    self.read.want = len;
                    self.read.step = Step::Clock;
                    self.sized = true;
                },
                Err(error) => {
                    self.read.step = Step::Failed;
                    return Err(error);
                },
            }
        } else {
            match decode(self.read.data.as_slice()) {
                Ok(_) => {},
                Err(error) => {
                    self.read.step = Step::Failed;
                    return Err(error);
                },
            }
        }
        Ok(())
    }

    /// The frame, once it is complete.
    pub fn into_frame(self) -> (frame: Vec<u8>)
        requires
            self.wf(),
            self.read.step == Step::Done,
        ensures
            frame@ == self.read.data@,
            frame_valid(frame@),
    {
        self.read.data
    }
}

// ---------------------------------------------------------------------------
// Laws
// ---------------------------------------------------------------------------

/// A deadline never moves while a frame is read.
pub proof fn law_deadline_is_never_extended(
    reader: FrameReader,
    reply: Reply,
    after: FrameReader,
)
    requires
        reader.wf(),
        reader.read.expects(reply),
        reader.goes_on(reply, after),
    ensures
        after.read.deadline == reader.read.deadline,
{
}

/// A reader never takes a byte that lies behind its frame.
pub proof fn law_reader_stays_within_its_frame(reader: FrameReader, frame: Seq<u8>)
    requires
        reader.wf(),
        frame_valid(frame),
        reader.read.data@.len() <= frame.len(),
        reader.read.data@ == frame.take(reader.read.data@.len() as int),
        reader.read.data@.len() >= HEADER_LEN ==> reader.sized,
    ensures
        reader.read.want <= frame.len(),
        reader.sized ==> reader.read.want == frame.len(),
{
    if reader.sized {
        assert(reader.read.data@[8] == frame[8] && reader.read.data@[9] == frame[9]);
    }
}

/// However a valid frame is cut into pieces, the reader takes every piece, and
/// is complete exactly when it has the whole frame.
pub proof fn law_fragments_make_the_frame(
    reader: FrameReader,
    frame: Seq<u8>,
    bytes: Vec<u8>,
    after: FrameReader,
    error: Error,
)
    requires
        reader.wf(),
        frame_valid(frame),
        reader.read.step is Read,
        reader.read.expects(Reply::Data(bytes)),
        reader.read.data@.len() + bytes@.len() <= frame.len(),
        reader.read.data@ + bytes@ == frame.take(
            (reader.read.data@.len() + bytes@.len()) as int,
        ),
        bytes@.len() > 0,
    ensures
        !reader.fails(Reply::Data(bytes), error),
        reader.goes_on(Reply::Data(bytes), after) ==> {
            &&& after.read.data@ == frame.take(after.read.data@.len() as int)
            &&& after.read.data@.len() == reader.read.data@.len() + bytes@.len()
            &&& after.read.step == Step::Done <==> after.read.data@ == frame
        },
{
    let data = reader.read.data@ + bytes@;
    assert(frame.take(frame.len() as int) =~= frame);
    if data.len() >= HEADER_LEN {
        assert(data[8] == frame[8] && data[9] == frame[9]);
        assert(data.take(4) =~= frame.take(4));
    }
    if reader.sized {
        assert(reader.read.data@[8] == data[8] && reader.read.data@[9] == data[9]);
    }
}

/// How data is written. The time decides whether to go on; a poll for room
/// decides whether to write; what was written counts, and the rest begins right
/// behind it, until nothing is left. Nothing written, a failed call and a failed
/// poll end the transfer.
pub proof fn law_write_course(
    transfer: &mut WriteTransfer,
    reply: Reply,
    result: Result<(), Error>,
    now: u64,
    wait: Result<i32, Error>,
    polled: Polled,
    judged: Result<bool, Error>,
)
    requires
        old(transfer).wf(),
        old(transfer).expects(reply),
        call_ensures(WriteTransfer::resume, (transfer, reply), result),
        call_ensures(wait_ready, (now, old(transfer).deadline), wait),
        call_ensures(poll_ready, (polled, 4i16), judged),
    ensures
        final(transfer).deadline == old(transfer).deadline,
        final(transfer).len == old(transfer).len,
        result is Err <==> final(transfer).step == Step::Failed,
        reply !is Written || result is Err ==> final(transfer).written == old(transfer).written,
        reply == Reply::Now(now) ==> {
            &&& result is Ok <==> wait is Ok
            &&& wait is Ok ==> final(transfer).step == (Step::Poll {
                events: 4,
                millis: wait->Ok_0,
            })
            &&& wait is Err ==> result->Err_0.kind == wait->Err_0.kind
                && result->Err_0.message@ == wait->Err_0.message@
        },
        reply == Reply::Polled(polled) ==> {
            &&& result is Ok <==> judged is Ok
            &&& judged == Ok::<bool, Error>(true) ==> final(transfer).step == (Step::Write {
                offset: old(transfer).written,
            })
            &&& judged == Ok::<bool, Error>(false) ==> final(transfer).step == Step::Clock
            &&& judged is Err ==> result->Err_0.kind == judged->Err_0.kind
                && result->Err_0.message@ == judged->Err_0.message@
        },
        match reply {
            Reply::Written(count) => {
                &&& result is Ok <==> count > 0
                &&& count > 0 ==> final(transfer).written == old(transfer).written + count
                &&& count > 0 && final(transfer).written == old(transfer).len
                    ==> final(transfer).step == Step::Done
                &&& count > 0 && final(transfer).written < old(transfer).len
                    ==> final(transfer).step == Step::Clock
                &&& count == 0 ==> result->Err_0.kind == ErrorKind::WriteZero
                    && result->Err_0.message@ == "write zero"@
            },
            Reply::Again => final(transfer).step == Step::Clock,
            Reply::Failed(error) => result == Err::<(), Error>(error),
            _ => true,
        },
{
}

/// How data is read: the same with a poll for data, and what was read is added
/// behind what had been read. The end of the file ends the transfer.
pub proof fn law_read_course(
    transfer: &mut ReadTransfer,
    reply: Reply,
    result: Result<(), Error>,
    now: u64,
    wait: Result<i32, Error>,
    polled: Polled,
    judged: Result<bool, Error>,
)
    requires
        old(transfer).wf(),
        old(transfer).expects(reply),
        call_ensures(ReadTransfer::resume, (transfer, reply), result),
        call_ensures(wait_ready, (now, old(transfer).deadline), wait),
        call_ensures(poll_ready, (polled, 1i16), judged),
    ensures
        final(transfer).deadline == old(transfer).deadline,
        final(transfer).want == old(transfer).want,
        result is Err <==> final(transfer).step == Step::Failed,
        reply !is Data || result is Err ==> final(transfer).data@ == old(transfer).data@,
        reply == Reply::Now(now) ==> {
            &&& result is Ok <==> wait is Ok
            &&& wait is Ok ==> final(transfer).step == (Step::Poll {
                events: 1,
                millis: wait->Ok_0,
            })
            &&& wait is Err ==> result->Err_0.kind == wait->Err_0.kind
                && result->Err_0.message@ == wait->Err_0.message@
        },
        reply == Reply::Polled(polled) ==> {
            &&& result is Ok <==> judged is Ok
            &&& judged == Ok::<bool, Error>(true) ==> final(transfer).step == (Step::Read {
                room: (old(transfer).want - old(transfer).data@.len()) as usize,
            })
            &&& judged == Ok::<bool, Error>(false) ==> final(transfer).step == Step::Clock
            &&& judged is Err ==> result->Err_0.kind == judged->Err_0.kind
                && result->Err_0.message@ == judged->Err_0.message@
        },
        match reply {
            Reply::Data(bytes) => {
                &&& result is Ok <==> bytes@.len() > 0
                &&& bytes@.len() > 0 ==> final(transfer).data@ == old(transfer).data@ + bytes@
                &&& bytes@.len() > 0 && final(transfer).data@.len() == old(transfer).want
                    ==> final(transfer).step == Step::Done
                &&& bytes@.len() > 0 && final(transfer).data@.len() < old(transfer).want
                    ==> final(transfer).step == Step::Clock
                &&& bytes@.len() == 0 ==> result->Err_0.kind == ErrorKind::UnexpectedEof
                    && result->Err_0.message@ == "unexpected end of file"@
            },
            Reply::Again => final(transfer).step == Step::Clock,
            Reply::Failed(error) => result == Err::<(), Error>(error),
            _ => true,
        },
{
}

/// How transfers begin: with nothing transferred and a wait, or at their end
/// where there is nothing to transfer. A frame begins with the ten bytes of its
/// header.
pub proof fn law_transfers_begin(
    len: usize,
    deadline: u64,
    write: WriteTransfer,
    read: ReadTransfer,
    reader: FrameReader,
)
    requires
        call_ensures(write_deadline, (len, deadline), write),
        call_ensures(read_deadline, (len, deadline), read),
        call_ensures(read_frame, (deadline,), reader),
    ensures
        write.deadline == deadline && write.len == len && write.written == 0,
        read.deadline == deadline && read.want == len && read.data@.len() == 0,
        write.step == read.step,
        read.step == Step::Done <==> len == 0,
        read.step == Step::Clock <==> len > 0,
        reader.read.deadline == deadline && reader.read.want == 10,
        reader.read.data@.len() == 0 && reader.read.step == Step::Clock && !reader.sized,
{
}

/// How a frame is read. Its first ten bytes have to be "RU48" and a header that
/// announces at most 1024 bytes of payload; then fourteen bytes more than that
/// are wanted in all, and these have to decode. Whatever is not data is taken as
/// by any other read.
pub proof fn law_frame_course(
    reader: &mut FrameReader,
    reply: Reply,
    result: Result<(), Error>,
    read: &mut ReadTransfer,
    taken: Result<(), Error>,
    frame: &[u8],
    decoded: Result<(u32, &[u8]), Error>,
)
    requires
        old(reader).wf(),
        old(reader).read.expects(reply),
        call_ensures(FrameReader::resume, (reader, reply), result),
        *old(read) == old(reader).read,
        call_ensures(ReadTransfer::resume, (read, reply), taken),
        reply is Data ==> frame@ == old(reader).read.data@ + reply->Data_0@,
        call_ensures(decode, (frame,), decoded),
    ensures
        final(reader).read.deadline == old(reader).read.deadline,
        final(reader).read.data@ == final(read).data@,
        taken is Err ==> result is Err && result->Err_0.kind == taken->Err_0.kind
            && result->Err_0.message@ == taken->Err_0.message@,
        reply !is Data && taken is Ok ==> {
            &&& result is Ok
            &&& final(reader).sized == old(reader).sized
            &&& final(reader).read.want == old(reader).read.want
        },
        result is Err ==> final(reader).read.step == Step::Failed && final(reader).sized == old(
            reader,
        ).sized,
        taken is Ok && final(read).step !is Done ==> {
            &&& result is Ok
            &&& final(reader).read.step == final(read).step
            &&& final(reader).sized == old(reader).sized
            &&& final(reader).read.want == old(reader).read.want
        },
        taken is Ok && final(read).step is Done && !old(reader).sized ==> {
            let data = final(reader).read.data@;
            &&& data.len() == 10
            &&& result is Ok <==> data[0] == 0x52 && data[1] == 0x55 && data[2] == 0x34 && data[3]
                == 0x38 && data[8] + 0x100 * data[9] <= 1024
            &&& result is Ok ==> final(reader).sized && final(reader).read.step == Step::Clock
                && final(reader).read.want == data[8] + 0x100 * data[9] + 14
            &&& result is Err ==> result->Err_0.kind == ErrorKind::InvalidInput
            &&& result is Err && data[0] == 0x52 && data[1] == 0x55 && data[2] == 0x34 && data[3]
                == 0x38 ==> result->Err_0.message@ == "received oversized frame"@
        },
        taken is Ok && final(read).step is Done && old(reader).sized ==> {
            &&& result is Ok <==> decoded is Ok
            &&& result is Ok ==> final(reader).read.step == Step::Done && final(reader).sized
            &&& result is Err ==> result->Err_0.message@ == decoded->Err_0.message@
        },
{
    let data = final(reader).read.data@;
    if reply is Data && data.len() >= 4 {
        let head = data.take(4);
        if data[0] == 0x52 && data[1] == 0x55 && data[2] == 0x34 && data[3] == 0x38 {
            assert(head =~= magic());
        } else {
            assert(head[0] == data[0] && head[1] == data[1] && head[2] == data[2] && head[3]
                == data[3]);
        }
    }
}

/// Bytes that are there in place of a magic number are shown, two hexadecimal
/// digits each.
pub proof fn law_lost_synchronization_is_shown(
    reader: &mut FrameReader,
    reply: Reply,
    result: Result<(), Error>,
    first: &mut String,
    second: &mut String,
    third: &mut String,
    fourth: &mut String,
)
    requires
        old(reader).wf(),
        old(reader).read.expects(reply),
        call_ensures(FrameReader::resume, (reader, reply), result),
        !old(reader).sized,
        reply is Data,
        reply->Data_0@.len() > 0,
        final(reader).read.data@.len() == 10,
        old(first)@ == "lost frame synchronization: ["@,
        call_ensures(push_hex, (first, final(reader).read.data@[0]), ()),
        old(second)@ == final(first)@ + ", "@,
        call_ensures(push_hex, (second, final(reader).read.data@[1]), ()),
        old(third)@ == final(second)@ + ", "@,
        call_ensures(push_hex, (third, final(reader).read.data@[2]), ()),
        old(fourth)@ == final(third)@ + ", "@,
        call_ensures(push_hex, (fourth, final(reader).read.data@[3]), ()),
    ensures
        ({
            let data = final(reader).read.data@;
            data[0] != 0x52 || data[1] != 0x55 || data[2] != 0x34 || data[3] != 0x38 ==> result
                is Err && result->Err_0.message@ == final(fourth)@ + "]"@
        }),
{
    let data = final(reader).read.data@;
    let head = data.take(4);
    assert(head[0] == data[0] && head[1] == data[1] && head[2] == data[2] && head[3] == data[3]);
    if head != magic() {
        assert(lost_synchronization(data) =~= final(fourth)@ + "]"@);
    }
}

/// A complete reader gives its bytes away unchanged.
pub proof fn law_frame_is_what_was_read(reader: FrameReader, frame: Vec<u8>)
    requires
        reader.wf(),
        reader.read.step == Step::Done,
        call_ensures(FrameReader::into_frame, (reader,), frame),
    ensures
        frame@ == reader.read.data@,
{
}

} // verus!
