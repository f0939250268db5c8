//! The regression test of the character device, and of the life of its module.

use std::collections::VecDeque;
use vstd::prelude::*;
use vstd::string::*;
use crate::bits::lemma_constants;
use crate::chardev::{law_poll_matches_transfers, OpenFile, CAPACITY};
use crate::ring::min;
use crate::rs485::wait::{POLLIN, POLLOUT};
use crate::error::{Error, ErrorKind};

verus! {

/// The call would block.
pub const EAGAIN: i32 = 11;

/// Bad address.
pub const EFAULT: i32 = 14;

/// Illegal seek.
pub const ESPIPE: i32 = 29;

/// Input, in the events of an epoll instance.
pub const EPOLLIN: u32 = 1;

/// Length of the pattern that fills the FIFO. It does not divide the capacity.
pub const PATTERN_LEN: usize = 511;

/// Length of the reads that drain the FIFO, so that they straddle its end.
pub const READ_LEN: usize = 513;

/// What the regression test does next.
#[derive(Clone, Copy, Debug, PartialEq, Eq, Structural)]
pub enum Check {
    /// Open the device without blocking.
    Open,
    /// Read one byte of an empty FIFO.
    EmptyRead,
    /// Poll the empty FIFO for input.
    EmptyPoll,
    /// Read nothing.
    ZeroRead,
    /// Write nothing.
    ZeroWrite,
    /// Write a byte at a position.
    PositionedWrite,
    /// Write the pattern, over and over.
    Fill,
    /// Poll the full FIFO for output.
    FullPoll,
    /// Read into a buffer of [`READ_LEN`] bytes.
    PartialRead,
    /// Write the pattern over the end of the FIFO.
    WrapWrite,
    /// Read into a buffer of [`READ_LEN`] bytes until nothing is left.
    Drain,
    /// Write one byte from nowhere.
    FaultyWrite,
    /// Write all of the single byte `Z`.
    WriteKept,
    /// Read one byte to nowhere.
    FaultyRead,
    /// Read the byte back.
    ReadKept,
    /// Open the device once more.
    OpenIndependent,
    /// Write all of the single byte `A` to the first file.
    WriteOwn,
    /// Read one byte of the second file.
    ReadIndependent,
    /// Read exactly one byte of the first file.
    ReadOwn,
    /// Let another thread wait for four bytes, and write `wake`.
    Wake,
    /// Watch the file for input with a new epoll instance.
    Watch,
    /// Write all of the single byte `E`.
    WriteWatched,
    /// Wait for one event.
    AwaitEvent,
    /// Read exactly one byte.
    ReadWatched,
    /// Nothing; the test has passed, and the files are closed, the watched one
    /// first.
    Done,
    /// Nothing; the test has failed.
    Failed,
}

/// What a check came back with.
#[derive(Debug)]
pub enum CheckReply {
    /// The action is over.
    Finished(Result<(), Error>),
    /// The poll showed these events.
    Ready(Result<i16, Error>),
    /// So many bytes were written.
    Moved(Result<usize, Error>),
    /// These bytes were read.
    Data(Result<Vec<u8>, Error>),
    /// So many events arrived, and these are the first one's.
    Events { count: i32, events: u32 },
}

/// What a reply leads to.
pub ghost enum Verdict {
    /// The test goes on, and the FIFO is to hold this.
    On { check: Check, reference: Seq<u8> },
    /// A check failed.
    Wrong(Seq<char>),
    /// The device took nothing.
    NothingWritten,
    /// An action failed.
    Broken(Error),
}

/// The first `len` bytes of the pattern.
pub open spec fn pattern_of(len: int) -> Seq<u8> {
    Seq::new(len as nat, |i: int| (i % 256) as u8)
}

/// The action failed with this error number.
pub open spec fn failed_with<T>(result: Result<T, Error>, number: i32) -> bool {
    result is Err && result->Err_0.kind == ErrorKind::Os(number)
}

/// The test goes on where `condition` holds.
pub open spec fn checked(
    condition: bool,
    message: Seq<char>,
    check: Check,
    reference: Seq<u8>,
) -> Verdict {
    if condition {
        Verdict::On { check, reference }
    } else {
        Verdict::Wrong(message)
    }
}

/// `bytes` are the oldest that the FIFO is to hold.
pub open spec fn oldest(reference: Seq<u8>, bytes: Seq<u8>) -> bool {
    bytes.len() <= reference.len() && reference.take(bytes.len() as int) == bytes
}

/// The check after the FIFO has been drained so far.
pub open spec fn drain_or_go_on(reference: Seq<u8>) -> Check {
    if reference.len() == 0 {
        Check::FaultyWrite
    } else {
        Check::Drain
    }
}

impl Check {
    /// `reply` is one to this check.
    pub open spec fn expects(self, reply: CheckReply) -> bool {
        match self {
            Check::Open | Check::WriteKept | Check::OpenIndependent | Check::WriteOwn
            | Check::Watch | Check::WriteWatched => reply is Finished,
            Check::EmptyPoll | Check::FullPoll => reply is Ready,
            Check::ZeroWrite | Check::PositionedWrite | Check::FaultyWrite => reply is Moved,
            Check::Fill | Check::WrapWrite => match reply {
                CheckReply::Moved(Ok(count)) => count <= PATTERN_LEN,
                CheckReply::Moved(Err(_)) => true,
                _ => false,
            },
            Check::AwaitEvent => reply is Events,
            Check::Done | Check::Failed => false,
            _ => reply is Data,
        }
    }

    /// The bytes that the check writes, from a valid buffer.
    pub open spec fn writes(self) -> Seq<u8> {
        match self {
            Check::PositionedWrite => seq![0x78u8],
            Check::Fill | Check::WrapWrite => pattern_of(PATTERN_LEN as int),
            Check::WriteKept => seq![0x5au8],
            Check::WriteOwn => seq![0x41u8],
            Check::Wake => seq![0x77u8, 0x61u8, 0x6bu8, 0x65u8],
            Check::WriteWatched => seq![0x45u8],
            _ => Seq::empty(),
        }
    }

    /// The room that the check offers to a read.
    pub open spec fn reads(self) -> int {
        match self {
            Check::PartialRead | Check::Drain => READ_LEN as int,
            Check::Wake => 4,
            Check::EmptyRead | Check::FaultyRead | Check::ReadKept | Check::ReadIndependent
            | Check::ReadOwn | Check::ReadWatched => 1,
            _ => 0,
        }
    }

    /// The bytes that the check writes, from a valid buffer.
    pub fn data(self) -> (bytes: Vec<u8>)
        ensures
            bytes@ == self.writes(),
    {
        match self {
            Check::PositionedWrite => vec![0x78],
            Check::Fill | Check::WrapWrite => pattern(),
            Check::WriteKept => vec![0x5a],
            Check::WriteOwn => vec![0x41],
            Check::Wake => vec![0x77, 0x61, 0x6b, 0x65],
            Check::WriteWatched => vec![0x45],
            _ => Vec::new(),
        }
    }

    /// The room that the check offers to a read.
    pub fn room(self) -> (room: usize)
        ensures
            room == self.reads(),
    {
        match self {
            Check::PartialRead | Check::Drain => READ_LEN,
            Check::Wake => 4,
            Check::EmptyRead | Check::FaultyRead | Check::ReadKept | Check::ReadIndependent
            | Check::ReadOwn | Check::ReadWatched => 1,
            _ => 0,
        }
    }

    /// The events that the check polls for.
    pub fn events(self) -> (events: i16)
        ensures
            events == match self {
                Check::EmptyPoll => POLLIN,
                Check::FullPoll => POLLOUT,
                _ => 0,
            },
    {
        match self {
            Check::EmptyPoll => POLLIN,
            Check::FullPoll => POLLOUT,
            _ => 0,
        }
    }

    /// The time in milliseconds that the check may wait, where it waits.
    pub fn limit_millis(self) -> (limit: Option<u32>)
        ensures
            limit == match self {
                Check::Wake => Some(2000u32),
                Check::AwaitEvent => Some(1000u32),
                _ => None,
            },
    {
        match self {
            Check::Wake => Some(2000),
            Check::AwaitEvent => Some(1000),
            _ => None,
        }
    }

    /// The check that follows one that only has to finish.
    pub open spec fn follower(self) -> Check {
        match self {
            Check::Open => Check::EmptyRead,
            Check::WriteKept => Check::FaultyRead,
            Check::OpenIndependent => Check::WriteOwn,
            Check::WriteOwn => Check::ReadIndependent,
            Check::Watch => Check::WriteWatched,
            _ => Check::AwaitEvent,
        }
    }

    /// What a poll leads to.
    pub open spec fn after_poll(self, reference: Seq<u8>, seen: i16) -> Verdict {
        match self {
            Check::EmptyPoll => checked(
                seen & POLLIN == 0,
                "empty FIFO reported readable"@,
                Check::ZeroRead,
                reference,
            ),
            _ => checked(
                seen & POLLOUT == 0,
                "full FIFO reported writable"@,
                Check::PartialRead,
                reference,
            ),
        }
    }

    /// What a write leads to.
    pub open spec fn after_write(
        self,
        reference: Seq<u8>,
        result: Result<usize, Error>,
    ) -> Verdict {
        match self {
            Check::ZeroWrite => match result {
                Ok(count) => checked(
                    count == 0,
                    "zero-length I/O failed"@,
                    Check::PositionedWrite,
                    reference,
                ),
                Err(error) => Verdict::Broken(error),
            },
            Check::PositionedWrite => checked(
                failed_with(result, ESPIPE),
                "stream accepted positioned I/O"@,
                Check::Fill,
                reference,
            ),
            Check::Fill => match result {
                Ok(count) => if count == 0 {
                    Verdict::NothingWritten
                } else {
                    checked(
                        reference.len() + count <= CAPACITY,
                        "FIFO exceeded its capacity"@,
                        Check::Fill,
                        reference + pattern_of(count as int),
                    )
                },
                Err(error) => if error.kind == ErrorKind::Os(EAGAIN) {
                    checked(
                        reference.len() == CAPACITY,
                        "FIFO capacity is not 4096"@,
                        Check::FullPoll,
                        reference,
                    )
                } else {
                    Verdict::Broken(error)
                },
            },
            Check::WrapWrite => match result {
                Ok(count) => {
                    let filled = reference + pattern_of(count as int);
                    Verdict::On { check: drain_or_go_on(filled), reference: filled }
                },
                Err(error) => Verdict::Broken(error),
            },
            _ => checked(
                failed_with(result, EFAULT),
                "invalid write buffer did not return EFAULT"@,
                Check::WriteKept,
                reference,
            ),
        }
    }

    /// What bytes that were read lead to.
    pub open spec fn after_data(self, reference: Seq<u8>, bytes: Seq<u8>) -> Verdict {
        match self {
            Check::EmptyRead => Verdict::Wrong("empty FIFO must return EAGAIN"@),
            Check::ZeroRead => checked(
                bytes.len() == 0,
                "zero-length I/O failed"@,
                Check::ZeroWrite,
                reference,
            ),
            Check::PartialRead => checked(
                oldest(reference, bytes),
                "data mismatch before wrap"@,
                Check::WrapWrite,
                reference.skip(bytes.len() as int),
            ),
            Check::Drain => if bytes.len() == 0 {
                Verdict::Wrong("unexpected FIFO EOF"@)
            } else {
                checked(
                    oldest(reference, bytes),
                    "FIFO wrap corrupted bytes"@,
                    drain_or_go_on(reference.skip(bytes.len() as int)),
                    reference.skip(bytes.len() as int),
                )
            },
            Check::FaultyRead => Verdict::Wrong("invalid read buffer did not return EFAULT"@),
            Check::ReadKept => checked(
                bytes == seq![0x5au8],
                "read fault consumed data"@,
                Check::OpenIndependent,
                reference,
            ),
            Check::ReadIndependent => Verdict::Wrong("independent opens share data"@),
            Check::ReadOwn => Verdict::On { check: Check::Wake, reference },
            Check::Wake => checked(
                bytes == seq![0x77u8, 0x61u8, 0x6bu8, 0x65u8],
                "poll wakeup payload mismatch"@,
                Check::Watch,
                reference,
            ),
            _ => checked(
                bytes.len() > 0 && bytes[0] == 0x45,
                "epoll payload mismatch"@,
                Check::Done,
                reference,
            ),
        }
    }

    /// What a read that failed leads to. Some of them have to.
    pub open spec fn after_failed_read(self, reference: Seq<u8>, error: Error) -> Verdict {
        match self {
            Check::EmptyRead => checked(
                error.kind == ErrorKind::Os(EAGAIN),
                "empty FIFO must return EAGAIN"@,
                Check::EmptyPoll,
                reference,
            ),
            Check::FaultyRead => checked(
                error.kind == ErrorKind::Os(EFAULT),
                "invalid read buffer did not return EFAULT"@,
                Check::ReadKept,
                reference,
            ),
            Check::ReadIndependent => checked(
                error.kind == ErrorKind::Os(EAGAIN),
                "independent opens share data"@,
                Check::ReadOwn,
                reference,
            ),
            _ => Verdict::Broken(error),
        }
    }

    /// What a reply leads to.
    pub open spec fn verdict(self, reference: Seq<u8>, reply: CheckReply) -> Verdict {
        match reply {
            CheckReply::Finished(Ok(())) => Verdict::On { check: self.follower(), reference },
            CheckReply::Finished(Err(error)) => Verdict::Broken(error),
            CheckReply::Ready(Ok(seen)) => self.after_poll(reference, seen),
            CheckReply::Ready(Err(error)) => Verdict::Broken(error),
            CheckReply::Moved(result) => self.after_write(reference, result),
            CheckReply::Data(Ok(bytes)) => self.after_data(reference, bytes@),
            CheckReply::Data(Err(error)) => self.after_failed_read(reference, error),
            CheckReply::Events { count, events } => checked(
                count == 1 && events & EPOLLIN != 0,
                "epoll failed to report input"@,
                Check::ReadWatched,
                reference,
            ),
        }
    }
}

/// The regression test of the character device.
#[derive(Debug)]
pub struct Regression {
    pub check: Check,
    /// What the FIFO is to hold, oldest byte first.
    pub reference: VecDeque<u8>,
}

/// Makes the pattern.
pub fn pattern() -> (bytes: Vec<u8>)
    ensures
        bytes@ == pattern_of(PATTERN_LEN as int),
{
    let mut bytes: Vec<u8> = Vec::new();
    let mut i: usize = 0;
    while i < PATTERN_LEN
        invariant
            i <= PATTERN_LEN,
            bytes@ == pattern_of(i as int),
        decreases PATTERN_LEN - i,
    {
        bytes.push((i % 256) as u8);
        i = i + 1;
        assert(bytes@ =~= pattern_of(i as int));
    }
    bytes
}

/// The error number of a failed action is this one.
fn is_number(error: &Error, number: i32) -> (same: bool)
    ensures
        same == (error.kind == ErrorKind::Os(number)),
{
    match error.kind {
        ErrorKind::Os(actual) => actual == number,
        _ => false,
    }
}

impl Regression {
    /// Begins the test.
    pub fn new() -> (regression: Regression)
        ensures
            regression.check == Check::Open,
            regression.reference@.len() == 0,
    {
        Regression { check: Check::Open, reference: VecDeque::new() }
    }

    /// Goes on with `check` where `condition` holds.
    fn check_that(&mut self, condition: bool, message: &str, check: Check) -> (result: Result<
        (),
        Error,
    >)
        ensures
            match result {
                Ok(()) => {
                    &&& condition
                    &&& final(self).check == check
                    &&& final(self).reference@ == old(self).reference@
                },
                Err(error) => {
                    &&& !condition
                    &&& final(self).failed()
                    &&& error.is(ErrorKind::Other, message@)
                },
            },
    {
        if condition {
            self.check = check;
            Ok(())
        } else {
            self.broken(Error::new(ErrorKind::Other, message))
        }
    }

    /// The test has failed, and nothing is expected of the FIFO any more.
    pub open spec fn failed(self) -> bool {
        self.check == Check::Failed && self.reference@.len() == 0
    }

    /// Ends the test with an error.
    fn broken(&mut self, error: Error) -> (result: Result<(), Error>)
        ensures
            final(self).failed(),
            result == Err::<(), Error>(error),
    {
        self.check = Check::Failed;
        self.reference.clear();
        Err(error)
    }

    /// So many bytes of the pattern are in the FIFO now.
    fn fill(&mut self, count: usize)
        ensures
            final(self).check == old(self).check,
            final(self).reference@ == old(self).reference@ + pattern_of(count as int),
    {
        let mut i: usize = 0;
        assert(self.reference@ =~= old(self).reference@ + pattern_of(0));
        while i < count
            invariant
                i <= count,
                self.check == old(self).check,
                self.reference@ == old(self).reference@ + pattern_of(i as int),
            decreases count - i,
        {
            self.reference.push_back((i % 256) as u8);
            i = i + 1;
            assert(self.reference@ =~= old(self).reference@ + pattern_of(i as int));
        }
    }

    /// Takes bytes off the FIFO, and tells whether they are the right ones.
    fn take(&mut self, bytes: &Vec<u8>) -> (right: bool)
        ensures
            final(self).check == old(self).check,
            right == oldest(old(self).reference@, bytes@),
            right ==> final(self).reference@ == old(self).reference@.skip(bytes@.len() as int),
    {
        let ghost before = self.reference@;
        let mut i: usize = 0;
        assert(before.skip(0) =~= before);
        while i < bytes.len()
            invariant
                i <= bytes@.len(),
                i <= before.len(),
                before == old(self).reference@,
                self.check == old(self).check,
                self.reference@ == before.skip(i as int),
                forall|j: int| 0 <= j < i ==> before[j] == bytes@[j],
            decreases bytes@.len() - i,
        {
            match self.reference.pop_front() {
                Some(byte) => {
                    if byte != bytes[i] {
                        assert(before.take(bytes@.len() as int)[i as int] != bytes@[i as int]
                            || bytes@.len() > before.len());
                        return false;
                    }
                },
                None => {
                    return false;
                },
            }
            i = i + 1;
            assert(self.reference@ =~= before.skip(i as int));
        }
        assert(before.take(bytes@.len() as int) =~= bytes@);
        true
    }

    /// Takes the reply to a poll.
    fn resume_poll(&mut self, seen: i16) -> (result: Result<(), Error>)
        ensures
            old(self).leads_to(
                old(self).check.after_poll(old(self).reference@, seen),
                *final(self),
                result,
            ),
    {
        match self.check {
            Check::EmptyPoll => self.check_that(
                seen & POLLIN == 0,
                "empty FIFO reported readable",
                Check::ZeroRead,
            ),
            _ => self.check_that(
                seen & POLLOUT == 0,
                "full FIFO reported writable",
                Check::PartialRead,
            ),
        }
    }

    /// Takes the reply to a write.
    fn resume_write(&mut self, reply: Result<usize, Error>) -> (result: Result<(), Error>)
        requires
            old(self).reference@.len() <= CAPACITY,
            old(self).check is Fill && reply is Ok ==> reply->Ok_0 <= PATTERN_LEN,
        ensures
            old(self).leads_to(
                old(self).check.after_write(old(self).reference@, reply),
                *final(self),
                result,
            ),
    {
        match self.check {
            Check::ZeroWrite => match reply {
                Ok(count) => self.check_that(
                    count == 0,
                    "zero-length I/O failed",
                    Check::PositionedWrite,
                ),
                Err(error) => self.broken(error),
            },
            Check::PositionedWrite => {
                let right = match reply {
                    Ok(_) => false,
                    Err(error) => is_number(&error, ESPIPE),
                };
                self.check_that(right, "stream accepted positioned I/O", Check::Fill)
            },
            Check::Fill => match reply {
                Ok(count) => {
                    if count == 0 {
                        return self.broken(Error::new(ErrorKind::WriteZero, "write zero"));
                    }
                    let fits = self.reference.len() + count <= CAPACITY;
                    self.fill(count);
                    self.check_that(fits, "FIFO exceeded its capacity", Check::Fill)
                },
                Err(error) => {
                    if !is_number(&error, EAGAIN) {
                        return self.broken(error);
                    }
                    let full = self.reference.len() == CAPACITY;
                    self.check_that(full, "FIFO capacity is not 4096", Check::FullPoll)
                },
            },
            Check::WrapWrite => match reply {
                Ok(count) => {
                    self.fill(count);
                    self.check = if self.reference.len() == 0 {
                        Check::FaultyWrite
                    } else {
                        Check::Drain
                    };
                    Ok(())
                },
                Err(error) => self.broken(error),
            },
            _ => {
                let right = match reply {
                    Ok(_) => false,
                    Err(error) => is_number(&error, EFAULT),
                };
                self.check_that(
                    right,
                    "invalid write buffer did not return EFAULT",
                    Check::WriteKept,
                )
            },
        }
    }

    /// Takes bytes that were read.
    fn resume_data(&mut self, bytes: Vec<u8>) -> (result: Result<(), Error>)
        ensures
            old(self).leads_to(
                old(self).check.after_data(old(self).reference@, bytes@),
                *final(self),
                result,
            ),
    {
        match self.check {
            Check::EmptyRead => self.check_that(
                false,
                "empty FIFO must return EAGAIN",
                Check::Failed,
            ),
            Check::ZeroRead => self.check_that(
                bytes.len() == 0,
                "zero-length I/O failed",
                Check::ZeroWrite,
            ),
            Check::PartialRead => {
                let right = self.take(&bytes);
                self.check_that(right, "data mismatch before wrap", Check::WrapWrite)
            },
            Check::Drain => {
                if bytes.len() == 0 {
                    return self.check_that(false, "unexpected FIFO EOF", Check::Failed);
                }
                let right = self.take(&bytes);
                let next = if self.reference.len() == 0 {
                    Check::FaultyWrite
                } else {
                    Check::Drain
                };
                self.check_that(right, "FIFO wrap corrupted bytes", next)
            },
            Check::FaultyRead => self.check_that(
                false,
                "invalid read buffer did not return EFAULT",
                Check::Failed,
            ),
            Check::ReadKept => {
                let right = bytes.len() == 1 && bytes[0] == 0x5a;
                assert(right == (bytes@ =~= seq![0x5au8]));
                self.check_that(right, "read fault consumed data", Check::OpenIndependent)
            },
            Check::ReadIndependent => self.check_that(
                false,
                "independent opens share data",
                Check::Failed,
            ),
            Check::ReadOwn => {
                self.check = Check::Wake;
                Ok(())
            },
            Check::Wake => {
                let right = bytes.len() == 4 && bytes[0] == 0x77 && bytes[1] == 0x61 && bytes[2]
                    == 0x6b && bytes[3] == 0x65;
                assert(right == (bytes@ =~= seq![0x77u8, 0x61u8, 0x6bu8, 0x65u8]));
                self.check_that(right, "poll wakeup payload mismatch", Check::Watch)
            },
            _ => {
                let right = bytes.len() > 0 && bytes[0] == 0x45;
                self.check_that(right, "epoll payload mismatch", Check::Done)
            },
        }
    }

    /// Takes the error of a read.
    fn resume_failed_read(&mut self, error: Error) -> (result: Result<(), Error>)
        ensures
            old(self).leads_to(
                old(self).check.after_failed_read(old(self).reference@, error),
                *final(self),
                result,
            ),
    {
        match self.check {
            Check::EmptyRead => {
                let right = is_number(&error, EAGAIN);
                self.check_that(right, "empty FIFO must return EAGAIN", Check::EmptyPoll)
            },
            Check::FaultyRead => {
                let right = is_number(&error, EFAULT);
                self.check_that(
                    right,
                    "invalid read buffer did not return EFAULT",
                    Check::ReadKept,
                )
            },
            Check::ReadIndependent => {
                let right = is_number(&error, EAGAIN);
                self.check_that(right, "independent opens share data", Check::ReadOwn)
            },
            _ => self.broken(error),
        }
    }

    /// `after` and `result` are what a verdict leads to.
    pub open spec fn leads_to(
        self,
        verdict: Verdict,
        after: Regression,
        result: Result<(), Error>,
    ) -> bool {
        match verdict {
            Verdict::On { check, reference } => {
                &&& result is Ok
                &&& after.check == check
                &&& after.reference@ == reference
            },
            Verdict::Wrong(message) => {
                &&& after.failed()
                &&& result is Err
                &&& result->Err_0.is(ErrorKind::Other, message)
            },
            Verdict::NothingWritten => {
                &&& after.failed()
                &&& result is Err
                &&& result->Err_0.is(ErrorKind::WriteZero, "write zero"@)
            },
            Verdict::Broken(error) => {
                &&& after.failed()
                &&& result == Err::<(), Error>(error)
            },
        }
    }

    /// The FIFO is never to hold more than fits, except that the device may
    /// claim to have taken more than that over its end.
    pub open spec fn wf(self) -> bool {
        match self.check {
            Check::Failed => true,
            Check::Drain => self.reference@.len() <= CAPACITY + PATTERN_LEN,
            _ => self.reference@.len() <= CAPACITY,
        }
    }

    /// Number of checks that are at most still to come.
    pub open spec fn left(self) -> int {
        let held = self.reference@.len() as int;
        let wrap = CAPACITY + PATTERN_LEN + 14;
        match self.check {
            Check::Open => wrap + CAPACITY + 9,
            Check::EmptyRead => wrap + CAPACITY + 8,
            Check::EmptyPoll => wrap + CAPACITY + 7,
            Check::ZeroRead => wrap + CAPACITY + 6,
            Check::ZeroWrite => wrap + CAPACITY + 5,
            Check::PositionedWrite => wrap + CAPACITY + 4,
            Check::Fill => wrap + 3 + (CAPACITY - held),
            Check::FullPoll => wrap + 2,
            Check::PartialRead => wrap + 1,
            Check::WrapWrite => wrap,
            Check::Drain => 13 + held,
            Check::FaultyWrite => 13,
            Check::WriteKept => 12,
            Check::FaultyRead => 11,
            Check::ReadKept => 10,
            Check::OpenIndependent => 9,
            Check::WriteOwn => 8,
            Check::ReadIndependent => 7,
            Check::ReadOwn => 6,
            Check::Wake => 5,
            Check::Watch => 4,
            Check::WriteWatched => 3,
            Check::AwaitEvent => 2,
            Check::ReadWatched => 1,
            Check::Done => 0,
            Check::Failed => 0,
        }
    }

    /// Takes the reply to the current check.
    pub fn resume(&mut self, reply: CheckReply) -> (result: Result<(), Error>)
        requires
            old(self).wf(),
            old(self).check.expects(reply),
        ensures
            final(self).wf(),
            0 <= final(self).left() < old(self).left(),
            old(self).leads_to(
                old(self).check.verdict(old(self).reference@, reply),
                *final(self),
                result,
            ),
    {
        match reply {
            CheckReply::Finished(Ok(())) => {
                self.check = match self.check {
                    Check::Open => Check::EmptyRead,
                    Check::WriteKept => Check::FaultyRead,
                    Check::OpenIndependent => Check::WriteOwn,
                    Check::WriteOwn => Check::ReadIndependent,
                    Check::Watch => Check::WriteWatched,
                    _ => Check::AwaitEvent,
                };
                Ok(())
            },
            CheckReply::Finished(Err(error)) => self.broken(error),
            CheckReply::Ready(Ok(seen)) => self.resume_poll(seen),
            CheckReply::Ready(Err(error)) => self.broken(error),
            CheckReply::Moved(moved) => self.resume_write(moved),
            CheckReply::Data(Ok(bytes)) => self.resume_data(bytes),
            CheckReply::Data(Err(error)) => self.resume_failed_read(error),
            CheckReply::Events { count, events } => self.check_that(
                count == 1 && events & EPOLLIN != 0,
                "epoll failed to report input",
                Check::ReadWatched,
            ),
        }
    }
}

// ---------------------------------------------------------------------------
// Laws
// ---------------------------------------------------------------------------

/// A read from a FIFO that holds `contents`: nothing for no room, the oldest
/// bytes if there are any, and an error otherwise.
pub open spec fn fifo_reads(
    contents: Seq<u8>,
    room: int,
    reply: CheckReply,
    after: Seq<u8>,
) -> bool {
    match reply {
        CheckReply::Data(Ok(bytes)) => {
            let len = bytes@.len() as int;
            &&& if room == 0 {
                len == 0
            } else {
                1 <= len <= room
            }
            &&& oldest(contents, bytes@)
            &&& after == contents.skip(len)
        },
        CheckReply::Data(Err(error)) => {
            &&& room > 0
            &&& contents.len() == 0
            &&& error.kind == ErrorKind::Os(EAGAIN)
            &&& after == contents
        },
        _ => false,
    }
}

/// A write to a FIFO that holds `contents`: nothing of nothing, as much as it
/// likes of what fits, and an error when it is full.
pub open spec fn fifo_writes(
    contents: Seq<u8>,
    data: Seq<u8>,
    reply: CheckReply,
    after: Seq<u8>,
) -> bool {
    match reply {
        CheckReply::Moved(Ok(count)) => {
            &&& if data.len() == 0 {
                count == 0
            } else {
                1 <= count <= data.len() && contents.len() + count <= CAPACITY
            }
            &&& after == contents + data.take(count as int)
        },
        CheckReply::Moved(Err(error)) => {
            &&& data.len() > 0
            &&& contents.len() == CAPACITY
            &&& error.kind == ErrorKind::Os(EAGAIN)
            &&& after == contents
        },
        _ => false,
    }
}

/// The reply of a correct device to a check, and what its FIFO then holds.
pub open spec fn fifo_gives(
    check: Check,
    contents: Seq<u8>,
    reply: CheckReply,
    after: Seq<u8>,
) -> bool {
    match check {
        Check::EmptyRead | Check::ReadKept | Check::ReadOwn
        | Check::ReadWatched | Check::ZeroRead | Check::PartialRead | Check::Drain => fifo_reads(
            contents,
            check.reads(),
            reply,
            after,
        ),
        Check::ZeroWrite | Check::Fill | Check::WrapWrite => fifo_writes(
            contents,
            check.writes(),
            reply,
            after,
        ),
        Check::EmptyPoll => after == contents && match reply {
            CheckReply::Ready(Ok(seen)) => (seen & POLLIN != 0) == (contents.len() > 0),
            _ => false,
        },
        Check::FullPoll => after == contents && match reply {
            CheckReply::Ready(Ok(seen)) => (seen & POLLOUT != 0) == (contents.len() < CAPACITY),
            _ => false,
        },
        Check::PositionedWrite => after == contents && match reply {
            CheckReply::Moved(result) => failed_with(result, ESPIPE),
            _ => false,
        },
        Check::FaultyWrite => after == contents && match reply {
            CheckReply::Moved(result) => failed_with(result, EFAULT),
            _ => false,
        },
        Check::FaultyRead => after == contents && match reply {
            CheckReply::Data(result) => failed_with(result, EFAULT),
            _ => false,
        },
        Check::ReadIndependent => after == contents && fifo_reads(
            Seq::empty(),
            check.reads(),
            reply,
            Seq::empty(),
        ),
        Check::WriteKept | Check::WriteOwn | Check::WriteWatched => after == contents
            + check.writes() && reply == CheckReply::Finished(Ok(())),
        Check::Wake => after == contents && match reply {
            CheckReply::Data(Ok(bytes)) => bytes@ == check.writes(),
            _ => false,
        },
        Check::AwaitEvent => after == contents && match reply {
            CheckReply::Events { count, events } => contents.len() > 0 ==> count == 1 && events
                == EPOLLIN,
            _ => false,
        },
        _ => after == contents && reply == CheckReply::Finished(Ok(())),
    }
}

/// What the FIFO holds before a check that is to pass.
pub open spec fn expected_contents(check: Check, reference: Seq<u8>) -> Seq<u8> {
    match check {
        Check::FaultyRead | Check::ReadKept => seq![0x5au8],
        Check::ReadIndependent | Check::ReadOwn => seq![0x41u8],
        Check::AwaitEvent | Check::ReadWatched => seq![0x45u8],
        _ => reference,
    }
}

/// What holds of the reference before a check that is to pass.
pub open spec fn on_track(check: Check, reference: Seq<u8>) -> bool {
    match check {
        Check::Fill => reference.len() <= CAPACITY,
        Check::FullPoll | Check::PartialRead => reference.len() == CAPACITY,
        Check::WrapWrite => reference.len() < CAPACITY,
        Check::Drain => 0 < reference.len() <= CAPACITY,
        Check::Failed => false,
        _ => reference.len() == 0,
    }
}

/// A correct FIFO of the documented capacity passes every check: however it
/// splits reads and writes, the test never fails it, and what the test expects
/// it to hold is what it holds.
pub proof fn law_correct_fifo_passes(
    check: Check,
    reference: Seq<u8>,
    reply: CheckReply,
    after: Seq<u8>,
)
    requires
        check != Check::Done,
        on_track(check, reference),
        fifo_gives(check, expected_contents(check, reference), reply, after),
    ensures
        check.verdict(reference, reply) is On,
        ({
            let next = check.verdict(reference, reply);
            &&& on_track(next->check, next->reference)
            &&& after == expected_contents(next->check, next->reference)
        }),
{
    lemma_constants();
    match reply {
        CheckReply::Moved(Ok(count)) => {
            if count <= PATTERN_LEN {
                assert(pattern_of(PATTERN_LEN as int).take(count as int) =~= pattern_of(
                    count as int,
                ));
            }
            assert(reference + Seq::<u8>::empty().take(0) =~= reference);
        },
        CheckReply::Data(Ok(bytes)) => {
            let contents = expected_contents(check, reference);
            assert(contents.skip(0) =~= contents);
            if oldest(contents, bytes@) && contents.len() == 1 && bytes@.len() == 1 {
                assert(contents.take(1) =~= contents);
                assert(bytes@ =~= contents);
                assert(contents.skip(1) =~= Seq::<u8>::empty());
            }
            if reference.len() == 0 {
                assert(reference =~= Seq::<u8>::empty());
            }
        },
        CheckReply::Finished(_) => {
            assert(reference =~= Seq::<u8>::empty());
            assert(reference + check.writes() =~= check.writes());
        },
        _ => {},
    }
}

/// The FIFO of [`OpenFile`] is a correct one: what its reads and writes
/// transfer is what the test allows.
pub proof fn law_open_file_is_a_correct_fifo(
    file: OpenFile,
    room: usize,
    bytes: Vec<u8>,
    data: Seq<u8>,
    count: usize,
)
    requires
        file.wf(),
        room > 0,
        bytes@ == file.bytes().take(min(file.readable_len(), room as int)),
        count == min(file.writable_len(), data.len() as int),
    ensures
        file.bytes().len() > 0 ==> fifo_reads(
            file.bytes(),
            room as int,
            CheckReply::Data(Ok(bytes)),
            file.bytes().skip(bytes@.len() as int),
        ),
        file.bytes().len() < CAPACITY ==> fifo_writes(
            file.bytes(),
            data,
            CheckReply::Moved(Ok(count)),
            file.bytes() + data.take(count as int),
        ),
{
    law_poll_matches_transfers(file);
}

/// A device that loses, changes or reorders a byte does not pass: what is read
/// has to be the oldest of what was written.
pub proof fn law_wrong_bytes_are_noticed(check: Check, reference: Seq<u8>, bytes: Vec<u8>)
    requires
        check is PartialRead || check is Drain,
        !oldest(reference, bytes@),
    ensures
        check.verdict(reference, CheckReply::Data(Ok(bytes))) is Wrong,
{
}

/// What each check does: the bytes that it writes, the room that it offers, the
/// events that it polls for, and the time in milliseconds that it may wait.
pub proof fn law_checks_act(
    check: Check,
    data: Vec<u8>,
    room: usize,
    events: i16,
    limit: Option<u32>,
    i: int,
)
    requires
        call_ensures(Check::data, (check,), data),
        call_ensures(Check::room, (check,), room),
        call_ensures(Check::events, (check,), events),
        call_ensures(Check::limit_millis, (check,), limit),
    ensures
        match check {
            Check::PositionedWrite => data@.len() == 1 && data@[0] == 0x78,
            Check::Fill | Check::WrapWrite => data@.len() == 511 && (0 <= i < 511 ==> data@[i] == i
                % 256),
            Check::WriteKept => data@.len() == 1 && data@[0] == 0x5a,
            Check::WriteOwn => data@.len() == 1 && data@[0] == 0x41,
            Check::Wake => data@.len() == 4 && data@[0] == 0x77 && data@[1] == 0x61 && data@[2]
                == 0x6b && data@[3] == 0x65,
            Check::WriteWatched => data@.len() == 1 && data@[0] == 0x45,
            _ => data@.len() == 0,
        },
        match check {
            Check::PartialRead | Check::Drain => room == 513,
            Check::Wake => room == 4,
            Check::EmptyRead | Check::FaultyRead | Check::ReadKept | Check::ReadIndependent
            | Check::ReadOwn | Check::ReadWatched => room == 1,
            _ => room == 0,
        },
        check == Check::EmptyPoll ==> events == 1,
        check == Check::FullPoll ==> events == 4,
        check != Check::EmptyPoll && check != Check::FullPoll ==> events == 0,
        check == Check::Wake ==> limit == Some(2000u32),
        check == Check::AwaitEvent ==> limit == Some(1000u32),
        check != Check::Wake && check != Check::AwaitEvent ==> limit is None,
{
}

/// Which replies pass a check, and which check follows. Only writes of the
/// pattern and reads of it change what the FIFO is to hold: a write adds the
/// bytes that the device took behind the others, and a read removes the oldest,
/// which have to be the ones that were read.
pub proof fn law_regression_course(
    regression: &mut Regression,
    reply: CheckReply,
    result: Result<(), Error>,
)
    requires
        old(regression).wf(),
        old(regression).check.expects(reply),
        call_ensures(Regression::resume, (regression, reply), result),
    ensures
        result is Err <==> final(regression).check == Check::Failed,
        ({
            let held = old(regression).reference@;
            let next = final(regression).check;
            match old(regression).check {
                Check::EmptyRead => {
                    &&& result is Ok <==> reply->Data_0 is Err && reply->Data_0->Err_0.kind
                        == ErrorKind::Os(11)
                    &&& result is Ok ==> next == Check::EmptyPoll
                },
                Check::EmptyPoll => {
                    &&& result is Ok <==> reply->Ready_0 is Ok && reply->Ready_0->Ok_0 & 1 == 0
                    &&& result is Ok ==> next == Check::ZeroRead
                },
                Check::ZeroRead => {
                    &&& result is Ok <==> reply->Data_0 is Ok && reply->Data_0->Ok_0@.len() == 0
                    &&& result is Ok ==> next == Check::ZeroWrite
                },
                Check::ZeroWrite => {
                    &&& result is Ok <==> reply->Moved_0 == Ok::<usize, Error>(0)
                    &&& result is Ok ==> next == Check::PositionedWrite
                },
                Check::PositionedWrite => {
                    &&& result is Ok <==> reply->Moved_0 is Err && reply->Moved_0->Err_0.kind
                        == ErrorKind::Os(29)
                    &&& result is Ok ==> next == Check::Fill
                },
                Check::Fill => match reply->Moved_0 {
                    Ok(count) => {
                        &&& result is Ok <==> count > 0 && held.len() + count <= 4096
                        &&& result is Ok ==> next == Check::Fill
                    },
                    Err(error) => {
                        &&& result is Ok <==> error.kind == ErrorKind::Os(11) && held.len()
                            == 4096
                        &&& result is Ok ==> next == Check::FullPoll
                    },
                },
                Check::FullPoll => {
                    &&& result is Ok <==> reply->Ready_0 is Ok && reply->Ready_0->Ok_0 & 4 == 0
                    &&& result is Ok ==> next == Check::PartialRead
                },
                Check::PartialRead => {
                    &&& result is Ok <==> reply->Data_0 is Ok && reply->Data_0->Ok_0@.len()
                        <= held.len() && held.take(reply->Data_0->Ok_0@.len() as int)
                        == reply->Data_0->Ok_0@
                    &&& result is Ok ==> next == Check::WrapWrite
                },
                Check::WrapWrite => {
                    &&& result is Ok <==> reply->Moved_0 is Ok
                    &&& result is Ok && held.len() + reply->Moved_0->Ok_0 == 0 ==> next
                        == Check::FaultyWrite
                    &&& result is Ok && held.len() + reply->Moved_0->Ok_0 > 0 ==> next
                        == Check::Drain
                },
                Check::Drain => {
                    &&& result is Ok <==> reply->Data_0 is Ok && 0 < reply->Data_0->Ok_0@.len()
                        <= held.len() && held.take(reply->Data_0->Ok_0@.len() as int)
                        == reply->Data_0->Ok_0@
                    &&& result is Ok && reply->Data_0->Ok_0@.len() == held.len() ==> next
                        == Check::FaultyWrite
                    &&& result is Ok && reply->Data_0->Ok_0@.len() < held.len() ==> next
                        == Check::Drain
                },
                Check::FaultyWrite => {
                    &&& result is Ok <==> reply->Moved_0 is Err && reply->Moved_0->Err_0.kind
                        == ErrorKind::Os(14)
                    &&& result is Ok ==> next == Check::WriteKept
                },
                Check::FaultyRead => {
                    &&& result is Ok <==> reply->Data_0 is Err && reply->Data_0->Err_0.kind
                        == ErrorKind::Os(14)
                    &&& result is Ok ==> next == Check::ReadKept
                },
                Check::ReadKept => {
                    &&& result is Ok <==> reply->Data_0 is Ok && reply->Data_0->Ok_0@.len() == 1
                        && reply->Data_0->Ok_0@[0] == 0x5a
                    &&& result is Ok ==> next == Check::OpenIndependent
                },
                Check::ReadIndependent => {
                    &&& result is Ok <==> reply->Data_0 is Err && reply->Data_0->Err_0.kind
                        == ErrorKind::Os(11)
                    &&& result is Ok ==> next == Check::ReadOwn
                },
                Check::ReadOwn => {
                    &&& result is Ok <==> reply->Data_0 is Ok
                    &&& result is Ok ==> next == Check::Wake
                },
                Check::Wake => {
                    &&& result is Ok <==> reply->Data_0 is Ok && reply->Data_0->Ok_0@.len() == 4
                        && reply->Data_0->Ok_0@[0] == 0x77 && reply->Data_0->Ok_0@[1] == 0x61
                        && reply->Data_0->Ok_0@[2] == 0x6b && reply->Data_0->Ok_0@[3] == 0x65
                    &&& result is Ok ==> next == Check::Watch
                },
                Check::AwaitEvent => {
                    &&& result is Ok <==> reply->count == 1 && reply->events & 1 != 0
                    &&& result is Ok ==> next == Check::ReadWatched
                },
                Check::ReadWatched => {
                    &&& result is Ok <==> reply->Data_0 is Ok && reply->Data_0->Ok_0@.len() > 0
                        && reply->Data_0->Ok_0@[0] == 0x45
                    &&& result is Ok ==> next == Check::Done
                },
                Check::Done | Check::Failed => false,
                check => {
                    &&& result is Ok <==> reply->Finished_0 is Ok
                    &&& result is Ok ==> next == match check {
                        Check::Open => Check::EmptyRead,
                        Check::WriteKept => Check::FaultyRead,
                        Check::OpenIndependent => Check::WriteOwn,
                        Check::WriteOwn => Check::ReadIndependent,
                        Check::Watch => Check::WriteWatched,
                        _ => Check::AwaitEvent,
                    }
                },
            }
        }),
        result is Ok ==> {
            let held = old(regression).reference@;
            let after = final(regression).reference@;
            match old(regression).check {
                Check::PartialRead | Check::Drain => reply->Data_0->Ok_0@ + after == held,
                Check::Fill | Check::WrapWrite => if reply->Moved_0 is Ok {
                    &&& after.len() == held.len() + reply->Moved_0->Ok_0
                    &&& after.take(held.len() as int) == held
                    &&& forall|k: int|
                        held.len() <= k < after.len() ==> #[trigger] after[k] == (k - held.len())
                            % 256
                } else {
                    after == held
                },
                _ => after == held,
            }
        },
{
    let held = old(regression).reference@;
    let after = final(regression).reference@;
    if result is Ok {
        match old(regression).check {
            Check::PartialRead | Check::Drain => {
                let bytes = reply->Data_0->Ok_0@;
                assert(held.take(bytes.len() as int) + held.skip(bytes.len() as int) =~= held);
            },
            Check::Fill | Check::WrapWrite => {
                if reply->Moved_0 is Ok {
                    assert(after.take(held.len() as int) =~= held);
                }
            },
            _ => {},
        }
    }
    if reply is Data && reply->Data_0 is Ok {
        let bytes = reply->Data_0->Ok_0@;
        if bytes.len() == 1 && bytes[0] == 0x5a {
            assert(bytes =~= seq![0x5au8]);
        }
        if bytes.len() == 4 && bytes[0] == 0x77 && bytes[1] == 0x61 && bytes[2] == 0x6b && bytes[3]
            == 0x65 {
            assert(bytes =~= seq![0x77u8, 0x61u8, 0x6bu8, 0x65u8]);
        }
    }
}

/// The test begins by opening the device, with an empty FIFO.
pub proof fn law_regression_begins(regression: Regression)
    requires
        call_ensures(Regression::new, (), regression),
    ensures
        regression.check == Check::Open,
        regression.reference@.len() == 0,
{
}

/// The pattern counts up from zero, and starts again after 255.
pub proof fn law_pattern_counts(bytes: Vec<u8>, i: int)
    requires
        call_ensures(pattern, (), bytes),
        0 <= i < bytes@.len(),
    ensures
        bytes@.len() == 511,
        bytes@[0] == 0,
        i > 0 ==> bytes@[i] == if bytes@[i - 1] == 255 {
            0int
        } else {
            bytes@[i - 1] + 1
        },
{
}

/// What a failed check reports. An action that failed is reported as it failed,
/// except where it had to fail; a write that took nothing is told as such; and
/// anything else names what is wrong with the device.
pub proof fn law_failed_checks_are_explained(
    regression: &mut Regression,
    reply: CheckReply,
    result: Result<(), Error>,
)
    requires
        old(regression).wf(),
        old(regression).check.expects(reply),
        call_ensures(Regression::resume, (regression, reply), result),
        result is Err,
    ensures
        final(regression).reference@.len() == 0,
        ({
            let check = old(regression).check;
            let error = result->Err_0;
            let blames = error.kind == ErrorKind::Other;
            match reply {
                CheckReply::Finished(outcome) => outcome == Err::<(), Error>(error),
                CheckReply::Ready(Err(failure)) => error == failure,
                CheckReply::Ready(Ok(_)) => blames && error.message@ == if check
                    == Check::EmptyPoll {
                    "empty FIFO reported readable"@
                } else {
                    "full FIFO reported writable"@
                },
                CheckReply::Moved(outcome) => match check {
                    Check::ZeroWrite => match outcome {
                        Ok(_) => blames && error.message@ == "zero-length I/O failed"@,
                        Err(failure) => error == failure,
                    },
                    Check::PositionedWrite => blames && error.message@
                        == "stream accepted positioned I/O"@,
                    Check::Fill => match outcome {
                        Ok(count) => if count == 0 {
                            error.kind == ErrorKind::WriteZero && error.message@ == "write zero"@
                        } else {
                            blames && error.message@ == "FIFO exceeded its capacity"@
                        },
                        Err(failure) => if failure.kind == ErrorKind::Os(11) {
                            blames && error.message@ == "FIFO capacity is not 4096"@
                        } else {
                            error == failure
                        },
                    },
                    Check::WrapWrite => outcome == Err::<usize, Error>(error),
                    _ => blames && error.message@
                        == "invalid write buffer did not return EFAULT"@,
                },
                CheckReply::Data(Ok(bytes)) => blames && error.message@ == match check {
                    Check::EmptyRead => "empty FIFO must return EAGAIN"@,
                    Check::ZeroRead => "zero-length I/O failed"@,
                    Check::PartialRead => "data mismatch before wrap"@,
                    Check::Drain => if bytes@.len() == 0 {
                        "unexpected FIFO EOF"@
                    } else {
                        "FIFO wrap corrupted bytes"@
                    },
                    Check::FaultyRead => "invalid read buffer did not return EFAULT"@,
                    Check::ReadKept => "read fault consumed data"@,
                    Check::ReadIndependent => "independent opens share data"@,
                    Check::Wake => "poll wakeup payload mismatch"@,
                    _ => "epoll payload mismatch"@,
                },
                CheckReply::Data(Err(failure)) => match check {
                    Check::EmptyRead => blames && error.message@
                        == "empty FIFO must return EAGAIN"@,
                    Check::FaultyRead => blames && error.message@
                        == "invalid read buffer did not return EFAULT"@,
                    Check::ReadIndependent => blames && error.message@
                        == "independent opens share data"@,
                    _ => error == failure,
                },
                CheckReply::Events { .. } => blames && error.message@
                    == "epoll failed to report input"@,
            }
        }),
{
}

} // verus!
