//! A bounded, per-open byte FIFO behind a character device.
//!
//! Each open has an independent FIFO. The device's lock, its wait queue and
//! the copies to and from user memory are the caller's: an operation says what
//! is to be copied, and is then told how much of it arrived.

use core::ops::Range;
use vstd::prelude::*;
use vstd::slice::slice_subrange;
use crate::errno::Errno;
use crate::ring::{min, Ring};

verus! {

/// Bytes that one open can hold.
pub const CAPACITY: usize = 4096;

/// What a read or a write does next.
pub enum Transfer {
    /// The request was for nothing; it is done with a count of zero.
    Nothing,
    /// Wait for a change, and ask again.
    Wait,
    /// Copy this stretch of the storage.
    Copy(Range<usize>),
}

/// What a poll reports.
#[derive(Clone, Copy, Debug, PartialEq, Eq, Structural)]
pub struct Readiness {
    /// There is something to read.
    pub input: bool,
    /// There is room to write.
    pub output: bool,
}

/// The storage of a FIFO and the positions in it.
pub struct Buffer {
    data: Vec<u8>,
    ring: Ring,
}

impl Buffer {
    /// The positions.
    pub closed spec fn ring(self) -> Ring {
        self.ring
    }

    /// The storage.
    pub closed spec fn storage(self) -> Seq<u8> {
        self.data@
    }

    /// The positions are those of this storage.
    pub open spec fn wf(self) -> bool {
        &&& self.ring().wf()
        &&& self.storage().len() == self.ring().capacity()
    }

    /// The bytes in the FIFO, oldest first.
    pub open spec fn bytes(self) -> Seq<u8> {
        Seq::new(self.ring().len() as nat, |i: int| self.storage()[self.ring().slot(i)])
    }

    /// An empty FIFO of `capacity` bytes.
    pub fn new(capacity: usize) -> (buffer: Self)
        requires
            capacity > 0,
        ensures
            buffer.wf(),
            buffer.ring().capacity() == capacity,
            buffer.ring().head() == 0,
            buffer.bytes() == Seq::<u8>::empty(),
    {
        let buffer = Buffer { data: vec![0u8; capacity], ring: Ring::new(capacity) };
        assert(buffer.bytes() =~= Seq::<u8>::empty());
        buffer
    }

    /// The stretch of storage that a read of at most `limit` bytes takes.
    pub fn readable(&self, limit: usize) -> (range: Range<usize>)
        requires
            self.wf(),
        ensures
            range.start == self.ring().head(),
            range.start <= range.end <= self.storage().len(),
            range.end - range.start == min(self.ring().readable_len(), limit as int),
            self.storage().subrange(range.start as int, range.end as int) == self.bytes().take(
                range.end - range.start,
            ),
    {
        let range = self.ring.readable(limit);
        assert(self.storage().subrange(range.start as int, range.end as int)
            =~= self.bytes().take(range.end - range.start));
        range
    }

    /// The bytes that a read of at most `limit` bytes takes: the oldest ones.
    pub fn peek(&self, limit: usize) -> (bytes: &[u8])
        requires
            self.wf(),
        ensures
            bytes@ == self.bytes().take(min(self.ring().readable_len(), limit as int)),
    {
        let range = self.readable(limit);
        slice_subrange(self.data.as_slice(), range.start, range.end)
    }

    /// Removes the oldest `count` bytes.
    pub fn remove(&mut self, count: usize)
        requires
            old(self).wf(),
            count <= old(self).ring().readable_len(),
        ensures
            final(self).wf(),
            final(self).ring().capacity() == old(self).ring().capacity(),
            final(self).ring().head() == old(self).ring().slot(count as int),
            final(self).bytes() == old(self).bytes().skip(count as int),
    {
        self.ring.consume(count);
        assert(self.bytes() =~= old(self).bytes().skip(count as int));
    }

    /// Adds `bytes` behind the newest byte.
    pub fn insert(&mut self, bytes: &[u8])
        requires
            old(self).wf(),
            bytes@.len() <= old(self).ring().writable_len(),
        ensures
            final(self).wf(),
            final(self).ring().capacity() == old(self).ring().capacity(),
            final(self).ring().head() == old(self).ring().head(),
            final(self).bytes() == old(self).bytes() + bytes@,
    {
        let range = self.ring.writable(bytes.len());
        let start = range.start;
        let ghost tail = self.ring.slot(self.ring.len());
        let ghost before = self.data@;
        let mut i: usize = 0;
        while i < bytes.len()
            invariant
                i <= bytes@.len(),
                self.ring == old(self).ring,
                start + bytes@.len() <= self.data@.len(),
                start + bytes@.len() <= usize::MAX,
                self.data@.len() == before.len(),
                forall|k: int|
                    0 <= k < before.len() ==> self.data@[k] == (if start <= k < start + i {
                        bytes@[k - start]
                    } else {
                        before[k]
                    }),
            decreases bytes@.len() - i,
        {
            self.data.set(start + i, bytes[i]);
            i = i + 1;
        }
        self.ring.produce(bytes.len());
        proof {
            let ring = old(self).ring;
            let n = ring.len();
            assert forall|k: int| 0 <= k < n + bytes@.len() implies #[trigger] self.bytes()[k] == (
            old(self).bytes() + bytes@)[k] by {
                let slot = ring.slot(k);
                assert(self.bytes()[k] == self.data@[slot]);
                if k < n {
                    assert(!(start <= slot < start + bytes@.len()));
                } else {
                    assert(slot == start + (k - n));
                }
            }
            assert(self.bytes() =~= old(self).bytes() + bytes@);
        }
    }
}

/// One open of the device.
pub struct OpenFile {
    pub buffer: Buffer,
}

impl OpenFile {
    /// The FIFO is sound and has the size of the device.
    pub open spec fn wf(self) -> bool {
        self.buffer.wf() && self.buffer.ring().capacity() == CAPACITY
    }

    /// The bytes that were written and not yet read, oldest first.
    pub open spec fn bytes(self) -> Seq<u8> {
        self.buffer.bytes()
    }

    /// Most bytes that one read can take now.
    pub open spec fn readable_len(self) -> int {
        self.buffer.ring().readable_len()
    }

    /// Most bytes that one write can place now.
    pub open spec fn writable_len(self) -> int {
        self.buffer.ring().writable_len()
    }

    /// Opens the device: a FIFO of its own, and empty.
    pub fn open() -> (file: Self)
        ensures
            file.wf(),
            file.buffer.ring().head() == 0,
            file.bytes() == Seq::<u8>::empty(),
            file.writable_len() == CAPACITY,
    {
        let file = OpenFile { buffer: Buffer::new(CAPACITY) };
        assert(file.bytes().len() == 0);
        file
    }

    /// Decides on a read of `len` bytes. `interrupted` tells that a signal
    /// ended the wait that was asked for before.
    pub fn read_iter(&self, len: usize, nonblocking: bool, interrupted: bool) -> (result: Result<
        Transfer,
        Errno,
    >)
        requires
            self.wf(),
        ensures
            match result {
                Ok(Transfer::Nothing) => len == 0,
                Ok(Transfer::Wait) => len > 0 && !interrupted && !nonblocking
                    && self.bytes().len() == 0,
                Ok(Transfer::Copy(range)) => {
                    &&& len > 0 && !interrupted && self.bytes().len() > 0
                    &&& range.start < range.end <= CAPACITY
                    &&& range.start == self.buffer.ring().head()
                    &&& range.end - range.start == min(self.readable_len(), len as int)
                    &&& self.buffer.storage().subrange(range.start as int, range.end as int)
                        == self.bytes().take(range.end - range.start)
                },
                Err(error) => len > 0 && if interrupted {
                    error == Errno::ERESTARTSYS
                } else {
                    error == Errno::EAGAIN && nonblocking && self.bytes().len() == 0
                },
            },
    {
        if len == 0 {
            return Ok(Transfer::Nothing);
        }
        if interrupted {
            return Err(Errno::ERESTARTSYS);
        }
        if self.buffer.ring.is_empty() {
            if nonblocking {
                return Err(Errno::EAGAIN);
            }
            return Ok(Transfer::Wait);
        }
        Ok(Transfer::Copy(self.buffer.readable(len)))
    }

    /// Ends a read of which `copied` bytes reached the reader. Only those are
    /// consumed; a fault that copied nothing loses no data. After `Ok` the
    /// caller wakes whoever waits for a change.
    pub fn read_copied(&mut self, copied: usize) -> (result: Result<usize, Errno>)
        requires
            old(self).wf(),
            copied <= old(self).readable_len(),
        ensures
            final(self).wf(),
            final(self).bytes() == old(self).bytes().skip(copied as int),
            final(self).buffer.ring().head() == old(self).buffer.ring().slot(copied as int),
            match result {
                Ok(count) => count == copied && copied > 0,
                Err(error) => error == Errno::EFAULT && copied == 0 && *final(self) == *old(self),
            },
    {
        if copied == 0 {
            assert(self.bytes().skip(0) =~= self.bytes());
            return Err(Errno::EFAULT);
        }
        self.buffer.remove(copied);
        Ok(copied)
    }

    /// Decides on a write of `len` bytes. `interrupted` tells that a signal
    /// ended the wait that was asked for before.
    pub fn write_iter(&self, len: usize, nonblocking: bool, interrupted: bool) -> (result: Result<
        Transfer,
        Errno,
    >)
        requires
            self.wf(),
        ensures
            match result {
                Ok(Transfer::Nothing) => len == 0,
                Ok(Transfer::Wait) => len > 0 && !interrupted && !nonblocking
                    && self.bytes().len() == CAPACITY,
                Ok(Transfer::Copy(range)) => {
                    &&& len > 0 && !interrupted && self.bytes().len() < CAPACITY
                    &&& range.start < range.end <= CAPACITY
                    &&& range.start == self.buffer.ring().slot(self.bytes().len() as int)
                    &&& range.end - range.start == min(self.writable_len(), len as int)
                },
                Err(error) => len > 0 && if interrupted {
                    error == Errno::ERESTARTSYS
                } else {
                    error == Errno::EAGAIN && nonblocking && self.bytes().len() == CAPACITY
                },
            },
    {
        if len == 0 {
            return Ok(Transfer::Nothing);
        }
        if interrupted {
            return Err(Errno::ERESTARTSYS);
        }
        if self.buffer.ring.is_full() {
            if nonblocking {
                return Err(Errno::EAGAIN);
            }
            return Ok(Transfer::Wait);
        }
        Ok(Transfer::Copy(self.buffer.ring.writable(len)))
    }

    /// Ends a write of which `copied` arrived from the writer. After `Ok` the
    /// caller wakes whoever waits for a change.
    pub fn write_copied(&mut self, copied: &[u8]) -> (result: Result<usize, Errno>)
        requires
            old(self).wf(),
            copied@.len() <= old(self).writable_len(),
        ensures
            final(self).wf(),
            final(self).bytes() == old(self).bytes() + copied@,
            final(self).buffer.ring().head() == old(self).buffer.ring().head(),
            match result {
                Ok(count) => count == copied@.len() && count > 0,
                Err(error) => error == Errno::EFAULT && copied@.len() == 0 && *final(self) == *old(
                    self,
                ),
            },
    {
        if copied.len() == 0 {
            assert(self.bytes() + copied@ =~= self.bytes());
            return Err(Errno::EFAULT);
        }
        self.buffer.insert(copied);
        Ok(copied.len())
    }

    /// Reports what would not block.
    pub fn poll(&self) -> (ready: Readiness)
        requires
            self.wf(),
        ensures
            ready.input == (self.bytes().len() > 0),
            ready.output == (self.bytes().len() < CAPACITY),
    {
        Readiness { input: !self.buffer.ring.is_empty(), output: !self.buffer.ring.is_full() }
    }
}

// ---------------------------------------------------------------------------
// Laws
// ---------------------------------------------------------------------------

/// One transfer of a series.
pub ghost enum Traffic {
    /// These bytes were written.
    Written(Seq<u8>),
    /// These bytes were read.
    Read(Seq<u8>),
}

impl OpenFile {
    /// The transfer takes the file to `after`: a write appends, and a read
    /// gives and removes the oldest bytes.
    pub open spec fn passes(self, traffic: Traffic, after: OpenFile) -> bool {
        match traffic {
            Traffic::Written(bytes) => after.bytes() == self.bytes() + bytes,
            Traffic::Read(bytes) => {
                &&& bytes.len() <= self.bytes().len()
                &&& bytes == self.bytes().take(bytes.len() as int)
                &&& after.bytes() == self.bytes().skip(bytes.len() as int)
            },
        }
    }
}

/// Everything that a series has written, in order.
pub open spec fn all_written(series: Seq<Traffic>) -> Seq<u8>
    decreases series.len(),
{
    if series.len() == 0 {
        Seq::empty()
    } else {
        match series.last() {
            Traffic::Written(bytes) => all_written(series.drop_last()) + bytes,
            Traffic::Read(_) => all_written(series.drop_last()),
        }
    }
}

/// Everything that a series has read, in order.
pub open spec fn all_read(series: Seq<Traffic>) -> Seq<u8>
    decreases series.len(),
{
    if series.len() == 0 {
        Seq::empty()
    } else {
        match series.last() {
            Traffic::Written(_) => all_read(series.drop_last()),
            Traffic::Read(bytes) => all_read(series.drop_last()) + bytes,
        }
    }
}

/// First in, first out: over any series of writes and reads, whatever pieces
/// they take, what was read and then what is still queued is what was queued
/// before and then what was written.
pub proof fn law_reads_return_what_was_written(files: Seq<OpenFile>, series: Seq<Traffic>)
    requires
        files.len() == series.len() + 1,
        forall|i: int|
            0 <= i < series.len() ==> files[i].passes(#[trigger] series[i], files[i + 1]),
    ensures
        all_read(series) + files.last().bytes() == files.first().bytes() + all_written(series),
    decreases series.len(),
{
    if series.len() == 0 {
        assert(all_read(series) + files.last().bytes() =~= files.first().bytes() + all_written(
            series,
        ));
    } else {
        let n = series.len() - 1;
        let before = files[n];
        assert forall|i: int| 0 <= i < n implies files.drop_last()[i].passes(
            #[trigger] series.drop_last()[i],
            files.drop_last()[i + 1],
        ) by {
            assert(files[i].passes(series[i], files[i + 1]));
        }
        law_reads_return_what_was_written(files.drop_last(), series.drop_last());
        assert(before.passes(series[n], files[n + 1]));
        let all = files.first().bytes() + all_written(series.drop_last());
        match series.last() {
            Traffic::Written(bytes) => {
                assert(all_read(series) + (before.bytes() + bytes) =~= all + bytes);
                assert(all + bytes =~= files.first().bytes() + all_written(series));
            },
            Traffic::Read(bytes) => {
                assert(bytes + before.bytes().skip(bytes.len() as int) =~= before.bytes());
                assert(all_read(series) + files.last().bytes() =~= all_read(series.drop_last())
                    + before.bytes());
            },
        }
    }
}

/// A poll tells the truth: input is reported exactly when a read of at least
/// one byte transfers without waiting, output exactly when a write does.
pub proof fn law_poll_matches_transfers(file: OpenFile)
    requires
        file.wf(),
    ensures
        file.bytes().len() > 0 <==> file.readable_len() > 0,
        file.bytes().len() < CAPACITY <==> file.writable_len() > 0,
        file.bytes().len() <= CAPACITY,
{
    crate::ring::law_progress(file.buffer.ring());
}

/// What a read leads to. Nothing is read of nothing; a signal ends the call with
/// a restart; an empty FIFO fails at once or waits, as the file says; and
/// otherwise the oldest bytes are copied, up to the end of the storage.
pub proof fn law_read_is_decided(
    file: &OpenFile,
    len: usize,
    nonblocking: bool,
    interrupted: bool,
    result: Result<Transfer, Errno>,
)
    requires
        file.wf(),
        call_ensures(OpenFile::read_iter, (file, len, nonblocking, interrupted), result),
    ensures
        len == 0 ==> result is Ok && result->Ok_0 is Nothing,
        len > 0 && interrupted ==> result is Err && result->Err_0 == Errno::ERESTARTSYS,
        len > 0 && !interrupted && file.bytes().len() == 0 && nonblocking ==> result is Err
            && result->Err_0 == Errno::EAGAIN,
        len > 0 && !interrupted && file.bytes().len() == 0 && !nonblocking ==> result is Ok
            && result->Ok_0 is Wait,
        len > 0 && !interrupted && file.bytes().len() > 0 ==> {
            &&& result is Ok && result->Ok_0 is Copy
            &&& ({
                let range = result->Ok_0->Copy_0;
                let count = range.end - range.start;
                &&& 0 < count <= len && count <= file.bytes().len()
                &&& range.start == file.buffer.ring().head()
                &&& range.end <= 4096
                &&& count == len || count == file.bytes().len() || range.end == 4096
                &&& file.buffer.storage().subrange(range.start as int, range.end as int)
                    == file.bytes().take(count)
            })
        },
        Errno::ERESTARTSYS.number() == -512 && Errno::EAGAIN.number() == -11,
{
}

/// What a write leads to: the same with a full FIFO, and the bytes go behind the
/// newest one, up to the end of the free stretch or of the storage.
pub proof fn law_write_is_decided(
    file: &OpenFile,
    len: usize,
    nonblocking: bool,
    interrupted: bool,
    result: Result<Transfer, Errno>,
)
    requires
        file.wf(),
        call_ensures(OpenFile::write_iter, (file, len, nonblocking, interrupted), result),
    ensures
        len == 0 ==> result is Ok && result->Ok_0 is Nothing,
        len > 0 && interrupted ==> result is Err && result->Err_0 == Errno::ERESTARTSYS,
        len > 0 && !interrupted && file.bytes().len() == 4096 && nonblocking ==> result is Err
            && result->Err_0 == Errno::EAGAIN,
        len > 0 && !interrupted && file.bytes().len() == 4096 && !nonblocking ==> result is Ok
            && result->Ok_0 is Wait,
        len > 0 && !interrupted && file.bytes().len() < 4096 ==> {
            &&& result is Ok && result->Ok_0 is Copy
            &&& ({
                let range = result->Ok_0->Copy_0;
                let count = range.end - range.start;
                let head = file.buffer.ring().head();
                &&& 0 < count <= len && count + file.bytes().len() <= 4096
                &&& range.start == (head + file.bytes().len()) % 4096
                &&& range.end <= 4096
                &&& count == len || count + file.bytes().len() == 4096 || range.end == 4096
            })
        },
{
    if file.bytes().len() < 4096 {
        crate::ring::law_slot_wraps(file.buffer.ring(), file.bytes().len() as int);
        crate::ring::law_progress(file.buffer.ring());
    }
}

/// What is read and written passes through the FIFO in order: a read takes as
/// many of the oldest bytes as were copied, a write puts what was copied behind
/// the newest, and neither does anything but report a fault when nothing was.
pub proof fn law_transfers_keep_the_order(
    reading: &mut OpenFile,
    taken: usize,
    read: Result<usize, Errno>,
    writing: &mut OpenFile,
    bytes: &[u8],
    written: Result<usize, Errno>,
    fresh: OpenFile,
    ready: Readiness,
)
    requires
        old(reading).wf(),
        old(writing).wf(),
        taken <= old(reading).readable_len(),
        call_ensures(OpenFile::read_copied, (reading, taken), read),
        call_ensures(OpenFile::write_copied, (writing, bytes), written),
        call_ensures(OpenFile::open, (), fresh),
        call_ensures(OpenFile::poll, (reading,), ready),
    ensures
        old(reading).passes(
            Traffic::Read(old(reading).bytes().take(taken as int)),
            *final(reading),
        ),
        taken > 0 ==> read == Ok::<usize, Errno>(taken),
        taken == 0 ==> read == Err::<usize, Errno>(Errno::EFAULT)
            && *final(reading) == *old(reading),
        old(writing).passes(Traffic::Written(bytes@), *final(writing)),
        bytes@.len() > 0 ==> written is Ok && written->Ok_0 == bytes@.len(),
        bytes@.len() == 0 ==> written == Err::<usize, Errno>(Errno::EFAULT) && *final(writing)
            == *old(writing),
        Errno::EFAULT.number() == -14,
        fresh.bytes().len() == 0,
        fresh.buffer.ring().capacity() == 4096,
        ready.input <==> old(reading).bytes().len() > 0,
        ready.output <==> old(reading).bytes().len() < 4096,
{
}

/// The storage behind a FIFO: what is looked at is the oldest of it, as far as
/// the end of the storage; what is removed is the oldest; and what is inserted
/// goes behind the newest.
pub proof fn law_buffer_is_a_queue(
    capacity: usize,
    fresh: Buffer,
    buffer: &Buffer,
    limit: usize,
    range: Range<usize>,
    seen: &[u8],
    shrinking: &mut Buffer,
    count: usize,
    growing: &mut Buffer,
    bytes: &[u8],
)
    requires
        capacity > 0,
        call_ensures(Buffer::new, (capacity,), fresh),
        buffer.wf(),
        call_ensures(Buffer::readable, (buffer, limit), range),
        call_ensures(Buffer::peek, (buffer, limit), seen),
        old(shrinking).wf(),
        count <= old(shrinking).ring().readable_len(),
        call_ensures(Buffer::remove, (shrinking, count), ()),
        old(growing).wf(),
        bytes@.len() <= old(growing).ring().writable_len(),
        call_ensures(Buffer::insert, (growing, bytes), ()),
    ensures
        fresh.bytes().len() == 0 && fresh.ring().capacity() == capacity,
        seen@.len() == range.end - range.start,
        seen@ == buffer.storage().subrange(range.start as int, range.end as int),
        seen@ == buffer.bytes().take(seen@.len() as int),
        seen@.len() <= limit && seen@.len() <= buffer.bytes().len(),
        seen@.len() == limit || seen@.len() == buffer.bytes().len() || range.end
            == buffer.ring().capacity(),
        old(shrinking).bytes() == old(shrinking).bytes().take(count as int)
            + final(shrinking).bytes(),
        final(growing).bytes().take(old(growing).bytes().len() as int) == old(growing).bytes(),
        final(growing).bytes().skip(old(growing).bytes().len() as int) == bytes@,
{
    assert(old(shrinking).bytes().take(count as int) + old(shrinking).bytes().skip(count as int)
        =~= old(shrinking).bytes());
    assert((old(growing).bytes() + bytes@).take(old(growing).bytes().len() as int)
        =~= old(growing).bytes());
    assert((old(growing).bytes() + bytes@).skip(old(growing).bytes().len() as int) =~= bytes@);
}

} // verus!
