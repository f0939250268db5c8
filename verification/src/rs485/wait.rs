//! Waiting for a descriptor until a deadline.

use vstd::prelude::*;
use crate::error::{invalid, Error, ErrorKind};

verus! {

/// There is data to read.
pub const POLLIN: i16 = 0x01;

/// Writing will not block.
pub const POLLOUT: i16 = 0x04;

/// The device reported an error.
pub const POLLERR: i16 = 0x08;

/// The device hung up.
pub const POLLHUP: i16 = 0x10;

/// The descriptor is not open.
pub const POLLNVAL: i16 = 0x20;

/// Nanoseconds of a millisecond.
pub const MILLISECOND: u64 = 1_000_000;

/// The deadline that lies `timeout` after `now`.
pub fn deadline(now: u64, timeout: u64) -> (result: Result<u64, Error>)
    ensures
        match result {
            Ok(deadline) => deadline == now + timeout,
            Err(error) => now + timeout > u64::MAX && error.is(
                ErrorKind::InvalidInput,
                "timeout is too large"@,
            ),
        },
{
    match now.checked_add(timeout) {
        Some(deadline) => Ok(deadline),
        None => Err(invalid("timeout is too large")),
    }
}

/// How long a poll may take: the remaining time in milliseconds, and one more
/// so that it does not end early.
pub open spec fn poll_millis(remaining: int) -> int {
    let millis = remaining / MILLISECOND as int + 1;
    if millis > i32::MAX {
        i32::MAX as int
    } else {
        millis
    }
}

/// Waits for a descriptor without ever extending the deadline: how many
/// milliseconds the next poll may take, if the deadline has not passed.
pub fn wait_ready(now: u64, deadline: u64) -> (result: Result<i32, Error>)
    ensures
        match result {
            Ok(millis) => now <= deadline && millis == poll_millis(deadline - now),
            Err(error) => now > deadline && error.is(
                ErrorKind::TimedOut,
                "I/O deadline expired"@,
            ),
        },
{
    if now > deadline {
        return Err(Error::new(ErrorKind::TimedOut, "I/O deadline expired"));
    }
    let millis: u64 = (deadline - now) / MILLISECOND + 1;
    if millis > i32::MAX as u64 {
        Ok(i32::MAX)
    } else {
        Ok(millis as i32)
    }
}

/// What a poll came back with.
#[derive(Debug)]
pub enum Polled {
    /// These events.
    Events(i16),
    /// Nothing, within its time.
    Nothing,
    /// A signal came first.
    Interrupted,
    /// The call failed.
    Failed(Error),
}

/// The poll shows that the descriptor has one of `events`.
pub open spec fn shows(polled: Polled, events: i16) -> bool {
    match polled {
        Polled::Events(seen) => seen & POLLNVAL == 0 && seen & events != 0,
        _ => false,
    }
}

/// The poll leaves the wait where it was.
pub open spec fn shows_nothing(polled: Polled, events: i16) -> bool {
    match polled {
        Polled::Events(seen) => seen & POLLNVAL == 0 && seen & events == 0 && seen & (POLLHUP
            | POLLERR) == 0,
        Polled::Nothing => true,
        Polled::Interrupted => true,
        Polled::Failed(_) => false,
    }
}

/// The poll ends the wait with this error. Readable bytes can still be drained
/// when a hangup arrives together with them.
pub open spec fn shows_failure(polled: Polled, events: i16, error: Error) -> bool {
    match polled {
        Polled::Events(seen) => if seen & POLLNVAL != 0 {
            error.is(ErrorKind::InvalidInput, "invalid descriptor"@)
        } else {
            &&& seen & events == 0
            &&& seen & (POLLHUP | POLLERR) != 0
            &&& error.is(ErrorKind::BrokenPipe, "device disconnected"@)
        },
        Polled::Failed(failure) => error == failure,
        _ => false,
    }
}

/// Judges a poll for `events`: whether the descriptor is ready, or the wait
/// goes on.
pub fn poll_ready(polled: Polled, events: i16) -> (result: Result<bool, Error>)
    ensures
        match result {
            Ok(ready) => if ready {
                shows(polled, events)
            } else {
                shows_nothing(polled, events)
            },
            Err(error) => shows_failure(polled, events, error),
        },
{
    match polled {
        Polled::Events(seen) => {
            if seen & POLLNVAL != 0 {
                return Err(invalid("invalid descriptor"));
            }
            if seen & events != 0 {
                return Ok(true);
            }
            if seen & (POLLHUP | POLLERR) != 0 {
                return Err(Error::new(ErrorKind::BrokenPipe, "device disconnected"));
            }
            Ok(false)
        },
        Polled::Nothing => Ok(false),
        Polled::Interrupted => Ok(false),
        Polled::Failed(error) => Err(error),
    }
}

// ---------------------------------------------------------------------------
// Laws
// ---------------------------------------------------------------------------

/// A poll outlasts the deadline by at most a millisecond; and one that takes
/// all its time leaves none, unless the deadline is further away than a single
/// poll can wait.
pub proof fn law_poll_ends_with_the_deadline(now: u64, deadline: u64)
    requires
        now <= deadline,
    ensures
        1 <= poll_millis(deadline - now) <= i32::MAX,
        now + poll_millis(deadline - now) * MILLISECOND <= deadline + MILLISECOND,
        poll_millis(deadline - now) < i32::MAX ==> now + poll_millis(deadline - now) * MILLISECOND
            > deadline,
{
}

/// Every poll leads to exactly one verdict.
pub proof fn law_poll_is_judged_once(polled: Polled, events: i16, error: Error)
    ensures
        shows(polled, events) ==> !shows_nothing(polled, events) && !shows_failure(
            polled,
            events,
            error,
        ),
        shows_nothing(polled, events) ==> !shows_failure(polled, events, error),
{
}

/// A deadline lies its timeout after now, or does not exist; a wait has time
/// exactly until its deadline; and the poll takes what is left of it, in whole
/// milliseconds and rounded up beyond it, as far as a poll can last.
pub proof fn law_deadlines(
    now: u64,
    timeout: u64,
    begun: Result<u64, Error>,
    deadline: u64,
    wait: Result<i32, Error>,
)
    requires
        call_ensures(self::deadline, (now, timeout), begun),
        call_ensures(wait_ready, (now, deadline), wait),
    ensures
        begun is Ok <==> now + timeout <= 0xffff_ffff_ffff_ffff,
        begun is Ok ==> begun->Ok_0 - now == timeout,
        begun is Err ==> begun->Err_0.kind == ErrorKind::InvalidInput
            && begun->Err_0.message@ == "timeout is too large"@,
        wait is Ok <==> now <= deadline,
        wait is Ok ==> 1 <= wait->Ok_0 <= 0x7fff_ffff,
        wait is Ok ==> now + (wait->Ok_0 - 1) * 1_000_000 <= deadline,
        wait is Ok && wait->Ok_0 < 0x7fff_ffff ==> deadline < now + wait->Ok_0 * 1_000_000,
        wait is Err ==> wait->Err_0.kind == ErrorKind::TimedOut && wait->Err_0.message@
            == "I/O deadline expired"@,
{
}

/// How a poll is judged. A descriptor that is not open is an error whatever else
/// is reported; an event that was asked for makes it ready, even with a hangup;
/// a hangup or an error without one is a disconnection; and nothing of this, no
/// event at all or a signal let the wait go on. A poll that failed is an error.
pub proof fn law_poll_verdict(polled: Polled, events: i16, result: Result<bool, Error>)
    requires
        call_ensures(poll_ready, (polled, events), result),
    ensures
        match polled {
            Polled::Events(seen) => {
                &&& seen & 0x20 != 0 ==> result is Err && result->Err_0.kind
                    == ErrorKind::InvalidInput && result->Err_0.message@ == "invalid descriptor"@
                &&& seen & 0x20 == 0 && seen & events != 0 ==> result == Ok::<bool, Error>(true)
                &&& seen & 0x20 == 0 && seen & events == 0 && seen & (0x10i16 | 0x08i16) != 0
                    ==> result is Err && result->Err_0.kind == ErrorKind::BrokenPipe
                    && result->Err_0.message@ == "device disconnected"@
                &&& seen & 0x20 == 0 && seen & events == 0 && seen & (0x10i16 | 0x08i16) == 0
                    ==> result == Ok::<bool, Error>(false)
            },
            Polled::Nothing => result == Ok::<bool, Error>(false),
            Polled::Interrupted => result == Ok::<bool, Error>(false),
            Polled::Failed(error) => result == Err::<bool, Error>(error),
        },
{
}

} // verus!
