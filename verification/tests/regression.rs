use uart_stack::chardev::{OpenFile, Transfer};
use uart_stack::errno::Errno;
use uart_stack::error::{Error, ErrorKind};
use uart_stack::rs485::regression::{
    pattern, Check, CheckReply, Regression, EAGAIN, EFAULT, EPOLLIN, ESPIPE, READ_LEN,
};
use uart_stack::rs485::wait::{POLLIN, POLLOUT};

fn os<T>(number: i32) -> Result<T, Error> {
    Err(Error::new(ErrorKind::Os(number), "os error"))
}

fn failed<T>(error: Errno) -> Result<T, Error> {
    os(-error.to_errno())
}

fn read(file: &mut OpenFile, len: usize) -> CheckReply {
    CheckReply::Data(match file.read_iter(len, true, false) {
        Ok(Transfer::Copy(range)) => {
            let bytes = file.buffer.peek(len).to_vec();
            assert_eq!(file.read_copied(range.len()).unwrap(), bytes.len());
            Ok(bytes)
        }
        Ok(_) => Ok(Vec::new()),
        Err(error) => failed(error),
    })
}

fn write(file: &mut OpenFile, data: &[u8]) -> CheckReply {
    CheckReply::Moved(match file.write_iter(data.len(), true, false) {
        Ok(Transfer::Copy(range)) => Ok(file.write_copied(&data[..range.len()]).unwrap()),
        Ok(_) => Ok(0),
        Err(error) => failed(error),
    })
}

fn events(file: &OpenFile) -> i16 {
    let ready = file.poll();
    (if ready.input { POLLIN } else { 0 }) | (if ready.output { POLLOUT } else { 0 })
}

fn store(file: &mut OpenFile, byte: u8) -> CheckReply {
    let _ = write(file, &[byte]);
    CheckReply::Finished(Ok(()))
}

fn reply(check: Check, file: &mut OpenFile, other: &mut OpenFile) -> CheckReply {
    match check {
        Check::EmptyRead | Check::ReadKept | Check::ReadOwn | Check::ReadWatched => {
            read(file, check.room())
        }
        Check::EmptyPoll | Check::FullPoll => CheckReply::Ready(Ok(events(file))),
        Check::ZeroRead => read(file, 0),
        Check::ZeroWrite => write(file, &[]),
        Check::PositionedWrite => CheckReply::Moved(os(ESPIPE)),
        Check::Fill | Check::WrapWrite => write(file, &pattern()),
        Check::PartialRead | Check::Drain => read(file, READ_LEN),
        Check::FaultyWrite => CheckReply::Moved(failed(file.write_copied(&[]).unwrap_err())),
        Check::FaultyRead => CheckReply::Data(failed(file.read_copied(0).unwrap_err())),
        Check::WriteKept => store(file, b'Z'),
        Check::WriteOwn => store(file, b'A'),
        Check::WriteWatched => store(file, b'E'),
        Check::ReadIndependent => read(other, 1),
        Check::Wake => CheckReply::Data(Ok(b"wake".to_vec())),
        Check::AwaitEvent => CheckReply::Events { count: 1, events: EPOLLIN },
        _ => CheckReply::Finished(Ok(())),
    }
}

#[test]
fn the_character_device_passes_its_regression_test() {
    let mut regression = Regression::new();
    let (mut file, mut other) = (OpenFile::open(), OpenFile::open());
    let mut checks = 0;
    while regression.check != Check::Done {
        let answer = reply(regression.check, &mut file, &mut other);
        regression.resume(answer).unwrap();
        checks += 1;
    }
    assert!(checks > 30);
    assert_eq!(EFAULT, 14);
    assert_eq!(EAGAIN, 11);
}

#[test]
fn checks_say_what_they_need() {
    assert_eq!(Check::Wake.limit_millis(), Some(2000));
    assert_eq!(Check::AwaitEvent.limit_millis(), Some(1000));
    assert_eq!(Check::Drain.limit_millis(), None);
    assert_eq!((Check::EmptyPoll.events(), Check::FullPoll.events()), (POLLIN, POLLOUT));
    assert_eq!(Check::Open.events(), 0);
    assert_eq!(Check::PositionedWrite.data(), b"x");
    assert_eq!((Check::Fill.data(), Check::WrapWrite.data()), (pattern(), pattern()));
    assert_eq!(Check::WriteKept.data(), b"Z");
    assert_eq!(Check::WriteOwn.data(), b"A");
    assert_eq!(Check::Wake.data(), b"wake");
    assert_eq!(Check::WriteWatched.data(), b"E");
    assert!(Check::ZeroWrite.data().is_empty());
    assert_eq!((Check::ZeroRead.room(), Check::ReadOwn.room()), (0, 1));
    assert_eq!((Check::Wake.room(), Check::Drain.room()), (4, READ_LEN));
}

#[test]
fn pattern_counts_up() {
    let bytes = pattern();
    assert_eq!(bytes.len(), 511);
    assert_eq!((bytes[0], bytes[255], bytes[256], bytes[510]), (0, 255, 0, 254));
}

/// Runs the test on a good device up to `at`, and hands it `answer` there.
fn spoil(at: Check, answer: CheckReply) -> Error {
    let mut regression = Regression::new();
    let (mut file, mut other) = (OpenFile::open(), OpenFile::open());
    while regression.check != at {
        let good = reply(regression.check, &mut file, &mut other);
        regression.resume(good).unwrap();
    }
    let error = regression.resume(answer).unwrap_err();
    assert_eq!(regression.check, Check::Failed);
    error
}

fn data(bytes: &[u8]) -> CheckReply {
    CheckReply::Data(Ok(bytes.to_vec()))
}

#[test]
fn each_defect_of_a_device_is_named() {
    let message = |at: Check, answer: CheckReply| {
        let error = spoil(at, answer);
        assert_eq!(error.kind, ErrorKind::Other);
        error.message
    };
    let moved = |count: usize| CheckReply::Moved(Ok(count));
    assert_eq!(message(Check::EmptyRead, data(b"x")), "empty FIFO must return EAGAIN");
    let wrong = CheckReply::Data(os(5));
    assert_eq!(message(Check::EmptyRead, wrong), "empty FIFO must return EAGAIN");
    let ready = CheckReply::Ready(Ok(POLLIN));
    assert_eq!(message(Check::EmptyPoll, ready), "empty FIFO reported readable");
    assert_eq!(message(Check::ZeroRead, data(b"x")), "zero-length I/O failed");
    assert_eq!(message(Check::ZeroWrite, moved(1)), "zero-length I/O failed");
    assert_eq!(message(Check::PositionedWrite, moved(1)), "stream accepted positioned I/O");
    let full = CheckReply::Moved(os(EAGAIN));
    assert_eq!(message(Check::Fill, full), "FIFO capacity is not 4096");
    let ready = CheckReply::Ready(Ok(POLLIN | POLLOUT));
    assert_eq!(message(Check::FullPoll, ready), "full FIFO reported writable");
    assert_eq!(message(Check::PartialRead, data(&[0, 2])), "data mismatch before wrap");
    assert_eq!(message(Check::Drain, data(&[])), "unexpected FIFO EOF");
    assert_eq!(message(Check::Drain, data(&[9])), "FIFO wrap corrupted bytes");
    assert_eq!(
        message(Check::FaultyWrite, moved(1)),
        "invalid write buffer did not return EFAULT"
    );
    assert_eq!(
        message(Check::FaultyRead, data(b"Z")),
        "invalid read buffer did not return EFAULT"
    );
    assert_eq!(message(Check::ReadKept, data(b"Y")), "read fault consumed data");
    assert_eq!(message(Check::ReadIndependent, data(b"A")), "independent opens share data");
    assert_eq!(message(Check::Wake, data(b"woke")), "poll wakeup payload mismatch");
    let none = CheckReply::Events { count: 0, events: EPOLLIN };
    assert_eq!(message(Check::AwaitEvent, none), "epoll failed to report input");
    assert_eq!(message(Check::ReadWatched, data(b"F")), "epoll payload mismatch");
}

#[test]
fn failed_actions_end_the_regression_test() {
    let error = spoil(Check::Fill, CheckReply::Moved(Ok(0)));
    assert_eq!(error.kind, ErrorKind::WriteZero);
    let error = spoil(Check::Fill, CheckReply::Moved(os(5)));
    assert_eq!(error.kind, ErrorKind::Os(5));
    let error = spoil(Check::Open, CheckReply::Finished(os(2)));
    assert_eq!(error.kind, ErrorKind::Os(2));
    let error = spoil(Check::Drain, CheckReply::Data(os(EAGAIN)));
    assert_eq!(error.kind, ErrorKind::Os(EAGAIN));
}

#[test]
fn device_without_a_bound_is_noticed() {
    let mut regression = Regression::new();
    let (mut file, mut other) = (OpenFile::open(), OpenFile::open());
    while regression.check != Check::Fill {
        let good = reply(regression.check, &mut file, &mut other);
        regression.resume(good).unwrap();
    }
    for _ in 0..8 {
        regression.resume(CheckReply::Moved(Ok(511))).unwrap();
    }
    let error = regression.resume(CheckReply::Moved(Ok(511))).unwrap_err();
    assert_eq!(error.message, "FIFO exceeded its capacity");
}
