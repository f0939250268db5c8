use uart_stack::chardev::{OpenFile, Transfer, CAPACITY};
use uart_stack::errno::Errno;

fn read(file: &mut OpenFile, len: usize) -> Result<Vec<u8>, Errno> {
    match file.read_iter(len, true, false)? {
        Transfer::Nothing => Ok(Vec::new()),
        Transfer::Wait => panic!("nonblocking read waits"),
        Transfer::Copy(range) => {
            let bytes = file.buffer.peek(len).to_vec();
            assert_eq!(bytes.len(), range.len());
            let count = file.read_copied(bytes.len())?;
            assert_eq!(count, bytes.len());
            Ok(bytes)
        }
    }
}

fn write(file: &mut OpenFile, data: &[u8]) -> Result<usize, Errno> {
    match file.write_iter(data.len(), true, false)? {
        Transfer::Nothing => Ok(0),
        Transfer::Wait => panic!("nonblocking write waits"),
        Transfer::Copy(range) => file.write_copied(&data[..range.len()]),
    }
}

#[test]
fn writes_come_back_in_order_across_the_end() {
    let mut file = OpenFile::open();
    let data: Vec<u8> = (0..511).map(|i| i as u8).collect();
    let mut written = Vec::new();
    while let Ok(count) = write(&mut file, &data) {
        written.extend_from_slice(&data[..count]);
    }
    assert_eq!(written.len(), CAPACITY);
    let mut received = read(&mut file, 513).unwrap();
    assert_eq!(received.len(), 513);
    written.extend_from_slice(&data[..write(&mut file, &data).unwrap()]);
    while let Ok(bytes) = read(&mut file, 513) {
        received.extend(bytes);
    }
    assert_eq!(received, written);
}

#[test]
fn empty_and_full_fifos_report_what_would_block() {
    let mut file = OpenFile::open();
    assert_eq!(read(&mut file, 1).unwrap_err(), Errno::EAGAIN);
    assert!(matches!(file.read_iter(1, false, false), Ok(Transfer::Wait)));
    assert_eq!(file.read_iter(1, false, true).err(), Some(Errno::ERESTARTSYS));
    assert_eq!((file.poll().input, file.poll().output), (false, true));
    assert_eq!(write(&mut file, &vec![7; CAPACITY]).unwrap(), CAPACITY);
    assert_eq!(write(&mut file, &[8]).unwrap_err(), Errno::EAGAIN);
    assert!(matches!(file.write_iter(1, false, false), Ok(Transfer::Wait)));
    assert_eq!(file.write_iter(1, false, true).err(), Some(Errno::ERESTARTSYS));
    assert_eq!((file.poll().input, file.poll().output), (true, false));
}

#[test]
fn zero_length_transfers_do_nothing() {
    let mut file = OpenFile::open();
    assert_eq!(read(&mut file, 0).unwrap(), Vec::<u8>::new());
    assert_eq!(write(&mut file, &[]).unwrap(), 0);
}

#[test]
fn faults_lose_no_data() {
    let mut file = OpenFile::open();
    write(&mut file, b"Z").unwrap();
    assert_eq!(file.read_copied(0).unwrap_err(), Errno::EFAULT);
    assert_eq!(file.write_copied(&[]).unwrap_err(), Errno::EFAULT);
    assert_eq!(read(&mut file, 1).unwrap(), b"Z");
}

#[test]
fn opens_are_independent() {
    let mut first = OpenFile::open();
    let mut second = OpenFile::open();
    write(&mut first, b"A").unwrap();
    assert_eq!(read(&mut second, 1).unwrap_err(), Errno::EAGAIN);
    assert_eq!(read(&mut first, 1).unwrap(), b"A");
}

#[test]
fn transfers_stop_at_the_end_of_the_storage() {
    let mut file = OpenFile::open();
    // A fresh FIFO takes everything in one write.
    assert!(matches!(
        file.write_iter(2 * CAPACITY, true, false),
        Ok(Transfer::Copy(range)) if range == (0..CAPACITY)
    ));
    assert_eq!(write(&mut file, &vec![1; 4000]).unwrap(), 4000);
    assert_eq!(read(&mut file, 3990).unwrap().len(), 3990);
    assert_eq!(write(&mut file, &[2; 200]).unwrap(), 96);
    assert_eq!(write(&mut file, &[3; 104]).unwrap(), 104);
    assert_eq!(read(&mut file, 500).unwrap().len(), 106);
    assert_eq!(read(&mut file, 500).unwrap(), vec![3; 104]);
}

#[test]
fn any_series_of_transfers_keeps_the_order() {
    let mut file = OpenFile::open();
    let (mut written, mut seen) = (Vec::new(), Vec::new());
    for round in 0..200usize {
        let data: Vec<u8> = (0..round * 7 % 300).map(|i| (i + round) as u8).collect();
        if let Ok(count) = write(&mut file, &data) {
            written.extend(&data[..count]);
        }
        if let Ok(bytes) = read(&mut file, round * 11 % 260) {
            seen.extend(bytes);
        }
        assert_eq!(seen, written[..seen.len()]);
    }
    while let Ok(bytes) = read(&mut file, 100) {
        seen.extend(bytes);
    }
    assert!(seen.len() > 2 * CAPACITY);
    assert_eq!(seen, written);
}
