use std::collections::VecDeque;
use uart_stack::ring::Ring;

#[test]
fn wraparound_and_partial_copies_match_reference_queue() {
    for capacity in [1, 2, 7, 64, 4096] {
        let mut ring = Ring::new(capacity);
        let mut data = vec![0u8; capacity];
        let mut reference = VecDeque::new();
        let mut seed = 7u32;
        for _ in 0..20_000 {
            seed = seed.wrapping_mul(1664525).wrapping_add(1013904223);
            let limit = (seed as usize >> 8) % 100;
            if seed & 1 == 0 {
                let range = ring.writable(limit);
                // Simulate short copy_from_user(), including a zero-byte fault.
                let count = if range.is_empty() {
                    0
                } else {
                    (seed as usize >> 16) % (range.len() + 1)
                };
                for (i, byte) in data.iter_mut().enumerate().skip(range.start).take(count) {
                    *byte = seed.wrapping_add(i as u32) as u8;
                    reference.push_back(*byte);
                }
                ring.produce(count);
            } else {
                let range = ring.readable(limit);
                for byte in &data[range.clone()] {
                    assert_eq!(reference.pop_front(), Some(*byte));
                }
                ring.consume(range.len());
            }
            assert_eq!(ring.is_empty(), reference.is_empty());
            assert_eq!(ring.is_full(), reference.len() == capacity);
        }
    }
}

#[test]
fn full_empty_and_zero_length_operations() {
    let mut ring = Ring::new(4);
    assert!(ring.is_empty());
    assert_eq!(ring.writable(0), 0..0);
    ring.produce(4);
    assert!(ring.is_full());
    assert!(ring.writable(1).is_empty());
    ring.consume(3);
    assert_eq!(ring.writable(4), 0..3);
    ring.produce(3);
    assert_eq!(ring.readable(4), 3..4);
    ring.consume(1);
    assert_eq!(ring.readable(4), 0..3);
}

#[test]
fn a_ring_of_one_byte_alternates() {
    let mut ring = Ring::new(1);
    for _ in 0..3 {
        assert_eq!(ring.writable(9), 0..1);
        ring.produce(1);
        assert_eq!(ring.readable(9), 0..1);
        ring.consume(1);
        assert!(ring.is_empty());
    }
}
