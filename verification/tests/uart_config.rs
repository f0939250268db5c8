use uart_stack::dw_uart::config::{baud_clock, divisor, line_control, receive_status};

#[test]
fn fractional_rates_and_rounding_carry() {
    for rate in [
        9600, 19200, 38400, 57600, 115200, 230400, 460800, 921600, 1500000,
    ] {
        let d = divisor(24_000_000, rate, 6).unwrap();
        assert!(d.integer > 0 && d.fraction < 64);
        assert!(u64::from(d.actual_baud.abs_diff(rate)) * 100 <= u64::from(rate) * 2);
    }
    let d = divisor(24_000_000, 750_001, 6).unwrap();
    assert_eq!((d.integer, d.fraction), (2, 0));
    assert!(divisor(24_000_000, 921600, 0).is_none());
    assert!(divisor(0, 115200, 6).is_none());
    assert!(divisor(24_000_000, 0, 6).is_none());
    assert!(divisor(u32::MAX, 1, 16).is_none());
    assert!(divisor(24_000_000, 115200, 32).is_none());
}

#[test]
fn reference_clock_is_kept_when_it_divides_well() {
    for rate in [9600, 57600, 115200, 1_500_000] {
        assert_eq!(baud_clock(24_000_000, rate, 0), 24_000_000);
    }
    assert_eq!(baud_clock(24_000_000, 230_400, 0), 3_686_400);
    assert_eq!(baud_clock(24_000_000, 921_600, 0), 14_745_600);
    assert_eq!(baud_clock(24_000_000, 921_600, 6), 24_000_000);
    assert_eq!(baud_clock(24_000_000, u32::MAX, 0), u32::MAX);
}

#[test]
fn supported_framing() {
    assert_eq!(line_control(8, false, false, false), 0x03);
    assert_eq!(line_control(7, false, true, false), 0x1a);
    assert_eq!(line_control(8, true, true, true), 0x0f);
    assert_eq!(line_control(5, false, false, false), 0x00);
}

#[test]
fn status_excludes_data_and_transmit_bits() {
    assert_eq!(receive_status(0x61), 0);
    assert_eq!(receive_status(0x1e), 0x0f);
    assert_eq!(receive_status(0x04), 2);
}

#[test]
fn divisor_of_a_standard_rate() {
    let d = divisor(24_000_000, 115_200, 0).unwrap();
    assert_eq!((d.integer, d.fraction, d.actual_baud), (13, 0, 115_385));
    let d = divisor(24_000_000, 115_200, 4).unwrap();
    assert_eq!((d.integer, d.fraction, d.actual_baud), (13, 0, 115_385));
    let d = divisor(24_000_000, 921_600, 6).unwrap();
    assert_eq!((d.integer, d.fraction, d.actual_baud), (1, 40, 923_077));
}

#[test]
fn word_lengths_outside_the_range_are_clamped() {
    assert_eq!(line_control(0, false, false, false), 0x00);
    assert_eq!(line_control(9, false, false, true), 0x03);
    assert_eq!(line_control(6, true, true, false), 0x1d);
}

#[test]
fn chosen_clocks_always_divide() {
    for bits in [0, 4, 16] {
        for rate in [1, 50, 9600, 230_400, 921_600, 3_000_001, 268_435_455] {
            let clock = baud_clock(24_000_000, rate, bits);
            assert!(divisor(clock, rate, bits).is_some());
        }
    }
    assert!(divisor(u32::MAX, u32::MAX, 0).is_none());
}
