use somfy_rts::discovery::{is_rts_dongle, BAUD_RATE, PRODUCT_ID, VENDOR_ID};
use somfy_rts::range::validate_range;

#[test]
fn dongle_port_is_recognised() {
    assert!(is_rts_dongle("/dev/ttyUSB0", Some((8883, 1551))));
    assert_eq!((VENDOR_ID, PRODUCT_ID, BAUD_RATE), (8883, 1551, 9600));
}

#[test]
fn other_ports_are_not_the_dongle() {
    assert!(!is_rts_dongle("/dev/cu.usbserial", Some((8883, 1551))));
    assert!(!is_rts_dongle("/dev/ttyUSB0", Some((8883, 1552))));
    assert!(!is_rts_dongle("/dev/ttyS0", None));
    assert!(!is_rts_dongle("tt", Some((8883, 1551))));
}

#[test]
fn range_exclusive() {
    assert_eq!(validate_range("3..6"), Ok(vec![3, 4, 5]));
}

#[test]
fn range_inclusive() {
    assert_eq!(validate_range("3..=6"), Ok(vec![3, 4, 5, 6]));
}

#[test]
fn range_inclusive_end_is_capped() {
    let r = validate_range("..=200").unwrap();
    assert_eq!(r, (1..=100).collect::<Vec<u8>>());
}

#[test]
fn range_open_ends() {
    assert_eq!(validate_range("..").unwrap(), (1..100).collect::<Vec<u8>>());
    assert_eq!(validate_range("98..").unwrap(), vec![98, 99]);
    assert_eq!(validate_range("..3").unwrap(), vec![1, 2]);
    assert_eq!(validate_range("+2..=3").unwrap(), vec![2, 3]);
}

#[test]
fn range_empty_when_reversed() {
    assert_eq!(validate_range("7..3"), Ok(vec![]));
}

#[test]
fn range_errors() {
    assert_eq!(validate_range("abc"), Err("`abc` isn't a valid range.".to_string()));
    assert_eq!(validate_range("x..3"), Err("`x` isn't a valid bound.".to_string()));
    assert_eq!(validate_range("1..=").unwrap_err(), "`=` isn't a valid bound.");
    assert_eq!(validate_range("1..=x").unwrap_err(), "`=x` isn't a valid bound.");
    assert_eq!(validate_range("1..300").unwrap_err(), "`300` isn't a valid bound.");
    assert_eq!(validate_range("256..3").unwrap_err(), "`256` isn't a valid bound.");
}
