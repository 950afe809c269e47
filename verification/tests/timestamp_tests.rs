use oandars::u32_to_decimal;
use oandars::Timestamp;

#[test]
fn decimal_rendering_is_exact() {
    assert_eq!(u32_to_decimal(0), "0");
    assert_eq!(u32_to_decimal(7), "7");
    assert_eq!(u32_to_decimal(10), "10");
    assert_eq!(u32_to_decimal(509), "509");
    assert_eq!(u32_to_decimal(u32::MAX), "4294967295");
}

#[test]
fn rfc3339_rendering_is_exact() {
    let t = Timestamp::new(2017, 6, 21, 12, 0, 0).unwrap();
    assert_eq!(t.to_rfc3339(), "2017-06-21T12:00:00+00:00");

    let t = Timestamp::new(999, 12, 1, 3, 59, 9).unwrap();
    assert_eq!(t.to_rfc3339(), "0999-12-01T03:59:09+00:00");
}

#[test]
fn display_rendering_is_exact() {
    let t = Timestamp::new(2017, 6, 22, 0, 0, 0).unwrap();
    assert_eq!(t.to_display_text(), "2017-06-22 00:00:00 UTC");
}

#[test]
fn timestamp_validity_is_checked() {
    assert!(Timestamp::new(2017, 6, 21, 12, 0, 0).is_some());
    assert!(Timestamp::new(2017, 0, 21, 12, 0, 0).is_none());
    assert!(Timestamp::new(2017, 13, 21, 12, 0, 0).is_none());
    assert!(Timestamp::new(2017, 6, 0, 12, 0, 0).is_none());
    assert!(Timestamp::new(2017, 6, 32, 12, 0, 0).is_none());
    assert!(Timestamp::new(2017, 6, 21, 24, 0, 0).is_none());
    assert!(Timestamp::new(2017, 6, 21, 12, 60, 0).is_none());
    assert!(Timestamp::new(2017, 6, 21, 12, 0, 60).is_none());
    assert!(Timestamp::new(10000, 6, 21, 12, 0, 0).is_none());
}

#[test]
fn timestamps_order_chronologically() {
    let a = Timestamp::new(2017, 6, 21, 12, 0, 0).unwrap();
    let b = Timestamp::new(2017, 6, 21, 12, 0, 1).unwrap();
    let c = Timestamp::new(2018, 1, 1, 0, 0, 0).unwrap();
    assert!(a.lt(&b));
    assert!(b.lt(&c));
    assert!(a.lt(&c));
    assert!(!b.lt(&a));
    assert!(!a.lt(&a));
    assert_eq!(a, Timestamp::new(2017, 6, 21, 12, 0, 0).unwrap());
}
