use usbapi::endpoint::Endpoint;
use usbapi::error::{UsbError, EAGAIN};
use usbapi::{TimeoutMillis, ENDPOINT_IN, ENDPOINT_OUT};

#[test]
fn bulk_numbers_classify_by_direction() {
    for n in 1u8..=15 {
        let input = Endpoint::bulk_in(n);
        assert!(input.is_bulk_in());
        assert!(!input.is_bulk_out());
        assert!(!input.is_control());
        assert!(input.is_bulk());
        assert_eq!(input.address(), 0x80 | n);

        let output = Endpoint::bulk_out(n);
        assert!(output.is_bulk_out());
        assert!(!output.is_bulk_in());
        assert!(!output.is_control());
        assert!(output.is_bulk());
        assert_eq!(output.address(), n);
    }
}

#[test]
fn address_zero_is_control_only() {
    let ep = Endpoint::new(0);
    assert!(ep.is_control());
    assert!(!ep.is_bulk_in());
    assert!(!ep.is_bulk_out());
    assert!(!ep.is_bulk());
}

#[test]
fn constructors_keep_the_low_four_bits() {
    assert_eq!(Endpoint::bulk_in(0x31).address(), 0x81);
    assert_eq!(Endpoint::bulk_out(0xF2).address(), 0x02);
    assert_eq!(Endpoint::new(0xF2).address(), 0xF2);
    assert_eq!(Endpoint::bulk_in(0x10).address(), 0x80);
    assert_eq!(Endpoint::bulk_out(0x10).address(), 0x00);
}

#[test]
fn number_zero_is_never_bulk() {
    let ep = Endpoint::new(0x80);
    assert!(!ep.is_bulk_in());
    assert!(!ep.is_bulk_out());
    assert!(!ep.is_control());
    assert!(Endpoint::bulk_out(0x10).is_control());
}

#[test]
fn direction_is_bit_seven_alone() {
    let out = Endpoint::new(0x11);
    assert!(out.is_bulk_out());
    assert!(!out.is_bulk_in());
    let input = Endpoint::new(0x91);
    assert!(input.is_bulk_in());
    assert!(!input.is_bulk_out());
}

#[test]
fn endpoint_labels() {
    assert_eq!(Endpoint::new(0x81).label(), "Bulk In");
    assert_eq!(Endpoint::new(0x01).label(), "Bulk Out");
    assert_eq!(Endpoint::new(0x00).label(), "Control");
    assert_eq!(Endpoint::new(0x80).label(), "?TBD?");
}

#[test]
fn endpoint_into_byte_and_equality() {
    let byte: u8 = Endpoint::bulk_in(3).into();
    assert_eq!(byte, 0x83);
    assert_eq!(u8::from(Endpoint::new(7)), 7);
    assert!(Endpoint::new(0x81) == Endpoint::bulk_in(1));
    assert!(Endpoint::new(0x01) != Endpoint::bulk_in(1));
    assert_eq!(ENDPOINT_IN, 0x80);
    assert_eq!(ENDPOINT_OUT, 0x00);
}

#[test]
fn errno_classification() {
    assert_eq!(UsbError::from_errno(EAGAIN), UsbError::WouldBlock);
    assert_eq!(UsbError::from_errno(11), UsbError::WouldBlock);
    assert_eq!(UsbError::from_errno(12), UsbError::IoctlFailed(12));
    assert_eq!(UsbError::from_errno(1), UsbError::IoctlFailed(1));
    assert_eq!(UsbError::from_errno(19), UsbError::IoctlFailed(19));
}

#[test]
fn timeout_from_milliseconds() {
    let t = TimeoutMillis::from(100u32);
    assert_eq!(t.millis(), 100);
    let t: TimeoutMillis = 1.into();
    assert_eq!(t, TimeoutMillis(1));
}

#[test]
fn timeout_from_duration_counts_whole_milliseconds() {
    let t = TimeoutMillis::from(std::time::Duration::from_millis(1500));
    assert_eq!(t.millis(), 1500);
    let t = TimeoutMillis::from(std::time::Duration::from_micros(2999));
    assert_eq!(t.millis(), 2);
    let t = TimeoutMillis::from(std::time::Duration::from_secs(3));
    assert_eq!(t.millis(), 3000);
}

#[test]
fn timeout_from_duration_keeps_the_low_32_bits() {
    let t = TimeoutMillis::from(std::time::Duration::from_millis(0x1_0000_0005));
    assert_eq!(t.millis(), 5);
}

#[test]
fn timeout_expires_at_its_length() {
    let t = TimeoutMillis::from(10u32);
    assert!(!t.expired(0));
    assert!(!t.expired(9_999_999));
    assert!(t.expired(10_000_000));
    assert!(t.expired(10_000_001));
    assert!(TimeoutMillis::from(0u32).expired(0));
    assert!(!TimeoutMillis::from(u32::MAX).expired(4_294_967_294_999_999));
    assert!(TimeoutMillis::from(u32::MAX).expired(4_294_967_295_000_000));
}

#[test]
fn timeout_from_a_wide_count_keeps_the_low_32_bits() {
    assert_eq!(TimeoutMillis::from_millis(0), TimeoutMillis(0));
    assert_eq!(TimeoutMillis::from_millis(4_294_967_295), TimeoutMillis(u32::MAX));
    assert_eq!(TimeoutMillis::from_millis(4_294_967_296), TimeoutMillis(0));
    assert_eq!(TimeoutMillis::from_millis(u128::MAX), TimeoutMillis(u32::MAX));
    assert_eq!(TimeoutMillis::from_millis(0x5_0000_0007), TimeoutMillis(7));
}

#[test]
fn timeout_check_ends_the_wait_in_time() {
    let t = TimeoutMillis::from(10u32);
    assert_eq!(t.check(0), Ok(()));
    assert_eq!(t.check(9_999_999), Ok(()));
    assert_eq!(t.check(10_000_000), Err(UsbError::TimedOut));
    assert_eq!(t.check(u128::MAX), Err(UsbError::TimedOut));
}
