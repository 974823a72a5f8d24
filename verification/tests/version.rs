use seify_bladerf::backend::UsbVersion;

#[test]
fn from_bcd_usb_2_0() {
    let v = UsbVersion::from_bcd(0x0200);
    assert_eq!((v.major(), v.minor(), v.sub_minor()), (2, 0, 0));
}

#[test]
fn from_bcd_usb_1_1() {
    let v = UsbVersion::from_bcd(0x0110);
    assert_eq!((v.major(), v.minor(), v.sub_minor()), (1, 1, 0));
}

#[test]
fn from_bcd_two_digit_major() {
    let v = UsbVersion::from_bcd(0x1234);
    assert_eq!((v.major(), v.minor(), v.sub_minor()), (12, 3, 4));
    let top = UsbVersion::from_bcd(0xFFFF);
    assert_eq!((top.major(), top.minor(), top.sub_minor()), (165, 15, 15));
}

#[test]
fn versions_order_by_major_then_minor() {
    assert!(UsbVersion::from_bcd(0x0200) > UsbVersion::from_bcd(0x0110));
    assert!(UsbVersion::from_bcd(0x0210) > UsbVersion::from_bcd(0x0201));
    assert_eq!(UsbVersion::from_bcd(0x0300), UsbVersion { major: 3, minor: 0, sub_minor: 0 });
}
