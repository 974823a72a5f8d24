use seify_bladerf::backend::UsbSpeed;
use seify_bladerf::bladerf::{BladerfRationalRate, DescriptorTypes, StringDescriptors};
use seify_bladerf::hardware::lms6002d::{LmsFreq, UINT_BANDWIDTHS};
use seify_bladerf::hardware::si5338::Si5338Multisynth;

#[test]
fn descriptor_indices_start_at_one() {
    assert_eq!(StringDescriptors::Manufacturer.into(), 1);
    assert_eq!(StringDescriptors::Product.into(), 2);
    assert_eq!(StringDescriptors::Serial.into(), 3);
    assert_eq!(StringDescriptors::Fx3Firmware.into(), 4);
}

#[test]
fn descriptor_types_of_the_usb_standard() {
    assert_eq!(DescriptorTypes::Device.into(), 0x01);
    assert_eq!(DescriptorTypes::Configuration.into(), 0x02);
    assert_eq!(DescriptorTypes::String.into(), 0x03);
    assert_eq!(DescriptorTypes::Default.into(), 0x06);
    assert_eq!(DescriptorTypes::BOS.into(), 0x0f);
}

#[test]
fn defaults_are_all_zero() {
    assert_eq!(BladerfRationalRate::default(), BladerfRationalRate { integer: 0, num: 0, den: 0 });
    let f = LmsFreq::default();
    assert_eq!((f.freqsel, f.vcocap, f.nint, f.nfrac, f.flags, f.xb_gpio, f.x, f.vcocap_result), (0, 0, 0, 0, 0, 0, 0, 0));
    let ms = Si5338Multisynth::default();
    assert_eq!((ms.index, ms.base, ms.enable, ms.a, ms.b, ms.c, ms.r), (0, 0, 0, 0, 0, 0, 0));
    assert_eq!((ms.p1, ms.p2, ms.p3), (0, 0, 0));
    assert_eq!(ms.regs, [0u8; 10]);
    assert_eq!(ms.requested, BladerfRationalRate::default());
    assert_eq!(ms.actual, BladerfRationalRate::default());
}

#[test]
fn speeds_order_from_low_to_super_plus() {
    assert!(UsbSpeed::Low < UsbSpeed::Full);
    assert!(UsbSpeed::Full < UsbSpeed::High);
    assert!(UsbSpeed::High < UsbSpeed::Super);
    assert!(UsbSpeed::Super < UsbSpeed::SuperPlus);
}

#[test]
fn bandwidth_table_falls_from_28_to_1_5_megahertz() {
    assert_eq!(UINT_BANDWIDTHS[0], 28_000_000);
    assert_eq!(UINT_BANDWIDTHS[5], 8_750_000);
    assert_eq!(UINT_BANDWIDTHS[15], 1_500_000);
    for i in 0..15 {
        assert!(UINT_BANDWIDTHS[i] > UINT_BANDWIDTHS[i + 1]);
    }
}
