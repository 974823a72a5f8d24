use seify_bladerf::board::bladerf1::BladeRfError;
use seify_bladerf::nios::constants::{
    NIOS_PKT_16X64_MAGIC, NIOS_PKT_32X32_MAGIC, NIOS_PKT_8X16_MAGIC, NIOS_PKT_8X16_TARGET_VCTCXO_DAC,
    NIOS_PKT_8X32_MAGIC, NIOS_PKT_8X32_TARGET_CONTROL, NIOS_PKT_8X64_MAGIC, NIOS_PKT_8X8_MAGIC,
    NIOS_PKT_8X8_TARGET_LMS6, NIOS_PKT_8X8_TARGET_SI5338, NIOS_PKT_FLAG_READ,
    NIOS_PKT_FLAG_SUCCESS, NIOS_PKT_FLAG_WRITE,
};
use seify_bladerf::nios::packet16x64::NiosPacket16x64;
use seify_bladerf::nios::packet32x32::NiosPacket32x32;
use seify_bladerf::nios::packet8x16::NiosPacket8x16;
use seify_bladerf::nios::packet8x32::NiosPacket8x32;
use seify_bladerf::nios::packet8x64::NiosPacket8x64;
use seify_bladerf::nios::packet8x8::NiosPacket8x8;
use seify_bladerf::nios::packet_generic::NiosPacket;
use seify_bladerf::nios::TransportError;

#[test]
fn magic_bytes_of_the_six_classes() {
    assert_eq!(NIOS_PKT_8X8_MAGIC, 0x41);
    assert_eq!(NIOS_PKT_8X16_MAGIC, 0x42);
    assert_eq!(NIOS_PKT_8X32_MAGIC, 0x43);
    assert_eq!(NIOS_PKT_8X64_MAGIC, 0x44);
    assert_eq!(NIOS_PKT_16X64_MAGIC, 0x45);
    assert_eq!(NIOS_PKT_32X32_MAGIC, 0x4B);
}

#[test]
fn build_8x8_lays_out_the_frame() {
    let frame = NiosPacket8x8::build(NIOS_PKT_8X8_TARGET_SI5338, NIOS_PKT_FLAG_WRITE, 0x4b, 0x66);
    assert_eq!(frame, vec![0x41, 0x01, 0x01, 0x00, 0x4b, 0x66, 0, 0, 0, 0, 0, 0, 0, 0, 0, 0]);
}

#[test]
fn build_8x16_is_little_endian() {
    let frame = NiosPacket8x16::build(NIOS_PKT_8X16_TARGET_VCTCXO_DAC, NIOS_PKT_FLAG_WRITE, 0x08, 0x1234);
    assert_eq!(frame, vec![0x42, 0x00, 0x01, 0x00, 0x08, 0x34, 0x12, 0, 0, 0, 0, 0, 0, 0, 0, 0]);
}

#[test]
fn build_8x32_is_little_endian() {
    let frame = NiosPacket8x32::build(NIOS_PKT_8X32_TARGET_CONTROL, NIOS_PKT_FLAG_READ, 0x00, 0xDEADBEEF);
    assert_eq!(frame, vec![0x43, 0x01, 0x00, 0x00, 0x00, 0xEF, 0xBE, 0xAD, 0xDE, 0, 0, 0, 0, 0, 0, 0]);
}

#[test]
fn build_8x64_is_little_endian() {
    let frame = NiosPacket8x64::build(0x00, 0x01, 0x7f, 0x0102030405060708);
    assert_eq!(frame, vec![0x44, 0x00, 0x01, 0x00, 0x7f, 8, 7, 6, 5, 4, 3, 2, 1, 0, 0, 0]);
}

#[test]
fn build_16x64_is_little_endian() {
    let frame = NiosPacket16x64::build(0x01, 0x00, 0xABCD, 0xFFEEDDCCBBAA9988);
    assert_eq!(
        frame,
        vec![0x45, 0x01, 0x00, 0x00, 0xCD, 0xAB, 0x88, 0x99, 0xAA, 0xBB, 0xCC, 0xDD, 0xEE, 0xFF, 0, 0]
    );
}

#[test]
fn build_32x32_fills_the_frame_to_twelve_bytes() {
    let frame = NiosPacket32x32::build(0x03, 0x01, 0x11223344, 0x55667788);
    assert_eq!(
        frame,
        vec![0x4B, 0x03, 0x01, 0x00, 0x44, 0x33, 0x22, 0x11, 0x88, 0x77, 0x66, 0x55, 0, 0, 0, 0]
    );
}

#[test]
fn round_trip_8x8() {
    for target in [0u8, 1, 2, 0x80, 0xff] {
        for flags in [0u8, 1, 2, 3] {
            for (addr, data) in [(0u8, 0u8), (0x4b, 0x66), (0xff, 0xff), (0x2a, 0x80)] {
                let pkt = NiosPacket8x8::parse(NiosPacket8x8::build(target, flags, addr, data)).unwrap();
                assert_eq!(pkt.magic(), NIOS_PKT_8X8_MAGIC);
                assert_eq!(pkt.target_id(), target);
                assert_eq!(pkt.flags(), flags);
                assert_eq!(pkt.addr(), addr);
                assert_eq!(pkt.data(), data);
                assert_eq!(pkt.is_write(), flags & 1 != 0);
                assert_eq!(pkt.success(), flags & 2 != 0);
            }
        }
    }
}

#[test]
fn round_trip_8x16() {
    for data in [0u16, 1, 0x00ff, 0x0100, 0x1234, 0xffff] {
        let pkt = NiosPacket8x16::parse(NiosPacket8x16::build(4, 3, 0x28, data)).unwrap();
        assert_eq!((pkt.target_id(), pkt.flags(), pkt.addr(), pkt.data()), (4, 3, 0x28, data));
    }
}

#[test]
fn round_trip_8x32() {
    for data in [0u32, 0x57, 0x0004_0057, 0x8000_0000, 0xffff_ffff] {
        let pkt = NiosPacket8x32::parse(NiosPacket8x32::build(1, 1, 0xfe, data)).unwrap();
        assert_eq!((pkt.target_id(), pkt.flags(), pkt.addr(), pkt.data()), (1, 1, 0xfe, data));
    }
}

#[test]
fn round_trip_8x64() {
    for data in [0u64, 1, 0x0123_4567_89ab_cdef, u64::MAX] {
        let pkt = NiosPacket8x64::parse(NiosPacket8x64::build(0, 2, 1, data)).unwrap();
        assert_eq!((pkt.target_id(), pkt.flags(), pkt.addr(), pkt.data()), (0, 2, 1, data));
    }
}

#[test]
fn round_trip_16x64() {
    for (addr, data) in [(0u16, 0u64), (0x0100, 1), (0xffff, u64::MAX), (0x1234, 0x8000_0000_0000_0001)] {
        let pkt = NiosPacket16x64::parse(NiosPacket16x64::build(1, 1, addr, data)).unwrap();
        assert_eq!((pkt.target_id(), pkt.flags(), pkt.addr(), pkt.data()), (1, 1, addr, data));
    }
}

#[test]
fn round_trip_32x32() {
    for (addr, data) in [(0u32, 0u32), (1, 0xffff_ffff), (0xffff_ffff, 1), (0x0102_0304, 0x0506_0708)] {
        let pkt = NiosPacket32x32::parse(NiosPacket32x32::build(2, 3, addr, data)).unwrap();
        assert_eq!((pkt.target_id(), pkt.flags(), pkt.addr(), pkt.data()), (2, 3, addr, data));
    }
}

#[test]
fn new_is_all_zero_and_sixteen_bytes() {
    assert_eq!(NiosPacket8x8::new().into_vec(), vec![0u8; 16]);
    assert_eq!(NiosPacket32x32::new().into_vec(), vec![0u8; 16]);
    assert_eq!(NiosPacket::new().into_vec(), vec![0u8; 16]);
}

#[test]
fn set_keeps_the_bytes_it_does_not_own() {
    let mut bytes = vec![0xAAu8; 16];
    bytes[3] = 0x55;
    let mut pkt = NiosPacket8x16::from_vec(bytes);
    pkt.set(2, 1, 0x10, 0xBEEF);
    assert_eq!(
        pkt.into_vec(),
        vec![0x42, 2, 1, 0x55, 0x10, 0xEF, 0xBE, 0xAA, 0xAA, 0xAA, 0xAA, 0xAA, 0xAA, 0xAA, 0xAA, 0xAA]
    );
}

#[test]
fn setters_chain_and_change_one_field_each() {
    let mut pkt = NiosPacket8x8::new();
    pkt.set_magic(0x41).set_target_id(0x01).set_flags(0x01).set_addr(0x24).set_data(0x07);
    assert_eq!(pkt.magic(), 0x41);
    assert_eq!(pkt.target_id(), 0x01);
    assert_eq!(pkt.addr(), 0x24);
    assert_eq!(pkt.data(), 0x07);
    pkt.set_flag(NIOS_PKT_FLAG_SUCCESS);
    assert_eq!(pkt.flags(), 0x03);
    assert!(pkt.success());
    assert!(pkt.is_write());
    pkt.set_data(0xf0);
    assert_eq!(pkt.into_vec(), vec![0x41, 1, 3, 0, 0x24, 0xf0, 0, 0, 0, 0, 0, 0, 0, 0, 0, 0]);
}

#[test]
fn generic_packet_reads_the_header_of_any_class() {
    let frame = NiosPacket8x32::build(1, NIOS_PKT_FLAG_WRITE | NIOS_PKT_FLAG_SUCCESS, 0, 0x57);
    let pkt = NiosPacket::from_vec(frame.clone());
    assert_eq!(pkt.magic(), 0x43);
    assert_eq!(pkt.target_id(), 1);
    assert_eq!(pkt.flags(), 3);
    assert!(pkt.success());
    assert!(pkt.is_write());
    assert_eq!(pkt.into_vec(), frame);
}

#[test]
fn generic_packet_set_and_set_flag() {
    let mut pkt = NiosPacket::new();
    pkt.set(0x45, 0x01, 0x00);
    assert!(!pkt.is_write());
    assert!(!pkt.success());
    pkt.set_flag(0x02).set_target_id(0x07).set_magic(0x44);
    assert_eq!(pkt.into_vec(), vec![0x44, 0x07, 0x02, 0, 0, 0, 0, 0, 0, 0, 0, 0, 0, 0, 0, 0]);
}

#[test]
fn reuse_pads_and_cuts_to_sixteen_bytes() {
    let short = NiosPacket8x8::reuse(vec![0x41, 0x00, 0x02]);
    assert_eq!(short.into_vec(), vec![0x41, 0x00, 0x02, 0, 0, 0, 0, 0, 0, 0, 0, 0, 0, 0, 0, 0]);
    let long: Vec<u8> = (0u8..20).collect();
    let cut = NiosPacket::reuse(long);
    assert_eq!(cut.into_vec(), (0u8..16).collect::<Vec<u8>>());
    let exact = NiosPacket8x8::build(0, 1, 2, 3);
    assert_eq!(NiosPacket8x8::reuse(exact.clone()).into_vec(), exact);
}

#[test]
fn parse_rejects_a_foreign_magic() {
    let frame = NiosPacket8x16::build(0, 0, 0, 0);
    assert!(matches!(NiosPacket8x8::parse(frame), Err(BladeRfError::Protocol)));
    let mut legacy = vec![0u8; 16];
    legacy[0] = 0x4E;
    assert!(matches!(NiosPacket8x32::parse(legacy), Err(BladeRfError::Protocol)));
}

#[test]
fn parse_rejects_a_wrong_length() {
    assert!(matches!(NiosPacket8x8::parse(vec![0x41; 15]), Err(BladeRfError::Protocol)));
    assert!(matches!(NiosPacket8x8::parse(vec![0x41; 17]), Err(BladeRfError::Protocol)));
    assert!(matches!(NiosPacket8x8::parse(Vec::new()), Err(BladeRfError::Protocol)));
    assert!(NiosPacket8x8::parse(vec![0x41; 16]).is_ok());
}

#[test]
fn response_passes_a_transport_error_on() {
    let r = NiosPacket8x8::response(0, Err(TransportError::Timeout));
    assert!(matches!(r, Err(BladeRfError::Transport(TransportError::Timeout))));
    let r = NiosPacket8x16::response(0, Err(TransportError::Stall));
    assert!(matches!(r, Err(BladeRfError::Transport(TransportError::Stall))));
    let r = NiosPacket8x32::response_data(1, Err(TransportError::Io));
    assert_eq!(r, Err(BladeRfError::Transport(TransportError::Io)));
    let r = NiosPacket32x32::response_data(1, Err(TransportError::Disconnected));
    assert_eq!(r, Err(BladeRfError::Transport(TransportError::Disconnected)));
}

#[test]
fn response_data_is_the_data_of_an_accepted_response() {
    let frame = NiosPacket8x32::build(1, 0x02, 0x00, 0x0004_0057);
    assert_eq!(NiosPacket8x32::response_data(1, Ok(frame.clone())), Ok(0x0004_0057));
    assert_eq!(NiosPacket8x32::response_data(0, Ok(frame)), Err(BladeRfError::Protocol));
    let refused = NiosPacket8x16::build(0, 0x01, 0x08, 0x1234);
    assert_eq!(NiosPacket8x16::response_data(0, Ok(refused)), Err(BladeRfError::OperationFailed));
    let accepted = NiosPacket8x16::build(0, 0x03, 0x08, 0x1234);
    assert_eq!(NiosPacket8x16::response_data(0, Ok(accepted)), Ok(0x1234));
}

#[test]
fn response_with_success_bit_clear_is_a_failed_operation() {
    let frame = NiosPacket8x8::build(NIOS_PKT_8X8_TARGET_LMS6, NIOS_PKT_FLAG_WRITE, 0x05, 0x3e);
    let r = NiosPacket8x8::response(NIOS_PKT_8X8_TARGET_LMS6, Ok(frame));
    assert!(matches!(r, Err(BladeRfError::OperationFailed)));
}

#[test]
fn response_from_another_target_is_a_protocol_violation() {
    let frame = NiosPacket8x8::build(NIOS_PKT_8X8_TARGET_SI5338, 0x03, 0x05, 0x3e);
    let r = NiosPacket8x8::response(NIOS_PKT_8X8_TARGET_LMS6, Ok(frame));
    assert!(matches!(r, Err(BladeRfError::Protocol)));
}

#[test]
fn response_of_the_wrong_class_is_a_protocol_violation_even_without_success() {
    let frame = NiosPacket8x16::build(0, 0, 0, 0);
    assert!(matches!(NiosPacket8x8::response(0, Ok(frame)), Err(BladeRfError::Protocol)));
    assert!(matches!(NiosPacket8x8::response(0, Ok(vec![0x41, 0, 2])), Err(BladeRfError::Protocol)));
}

#[test]
fn response_with_success_carries_the_data() {
    let frame = NiosPacket8x8::build(NIOS_PKT_8X8_TARGET_LMS6, NIOS_PKT_FLAG_SUCCESS, 0x2a, 0x80);
    let pkt = NiosPacket8x8::response(NIOS_PKT_8X8_TARGET_LMS6, Ok(frame)).unwrap();
    assert_eq!(pkt.addr(), 0x2a);
    assert_eq!(pkt.data(), 0x80);
}
