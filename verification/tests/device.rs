use std::cell::RefCell;
use std::rc::Rc;

use seify_bladerf::bladerf::{
    bladerf_channel_rx, bladerf_channel_tx, BladerfGainMode, BladerfLoopback, BladerfRationalRate,
    BLADERF_MODULE_RX, BLADERF_MODULE_TX,
};
use seify_bladerf::board::bladerf1::{BladeRf1, BladeRfError, DeviceSpeed};
use seify_bladerf::hardware::dac161s055::DAC161S055;
use seify_bladerf::hardware::lms6002d::{
    LmsFreq, LMS6002D, LMS_FREQ_FLAGS_FORCE_VCOCAP, VCO_HIGH, VCO_LOW, VCO_NORM,
};
use seify_bladerf::hardware::si5338::{Si5338Multisynth, SI5338};
use seify_bladerf::nios::{Nios, TransportError};

/// What the simulated device does with one exchange.
#[derive(Clone, Copy, PartialEq, Debug)]
enum Fault {
    /// The transport fails.
    Timeout,
    /// The device answers with the success bit clear.
    Refuse,
    /// The device answers with a frame of another class.
    Garble,
}

struct Sim {
    lms: [u8; 128],
    si: [u8; 256],
    gpio: u32,
    dac: Vec<(u8, u16)>,
    /// Codes at which the tuning voltage is normal, for the PLLs at 0x10 and 0x20.
    window: (u8, u8),
    /// When set, every reading of the tuning voltage gives this state.
    stuck: Option<u8>,
    /// Exchange number (from 0) at which a fault occurs, once.
    fault: Option<(usize, Fault)>,
    log: Vec<Vec<u8>>,
}

#[derive(Clone)]
struct SimDevice {
    sim: Rc<RefCell<Sim>>,
}

impl SimDevice {
    fn new() -> Self {
        SimDevice {
            sim: Rc::new(RefCell::new(Sim {
                lms: [0; 128],
                si: [0; 256],
                gpio: 0,
                dac: Vec::new(),
                window: (28, 40),
                stuck: None,
                fault: None,
                log: Vec::new(),
            })),
        }
    }

    fn with_window(low: u8, high: u8) -> Self {
        let dev = Self::new();
        dev.sim.borrow_mut().window = (low, high);
        dev
    }

    fn with_fault(at: usize, fault: Fault) -> Self {
        let dev = Self::new();
        dev.sim.borrow_mut().fault = Some((at, fault));
        dev
    }

    fn exchanges(&self) -> usize {
        self.sim.borrow().log.len()
    }

    fn lms_reg(&self, addr: u8) -> u8 {
        self.sim.borrow().lms[(addr & 0x7f) as usize]
    }

    fn si_reg(&self, addr: u8) -> u8 {
        self.sim.borrow().si[addr as usize]
    }

    /// The codes written to the PLL at `base`, in order.
    fn codes_written(&self, base: u8) -> Vec<u8> {
        self.sim
            .borrow()
            .log
            .iter()
            .filter(|f| f[0] == 0x41 && f[1] == 0x00 && f[2] & 1 == 1 && f[4] == base + 9)
            .map(|f| f[5] & 0x3f)
            .collect()
    }
}

impl Sim {
    fn vtune(&self, base: u8) -> u8 {
        if let Some(state) = self.stuck {
            return state;
        }
        let code = self.lms[(base + 9) as usize] & 0x3f;
        if code < self.window.0 {
            VCO_HIGH
        } else if code > self.window.1 {
            VCO_LOW
        } else {
            VCO_NORM
        }
    }
}

impl Nios for SimDevice {
    fn nios_send(&self, endpoint_in: u8, endpoint_out: u8, pkt: Vec<u8>) -> Result<Vec<u8>, TransportError> {
        assert_eq!(endpoint_in, 0x82);
        assert_eq!(endpoint_out, 0x02);
        assert_eq!(pkt.len(), 16);
        let mut sim = self.sim.borrow_mut();
        let number = sim.log.len();
        sim.log.push(pkt.clone());
        let mut fault = None;
        if let Some((at, what)) = sim.fault {
            if at == number {
                fault = Some(what);
                sim.fault = None;
            }
        }
        if fault == Some(Fault::Timeout) {
            return Err(TransportError::Timeout);
        }
        let mut reply = pkt.clone();
        let write = pkt[2] & 1 == 1;
        match (pkt[0], pkt[1]) {
            (0x41, 0x00) => {
                let addr = (pkt[4] & 0x7f) as usize;
                if write {
                    sim.lms[addr] = pkt[5];
                } else if addr == 0x1a || addr == 0x2a {
                    reply[5] = (sim.vtune(addr as u8 - 10) << 6) | (sim.lms[addr] & 0x3f);
                } else {
                    reply[5] = sim.lms[addr];
                }
            }
            (0x41, 0x01) => {
                let addr = pkt[4] as usize;
                if write {
                    sim.si[addr] = pkt[5];
                } else {
                    reply[5] = sim.si[addr];
                }
            }
            (0x42, 0x00) => {
                let value = u16::from_le_bytes([pkt[5], pkt[6]]);
                sim.dac.push((pkt[4], value));
            }
            (0x43, 0x01) => {
                if write {
                    sim.gpio = u32::from_le_bytes([pkt[5], pkt[6], pkt[7], pkt[8]]);
                } else {
                    reply[5..9].copy_from_slice(&sim.gpio.to_le_bytes());
                }
            }
            _ => panic!("frame for a peripheral that the simulation lacks"),
        }
        match fault {
            Some(Fault::Refuse) => {}
            Some(Fault::Garble) => {
                reply[2] |= 0x02;
                reply[0] = 0x4E;
            }
            _ => reply[2] |= 0x02,
        }
        Ok(reply)
    }
}

fn rate(integer: u64, num: u64, den: u64) -> BladerfRationalRate {
    BladerfRationalRate { integer, num, den }
}

#[test]
fn channels_and_modules() {
    assert_eq!(bladerf_channel_rx(0), BLADERF_MODULE_RX);
    assert_eq!(bladerf_channel_tx(0), BLADERF_MODULE_TX);
    assert_eq!(bladerf_channel_rx(1), 2);
    assert_eq!(bladerf_channel_tx(1), 3);
}

#[test]
fn lms_read_and_write_exchange_one_frame_each() {
    let dev = SimDevice::new();
    let lms = LMS6002D::new(dev.clone());
    assert_eq!(lms.write(0x05, 0x3e), Ok(0x3e));
    assert_eq!(lms.read(0x05), Ok(0x3e));
    assert_eq!(lms.read(0x06), Ok(0x00));
    let log = dev.sim.borrow().log.clone();
    assert_eq!(log.len(), 3);
    assert_eq!(log[0], vec![0x41, 0x00, 0x01, 0x00, 0x05, 0x3e, 0, 0, 0, 0, 0, 0, 0, 0, 0, 0]);
    assert_eq!(log[1], vec![0x41, 0x00, 0x00, 0x00, 0x05, 0x00, 0, 0, 0, 0, 0, 0, 0, 0, 0, 0]);
}

#[test]
fn lms_set_is_a_read_and_a_write() {
    let dev = SimDevice::new();
    let lms = LMS6002D::new(dev.clone());
    lms.write(0x3f, 0x15).unwrap();
    assert_eq!(lms.set(0x3f, 0x80), Ok(()));
    assert_eq!(dev.lms_reg(0x3f), 0x95);
    let log = dev.sim.borrow().log.clone();
    assert_eq!(log.len(), 3);
    assert_eq!(&log[1][..6], &[0x41, 0x00, 0x00, 0x00, 0x3f, 0x00]);
    assert_eq!(&log[2][..6], &[0x41, 0x00, 0x01, 0x00, 0x3f, 0x95]);
}

#[test]
fn a_failed_exchange_is_a_transport_error() {
    let lms = LMS6002D::new(SimDevice::with_fault(0, Fault::Timeout));
    assert_eq!(lms.read(0x05), Err(BladeRfError::Transport(TransportError::Timeout)));
    assert_eq!(lms.read(0x05), Ok(0));
}

#[test]
fn a_clear_success_bit_is_a_failed_operation() {
    let dev = SimDevice::with_fault(1, Fault::Refuse);
    let lms = LMS6002D::new(dev.clone());
    assert_eq!(lms.set(0x3f, 0x80), Err(BladeRfError::OperationFailed));
    assert_eq!(dev.exchanges(), 2);
    let si = SI5338::new(SimDevice::with_fault(0, Fault::Refuse));
    assert_eq!(si.write(36, 1), Err(BladeRfError::OperationFailed));
}

#[test]
fn a_garbled_response_is_a_protocol_violation() {
    let lms = LMS6002D::new(SimDevice::with_fault(0, Fault::Garble));
    assert_eq!(lms.write(0x05, 0x3e), Err(BladeRfError::Protocol));
    let dac = DAC161S055::new(SimDevice::with_fault(1, Fault::Garble));
    assert_eq!(dac.write(7), Err(BladeRfError::Protocol));
}

#[test]
fn get_vtune_reads_the_comparator_of_the_pll() {
    let dev = SimDevice::with_window(30, 36);
    let lms = LMS6002D::new(dev.clone());
    lms.write_vcocap(0x20, 25, 0x80).unwrap();
    assert_eq!(dev.lms_reg(0x29), 0x80 | 25);
    assert_eq!(lms.get_vtune(0x20, 0), Ok(VCO_HIGH));
    lms.write_vcocap(0x20, 30, 0x80).unwrap();
    assert_eq!(lms.get_vtune(0x20, 25), Ok(VCO_NORM));
    lms.write_vcocap(0x20, 37, 0x80).unwrap();
    assert_eq!(lms.get_vtune(0x20, 50), Ok(VCO_LOW));
    assert_eq!(lms.get_vtune(0x10, 0), Ok(VCO_HIGH));
}

#[test]
fn enable_rffe_changes_one_bit() {
    let dev = SimDevice::new();
    let lms = LMS6002D::new(dev.clone());
    lms.write(0x40, 0xf0).unwrap();
    lms.write(0x70, 0xff).unwrap();
    assert_eq!(lms.enable_rffe(BLADERF_MODULE_TX, true), Ok(0xf1));
    assert_eq!(lms.enable_rffe(BLADERF_MODULE_RX, false), Ok(0xfd));
    assert_eq!(dev.lms_reg(0x40), 0xf1);
    assert_eq!(dev.lms_reg(0x70), 0xfd);
}

#[test]
fn config_charge_pumps_sets_three_currents() {
    let dev = SimDevice::new();
    let lms = LMS6002D::new(dev.clone());
    for addr in [0x26u8, 0x27, 0x28] {
        lms.write(addr, 0xff).unwrap();
    }
    lms.config_charge_pumps(BLADERF_MODULE_RX).unwrap();
    assert_eq!((dev.lms_reg(0x26), dev.lms_reg(0x27), dev.lms_reg(0x28)), (0xec, 0xe3, 0xe3));
    lms.config_charge_pumps(BLADERF_MODULE_TX).unwrap();
    assert_eq!((dev.lms_reg(0x16), dev.lms_reg(0x17), dev.lms_reg(0x18)), (0x0c, 0x03, 0x03));
}

#[test]
fn loopback_mode_is_read_from_two_registers() {
    let dev = SimDevice::new();
    let lms = LMS6002D::new(dev.clone());
    assert_eq!(lms.lms_get_loopback_mode(), Ok(BladerfLoopback::BladerfLbNone));
    assert_eq!(lms.is_loopback_enabled(), Ok(false));
    lms.write(0x08, 0x40).unwrap();
    lms.write(0x46, 0x08).unwrap();
    assert_eq!(lms.lms_get_loopback_mode(), Ok(BladerfLoopback::BladerfLbBbTxvga1Rxlpf));
    assert_eq!(lms.is_loopback_enabled(), Ok(true));
}

#[test]
fn write_pll_config_leaves_the_output_buffer_alone_in_loopback() {
    let dev = SimDevice::new();
    let lms = LMS6002D::new(dev.clone());
    lms.write(0x25, 0x03).unwrap();
    assert_eq!(lms.write_pll_config(BLADERF_MODULE_RX, 0x2c, false), Ok(0xb2));
    assert_eq!(dev.lms_reg(0x25), 0xb2);
    assert_eq!(lms.write_pll_config(BLADERF_MODULE_TX, 0x27, true), Ok(0x9d));
    assert_eq!(dev.lms_reg(0x15), 0x9d);
    lms.write(0x08, 0x01).unwrap();
    lms.write(0x25, 0x03).unwrap();
    assert_eq!(lms.write_pll_config(BLADERF_MODULE_RX, 0x2c, false), Ok(0xb3));
}

#[test]
fn walks_on_the_device() {
    let dev = SimDevice::with_window(30, 36);
    let lms = LMS6002D::new(dev.clone());
    assert_eq!(lms.vtune_high_to_norm(0x20, 25, 0x80), Ok(29));
    assert_eq!(dev.codes_written(0x20), vec![26, 27, 28, 29, 30]);
    assert_eq!(lms.vtune_low_to_norm(0x20, 41, 0x80), Ok(37));
    assert_eq!(lms.vtune_norm_to_high(0x20, 33, 0x80), Ok(29));
    assert_eq!(lms.vtune_high_to_norm(0x20, 63, 0x80), Ok(63));
    assert_eq!(lms.vtune_low_to_norm(0x20, 0, 0x80), Ok(0));
    assert_eq!(
        lms.vtune_high_to_norm(0x20, 5, 0x80),
        Err(BladeRfError::Convergence { vcocap: 25, vtune: VCO_HIGH })
    );
    assert_eq!(
        lms.vtune_low_to_norm(0x20, 60, 0x80),
        Err(BladeRfError::Convergence { vcocap: 40, vtune: VCO_LOW })
    );
}

#[test]
fn wait_for_vtune_value_on_the_device() {
    let dev = SimDevice::with_window(30, 44);
    let lms = LMS6002D::new(dev.clone());
    lms.write_vcocap(0x10, 41, 0).unwrap();
    let mut vcocap = 41;
    assert_eq!(lms.wait_for_vtune_value(0x10, VCO_LOW, &mut vcocap, 0), Ok(()));
    assert_eq!(vcocap, 45);
    assert_eq!(dev.codes_written(0x10), vec![41, 42, 43, 44, 45]);
    assert_eq!(dev.exchanges(), 1 + 15 + 2 * 4);
    lms.write_vcocap(0x10, 20, 0).unwrap();
    let mut vcocap = 20;
    assert_eq!(lms.wait_for_vtune_value(0x10, VCO_HIGH, &mut vcocap, 0), Ok(()));
    assert_eq!(vcocap, 20);
}

#[test]
fn wait_for_vtune_value_gives_in_at_the_end_of_the_range() {
    let dev = SimDevice::new();
    dev.sim.borrow_mut().stuck = Some(VCO_NORM);
    let lms = LMS6002D::new(dev.clone());
    let mut vcocap = 61;
    assert_eq!(lms.wait_for_vtune_value(0x20, VCO_LOW, &mut vcocap, 0x80), Ok(()));
    assert_eq!(vcocap, 63);
    let mut vcocap = 1;
    assert_eq!(lms.wait_for_vtune_value(0x20, VCO_HIGH, &mut vcocap, 0x80), Ok(()));
    assert_eq!(vcocap, 0);
}

#[test]
fn tune_vcocap_high_norm_low_norm() {
    let dev = SimDevice::with_window(30, 36);
    let lms = LMS6002D::new(dev.clone());
    lms.write_vcocap(0x20, 25, 0x80).unwrap();
    let code = lms.tune_vcocap(25, 0x20, 0x80).unwrap();
    assert_eq!(code, 33);
    assert!(29 < code && code < 37);
    assert_eq!(dev.codes_written(0x20), vec![25, 26, 27, 28, 29, 30, 41, 40, 39, 38, 37, 36, 33]);
    assert_eq!(dev.lms_reg(0x29), 0x80 | 33);
    assert_eq!(lms.get_vtune(0x20, 0), Ok(VCO_NORM));
}

#[test]
fn tune_vcocap_from_every_estimate_near_the_window() {
    for (low, high) in [(30u8, 36u8), (20, 20), (1, 5), (50, 62), (10, 40), (0, 12), (40, 63)] {
        for est in 0..=63u8 {
            let near = est + 20 >= low && est <= high + 20;
            let starts_normal_far_from_the_edge = est >= low && est <= high && est - low >= 19;
            if !near || starts_normal_far_from_the_edge {
                continue;
            }
            let dev = SimDevice::with_window(low, high);
            let lms = LMS6002D::new(dev.clone());
            lms.write_vcocap(0x10, est, 0).unwrap();
            let code = lms.tune_vcocap(est, 0x10, 0).unwrap();
            assert!(low <= code && code <= high);
            if low > 0 && high < 63 {
                assert_eq!(code, (low - 1 + high + 1) / 2);
            }
        }
    }
}

#[test]
fn tune_vcocap_that_never_sees_normal_does_not_converge() {
    let dev = SimDevice::new();
    dev.sim.borrow_mut().stuck = Some(VCO_HIGH);
    let lms = LMS6002D::new(dev.clone());
    assert_eq!(
        lms.tune_vcocap(10, 0x20, 0x80),
        Err(BladeRfError::Convergence { vcocap: 30, vtune: VCO_HIGH })
    );
    dev.sim.borrow_mut().stuck = Some(VCO_LOW);
    assert_eq!(
        lms.tune_vcocap(40, 0x20, 0x80),
        Err(BladeRfError::Convergence { vcocap: 20, vtune: VCO_LOW })
    );
}

#[test]
fn tune_vcocap_reports_an_invalid_state() {
    let dev = SimDevice::new();
    dev.sim.borrow_mut().stuck = Some(VCO_HIGH);
    let lms = LMS6002D::new(dev.clone());
    assert_eq!(lms.tune_vcocap(50, 0x20, 0x80), Err(BladeRfError::InvalidState));
    dev.sim.borrow_mut().stuck = Some(3);
    assert_eq!(lms.tune_vcocap(30, 0x20, 0x80), Err(BladeRfError::InvalidState));
}

#[test]
fn tune_vcocap_stops_at_a_failed_exchange() {
    let dev = SimDevice::with_fault(4, Fault::Timeout);
    dev.sim.borrow_mut().window = (30, 36);
    let lms = LMS6002D::new(dev.clone());
    assert_eq!(
        lms.tune_vcocap(25, 0x20, 0x80),
        Err(BladeRfError::Transport(TransportError::Timeout))
    );
    assert_eq!(dev.exchanges(), 5);
}

#[test]
fn set_precalculated_frequency_programs_the_pll() {
    let dev = SimDevice::new();
    let lms = LMS6002D::new(dev.clone());
    lms.write(0x29, 0xc0).unwrap();
    let mut f = LMS6002D::<SimDevice>::calculate_tuning_params(2_447_000_000).unwrap();
    let before = f;
    assert_eq!(lms.set_precalculated_frequency(BLADERF_MODULE_RX, &mut f), Ok(()));
    assert_eq!(f.vcocap_result, 34);
    assert_eq!(f, LmsFreq { vcocap_result: 34, ..before });
    assert_eq!(dev.lms_reg(0x09), 0x05);
    assert_eq!(dev.lms_reg(0x29), 0xc0 | 34);
    assert_eq!(dev.lms_reg(0x25), 0xb2);
    assert_eq!(
        (dev.lms_reg(0x20), dev.lms_reg(0x21), dev.lms_reg(0x22), dev.lms_reg(0x23)),
        (0x3f, 0xb9, 0x55, 0x55)
    );
    let log = dev.sim.borrow().log.clone();
    assert!(log.iter().any(|f| f[4] == 0xa0 && f[2] == 1));
    assert_eq!(dev.codes_written(0x20)[..2], [0, 31]);
}

#[test]
fn set_precalculated_frequency_can_force_the_estimate() {
    let dev = SimDevice::new();
    dev.sim.borrow_mut().stuck = Some(VCO_HIGH);
    let lms = LMS6002D::new(dev.clone());
    let mut f = LMS6002D::<SimDevice>::calculate_tuning_params(915_000_000).unwrap();
    f.flags |= LMS_FREQ_FLAGS_FORCE_VCOCAP;
    assert_eq!(lms.set_precalculated_frequency(BLADERF_MODULE_TX, &mut f), Ok(()));
    assert_eq!(f.vcocap_result, 45);
    assert_eq!(dev.lms_reg(0x19), 45);
    assert_eq!(dev.lms_reg(0x15), (0x3e << 2) as u8 | 2);
}

#[test]
fn set_precalculated_frequency_turns_the_modulators_off_after_a_failure() {
    for fault in [Fault::Timeout, Fault::Refuse, Fault::Garble] {
        for at in 2..12 {
            let dev = SimDevice::with_fault(at, fault);
            let lms = LMS6002D::new(dev.clone());
            let mut f = LMS6002D::<SimDevice>::calculate_tuning_params(2_447_000_000).unwrap();
            let res = lms.set_precalculated_frequency(BLADERF_MODULE_RX, &mut f);
            let expected = match fault {
                Fault::Timeout => BladeRfError::Transport(TransportError::Timeout),
                Fault::Refuse => BladeRfError::OperationFailed,
                Fault::Garble => BladeRfError::Protocol,
            };
            assert_eq!(res, Err(expected));
            assert_eq!(f.vcocap_result, 0xff);
            assert_eq!(dev.lms_reg(0x09) & 0x05, 0);
            let log = dev.sim.borrow().log.clone();
            let last = &log[log.len() - 1];
            assert_eq!(&last[..6], &[0x41, 0x00, 0x01, 0x00, 0x09, 0x00]);
        }
    }
}

#[test]
fn set_precalculated_frequency_turns_the_modulators_off_when_the_search_fails() {
    let dev = SimDevice::new();
    dev.sim.borrow_mut().stuck = Some(VCO_LOW);
    let lms = LMS6002D::new(dev.clone());
    let mut f = LMS6002D::<SimDevice>::calculate_tuning_params(2_447_000_000).unwrap();
    assert_eq!(
        lms.set_precalculated_frequency(BLADERF_MODULE_TX, &mut f),
        Err(BladeRfError::Convergence { vcocap: 11, vtune: VCO_LOW })
    );
    assert_eq!(f.vcocap_result, 0xff);
    assert_eq!(dev.lms_reg(0x09), 0x00);
}

#[test]
fn set_frequency_returns_what_was_programmed() {
    let dev = SimDevice::new();
    let lms = LMS6002D::new(dev.clone());
    let f = lms.set_frequency(BLADERF_MODULE_TX, 2_484_000_000).unwrap();
    assert_eq!((f.freqsel, f.x, f.nint, f.nfrac, f.vcocap), (0x2c, 2, 129, 3_145_728, 35));
    assert_eq!(f.vcocap_result, 34);
    assert_eq!(dev.lms_reg(0x19), 34);
}

#[test]
fn turn_off_dsms_clears_two_bits() {
    let dev = SimDevice::new();
    let lms = LMS6002D::new(dev.clone());
    lms.write(0x09, 0xff).unwrap();
    assert_eq!(lms.turn_off_dsms(), Ok(0xfa));
    assert_eq!(dev.lms_reg(0x09), 0xfa);
}

#[test]
fn set_sample_rate_of_one_megahertz_on_both_channels() {
    for (channel, base, other) in [(BLADERF_MODULE_TX, 75u8, 64u8), (BLADERF_MODULE_RX, 64, 75)] {
        let dev = SimDevice::new();
        let si = SI5338::new(dev.clone());
        assert_eq!(si.set_sample_rate(channel, 1_000_000), Ok(1_000_000));
        let regs: Vec<u8> = (0..10).map(|i| dev.si_reg(base + i)).collect();
        assert_eq!(regs, vec![102, 156, 8, 0, 0, 0, 5, 0, 0, 0]);
        assert_eq!(dev.si_reg(other), 0);
        let index = if channel == BLADERF_MODULE_RX { 1 } else { 2 };
        assert_eq!(dev.si_reg(31 + index), 0xc8);
        assert_eq!(dev.si_reg(36 + index), if channel == BLADERF_MODULE_TX { 0x03 } else { 0x01 });
        assert_eq!(si.get_sample_rate(channel), Ok(1_000_000));
        assert_eq!(si.get_rational_sample_rate(channel), Ok(rate(1_000_000, 0, 1)));
    }
}

#[test]
fn set_sample_rate_writes_the_first_divider_register_at_its_base() {
    let dev = SimDevice::new();
    let si = SI5338::new(dev.clone());
    si.set_sample_rate(BLADERF_MODULE_TX, 1_000_000).unwrap();
    let log = dev.sim.borrow().log.clone();
    assert_eq!(log[2], vec![0x41, 0x01, 0x01, 0x00, 0x4b, 0x66, 0, 0, 0, 0, 0, 0, 0, 0, 0, 0]);
    assert_eq!(log.len(), 2 + 10 + 1);
}

#[test]
fn set_sample_rate_cuts_the_fraction_of_the_achieved_rate() {
    let dev = SimDevice::new();
    let si = SI5338::new(dev.clone());
    let mut asked = rate(2_000_000, 1, 3);
    assert_eq!(si.set_rational_sample_rate(BLADERF_MODULE_RX, &mut asked), Ok(rate(2_000_000, 1, 3)));
    assert_eq!(asked, rate(2_000_000, 1, 3));
    assert_eq!(si.get_sample_rate(BLADERF_MODULE_RX), Ok(2_000_000));
    let mut unreduced = rate(0, 12_000_002, 6);
    assert_eq!(si.set_rational_sample_rate(BLADERF_MODULE_RX, &mut unreduced), Ok(rate(2_000_000, 1, 3)));
    assert_eq!(unreduced, rate(0, 12_000_002, 6));
}

#[test]
fn set_sample_rate_keeps_enable_bits_that_are_set() {
    let dev = SimDevice::new();
    dev.sim.borrow_mut().si[37] = 0x04;
    let si = SI5338::new(dev.clone());
    si.set_sample_rate(BLADERF_MODULE_RX, 1_000_000).unwrap();
    assert_eq!(dev.si_reg(37), 0x05);
}

#[test]
fn sample_rate_below_the_minimum_is_out_of_range() {
    let dev = SimDevice::new();
    let si = SI5338::new(dev.clone());
    assert_eq!(si.set_sample_rate(BLADERF_MODULE_RX, 79_999), Err(BladeRfError::Range));
    let mut below = rate(79_999, 999, 1000);
    assert_eq!(si.set_rational_sample_rate(BLADERF_MODULE_TX, &mut below), Err(BladeRfError::Range));
    assert_eq!(dev.exchanges(), 0);
    assert_eq!(si.set_sample_rate(BLADERF_MODULE_RX, 80_000), Ok(80_000));
}

#[test]
fn smb_frequency_bounds() {
    let dev = SimDevice::new();
    let si = SI5338::new(dev.clone());
    assert_eq!(si.set_smb_freq(139_681), Err(BladeRfError::Range));
    assert_eq!(si.set_smb_freq(200_000_001), Err(BladeRfError::Range));
    assert_eq!(si.set_smb_freq(0), Err(BladeRfError::Range));
    assert_eq!(dev.exchanges(), 0);
    assert_eq!(si.set_smb_freq(139_682), Ok(139_682));
    assert_eq!(si.get_smb_freq(), Ok(139_682));
    assert_eq!(dev.si_reg(34), 0xd4);
    assert_eq!(si.set_smb_freq(200_000_000), Ok(200_000_000));
    assert_eq!(si.get_smb_freq(), Ok(200_000_000));
    assert_eq!(si.get_rational_smb_freq(), Ok(rate(200_000_000, 0, 1)));
    assert_eq!(dev.si_reg(34), 0xc0);
    assert_eq!(dev.si_reg(39), 0x01);
    let regs: Vec<u8> = (0..10).map(|i| dev.si_reg(86 + i)).collect();
    assert_eq!(regs, vec![86, 4, 8, 0, 0, 0, 125, 0, 0, 0]);
}

#[test]
fn rational_smb_frequency_goes_by_its_whole_part() {
    let dev = SimDevice::new();
    let si = SI5338::new(dev.clone());
    assert_eq!(si.set_rational_smb_freq(&rate(139_681, 999, 1000)), Err(BladeRfError::Range));
    assert_eq!(si.set_rational_smb_freq(&rate(200_000_001, 0, 1)), Err(BladeRfError::Range));
    assert_eq!(si.set_rational_smb_freq(&rate(139_682, 1, 2)), Ok(rate(139_682, 1, 2)));
    assert_eq!(si.set_rational_smb_freq(&rate(10_000_000, 1, 7)), Ok(rate(10_000_000, 1, 7)));
    assert_eq!(
        si.set_rational_smb_freq(&rate(25_000_000, 123_456_789, 987_654_321)),
        Ok(rate(25_000_000, 230_200_000, 1_841_938_869))
    );
    assert_eq!(si.get_smb_freq(), Ok(25_000_000));
}

#[test]
fn read_multisynth_unpacks_what_write_multisynth_wrote() {
    let dev = SimDevice::new();
    let si = SI5338::new(dev.clone());
    let mut ms = Si5338Multisynth::default();
    ms.index = 0;
    ms.enable = 0x03;
    SI5338::<SimDevice>::update_base(&mut ms);
    SI5338::<SimDevice>::calculate_multisynth(&mut ms, &rate(40_000_000, 0, 1)).unwrap();
    assert_eq!((ms.a, ms.b, ms.c, ms.r), (63, 9, 25, 1));
    assert_eq!(si.write_multisynth(&ms), Ok(0xc0));
    let mut back = Si5338Multisynth::default();
    back.index = 0;
    SI5338::<SimDevice>::update_base(&mut back);
    assert_eq!(si.read_multisynth(&mut back), Ok(()));
    assert_eq!((back.a, back.b, back.c, back.r, back.enable), (63, 9, 25, 1, 0x03));
    assert_eq!(back.regs, ms.regs);
}

#[test]
fn a_failed_write_of_the_synthesizer_is_reported() {
    let dev = SimDevice::with_fault(5, Fault::Timeout);
    let si = SI5338::new(dev.clone());
    assert_eq!(
        si.set_sample_rate(BLADERF_MODULE_RX, 1_000_000),
        Err(BladeRfError::Transport(TransportError::Timeout))
    );
    assert_eq!(dev.exchanges(), 6);
}

#[test]
fn dac_write_is_two_commands() {
    let dev = SimDevice::new();
    let dac = DAC161S055::new(dev.clone());
    assert_eq!(dac.write(0x1234), Ok(0x1234));
    assert_eq!(dev.sim.borrow().dac, vec![(0x28, 0x0000), (0x08, 0x1234)]);
    let log = dev.sim.borrow().log.clone();
    assert_eq!(log[0], vec![0x42, 0x00, 0x01, 0x00, 0x28, 0x00, 0x00, 0, 0, 0, 0, 0, 0, 0, 0, 0]);
    assert_eq!(log[1], vec![0x42, 0x00, 0x01, 0x00, 0x08, 0x34, 0x12, 0, 0, 0, 0, 0, 0, 0, 0, 0]);
}

#[test]
fn gpio_words() {
    assert_eq!(BladeRf1::<SimDevice>::gpio_word(0x57, DeviceSpeed::BladerfDeviceSpeedSuper), 0x57);
    assert_eq!(BladeRf1::<SimDevice>::gpio_word(0xd7, DeviceSpeed::BladerfDeviceSpeedSuper), 0x57);
    assert_eq!(BladeRf1::<SimDevice>::gpio_word(0x57, DeviceSpeed::BladerfDeviceSpeedHigh), 0xd7);
    assert_eq!(BladeRf1::<SimDevice>::gpio_word(0x57, DeviceSpeed::BladerfDeviceSpeedUnknown), 0x57);
    assert_eq!(
        BladeRf1::<SimDevice>::gain_mode_gpio(0x57, BladerfGainMode::BladerfGainDefault),
        0x0004_0057
    );
    assert_eq!(BladeRf1::<SimDevice>::gain_mode_gpio(0x0004_0057, BladerfGainMode::BladerfGainMgc), 0x57);
    assert_eq!(
        BladeRf1::<SimDevice>::gain_mode_gpio(0x0004_0057, BladerfGainMode::BladerfGainHybridAgc),
        0x0004_0057
    );
    assert!(BladeRf1::<SimDevice>::needs_setup(0));
    assert!(BladeRf1::<SimDevice>::needs_setup(0x80));
    assert!(!BladeRf1::<SimDevice>::needs_setup(0x57));
    assert!(!BladeRf1::<SimDevice>::needs_setup(0x01));
}

#[test]
fn gain_mode_is_for_the_receive_channel_only() {
    let dev = SimDevice::new();
    let board = BladeRf1::new(dev.clone());
    assert_eq!(
        board.set_gain_mode(BLADERF_MODULE_TX, BladerfGainMode::BladerfGainDefault),
        Err(BladeRfError::Unsupported)
    );
    assert_eq!(dev.exchanges(), 0);
    assert_eq!(board.set_gain_mode(BLADERF_MODULE_RX, BladerfGainMode::BladerfGainMgc), Ok(()));
    assert_eq!(dev.exchanges(), 2);
}

#[test]
fn config_gpio_round_trip() {
    let dev = SimDevice::new();
    let board = BladeRf1::new(dev.clone());
    assert_eq!(board.config_gpio_read(), Ok(0));
    assert_eq!(board.config_gpio_write(0x57), Ok(()));
    assert_eq!(board.config_gpio_read(), Ok(0x57));
    let log = dev.sim.borrow().log.clone();
    assert_eq!(log[0], vec![0x43, 0x01, 0x00, 0x00, 0x00, 0, 0, 0, 0, 0, 0, 0, 0, 0, 0, 0]);
    assert_eq!(log[1], vec![0x43, 0x01, 0x01, 0x00, 0x00, 0x57, 0, 0, 0, 0, 0, 0, 0, 0, 0, 0]);
}

#[test]
fn initialize_brings_a_fresh_device_up() {
    let dev = SimDevice::new();
    let board = BladeRf1::new(dev.clone());
    assert_eq!(board.initialize(), Ok(()));
    assert_eq!(dev.sim.borrow().gpio, 0x57);
    assert_eq!(dev.lms_reg(0x05), 0x3e);
    assert_eq!(dev.lms_reg(0x47), 0x40);
    assert_eq!(dev.lms_reg(0x59), 0x29);
    assert_eq!(dev.lms_reg(0x64), 0x36);
    assert_eq!(dev.lms_reg(0x79), 0x37);
    assert_eq!(dev.lms_reg(0x3f), 0x80);
    assert_eq!(dev.lms_reg(0x5f), 0x80);
    assert_eq!(dev.lms_reg(0x6e), 0xc0);
    assert_eq!((dev.lms_reg(0x16), dev.lms_reg(0x17), dev.lms_reg(0x18)), (0x0c, 0x03, 0x03));
    assert_eq!((dev.lms_reg(0x26), dev.lms_reg(0x27), dev.lms_reg(0x28)), (0x0c, 0x03, 0x03));
    assert_eq!(dev.si_reg(64), 0x66);
    assert_eq!(dev.si_reg(75), 0x66);
    assert_eq!(dev.lms_reg(0x15), 0xb2);
    assert_eq!(dev.lms_reg(0x25), 0xb2);
    assert_eq!(dev.lms_reg(0x19), 34);
    assert_eq!(dev.lms_reg(0x29), 34);
    assert_eq!(dev.lms_reg(0x10), 0x3f);
    assert_eq!(dev.lms_reg(0x20), 0x40);
    assert_eq!(dev.sim.borrow().dac, vec![(0x28, 0), (0x08, 0)]);
    assert_eq!(board.si5338.get_sample_rate(BLADERF_MODULE_RX), Ok(1_000_000));
    assert_eq!(board.lms.get_vtune(0x10, 0), Ok(VCO_NORM));
}

#[test]
fn initialize_leaves_a_device_alone_that_was_set_up() {
    let dev = SimDevice::new();
    dev.sim.borrow_mut().gpio = 0x57;
    let board = BladeRf1::new(dev.clone());
    assert_eq!(board.initialize(), Ok(()));
    assert_eq!(dev.exchanges(), 1);
}

#[test]
fn initialize_stops_at_the_first_failure() {
    let dev = SimDevice::with_fault(3, Fault::Refuse);
    let board = BladeRf1::new(dev.clone());
    assert_eq!(board.initialize(), Err(BladeRfError::OperationFailed));
    assert_eq!(dev.exchanges(), 4);
    let dev = SimDevice::new();
    dev.sim.borrow_mut().stuck = Some(VCO_HIGH);
    let board = BladeRf1::new(dev.clone());
    assert_eq!(
        board.initialize(),
        Err(BladeRfError::Convergence { vcocap: 51, vtune: VCO_HIGH })
    );
    assert!(dev.sim.borrow().dac.is_empty());
}

#[test]
fn board_set_frequency_tunes_what_is_beyond_32_bits_as_the_maximum() {
    let dev = SimDevice::new();
    let board = BladeRf1::new(dev.clone());
    assert_eq!(board.set_frequency(BLADERF_MODULE_RX, 915_000_000), Ok(()));
    assert_eq!(dev.lms_reg(0x25), (0x3e << 2) as u8 | 2);
    let at_max = LMS6002D::<SimDevice>::calculate_tuning_params(3_800_000_000).unwrap();
    for beyond in [(1u64 << 32) + 2_447_000_000, 1 << 32, u64::MAX, 3_800_000_001] {
        let dev = SimDevice::with_window(50, 60);
        let board = BladeRf1::new(dev.clone());
        assert_eq!(board.set_frequency(BLADERF_MODULE_RX, beyond), Ok(()));
        assert_eq!(dev.lms_reg(0x25), (at_max.freqsel << 2) | 2);
        assert_eq!(dev.lms_reg(0x20), (at_max.nint >> 1) as u8);
        assert_eq!(dev.lms_reg(0x23), (at_max.nfrac & 0xff) as u8);
    }
}

#[test]
fn modify_reads_and_writes_back() {
    let dev = SimDevice::new();
    let lms = LMS6002D::new(dev.clone());
    lms.write(0x16, 0xff).unwrap();
    assert_eq!(lms.modify(0x16, 0xe0, 0x0c), Ok(0xec));
    assert_eq!(dev.lms_reg(0x16), 0xec);
    let log = dev.sim.borrow().log.clone();
    assert_eq!(log.len(), 3);
    assert_eq!(&log[1][..6], &[0x41, 0x00, 0x00, 0x00, 0x16, 0x00]);
    assert_eq!(&log[2][..6], &[0x41, 0x00, 0x01, 0x00, 0x16, 0xec]);
    let si = SI5338::new(dev.clone());
    assert_eq!(si.modify(37, 0xff, 0x03), Ok(0x03));
    assert_eq!(dev.si_reg(37), 0x03);
}

#[test]
fn a_failed_read_is_not_followed_by_a_write() {
    let dev = SimDevice::with_fault(0, Fault::Refuse);
    let lms = LMS6002D::new(dev.clone());
    assert_eq!(lms.set(0x3f, 0x80), Err(BladeRfError::OperationFailed));
    assert_eq!(dev.exchanges(), 1);
    assert_eq!(lms.turn_off_dsms(), Ok(0));
    assert_eq!(dev.exchanges(), 3);
}

#[test]
fn read_multisynth_takes_the_low_three_enable_bits() {
    let dev = SimDevice::new();
    dev.sim.borrow_mut().si[36] = 0xfd;
    dev.sim.borrow_mut().si[31] = 0xd4;
    let si = SI5338::new(dev.clone());
    let mut ms = Si5338Multisynth::default();
    SI5338::<SimDevice>::update_base(&mut ms);
    assert_eq!(si.read_multisynth(&mut ms), Ok(()));
    assert_eq!(ms.enable, 0x05);
    assert_eq!(ms.r, 32);
    assert_eq!(dev.exchanges(), 12);
}
