use seify_bladerf::bladerf::BladerfLoopback;
use seify_bladerf::board::bladerf1::BladeRfError;
use seify_bladerf::hardware::lms6002d::{
    loopback_mode_from, pll_config_register, pll_divider_byte, LmsFreq, BAND_HIGH, BAND_LOW, BAND_RATIO, BAND_VALUE, LMS6002D, LMS_REFERENCE_HZ, VCO_HIGH,
    VCO_LOW, VCO_NORM,
};
use seify_bladerf::hardware::tuning::{Probe, Tuner, Wait, Walk, WalkKind};
use seify_bladerf::nios::{Nios, TransportError};

struct NoLink;

impl Nios for NoLink {
    fn nios_send(&self, _endpoint_in: u8, _endpoint_out: u8, _pkt: Vec<u8>) -> Result<Vec<u8>, TransportError> {
        Err(TransportError::Disconnected)
    }
}

type Lms = LMS6002D<NoLink>;

fn params(freq: u32) -> LmsFreq {
    Lms::calculate_tuning_params(freq).unwrap()
}

fn reconstructed(f: &LmsFreq) -> u64 {
    let pll_coeff = ((f.nint as u64) << 23) + f.nfrac as u64;
    let div = (f.x as u64) << 23;
    (LMS_REFERENCE_HZ as u64 * pll_coeff) / div
}

fn run(mut tuner: Tuner, readings: &[u8]) -> Tuner {
    for v in readings {
        tuner = tuner.advance(*v);
    }
    tuner
}

#[test]
fn tuning_params_for_the_transmit_default() {
    let f = params(2_447_000_000);
    assert_eq!(f.freqsel, 0x2c);
    assert_eq!(f.x, 2);
    assert_eq!(f.nint, 127);
    assert_eq!(f.nfrac, 3_757_397);
    assert_eq!(f.vcocap, 31);
    assert_eq!(f.flags, 0);
    assert_eq!(f.xb_gpio, 0);
    assert_eq!(f.vcocap_result, 0);
    let hz = reconstructed(&f);
    assert!(2_447_000_000 - hz <= 1);
    assert_eq!(hz, 2_446_999_999);
}

#[test]
fn tuning_params_for_the_receive_default() {
    let f = params(2_484_000_000);
    assert_eq!((f.freqsel, f.x, f.nint, f.nfrac, f.vcocap), (0x2c, 2, 129, 3_145_728, 35));
    assert_eq!(reconstructed(&f), 2_484_000_000);
}

#[test]
fn tuning_params_across_the_bands() {
    let f = params(915_000_000);
    assert_eq!((f.freqsel, f.x, f.nint, f.nfrac, f.vcocap), (0x3e, 8, 190, 5_242_880, 45));
    let f = params(1_500_000_000);
    assert_eq!((f.freqsel, f.x, f.nint, f.nfrac, f.vcocap), (0x35, 4, 156, 2_097_152, 37));
    let f = params(237_500_000);
    assert_eq!((f.freqsel, f.x, f.nint, f.nfrac, f.vcocap), (0x27, 16, 98, 8_039_083, 15));
    let f = params(3_800_000_000);
    assert_eq!((f.freqsel, f.x, f.nint, f.nfrac, f.vcocap), (0x3c, 2, 197, 7_689_557, 55));
}

#[test]
fn tuning_params_take_the_lower_band_at_a_shared_edge() {
    let f = params(283_437_500);
    assert_eq!((f.freqsel, f.vcocap, f.nint, f.nfrac), (0x27, 55, 118, 830_123));
    let f = params(283_437_501);
    assert_eq!((f.freqsel, f.vcocap, f.nint, f.nfrac), (0x2f, 15, 118, 830_126));
    let f = params(2_267_500_000);
    assert_eq!((f.freqsel, f.x, f.vcocap), (0x24, 2, 55));
}

#[test]
fn tuning_params_clamp_to_the_tunable_range() {
    let at_min = params(237_500_000);
    for below in [0u32, 1, 100, 237_499_999] {
        assert_eq!(params(below), at_min);
    }
    let at_max = params(3_800_000_000);
    for above in [3_800_000_001u32, 4_000_000_000, u32::MAX] {
        assert_eq!(params(above), at_max);
    }
}

#[test]
fn every_frequency_reconstructs_to_within_two_hertz() {
    let mut freq: u64 = 237_500_000;
    while freq <= 3_800_000_000 {
        let f = params(freq as u32);
        let hz = reconstructed(&f) as i64;
        assert!((hz - freq as i64).abs() <= 2);
        freq += 7_654_321;
    }
}

#[test]
fn band_table_is_contiguous() {
    assert_eq!(BAND_LOW[0], 237_500_000);
    assert_eq!(BAND_HIGH[15], 3_800_000_000);
    for i in 0..15 {
        assert_eq!(BAND_HIGH[i], BAND_LOW[i + 1]);
    }
    for i in 0..16 {
        assert!(BAND_LOW[i] < BAND_HIGH[i]);
        assert_eq!(1u8 << ((BAND_VALUE[i] & 7) - 3), BAND_RATIO[i]);
        let range = Lms::band(i);
        assert_eq!((range.low, range.high, range.value), (BAND_LOW[i], BAND_HIGH[i], BAND_VALUE[i]));
        assert_eq!(Lms::vco_ratio(i), BAND_RATIO[i]);
    }
    assert_eq!(BAND_VALUE[0], 0x27);
    assert_eq!(BAND_VALUE[13], 0x2c);
}

#[test]
fn estimate_vcocap_interpolates_between_15_and_55() {
    assert_eq!(Lms::estimate_vcocap(100, 100, 200), 15);
    assert_eq!(Lms::estimate_vcocap(200, 100, 200), 55);
    assert_eq!(Lms::estimate_vcocap(150, 100, 200), 35);
    assert_eq!(Lms::estimate_vcocap(2_447_000_000, 2_267_500_000, 2_704_000_000), 31);
}

#[test]
fn estimate_vcocap_rounds_half_up() {
    // 40 * 1 / 80 = 0.5 rounds up to 1; 40 * 1 / 81 rounds down to 0
    assert_eq!(Lms::estimate_vcocap(1, 0, 80), 16);
    assert_eq!(Lms::estimate_vcocap(1, 0, 81), 15);
    assert_eq!(Lms::estimate_vcocap(3, 0, 80), 17);
}

#[test]
fn estimate_vcocap_never_exceeds_63() {
    assert_eq!(Lms::estimate_vcocap(120, 0, 100), 63);
    assert_eq!(Lms::estimate_vcocap(119, 0, 100), 63);
    assert_eq!(Lms::estimate_vcocap(u32::MAX, 0, 1), 63);
    assert_eq!(Lms::estimate_vcocap(118, 0, 100), 62);
}

#[test]
fn vtune_is_the_top_two_bits() {
    assert_eq!(Lms::vtune_of(0x00), VCO_NORM);
    assert_eq!(Lms::vtune_of(0x3f), VCO_NORM);
    assert_eq!(Lms::vtune_of(0x40), VCO_LOW);
    assert_eq!(Lms::vtune_of(0x80), VCO_HIGH);
    assert_eq!(Lms::vtune_of(0xff), 3);
}

#[test]
fn register_values_of_small_changes() {
    assert_eq!(Lms::rffe_change(1, true), (0x40, 0xff, 0x01));
    assert_eq!(Lms::rffe_change(1, false), (0x40, 0xfe, 0x00));
    assert_eq!(Lms::rffe_change(0, true), (0x70, 0xff, 0x02));
    assert_eq!(Lms::rffe_change(0, false), (0x70, 0xfd, 0x00));
    assert_eq!(pll_config_register(0xff, 0x2c, true, false), 0xb1);
    assert_eq!(pll_config_register(0xff, 0x2c, false, false), 0xb2);
    assert_eq!(pll_config_register(0x03, 0x2c, false, true), 0xb3);
    assert_eq!(pll_config_register(0xfd, 0x27, true, true), 0x9d);
}

fn divider_bytes(nint: u16, nfrac: u32) -> (u8, u8, u8, u8) {
    (
        pll_divider_byte(nint, nfrac, 0),
        pll_divider_byte(nint, nfrac, 1),
        pll_divider_byte(nint, nfrac, 2),
        pll_divider_byte(nint, nfrac, 3),
    )
}

#[test]
fn divider_bytes_of_the_transmit_default() {
    // nint = 127 = 0b0_0111_1111, nfrac = 3757397 = 0x39_5555
    assert_eq!(divider_bytes(127, 3_757_397), (0x3f, 0x80 | 0x39, 0x55, 0x55));
    assert_eq!(divider_bytes(0x1ff, 0x7f_ffff), (0xff, 0xff, 0xff, 0xff));
    assert_eq!(divider_bytes(0x100, 0x80_0000), (0x80, 0x00, 0x00, 0x00));
    assert_eq!(divider_bytes(0, 0), (0, 0, 0, 0));
}

#[test]
fn loopback_mode_of_the_registers() {
    assert_eq!(loopback_mode_from(0x00, 0x00), BladerfLoopback::BladerfLbNone);
    assert_eq!(loopback_mode_from(0x01, 0x00), BladerfLoopback::BladerfLbRfLna1);
    assert_eq!(loopback_mode_from(0x02, 0x00), BladerfLoopback::BladerfLbRfLna2);
    assert_eq!(loopback_mode_from(0x03, 0x00), BladerfLoopback::BladerfLbRfLna3);
    assert_eq!(loopback_mode_from(0x04, 0x0c), BladerfLoopback::BladerfLbNone);
    assert_eq!(loopback_mode_from(0x20, 0x04), BladerfLoopback::BladerfLbBbTxlpfRxvga2);
    assert_eq!(loopback_mode_from(0x20, 0x08), BladerfLoopback::BladerfLbBbTxvga1Rxvga2);
    assert_eq!(loopback_mode_from(0x40, 0x04), BladerfLoopback::BladerfLbBbTxlpfRxlpf);
    assert_eq!(loopback_mode_from(0x40, 0x08), BladerfLoopback::BladerfLbBbTxvga1Rxlpf);
    assert_eq!(loopback_mode_from(0x40, 0x0c), BladerfLoopback::BladerfLbBbTxlpfRxlpf);
    assert_eq!(loopback_mode_from(0x20, 0x00), BladerfLoopback::BladerfLbNone);
    assert_eq!(loopback_mode_from(0x21, 0x00), BladerfLoopback::BladerfLbRfLna1);
    assert_eq!(loopback_mode_from(0x21, 0x04), BladerfLoopback::BladerfLbBbTxlpfRxvga2);
    assert_eq!(loopback_mode_from(0x60, 0x04), BladerfLoopback::BladerfLbNone);
    assert_eq!(loopback_mode_from(0x10, 0x04), BladerfLoopback::BladerfLbNone);
}

#[test]
fn walk_up_finds_the_high_edge() {
    let mut walk = Walk::begin(WalkKind::HighToNorm, 25);
    assert_eq!(walk.probe(), Probe::WriteRead(26));
    walk = walk.advance(VCO_HIGH);
    assert_eq!(walk.probe(), Probe::WriteRead(27));
    walk = walk.advance(VCO_LOW);
    assert_eq!(walk.probe(), Probe::WriteRead(28));
    walk = walk.advance(VCO_NORM);
    assert_eq!(walk, Walk::Over(Ok(27)));
    assert_eq!(walk.probe(), Probe::Nothing);
    assert_eq!(walk.advance(VCO_HIGH), Walk::Over(Ok(27)));
}

#[test]
fn walk_down_finds_the_low_edge_and_the_high_code() {
    let walk = Walk::begin(WalkKind::LowToNorm, 40).advance(VCO_LOW).advance(VCO_NORM);
    assert_eq!(walk, Walk::Over(Ok(39)));
    let walk = Walk::begin(WalkKind::NormToHigh, 30).advance(VCO_NORM).advance(VCO_HIGH);
    assert_eq!(walk, Walk::Over(Ok(28)));
}

#[test]
fn walk_gives_up_after_twenty_readings() {
    let mut walk = Walk::begin(WalkKind::HighToNorm, 10);
    for i in 0..19 {
        walk = walk.advance(VCO_HIGH);
        assert_eq!(walk.probe(), Probe::WriteRead(12 + i));
    }
    walk = walk.advance(VCO_HIGH);
    assert_eq!(walk, Walk::Over(Err(BladeRfError::Convergence { vcocap: 30, vtune: VCO_HIGH })));
}

#[test]
fn walk_stops_at_the_ends_of_the_range() {
    assert_eq!(Walk::begin(WalkKind::HighToNorm, 63), Walk::Over(Ok(63)));
    assert_eq!(Walk::begin(WalkKind::LowToNorm, 0), Walk::Over(Ok(0)));
    assert_eq!(Walk::begin(WalkKind::NormToHigh, 0), Walk::Over(Ok(0)));
    let walk = Walk::begin(WalkKind::HighToNorm, 61).advance(VCO_HIGH);
    assert_eq!(walk.probe(), Probe::WriteRead(63));
    assert_eq!(walk.advance(VCO_HIGH), Walk::Over(Ok(63)));
    let walk = Walk::begin(WalkKind::LowToNorm, 1);
    assert_eq!(walk.probe(), Probe::WriteRead(0));
    assert_eq!(walk.advance(VCO_LOW), Walk::Over(Ok(0)));
    assert_eq!(Walk::begin(WalkKind::LowToNorm, 1).advance(VCO_NORM), Walk::Over(Ok(1)));
}

#[test]
fn wait_polls_fifteen_times_then_creeps() {
    let mut wait = Wait::begin(VCO_LOW, 60);
    for _ in 0..14 {
        assert_eq!(wait.probe(), Probe::Read);
        wait = wait.advance(VCO_NORM);
    }
    assert_eq!(wait.probe(), Probe::Read);
    wait = wait.advance(VCO_NORM);
    assert_eq!(wait.probe(), Probe::WriteRead(61));
    wait = wait.advance(VCO_HIGH);
    assert_eq!(wait.probe(), Probe::WriteRead(62));
    wait = wait.advance(VCO_LOW);
    assert_eq!(wait, Wait::Over { target: VCO_LOW, code: 62, reached: true });
}

#[test]
fn wait_ends_at_once_on_its_target() {
    assert_eq!(
        Wait::begin(VCO_HIGH, 7).advance(VCO_HIGH),
        Wait::Over { target: VCO_HIGH, code: 7, reached: true }
    );
}

#[test]
fn wait_gives_in_at_the_end_of_the_range() {
    let mut wait = Wait::begin(VCO_HIGH, 2);
    for _ in 0..15 {
        wait = wait.advance(VCO_NORM);
    }
    assert_eq!(wait.probe(), Probe::WriteRead(1));
    wait = wait.advance(VCO_NORM);
    assert_eq!(wait.probe(), Probe::WriteRead(0));
    wait = wait.advance(VCO_NORM);
    assert_eq!(wait, Wait::Over { target: VCO_HIGH, code: 0, reached: false });
    let mut wait = Wait::begin(VCO_LOW, 63);
    for _ in 0..15 {
        wait = wait.advance(VCO_NORM);
    }
    assert_eq!(wait, Wait::Over { target: VCO_LOW, code: 63, reached: false });
}

#[test]
fn search_high_norm_low_norm_settles_between_the_edges() {
    // HIGH at 25..=29, NORM at 30, jump to 41: LOW at 41..=37, NORM at 36
    let mut tuner = Tuner::start(25);
    assert_eq!(tuner.probe(), Probe::Read);
    tuner = tuner.advance(VCO_HIGH);
    for code in 26..=29 {
        assert_eq!(tuner.probe(), Probe::WriteRead(code));
        tuner = tuner.advance(VCO_HIGH);
    }
    assert_eq!(tuner.probe(), Probe::WriteRead(30));
    tuner = tuner.advance(VCO_NORM);
    assert_eq!(tuner.probe(), Probe::WriteRead(41));
    tuner = tuner.advance(VCO_LOW);
    for code in [40, 39, 38, 37] {
        assert_eq!(tuner.probe(), Probe::WriteRead(code));
        tuner = tuner.advance(VCO_LOW);
    }
    assert_eq!(tuner.probe(), Probe::WriteRead(36));
    tuner = tuner.advance(VCO_NORM);
    assert_eq!(tuner, Tuner::Verifying { code: 33 });
    assert_eq!(tuner.probe(), Probe::WriteRead(33));
    tuner = tuner.advance(VCO_NORM);
    assert_eq!(tuner, Tuner::Over(Ok(33)));
    assert!(29 < 33 && 33 < 37);
}

#[test]
fn search_from_the_low_region_jumps_down() {
    // LOW at 50, NORM at 48: low edge 49; jump to 37: HIGH; walk up: NORM at 40
    let tuner = run(Tuner::start(50), &[VCO_LOW, VCO_LOW, VCO_NORM]);
    assert_eq!(tuner.probe(), Probe::WriteRead(37));
    let tuner = run(tuner, &[VCO_HIGH, VCO_HIGH, VCO_HIGH]);
    assert_eq!(tuner.probe(), Probe::WriteRead(40));
    let tuner = tuner.advance(VCO_NORM);
    assert_eq!(tuner, Tuner::Verifying { code: 44 });
    assert_eq!(tuner.advance(VCO_NORM), Tuner::Over(Ok(44)));
}

#[test]
fn search_from_the_normal_region_walks_to_the_high_edge_first() {
    // NORM at 31, 30, 29; HIGH at 28: high edge 28; jump to 40
    let tuner = run(Tuner::start(31), &[VCO_NORM, VCO_NORM, VCO_NORM, VCO_HIGH]);
    assert_eq!(tuner.probe(), Probe::WriteRead(40));
    // LOW at once, then NORM at 39: low edge 40
    let tuner = run(tuner, &[VCO_LOW, VCO_NORM]);
    assert_eq!(tuner, Tuner::Verifying { code: 34 });
}

#[test]
fn search_clamps_its_jumps() {
    // high edge 55: 55 + 12 is beyond the range
    let tuner = run(Tuner::start(55), &[VCO_HIGH, VCO_NORM]);
    assert_eq!(tuner.probe(), Probe::WriteRead(63));
    // low edge 9: 9 - 12 is below the range
    let tuner = run(Tuner::start(10), &[VCO_LOW, VCO_LOW, VCO_NORM]);
    assert_eq!(tuner.probe(), Probe::WriteRead(0));
    // low edge 12 is not above the jump either
    let tuner = run(Tuner::start(13), &[VCO_LOW, VCO_LOW, VCO_NORM]);
    assert_eq!(tuner.probe(), Probe::WriteRead(0));
    let tuner = run(Tuner::start(14), &[VCO_LOW, VCO_LOW, VCO_NORM]);
    assert_eq!(tuner.probe(), Probe::WriteRead(1));
}

#[test]
fn search_that_never_sees_normal_does_not_converge() {
    let tuner = run(Tuner::start(10), &[VCO_HIGH; 21]);
    assert_eq!(tuner, Tuner::Over(Err(BladeRfError::Convergence { vcocap: 30, vtune: VCO_HIGH })));
    let tuner = run(Tuner::start(40), &[VCO_LOW; 21]);
    assert_eq!(tuner, Tuner::Over(Err(BladeRfError::Convergence { vcocap: 20, vtune: VCO_LOW })));
    let tuner = run(Tuner::start(40), &[VCO_LOW, 3, 3, 3, 3, 3, 3, 3, 3, 3, 3, 3, 3, 3, 3, 3, 3, 3, 3, 3, 3]);
    assert_eq!(tuner, Tuner::Over(Err(BladeRfError::Convergence { vcocap: 20, vtune: 3 })));
}

#[test]
fn search_fails_when_the_final_reading_is_not_normal() {
    let tuner = run(Tuner::start(25), &[VCO_HIGH, VCO_NORM, VCO_LOW, VCO_NORM]);
    assert_eq!(tuner, Tuner::Verifying { code: 31 });
    assert_eq!(
        tuner.advance(VCO_LOW),
        Tuner::Over(Err(BladeRfError::Convergence { vcocap: 31, vtune: VCO_LOW }))
    );
}

#[test]
fn search_in_an_unreachable_branch_is_an_invalid_state() {
    // high voltage all the way up to code 63
    let tuner = run(Tuner::start(50), &[VCO_HIGH; 14]);
    assert_eq!(tuner, Tuner::Over(Err(BladeRfError::InvalidState)));
    // a reading that is none of the three states
    assert_eq!(Tuner::start(30).advance(3), Tuner::Over(Err(BladeRfError::InvalidState)));
    // high voltage at code 63 itself
    assert_eq!(Tuner::start(63).advance(VCO_HIGH), Tuner::Over(Err(BladeRfError::InvalidState)));
}

#[test]
fn search_waits_and_creeps_when_the_jump_falls_short() {
    // high edge 29, jump to 41, but the voltage stays normal up to 44
    let mut tuner = run(Tuner::start(29), &[VCO_HIGH, VCO_NORM]);
    assert_eq!(tuner.probe(), Probe::WriteRead(41));
    tuner = tuner.advance(VCO_NORM);
    for _ in 0..14 {
        assert_eq!(tuner.probe(), Probe::Read);
        tuner = tuner.advance(VCO_NORM);
    }
    for code in 42..=44 {
        assert_eq!(tuner.probe(), Probe::WriteRead(code));
        tuner = tuner.advance(VCO_NORM);
    }
    assert_eq!(tuner.probe(), Probe::WriteRead(45));
    tuner = tuner.advance(VCO_LOW);
    assert_eq!(tuner.probe(), Probe::WriteRead(44));
    tuner = tuner.advance(VCO_NORM);
    assert_eq!(tuner, Tuner::Verifying { code: 37 });
}
