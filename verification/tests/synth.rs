use seify_bladerf::bladerf::BladerfRationalRate;
use seify_bladerf::board::bladerf1::{BladeRfError, BLADERF_SMB_FREQUENCY_MAX, BLADERF_SMB_FREQUENCY_MIN};
use seify_bladerf::hardware::si5338::{Si5338Multisynth, SI5338, SI5338_F_VCO};
use seify_bladerf::nios::{Nios, TransportError};

struct NoLink;

impl Nios for NoLink {
    fn nios_send(&self, _endpoint_in: u8, _endpoint_out: u8, _pkt: Vec<u8>) -> Result<Vec<u8>, TransportError> {
        Err(TransportError::Disconnected)
    }
}

type Synth = SI5338<NoLink>;

fn rate(integer: u64, num: u64, den: u64) -> BladerfRationalRate {
    BladerfRationalRate { integer, num, den }
}

fn reduced(integer: u64, num: u64, den: u64) -> BladerfRationalRate {
    let mut r = rate(integer, num, den);
    Synth::rational_reduce(&mut r);
    r
}

fn plan(index: u8, integer: u64, num: u64, den: u64) -> Result<Si5338Multisynth, BladeRfError> {
    let mut ms = Si5338Multisynth::default();
    ms.index = index;
    Synth::update_base(&mut ms);
    Synth::calculate_multisynth(&mut ms, &reduced(integer, num, den)).map(|_| ms)
}

#[test]
fn constants_of_the_synthesizer() {
    assert_eq!(SI5338_F_VCO, 2_534_400_000);
    assert_eq!(BLADERF_SMB_FREQUENCY_MIN, 139_682);
    assert_eq!(BLADERF_SMB_FREQUENCY_MAX, 200_000_000);
}

#[test]
fn gcd_examples() {
    assert_eq!(Synth::gcd(12, 18), 6);
    assert_eq!(Synth::gcd(18, 12), 6);
    assert_eq!(Synth::gcd(17, 5), 1);
    assert_eq!(Synth::gcd(0, 9), 9);
    assert_eq!(Synth::gcd(9, 0), 9);
    assert_eq!(Synth::gcd(0, 0), 0);
    assert_eq!(Synth::gcd(6_400_000, 8_000_000), 1_600_000);
    assert_eq!(Synth::gcd(u64::MAX, u64::MAX - 1), 1);
}

#[test]
fn reduce_moves_whole_multiples_and_cancels() {
    assert_eq!(reduced(1, 7, 2), rate(4, 1, 2));
    assert_eq!(reduced(0, 6, 8), rate(0, 3, 4));
    assert_eq!(reduced(0, 2_534_400_000, 8_000_000), rate(316, 4, 5));
    assert_eq!(reduced(5, 0, 7), rate(5, 0, 1));
    assert_eq!(reduced(5, 14, 7), rate(7, 0, 1));
    assert_eq!(reduced(1_000_000, 0, 1), rate(1_000_000, 0, 1));
}

#[test]
fn reduce_leaves_a_zero_denominator() {
    assert_eq!(reduced(3, 5, 0), rate(3, 1, 0));
    assert_eq!(reduced(3, 0, 0), rate(3, 0, 0));
}

#[test]
fn reduce_is_idempotent() {
    for (i, n, d) in [(0u64, 0u64, 1u64), (1, 7, 2), (0, 6, 8), (9, 1_000_000, 999_999), (2, 123_456_789, 987_654_321), (0, 3, 3)] {
        let once = reduced(i, n, d);
        let mut twice = once;
        Synth::rational_reduce(&mut twice);
        assert_eq!(once, twice);
        assert!(once.num < once.den);
        assert_eq!(Synth::gcd(once.num, once.den), 1);
    }
}

#[test]
fn reduce_keeps_the_value() {
    for (i, n, d) in [(1u64, 7u64, 2u64), (0, 6, 8), (9, 1_000_000, 999_999), (2, 123_456_789, 987_654_321)] {
        let r = reduced(i, n, d);
        let before = (i as u128 * d as u128 + n as u128) * r.den as u128;
        let after = (r.integer as u128 * r.den as u128 + r.num as u128) * d as u128;
        assert_eq!(before, after);
    }
}

#[test]
fn double_doubles_and_reduces() {
    let mut r = rate(1_000_000, 0, 1);
    Synth::rational_double(&mut r);
    assert_eq!(r, rate(2_000_000, 0, 1));
    let mut r = rate(3, 1, 2);
    Synth::rational_double(&mut r);
    assert_eq!(r, rate(7, 0, 1));
    let mut r = rate(2, 3, 8);
    Synth::rational_double(&mut r);
    assert_eq!(r, rate(4, 3, 4));
    let mut r = rate(0, 2, 3);
    Synth::rational_double(&mut r);
    assert_eq!(r, rate(1, 1, 3));
}

#[test]
fn update_base_is_53_plus_11_per_index() {
    for (index, base) in [(0u8, 53u16), (1, 64), (2, 75), (3, 86), (255, 2858)] {
        let mut ms = Si5338Multisynth::default();
        ms.index = index;
        ms.a = 9;
        Synth::update_base(&mut ms);
        assert_eq!(ms.base, base);
        assert_eq!(ms.index, index);
        assert_eq!(ms.a, 9);
    }
}

#[test]
fn pack_regs_of_316_and_four_fifths() {
    let mut ms = Si5338Multisynth::default();
    ms.a = 316;
    ms.b = 4;
    ms.c = 5;
    ms.r = 4;
    Synth::pack_regs(&mut ms);
    assert_eq!((ms.p1, ms.p2, ms.p3), (40038, 2, 5));
    assert_eq!(ms.regs, [102, 156, 8, 0, 0, 0, 5, 0, 0, 0]);
    assert_eq!((ms.a, ms.b, ms.c, ms.r), (316, 4, 5, 4));
}

#[test]
fn pack_regs_spreads_p2_over_four_registers() {
    let mut ms = Si5338Multisynth::default();
    ms.a = 12;
    ms.b = 44_799_996;
    ms.c = 66_666_667;
    Synth::pack_regs(&mut ms);
    assert_eq!((ms.p1, ms.p2, ms.p3), (1110, 1_066_126, 66_666_667));
    assert_eq!(ms.regs, [86, 4, 56, 18, 65, 0, 171, 64, 249, 3]);
}

#[test]
fn unpack_regs_reads_the_layout() {
    let mut ms = Si5338Multisynth::default();
    ms.regs = [86, 4, 56, 18, 65, 0, 171, 64, 249, 3];
    ms.r = 1;
    Synth::unpack_regs(&mut ms);
    assert_eq!((ms.p1, ms.p2, ms.p3), (1110, 1_066_126, 66_666_667));
    assert_eq!((ms.a, ms.b, ms.c), (12, 44_799_996, 66_666_667));
    assert_eq!(ms.r, 1);
}

#[test]
fn unpack_regs_masks_the_top_of_p3_and_p1() {
    let mut ms = Si5338Multisynth::default();
    ms.regs = [0xff; 10];
    Synth::unpack_regs(&mut ms);
    assert_eq!(ms.p1, 0x3_ffff);
    assert_eq!(ms.p2, 0x3fff_ffff);
    assert_eq!(ms.p3, 0x3fff_ffff);
    assert_eq!(ms.a, (0x3_ffff + 512) / 128);
}

#[test]
fn pack_then_unpack_gives_the_divider_back() {
    let cases: [(u32, u32, u32); 9] = [
        (8, 0, 1),
        (567, 0, 1),
        (316, 4, 5),
        (567, 153, 69_841),
        (12, 84, 125),
        (101, 245_940_371, 654_097_613),
        (8, 0x3fff_fffe, 0x3fff_ffff),
        (567, 0x3fff_fffe, 0x3fff_ffff),
        (300, 1, 0x3fff_ffff),
    ];
    for (a, b, c) in cases {
        let mut ms = Si5338Multisynth::default();
        ms.a = a;
        ms.b = b;
        ms.c = c;
        ms.r = 2;
        Synth::pack_regs(&mut ms);
        let regs = ms.regs;
        let mut back = Si5338Multisynth::default();
        back.regs = regs;
        Synth::unpack_regs(&mut back);
        assert_eq!((back.a, back.b, back.c), (a, b, c));
        assert_eq!((back.p1, back.p2, back.p3), (ms.p1, ms.p2, ms.p3));
    }
}

#[test]
fn unpacking_loses_a_denominator_of_two_to_the_thirty() {
    let mut ms = Si5338Multisynth::default();
    ms.a = 8;
    ms.b = 1;
    ms.c = 0x4000_0000;
    Synth::pack_regs(&mut ms);
    let mut back = Si5338Multisynth::default();
    back.regs = ms.regs;
    Synth::unpack_regs(&mut back);
    assert_eq!(back.c, 0);
}

#[test]
fn multisynth_for_one_megahertz_sample_clock() {
    for index in [1u8, 2] {
        let ms = plan(index, 1_000_000, 0, 1).unwrap();
        assert_eq!((ms.a, ms.b, ms.c, ms.r), (316, 4, 5, 4));
        assert_eq!((ms.p1, ms.p2, ms.p3), (40038, 2, 5));
        assert_eq!(ms.regs, [102, 156, 8, 0, 0, 0, 5, 0, 0, 0]);
        assert_eq!(ms.base, 53 + 11 * index as u16);
    }
}

#[test]
fn multisynth_does_not_double_for_the_smb_output() {
    let ms = plan(3, 38_400_000, 0, 1).unwrap();
    assert_eq!((ms.a, ms.b, ms.c, ms.r), (66, 0, 1, 1));
    let ms = plan(0, 38_400_000, 0, 1).unwrap();
    assert_eq!((ms.a, ms.b, ms.c, ms.r), (66, 0, 1, 1));
    let ms = plan(1, 38_400_000, 0, 1).unwrap();
    assert_eq!((ms.a, ms.b, ms.c, ms.r), (33, 0, 1, 1));
}

#[test]
fn multisynth_doubles_until_five_megahertz() {
    let ms = plan(3, 5_000_000, 0, 1).unwrap();
    assert_eq!((ms.a, ms.b, ms.c, ms.r), (506, 22, 25, 1));
    let ms = plan(3, 4_999_999, 0, 1).unwrap();
    assert_eq!((ms.a, ms.b, ms.c, ms.r), (253, 2_200_253, 4_999_999, 2));
    let ms = plan(1, 80_000, 0, 1).unwrap();
    assert_eq!((ms.a, ms.b, ms.c, ms.r), (495, 0, 1, 32));
}

#[test]
fn multisynth_stops_doubling_at_thirty_two() {
    let ms = plan(3, 139_682, 0, 1).unwrap();
    assert_eq!((ms.a, ms.b, ms.c, ms.r), (567, 153, 69_841, 32));
    assert_eq!(ms.regs, [128, 25, 1, 50, 1, 0, 209, 16, 1, 0]);
}

#[test]
fn multisynth_rejects_a_whole_part_below_eight() {
    assert_eq!(plan(3, 316_800_000, 0, 1).unwrap().a, 8);
    assert!(matches!(plan(3, 316_800_001, 0, 1), Err(BladeRfError::Range)));
    assert_eq!(plan(1, 158_400_000, 0, 1).unwrap().a, 8);
    assert!(matches!(plan(1, 158_400_001, 0, 1), Err(BladeRfError::Range)));
    assert!(matches!(plan(3, 4_000_000_000, 0, 1), Err(BladeRfError::Range)));
}

#[test]
fn multisynth_rejects_a_whole_part_above_567() {
    assert!(matches!(plan(3, 100_000, 0, 1), Err(BladeRfError::Range)));
    assert!(matches!(plan(3, 0, 0, 1), Err(BladeRfError::Range)));
    assert!(matches!(plan(3, 0, 1, 2), Err(BladeRfError::Range)));
}

#[test]
fn multisynth_leaves_the_state_alone_when_it_rejects() {
    let mut ms = Si5338Multisynth::default();
    ms.index = 3;
    ms.a = 1;
    ms.b = 2;
    ms.c = 3;
    ms.regs = [7; 10];
    let before = ms;
    assert!(Synth::calculate_multisynth(&mut ms, &rate(400_000_000, 0, 1)).is_err());
    assert_eq!(ms, before);
}

#[test]
fn multisynth_halves_a_fraction_beyond_thirty_bits() {
    let ms = plan(3, 25_000_000, 123_456_789, 987_654_321).unwrap();
    assert_eq!((ms.a, ms.b, ms.c, ms.r), (101, 245_940_371, 654_097_613, 1));
    assert!(ms.c <= 1 << 30);
    let mut m = ms;
    let mut actual = rate(0, 0, 0);
    Synth::calculate_ms_freq(&mut m, &mut actual);
    assert_eq!(actual, rate(25_000_000, 230_200_000, 1_841_938_869));
}

#[test]
fn ms_freq_halves_the_sample_clocks() {
    let mut ms = Si5338Multisynth::default();
    ms.a = 316;
    ms.b = 4;
    ms.c = 5;
    ms.r = 4;
    let mut actual = rate(9, 9, 9);
    ms.index = 2;
    Synth::calculate_ms_freq(&mut ms, &mut actual);
    assert_eq!(actual, rate(1_000_000, 0, 1));
    ms.index = 3;
    Synth::calculate_ms_freq(&mut ms, &mut actual);
    assert_eq!(actual, rate(2_000_000, 0, 1));
    ms.index = 0;
    ms.r = 1;
    Synth::calculate_ms_freq(&mut ms, &mut actual);
    assert_eq!(actual, rate(8_000_000, 0, 1));
}

#[test]
fn output_divider_register_holds_the_logarithm() {
    for (r, val) in [(1u32, 0xc0u8), (2, 0xc4), (4, 0xc8), (8, 0xcc), (16, 0xd0), (32, 0xd4), (0, 0xc0), (3, 0xc4), (33, 0xd4)] {
        assert_eq!(Synth::rdiv_register(r), val);
    }
    for (val, r) in [(0xc0u8, 1u32), (0xc4, 2), (0xc8, 4), (0xd4, 32), (0xdc, 128), (0x00, 1), (0xff, 128)] {
        assert_eq!(Synth::rdiv_from_register(val), r);
    }
}

#[test]
fn rates_are_rejected_before_any_exchange() {
    let chip = Synth::new(NoLink);
    assert!(matches!(chip.set_smb_freq(139_681), Err(BladeRfError::Range)));
    assert!(matches!(chip.set_smb_freq(200_000_001), Err(BladeRfError::Range)));
    assert!(matches!(chip.set_smb_freq(0), Err(BladeRfError::Range)));
    assert!(matches!(chip.set_smb_freq(u32::MAX), Err(BladeRfError::Range)));
    assert!(matches!(chip.set_sample_rate(0, 79_999), Err(BladeRfError::Range)));
    assert!(matches!(chip.set_sample_rate(1, 158_400_001), Err(BladeRfError::Range)));
    assert!(matches!(chip.set_rational_smb_freq(&rate(1_000_000, 1, 0)), Err(BladeRfError::Range)));
    assert!(matches!(
        chip.set_rational_smb_freq(&rate(u64::MAX, 5, 2)),
        Err(BladeRfError::Range)
    ));
    assert!(matches!(
        chip.set_rational_multisynth(3, 1, rate(1_000_000, 1, 8_000_000_000)),
        Err(BladeRfError::Range)
    ));
}

#[test]
fn supported_rates_reach_the_link() {
    let chip = Synth::new(NoLink);
    let lost = Err(BladeRfError::Transport(TransportError::Disconnected));
    assert_eq!(chip.set_smb_freq(139_682), lost);
    assert_eq!(chip.set_smb_freq(200_000_000), lost);
    assert_eq!(chip.set_sample_rate(0, 80_000), lost);
    assert_eq!(chip.set_sample_rate(1, 1_000_000), lost);
}

#[test]
fn plan_for_one_megahertz_on_the_transmit_channel() {
    let ms = Synth::plan_sample_rate(1, &rate(1_000_000, 0, 1)).unwrap();
    assert_eq!((ms.index, ms.base, ms.enable), (2, 75, 0x03));
    assert_eq!((ms.a, ms.b, ms.c, ms.r), (316, 4, 5, 4));
    assert_eq!(ms.regs, [102, 156, 8, 0, 0, 0, 5, 0, 0, 0]);
    assert_eq!(ms.requested, rate(1_000_000, 0, 1));
    assert_eq!(ms.actual, rate(1_000_000, 0, 1));
    let ms = Synth::plan_sample_rate(0, &rate(0, 3_000_000, 3)).unwrap();
    assert_eq!((ms.index, ms.base, ms.enable), (1, 64, 0x01));
    assert_eq!(ms.requested, rate(1_000_000, 0, 1));
}

#[test]
fn plan_rejects_what_the_chip_cannot_do() {
    assert_eq!(Synth::plan_sample_rate(0, &rate(79_999, 0, 1)), Err(BladeRfError::Range));
    assert_eq!(Synth::plan_sample_rate(0, &rate(79_999, 1, 0)), Err(BladeRfError::Range));
    assert_eq!(Synth::plan_sample_rate(1, &rate(158_400_001, 0, 1)), Err(BladeRfError::Range));
    assert_eq!(Synth::plan_smb_freq(&rate(139_681, 0, 1)), Err(BladeRfError::Range));
    assert_eq!(Synth::plan_smb_freq(&rate(200_000_001, 0, 1)), Err(BladeRfError::Range));
    assert_eq!(Synth::plan_smb_freq(&rate(u64::MAX, 2, 1)), Err(BladeRfError::Range));
    assert_eq!(Synth::plan_multisynth(0, 1, rate(0, 0, 1)), Err(BladeRfError::Range));
    assert_eq!(
        Synth::plan_multisynth(0, 1, rate(1_000_000, 1, 7_278_544_853)),
        Err(BladeRfError::Range)
    );
    assert!(Synth::plan_multisynth(0, 1, rate(1_000_000, 1, 7_278_544_852)).is_ok());
}

#[test]
fn plan_for_the_ends_of_the_smb_range() {
    let low = Synth::plan_smb_freq(&rate(139_682, 0, 1)).unwrap();
    assert_eq!((low.index, low.base, low.enable), (3, 86, 0x01));
    assert_eq!((low.a, low.b, low.c, low.r), (567, 153, 69_841, 32));
    assert_eq!(low.actual, rate(139_682, 0, 1));
    let high = Synth::plan_smb_freq(&rate(200_000_000, 0, 1)).unwrap();
    assert_eq!((high.a, high.b, high.c, high.r), (12, 84, 125, 1));
    assert_eq!(high.actual, rate(200_000_000, 0, 1));
    let top = Synth::plan_smb_freq(&rate(200_000_000, 999, 1000)).unwrap();
    assert_eq!(top.requested, rate(200_000_000, 999, 1000));
}

#[test]
fn sample_clock_enables_of_the_channels() {
    assert_eq!(Synth::sample_clock_enables(0), 0x01);
    assert_eq!(Synth::sample_clock_enables(1), 0x03);
    assert_eq!(Synth::sample_clock_enables(2), 0x01);
}

#[test]
fn register_writes_of_a_plan() {
    let ms = Synth::plan_sample_rate(1, &rate(1_000_000, 0, 1)).unwrap();
    assert_eq!(
        Synth::multisynth_writes(&ms),
        vec![
            (75, 102),
            (76, 156),
            (77, 8),
            (78, 0),
            (79, 0),
            (80, 0),
            (81, 5),
            (82, 0),
            (83, 0),
            (84, 0),
            (33, 0xc8)
        ]
    );
    let smb = Synth::plan_smb_freq(&rate(139_682, 0, 1)).unwrap();
    let writes = Synth::multisynth_writes(&smb);
    assert_eq!(writes.len(), 11);
    assert_eq!(writes[0], (86, 128));
    assert_eq!(writes[9], (95, 0));
    assert_eq!(writes[10], (34, 0xd4));
}
