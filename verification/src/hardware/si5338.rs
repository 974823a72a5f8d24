//! The Si5338 clock synthesizer: multisynth dividers and their registers.
//!
//! Each of the four multisynths divides the VCO frequency by `a + b/c` and
//! then by a power of two `r`: `f_out = f_vco / (a + b/c) / r`. The chip
//! takes the divider as three integers `p1`, `p2`, `p3`, packed into ten
//! registers.

use vstd::prelude::*;
use vstd::arithmetic::div_mod::{
    lemma_div_is_ordered, lemma_fundamental_div_mod, lemma_fundamental_div_mod_converse,
};
use crate::bladerf::{BladerfRationalRate, BLADERF_MODULE_RX, BLADERF_MODULE_TX};
use crate::board::bladerf1::{
    BladeRfError, BLADERF_SAMPLERATE_MIN, BLADERF_SMB_FREQUENCY_MAX, BLADERF_SMB_FREQUENCY_MIN,
};
use crate::hardware::registers::{RegOp, Rmw};
use crate::hardware::rational::{
    gcd, lemma_gcd_divides, lemma_gcd_positive, lemma_reduced_idempotent,
    lemma_reduced_is_reduced, lemma_reduced_same_value, lemma_rest_is_remainder, Rational,
};
use crate::nios::constants::{
    NIOS_PKT_8X8_TARGET_SI5338, NIOS_PKT_FLAG_READ, NIOS_PKT_FLAG_WRITE,
};
use crate::nios::packet8x8::NiosPacket8x8;
use crate::nios::{Nios, TransportError};

verus! {

const ENDPOINT_OUT: u8 = 0x02;

const ENDPOINT_IN: u8 = 0x82;

/// Frequency of the VCO that all multisynths divide, in Hz.
pub const SI5338_F_VCO: u64 = 38400000 * 66;

/// Enable bit of output A.
pub const SI5338_EN_A: u8 = 0x01;

/// Enable bit of output B.
pub const SI5338_EN_B: u8 = 0x02;

/// Largest denominator of a requested rate: above it the product with the
/// VCO frequency no longer fits 64 bits.
pub const SI5338_DEN_MAX: u64 = 7278544852;

/// Largest whole part and numerator of a requested rate: a quarter of the
/// 64-bit range, which leaves room for one doubling.
pub const SI5338_PART_MAX: u64 = 0x1FFF_FFFF_FFFF_FFFF;

/// The state of one multisynth: what was asked of it, its divider, and the
/// register image of the divider.
#[derive(Debug, Clone, Copy, PartialEq, Eq)]
pub struct Si5338Multisynth {
    /// Multisynth to program (0-3)
    pub index: u8,
    /// Address of the first of the ten divider registers.
    /// [`SI5338::update_base`] derives it from the index as
    /// `53 + 11 * index`, where the chip keeps the registers of that
    /// multisynth. Reading and writing go by this field and not by the
    /// index: a multisynth whose base is left at 0 is read and written from
    /// register 0 on.
    pub base: u16,
    /// Requested and actual sample rates
    pub requested: BladerfRationalRate,
    pub actual: BladerfRationalRate,
    /// Enables for A and/or B outputs
    pub enable: u8,
    /// f_out = fvco / (a + b/c) / r
    pub a: u32,
    pub b: u32,
    pub c: u32,
    pub r: u32,
    /// (a, b, c) in multisynth (p1, p2, p3) form
    pub p1: u32,
    pub p2: u32,
    pub p3: u32,
    /// (p1, p2, p3) in register form
    pub regs: [u8; 10],
}

impl Default for Si5338Multisynth {
    fn default() -> (ms: Self)
        ensures
            ms.index == 0,
            ms.base == 0,
            ms.requested == (BladerfRationalRate { integer: 0, num: 0, den: 0 }),
            ms.actual == (BladerfRationalRate { integer: 0, num: 0, den: 0 }),
            ms.enable == 0,
            ms.a == 0,
            ms.b == 0,
            ms.c == 0,
            ms.r == 0,
            ms.p1 == 0,
            ms.p2 == 0,
            ms.p3 == 0,
            ms.regs@ == Seq::new(10, |i: int| 0u8),
    {
        let zero = BladerfRationalRate { integer: 0, num: 0, den: 0 };
        let ms = Si5338Multisynth {
            index: 0,
            base: 0,
            requested: zero,
            actual: zero,
            enable: 0,
            a: 0,
            b: 0,
            c: 0,
            r: 0,
            p1: 0,
            p2: 0,
            p3: 0,
            regs: [0u8; 10],
        };
        assert(ms.regs@ =~= Seq::new(10, |i: int| 0u8));
        ms
    }
}

impl Si5338Multisynth {
    /// `p1 = floor(128 * (a * c + b) / c) - 512`
    pub open spec fn p1_of(a: int, b: int, c: int) -> int {
        (128 * (a * c + b)) / c - 512
    }

    /// `p2 = (128 * b) mod c`
    pub open spec fn p2_of(b: int, c: int) -> int {
        (128 * b) % c
    }

    /// The ten divider registers: `p1` in registers 0 and 1 and the two low
    /// bits of register 2, `p2` in the six high bits of register 2 and in
    /// registers 3 to 5, `p3` in registers 6 to 9.
    pub open spec fn regs_of(p1: u32, p2: u32, p3: u32) -> Seq<u8> {
        seq![
            (p1 & 0xff) as u8,
            ((p1 >> 8) & 0xff) as u8,
            (((p2 & 0x3f) << 2) | ((p1 >> 16) & 0x3)) as u8,
            ((p2 >> 6) & 0xff) as u8,
            ((p2 >> 14) & 0xff) as u8,
            ((p2 >> 22) & 0xff) as u8,
            (p3 & 0xff) as u8,
            ((p3 >> 8) & 0xff) as u8,
            ((p3 >> 16) & 0xff) as u8,
            ((p3 >> 24) & 0xff) as u8,
        ]
    }

    /// The 18 bits of `p1` in a register image.
    pub open spec fn p1_in(regs: Seq<u8>) -> u32 {
        (((regs[2] as u32) & 3) << 16) | ((regs[1] as u32) << 8) | (regs[0] as u32)
    }

    /// The 30 bits of `p2` in a register image.
    pub open spec fn p2_in(regs: Seq<u8>) -> u32 {
        ((regs[5] as u32) << 22) | ((regs[4] as u32) << 14) | ((regs[3] as u32) << 6) | ((
        regs[2] as u32 >> 2) & 0x3f)
    }

    /// The 30 bits of `p3` in a register image.
    pub open spec fn p3_in(regs: Seq<u8>) -> u32 {
        (((regs[9] as u32) & 0x3f) << 24) | ((regs[8] as u32) << 16) | ((regs[7] as u32) << 8)
            | (regs[6] as u32)
    }

    /// `a = floor((p1 + 512) / 128)`
    pub open spec fn a_of(p1: int) -> int {
        (p1 + 512) / 128
    }

    /// `b = floor((((p1 + 512) mod 128) * p3 + p2 + 64) / 128)`: the fraction
    /// that the low seven bits of `p1 + 512` and `p2` stand for, rounded.
    pub open spec fn b_of(p1: int, p2: int, p3: int) -> int {
        (((p1 + 512) % 128) * p3 + p2 + 64) / 128
    }

    /// Whether `(a, b, c)` can be packed: `c` is not zero, `p1` is not
    /// negative, and everything fits the machine words used.
    pub open spec fn packable(&self) -> bool {
        &&& self.c > 0
        &&& 128 * (self.a * self.c + self.b) <= u64::MAX
        &&& 0 <= Self::p1_of(self.a as int, self.b as int, self.c as int) <= u32::MAX
    }

    /// Whether every register address that the multisynth stands for fits
    /// eight bits: the enable register at `36 + index`, the divider registers
    /// from `base` on, and the output divider register at `31 + index`.
    pub open spec fn addressable(&self) -> bool {
        self.index <= 219 && self.base <= 246
    }

    /// Whether the multisynth holds what twelve reads gave, in their order:
    /// of the first value, from the enable register, the three low bits;
    /// the next ten as the register image; and the output divider that the
    /// last value stands for.
    pub open spec fn holds(&self, values: Seq<u8>) -> bool {
        &&& values.len() == 12
        &&& self.enable == values[0] & 7
        &&& forall|k: int| 0 <= k < 10 ==> self.regs@[k] == values[1 + k]
        &&& self.r == rdiv_in(values[11])
    }

    /// Whether the divider fields are what the register image holds.
    pub open spec fn unpacked(&self) -> bool {
        &&& self.p1 == Self::p1_in(self.regs@)
        &&& self.p2 == Self::p2_in(self.regs@)
        &&& self.p3 == Self::p3_in(self.regs@)
        &&& self.c == self.p3
        &&& self.a == Self::a_of(self.p1 as int)
        &&& self.b == Self::b_of(self.p1 as int, self.p2 as int, self.p3 as int)
    }

    /// Whether this is the multisynth as it has to be written to the chip
    /// to set multisynth `index` to the reduced rate `rate` with the outputs
    /// in `enable` switched on.
    pub open spec fn is_plan_for(&self, index: u8, enable: u8, rate: Rational) -> bool {
        let (out, r) = settled_rate(index, rate);
        let abc = divider_for(out);
        let (b, c) = shrunk(abc.num, abc.den);
        &&& self.index == index
        &&& self.enable == enable
        &&& self.base == 53 + 11 * index
        &&& self.requested@ == rate
        &&& self.actual@ == achieved_rate(index, rate)
        &&& self.a == abc.integer
        &&& self.b == b
        &&& self.c == c
        &&& self.r == r
        &&& self.p1 == Self::p1_of(self.a as int, self.b as int, self.c as int)
        &&& self.p2 == Self::p2_of(self.b as int, self.c as int)
        &&& self.p3 == self.c
        &&& self.regs@ == Self::regs_of(self.p1, self.p2, self.p3)
    }

    /// How often the output frequency is halved on its way to the consumer:
    /// multisynths 1 and 2 clock the transceiver's sample paths, which run
    /// at half their clock.
    pub open spec fn consumer_ratio(index: u8) -> nat {
        if index == 1 || index == 2 {
            2
        } else {
            1
        }
    }

    /// The rate that the divider `(a, b, c, r)` gives:
    /// `f_vco * c / (r * (a * c + b))`, halved for the sample clocks.
    pub open spec fn frequency(&self) -> Rational {
        Rational {
            integer: 0,
            num: SI5338_F_VCO as nat * self.c as nat,
            den: self.r as nat * (self.a as nat * self.c as nat + self.b as nat)
                * Self::consumer_ratio(self.index),
        }.reduced()
    }
}

/// Whether a rate can be handed to the divider search without leaving the
/// 64-bit range on the way.
pub open spec fn rate_in_limits(rate: BladerfRationalRate) -> bool {
    &&& 0 < rate.den <= SI5338_DEN_MAX
    &&& rate.num <= SI5338_PART_MAX
    &&& rate.integer <= SI5338_PART_MAX
}

/// The rate that multisynth `index` has to put out for `rate` to arrive:
/// twice the rate for the sample clocks.
pub open spec fn output_rate(index: u8, rate: Rational) -> Rational {
    if index == 1 || index == 2 {
        rate.doubled()
    } else {
        rate
    }
}

/// Doubles `rate` together with `r` until its whole part has reached 5 MHz
/// or `r` has reached 32.
pub open spec fn scaled_rate(rate: Rational, r: nat) -> (Rational, nat)
    decreases
            (if r < 32 {
                32 - r
            } else {
                0
            }),
{
    if rate.integer < 5000000 && 0 < r && r < 32 {
        scaled_rate(rate.doubled(), 2 * r)
    } else {
        (rate, r)
    }
}

/// The divider `a + b/c = f_vco * den / (integer * den + num)` for a rate,
/// in lowest terms.
pub open spec fn divider_for(rate: Rational) -> Rational {
    Rational {
        integer: 0,
        num: SI5338_F_VCO as nat * rate.den,
        den: rate.integer * rate.den + rate.num,
    }.reduced()
}

/// Halves numerator and denominator until neither exceeds 2^30.
pub open spec fn shrunk(num: nat, den: nat) -> (nat, nat)
    decreases num + den,
{
    if num > 0x4000_0000 || den > 0x4000_0000 {
        shrunk(num / 2, den / 2)
    } else {
        (num, den)
    }
}

/// The output rate and `r` that the divider search settles on for `rate`
/// on multisynth `index`.
pub open spec fn settled_rate(index: u8, rate: Rational) -> (Rational, nat) {
    scaled_rate(output_rate(index, rate), 1)
}

/// Whether the search finds a divider for `rate` on multisynth `index`:
/// the whole part of the divider lies in 8..=567, which the chip demands.
pub open spec fn divider_exists(index: u8, rate: Rational) -> bool {
    let (out, r) = settled_rate(index, rate);
    8 <= divider_for(out).integer <= 567
}

/// The rate that the divider found for `rate` on multisynth `index` really
/// gives: it is recomputed from the integers that go into the registers,
/// and so shows what halving the fraction has cost.
pub open spec fn achieved_rate(index: u8, rate: Rational) -> Rational {
    let (out, r) = settled_rate(index, rate);
    let abc = divider_for(out);
    let (b, c) = shrunk(abc.num, abc.den);
    Rational {
        integer: 0,
        num: SI5338_F_VCO as nat * c,
        den: r * (abc.integer * c + b) * Si5338Multisynth::consumer_ratio(index),
    }.reduced()
}

/// Whether multisynth `index` can be set to `rate`: the rate is a number,
/// its reduced form stays within the 64-bit limits of the search, and the
/// search finds a divider.
pub open spec fn rate_supported(index: u8, rate: BladerfRationalRate) -> bool {
    &&& rate.den > 0
    &&& rate.integer + rate.num / rate.den <= u64::MAX
    &&& rate@.reduced().den <= SI5338_DEN_MAX
    &&& rate@.reduced().integer <= SI5338_PART_MAX
    &&& divider_exists(index, rate@.reduced())
}

/// The multisynth that clocks channel `ch`: 1 for the receive path, 2 for
/// the transmit path.
pub open spec fn sample_clock_index(ch: u8) -> u8 {
    if ch == BLADERF_MODULE_RX {
        1
    } else {
        2
    }
}

/// The enable bits for the sample clock of channel `ch`: output A, and for
/// the transmit channel output B as well.
pub open spec fn sample_clock_enables_of(ch: u8) -> u8 {
    if ch == BLADERF_MODULE_TX {
        0x03
    } else {
        SI5338_EN_A
    }
}

/// Whether `rate` can be set as a sample rate of channel `ch`.
pub open spec fn sample_rate_supported(ch: u8, rate: BladerfRationalRate) -> bool {
    &&& rate_supported(sample_clock_index(ch), rate)
    &&& rate@.reduced().integer >= BLADERF_SAMPLERATE_MIN
}

/// Whether `rate` can be set as the frequency of the SMB clock output.
pub open spec fn smb_freq_supported(rate: BladerfRationalRate) -> bool {
    &&& rate.den > 0
    &&& rate.integer + rate.num / rate.den <= u64::MAX
    &&& BLADERF_SMB_FREQUENCY_MIN <= rate@.reduced().integer <= BLADERF_SMB_FREQUENCY_MAX
    &&& rate_supported(3, rate)
}

/// The whole number of binary digits of `r` after the first: the logarithm
/// to base 2, rounded down, and 0 for 0.
pub open spec fn log2_floor(r: nat) -> nat
    decreases r,
{
    if r <= 1 {
        0
    } else {
        1 + log2_floor(r / 2)
    }
}

/// The value of the output divider register for `r`: the fixed bits 0xC0
/// and the logarithm of `r` in bits 2 to 4.
pub open spec fn rdiv_register_of(r: u32) -> u8 {
    0xc0u8 | ((log2_floor(r as nat) as u8) << 2)
}

/// The register writes that carry the divider of `ms` to the chip, as pairs
/// of address and value: the ten divider registers from `ms.base` on, then
/// the output divider register at `31 + ms.index`.
pub open spec fn multisynth_writes_of(ms: Si5338Multisynth) -> Seq<(u8, u8)> {
    Seq::new(
        11,
        |i: int|
            if i < 10 {
                ((ms.base + i) as u8, ms.regs@[i])
            } else {
                ((31 + ms.index) as u8, rdiv_register_of(ms.r))
            },
    )
}

/// The request frame that carries a register access to the chip: a read
/// frame for the address with a data field of zero, or a write frame for the
/// address and the value.
pub open spec fn request_of(op: RegOp) -> Seq<u8> {
    match op {
        RegOp::Read(addr) => NiosPacket8x8::frame(
            NIOS_PKT_8X8_TARGET_SI5338,
            NIOS_PKT_FLAG_READ,
            addr,
            0,
        ),
        RegOp::Write(addr, data) => NiosPacket8x8::frame(
            NIOS_PKT_8X8_TARGET_SI5338,
            NIOS_PKT_FLAG_WRITE,
            addr,
            data,
        ),
    }
}

/// The output divider that a register value stands for.
pub open spec fn rdiv_in(val: u8) -> u32 {
    1u32 << ((val >> 2) & 7)
}

/// What packing makes of `p1`, `p2` and `p3` is read back unchanged, as
/// long as `p1` fits 18 bits and `p2` and `p3` fit 30 bits.
pub proof fn lemma_regs_round_trip(p1: u32, p2: u32, p3: u32)
    requires
        p1 < 0x4_0000,
        p2 < 0x4000_0000,
        p3 < 0x4000_0000,
    ensures
        Si5338Multisynth::p1_in(Si5338Multisynth::regs_of(p1, p2, p3)) == p1,
        Si5338Multisynth::p2_in(Si5338Multisynth::regs_of(p1, p2, p3)) == p2,
        Si5338Multisynth::p3_in(Si5338Multisynth::regs_of(p1, p2, p3)) == p3,
{
    let r0 = (p1 & 0xff) as u8;
    let r1 = ((p1 >> 8) & 0xff) as u8;
    let r2 = (((p2 & 0x3f) << 2) | ((p1 >> 16) & 0x3)) as u8;
    let r3 = ((p2 >> 6) & 0xff) as u8;
    let r4 = ((p2 >> 14) & 0xff) as u8;
    let r5 = ((p2 >> 22) & 0xff) as u8;
    let r6 = (p3 & 0xff) as u8;
    let r7 = ((p3 >> 8) & 0xff) as u8;
    let r8 = ((p3 >> 16) & 0xff) as u8;
    let r9 = ((p3 >> 24) & 0xff) as u8;
    assert((((r2 as u32) & 3) << 16) | ((r1 as u32) << 8) | (r0 as u32) == p1) by (bit_vector)
        requires
            p1 < 0x4_0000,
            r0 == (p1 & 0xff) as u8,
            r1 == ((p1 >> 8) & 0xff) as u8,
            r2 == (((p2 & 0x3f) << 2) | ((p1 >> 16) & 0x3)) as u8,
    ;
    assert(((r5 as u32) << 22) | ((r4 as u32) << 14) | ((r3 as u32) << 6) | ((r2 as u32 >> 2)
        & 0x3f) == p2) by (bit_vector)
        requires
            p2 < 0x4000_0000,
            r2 == (((p2 & 0x3f) << 2) | ((p1 >> 16) & 0x3)) as u8,
            r3 == ((p2 >> 6) & 0xff) as u8,
            r4 == ((p2 >> 14) & 0xff) as u8,
            r5 == ((p2 >> 22) & 0xff) as u8,
    ;
    assert((((r9 as u32) & 0x3f) << 24) | ((r8 as u32) << 16) | ((r7 as u32) << 8) | (r6 as u32)
        == p3) by (bit_vector)
        requires
            p3 < 0x4000_0000,
            r6 == (p3 & 0xff) as u8,
            r7 == ((p3 >> 8) & 0xff) as u8,
            r8 == ((p3 >> 16) & 0xff) as u8,
            r9 == ((p3 >> 24) & 0xff) as u8,
    ;
}

/// The whole part `a` and the 128ths of the fraction make up `p1 + 512`.
pub proof fn lemma_p1_parts(a: int, b: int, c: int)
    requires
        0 <= a,
        0 <= b,
        c > 0,
    ensures
        Si5338Multisynth::p1_of(a, b, c) + 512 == 128 * a + (128 * b) / c,
        (128 * b) == ((128 * b) / c) * c + Si5338Multisynth::p2_of(b, c),
        0 <= Si5338Multisynth::p2_of(b, c) < c,
        b < c ==> (128 * b) / c < 128,
        b <= c ==> (128 * b) / c <= 128,
{
    let t = 128 * b;
    assert(128 * (a * c + b) == c * (128 * a) + t) by (nonlinear_arith)
        requires
            t == 128 * b,
    ;
    lemma_fundamental_div_mod(t, c);
    assert(c * (128 * a) + t == c * (128 * a + t / c) + t % c) by (nonlinear_arith)
        requires
            t == c * (t / c) + t % c,
    ;
    lemma_fundamental_div_mod_converse(c * (128 * a) + t, c, 128 * a + t / c, t % c);
    assert((t / c) * c == c * (t / c)) by (nonlinear_arith);
    if b < c {
        assert(t < 128 * c);
        lemma_div_is_ordered(t, 128 * c - 1, c);
        assert((128 * c - 1) / c < 128) by (nonlinear_arith)
            requires
                c > 0,
        ;
    }
    if b <= c {
        lemma_div_is_ordered(t, 128 * c, c);
        assert((128 * c) / c == 128) by (nonlinear_arith)
            requires
                c > 0,
        ;
    }
}

/// Packing a divider and unpacking the registers gives the divider back:
/// for every whole part from 8 to 567 and every proper fraction `b/c` with
/// `c` below 2^30.
pub proof fn lemma_pack_unpack_round_trip(a: u32, b: u32, c: u32)
    requires
        8 <= a <= 567,
        b < c,
        c < 0x4000_0000,
    ensures
        ({
            let p1 = Si5338Multisynth::p1_of(a as int, b as int, c as int);
            let p2 = Si5338Multisynth::p2_of(b as int, c as int);
            let regs = Si5338Multisynth::regs_of(p1 as u32, p2 as u32, c);
            &&& 0 <= p1 < 0x4_0000
            &&& 0 <= p2 < 0x4000_0000
            &&& Si5338Multisynth::p1_in(regs) == p1
            &&& Si5338Multisynth::p2_in(regs) == p2
            &&& Si5338Multisynth::p3_in(regs) == c
            &&& Si5338Multisynth::a_of(p1) == a
            &&& Si5338Multisynth::b_of(p1, p2, c as int) == b
        }),
{
    let p1 = Si5338Multisynth::p1_of(a as int, b as int, c as int);
    let p2 = Si5338Multisynth::p2_of(b as int, c as int);
    lemma_p1_parts(a as int, b as int, c as int);
    let f = (128 * b) / (c as int);
    assert(p1 + 512 == 128 * a + f);
    assert(0 <= f < 128);
    lemma_regs_round_trip(p1 as u32, p2 as u32, c);
    lemma_fundamental_div_mod_converse(p1 + 512, 128, a as int, f);
    assert(f * c + p2 == 128 * b);
    lemma_fundamental_div_mod_converse(128 * b + 64, 128, b as int, 64);
}

/// The divider for a rate is the VCO frequency over the rate, in lowest
/// terms: `(a + b/c) * (integer + num/den) = f_vco`, written without
/// fractions.
pub proof fn lemma_divider_solves(rate: Rational)
    requires
        rate.den > 0,
        rate.integer > 0 || rate.num > 0,
    ensures
        divider_for(rate).is_reduced(),
        (divider_for(rate).integer * divider_for(rate).den + divider_for(rate).num) * (
        rate.integer * rate.den + rate.num) == SI5338_F_VCO * rate.den * divider_for(rate).den,
{
    let whole = rate.integer * rate.den + rate.num;
    assert(whole > 0) by (nonlinear_arith)
        requires
            whole == rate.integer * rate.den + rate.num,
            rate.den > 0,
            rate.integer > 0 || rate.num > 0,
            rate.integer >= 0,
            rate.num >= 0,
    ;
    let raw = Rational { integer: 0, num: SI5338_F_VCO as nat * rate.den, den: whole };
    lemma_reduced_is_reduced(raw);
    lemma_reduced_same_value(raw);
    assert(raw.integer * raw.den + raw.num == SI5338_F_VCO * rate.den) by (nonlinear_arith)
        requires
            raw.integer == 0,
            raw.num == SI5338_F_VCO * rate.den,
    ;
    let abc = raw.reduced();
    assert((abc.integer * abc.den + abc.num) * whole == SI5338_F_VCO * rate.den * abc.den)
        by (nonlinear_arith)
        requires
            (raw.integer * raw.den + raw.num) * abc.den == (abc.integer * abc.den + abc.num)
                * raw.den,
            raw.integer * raw.den + raw.num == SI5338_F_VCO * rate.den,
            raw.den == whole,
    ;
}

/// What doubling does to the parts of a rate with a positive denominator.
pub proof fn lemma_doubled_parts(q: Rational)
    requires
        q.den > 0,
    ensures
        q.doubled().integer == 2 * q.integer + (2 * q.num) / q.den,
        0 < q.doubled().den <= q.den,
        q.doubled().num < q.doubled().den,
{
    let d = Rational { integer: 2 * q.integer, num: 2 * q.num, den: q.den };
    lemma_reduced_is_reduced(d);
    lemma_rest_is_remainder(d.num, d.den);
    let rest = d.num % d.den;
    let g = gcd(rest, d.den);
    lemma_gcd_positive(rest, d.den);
    lemma_gcd_divides(rest, d.den);
    lemma_fundamental_div_mod(d.den as int, g as int);
    assert(d.den / g <= d.den) by (nonlinear_arith)
        requires
            d.den == g * (d.den / g),
            g > 0,
            d.den / g >= 0,
    ;
}

/// A rate above an eighth of the VCO frequency asks for a divider below 8.
pub proof fn lemma_divider_below_eight(q: Rational)
    requires
        q.den > 0,
        q.integer > SI5338_F_VCO / 8,
    ensures
        divider_for(q).integer < 8,
{
    let x = SI5338_F_VCO as nat * q.den;
    let d = q.integer * q.den + q.num;
    assert(x < 8 * d && d > 0) by (nonlinear_arith)
        requires
            x == 2534400000 * q.den,
            d == q.integer * q.den + q.num,
            q.integer >= 316800001,
            q.den > 0,
            q.num >= 0,
    ;
    lemma_div_is_ordered(x as int, 8 * d - 1, d as int);
    assert((8 * d - 1) / (d as int) < 8) by (nonlinear_arith)
        requires
            d > 0,
    ;
}

/// Two to the power `n`, for the small `n` of an output divider.
pub open spec fn pow2_small(n: nat) -> nat
    decreases n,
{
    if n == 0 {
        1
    } else {
        2 * pow2_small((n - 1) as nat)
    }
}

/// A number below two to the power `k + 1` has a logarithm of at most `k`.
proof fn lemma_log2_floor_bound(n: nat, k: nat)
    requires
        n < pow2_small(k + 1),
    ensures
        log2_floor(n) <= k,
    decreases k,
{
    if n > 1 {
        assert(pow2_small(k + 1) == 2 * pow2_small(k));
        if k == 0 {
            assert(pow2_small(0) == 1);
        } else {
            lemma_log2_floor_bound(n / 2, (k - 1) as nat);
        }
    }
}

/// A rate without a fraction is its own reduction.
pub proof fn lemma_reduced_whole(q: Rational)
    ensures
        q.num == 0 && q.den == 1 ==> q.reduced() == q,
{
    if q.num == 0 && q.den == 1 {
        assert(gcd(0, 1) == 1) by {
            reveal_with_fuel(gcd, 3);
        }
        assert(q.num / q.den == 0);
        assert(0 * q.den == 0);
        assert(0nat / 1nat == 0 && 1nat / 1nat == 1);
        assert(q.reduced().integer == q.integer);
        assert(q.reduced().num == 0);
        assert(q.reduced().den == 1);
    }
}

/// A divider with `a` up to 567, `b` and `c` up to 2^30 and `r` up to 128
/// gives a rate whose denominator fits 64 bits.
pub proof fn lemma_divider_fits(ms: Si5338Multisynth)
    requires
        ms.a <= 2052,
        ms.b <= 0x4080_0000,
        ms.c <= 0x4000_0000,
        ms.r <= 128,
    ensures
        ms.r * (ms.a * ms.c + ms.b) * Si5338Multisynth::consumer_ratio(ms.index) <= u64::MAX,
{
    let k = Si5338Multisynth::consumer_ratio(ms.index);
    assert(ms.r * (ms.a * ms.c + ms.b) * k <= u64::MAX) by (nonlinear_arith)
        requires
            ms.a <= 2052,
            ms.b <= 0x4080_0000,
            ms.c <= 0x4000_0000,
            ms.r <= 128,
            1 <= k <= 2,
    ;
}

/// What is unpacked from registers is a divider that fits.
pub proof fn lemma_unpacked_fits(ms: Si5338Multisynth)
    requires
        ms.unpacked(),
        ms.r <= 128,
    ensures
        4 <= ms.a <= 2052,
        ms.b <= 0x4080_0000,
        ms.c < 0x4000_0000,
        ms.r * (ms.a * ms.c + ms.b) * Si5338Multisynth::consumer_ratio(ms.index) <= u64::MAX,
{
    let r0 = ms.regs@[0] as u32;
    let r1 = ms.regs@[1] as u32;
    let r2 = ms.regs@[2] as u32;
    let r3 = ms.regs@[3] as u32;
    let r4 = ms.regs@[4] as u32;
    let r5 = ms.regs@[5] as u32;
    let r6 = ms.regs@[6] as u32;
    let r7 = ms.regs@[7] as u32;
    let r8 = ms.regs@[8] as u32;
    let r9 = ms.regs@[9] as u32;
    assert(((r2 & 3) << 16) | (r1 << 8) | r0 < 0x4_0000) by (bit_vector)
        requires
            r0 < 256,
            r1 < 256,
            r2 < 256,
    ;
    assert((r5 << 22) | (r4 << 14) | (r3 << 6) | ((r2 >> 2) & 0x3f) < 0x4000_0000)
        by (bit_vector)
        requires
            r2 < 256,
            r3 < 256,
            r4 < 256,
            r5 < 256,
    ;
    assert(((r9 & 0x3f) << 24) | (r8 << 16) | (r7 << 8) | r6 < 0x4000_0000) by (bit_vector)
        requires
            r6 < 256,
            r7 < 256,
            r8 < 256,
            r9 < 256,
    ;
    let low = (ms.p1 + 512) % 128;
    assert(low * ms.p3 <= 127 * 0x4000_0000) by (nonlinear_arith)
        requires
            0 <= low <= 127,
            ms.p3 < 0x4000_0000,
    ;
    lemma_divider_fits(ms);
}

/// With a whole part of at least 4 in the divider, the output stays at or
/// below a quarter of the VCO frequency.
pub proof fn lemma_frequency_bound(ms: Si5338Multisynth)
    requires
        ms.a >= 4,
    ensures
        ms.frequency().integer <= SI5338_F_VCO / 4,
{
    let num = SI5338_F_VCO as nat * ms.c as nat;
    let den = ms.r as nat * (ms.a as nat * ms.c as nat + ms.b as nat)
        * Si5338Multisynth::consumer_ratio(ms.index);
    lemma_quotient_bound(ms.c as nat, den);
    if den > 0 && ms.c > 0 {
        let k = Si5338Multisynth::consumer_ratio(ms.index);
        assert(den >= 4 * ms.c) by (nonlinear_arith)
            requires
                den == ms.r * (ms.a * ms.c + ms.b) * k,
                den > 0,
                ms.a >= 4,
                ms.r >= 0,
                ms.b >= 0,
                ms.c > 0,
                k >= 1,
        ;
    }
}

/// `f_vco * c / den` is at most a quarter of `f_vco` when `den` is at least
/// `4 * c`.
proof fn lemma_quotient_bound(c: nat, den: nat)
    ensures
        den > 0 && (c == 0 || den >= 4 * c) ==> (SI5338_F_VCO as nat * c) / den <= SI5338_F_VCO
            / 4,
{
    if den > 0 && (c == 0 || den >= 4 * c) {
        let x = SI5338_F_VCO as nat * c;
        if c == 0 {
            assert(x == 0) by (nonlinear_arith)
                requires
                    x == SI5338_F_VCO as nat * c,
                    c == 0,
            ;
            assert(0int / (den as int) == 0) by (nonlinear_arith)
                requires
                    den > 0,
            ;
        } else {
            vstd::arithmetic::div_mod::lemma_div_is_ordered_by_denominator(
                x as int,
                (4 * c) as int,
                den as int,
            );
            assert(x == 633600000 * (4 * c)) by (nonlinear_arith)
                requires
                    x == 2534400000 * c,
            ;
            vstd::arithmetic::div_mod::lemma_div_multiples_vanish(633600000, (4 * c) as int);
            assert(633600000 * (4 * c) == (4 * c) * 633600000) by (nonlinear_arith);
        }
    }
}

/// The rate achieved for a supported request is at most a quarter of the
/// VCO frequency.
pub proof fn lemma_achieved_rate_bound(index: u8, rate: Rational)
    requires
        divider_exists(index, rate),
    ensures
        achieved_rate(index, rate).integer <= SI5338_F_VCO / 4,
{
    let (out, r) = settled_rate(index, rate);
    let abc = divider_for(out);
    let (b, c) = shrunk(abc.num, abc.den);
    let k = Si5338Multisynth::consumer_ratio(index);
    let den = r * (abc.integer * c + b) * k;
    lemma_quotient_bound(c, den);
    if den > 0 && c > 0 {
        assert(den >= 4 * c) by (nonlinear_arith)
            requires
                den == r * (abc.integer * c + b) * k,
                den > 0,
                abc.integer >= 8,
                r >= 0,
                b >= 0,
                c > 0,
                k >= 1,
        ;
    }
}

/// A whole number of Hz as a rate.
pub open spec fn whole_rate(hz: u32) -> BladerfRationalRate {
    BladerfRationalRate { integer: hz as u64, num: 0, den: 1 }
}

/// Doubling a whole rate gives the whole rate of twice the number.
pub proof fn lemma_whole_doubled(hz: nat)
    ensures
        (Rational { integer: hz, num: 0, den: 1 }).doubled() == (Rational {
            integer: 2 * hz,
            num: 0,
            den: 1,
        }),
{
    lemma_reduced_whole(Rational { integer: 2 * hz, num: 0, den: 1 });
}

/// Both ends of the range of the SMB clock output are supported: the lowest
/// frequency with the largest divider, 567, behind an output divider of 32,
/// the highest with a divider of 12.
pub proof fn lemma_smb_bounds_supported()
    ensures
        smb_freq_supported(whole_rate(BLADERF_SMB_FREQUENCY_MIN)),
        smb_freq_supported(whole_rate(BLADERF_SMB_FREQUENCY_MAX)),
        divider_for(settled_rate(3, whole_rate(BLADERF_SMB_FREQUENCY_MIN)@).0).integer == 567,
        settled_rate(3, whole_rate(BLADERF_SMB_FREQUENCY_MIN)@).1 == 32,
        divider_for(settled_rate(3, whole_rate(BLADERF_SMB_FREQUENCY_MAX)@).0).integer == 12,
        settled_rate(3, whole_rate(BLADERF_SMB_FREQUENCY_MAX)@).1 == 1,
{
    let low = whole_rate(BLADERF_SMB_FREQUENCY_MIN)@;
    let high = whole_rate(BLADERF_SMB_FREQUENCY_MAX)@;
    assert(BLADERF_SMB_FREQUENCY_MIN == 139682) by {
        assert(38400000u32 * 66 == 2534400000);
        assert(32u32 * 567 == 18144);
        assert(2534400000u32 / 18144 == 139682);
    }
    lemma_reduced_whole(low);
    lemma_reduced_whole(high);
    lemma_whole_doubled(139682);
    lemma_whole_doubled(279364);
    lemma_whole_doubled(558728);
    lemma_whole_doubled(1117456);
    lemma_whole_doubled(2234912);
    reveal_with_fuel(scaled_rate, 7);
    let out = Rational { integer: 4469824, num: 0, den: 1 };
    assert(settled_rate(3, low) == (out, 32nat));
    assert(2534400000nat / 4469824 == 567);
    assert(divider_for(out).integer == 567);
    assert(settled_rate(3, high) == (high, 1nat));
    assert(2534400000nat / 200000000 == 12);
    assert(divider_for(high).integer == 12);
}

/// A sample rate of 1 MHz is supported on both channels and achieved to the
/// Hz: the sample clock runs at 2 MHz, which an output divider of 4 lifts to
/// 8 MHz, and the VCO frequency over 8 MHz is 316 4/5.
pub proof fn lemma_one_megahertz_supported(ch: u8)
    ensures
        sample_rate_supported(ch, whole_rate(1000000)),
        achieved_rate(sample_clock_index(ch), whole_rate(1000000)@.reduced()) == (Rational {
            integer: 1000000,
            num: 0,
            den: 1,
        }),
{
    let index = sample_clock_index(ch);
    let asked = whole_rate(1000000)@;
    lemma_reduced_whole(asked);
    lemma_whole_doubled(1000000);
    lemma_whole_doubled(2000000);
    lemma_whole_doubled(4000000);
    reveal_with_fuel(scaled_rate, 4);
    let out = Rational { integer: 8000000, num: 0, den: 1 };
    assert(settled_rate(index, asked) == (out, 4nat));
    let raw = Rational { integer: 0, num: 2534400000, den: 8000000 };
    assert(divider_for(out) == raw.reduced());
    assert(2534400000nat / 8000000 == 316);
    assert((2534400000 - 316 * 8000000) as nat == 6400000);
    assert(gcd(6400000, 8000000) == 1600000) by {
        reveal_with_fuel(gcd, 5);
    }
    assert(6400000nat / 1600000 == 4 && 8000000nat / 1600000 == 5);
    assert(raw.reduced() == (Rational { integer: 316, num: 4, den: 5 }));
    reveal_with_fuel(shrunk, 2);
    assert(shrunk(4, 5) == (4nat, 5nat));
    let actual = Rational { integer: 0, num: 12672000000, den: 12672 };
    assert(SI5338_F_VCO as nat * 5 == 12672000000);
    assert(4 * (316 * 5 + 4) * Si5338Multisynth::consumer_ratio(index) == 12672);
    assert(12672000000nat / 12672 == 1000000);
    assert((12672000000 - 1000000 * 12672) as nat == 0);
    assert(gcd(0, 12672) == 12672) by {
        reveal_with_fuel(gcd, 3);
    }
    assert(0nat / 12672 == 0 && 12672nat / 12672 == 1);
    assert(actual.reduced() == (Rational { integer: 1000000, num: 0, den: 1 }));
}

/// The output divider register gives back the output divider that was
/// put into it, for every power of two up to 128.
pub proof fn lemma_rdiv_round_trip(r: u32)
    requires
        r == 1 || r == 2 || r == 4 || r == 8 || r == 16 || r == 32 || r == 64 || r == 128,
    ensures
        rdiv_in(rdiv_register_of(r)) == r,
{
    reveal_with_fuel(log2_floor, 9);
    let k = log2_floor(r as nat) as u8;
    assert(k <= 7);
    assert(((0xc0u8 | (k << 2)) >> 2) & 7 == k) by (bit_vector)
        requires
            k <= 7,
    ;
    assert(1u32 << 0u8 == 1 && 1u32 << 1u8 == 2 && 1u32 << 2u8 == 4 && 1u32 << 3u8 == 8 && 1u32
        << 4u8 == 16 && 1u32 << 5u8 == 32 && 1u32 << 6u8 == 64 && 1u32 << 7u8 == 128)
        by (bit_vector);
}

/// How often the divider search doubles `rate` from the output divider `r`
/// on.
pub open spec fn doublings(rate: Rational, r: nat) -> nat
    decreases
            (if r < 32 {
                32 - r
            } else {
                0
            }),
{
    if rate.integer < 5000000 && 0 < r && r < 32 {
        1 + doublings(rate.doubled(), 2 * r)
    } else {
        0
    }
}

/// `rate` doubled `count` times, and reduced each time.
pub open spec fn doubled_times(rate: Rational, count: nat) -> Rational
    decreases count,
{
    if count == 0 {
        rate
    } else {
        doubled_times(rate.doubled(), (count - 1) as nat)
    }
}

/// Whether `r` is an output divider of the chip that the search can come
/// to: a power of two up to 32.
pub open spec fn is_output_divider(r: nat) -> bool {
    r == 1 || r == 2 || r == 4 || r == 8 || r == 16 || r == 32
}

/// The output divider is the least that will do: the search doubles the
/// rate as often as it takes to reach 5 MHz and no more often, and gives up
/// doubling at an output divider of 32. Every doubling doubles the output
/// divider.
pub proof fn lemma_output_divider_least(rate: Rational, r: nat)
    requires
        is_output_divider(r),
    ensures
        is_output_divider(scaled_rate(rate, r).1),
        scaled_rate(rate, r).0 == doubled_times(rate, doublings(rate, r)),
        scaled_rate(rate, r).1 == r * pow2_small(doublings(rate, r)),
        scaled_rate(rate, r).0.integer >= 5000000 || scaled_rate(rate, r).1 >= 32,
        forall|j: nat|
            j < doublings(rate, r) ==> (#[trigger] doubled_times(rate, j)).integer < 5000000,
    decreases
            (if r < 32 {
                32 - r
            } else {
                0
            }),
{
    if rate.integer < 5000000 && r < 32 {
        lemma_output_divider_least(rate.doubled(), 2 * r);
        let rest = doublings(rate.doubled(), 2 * r);
        assert(pow2_small(rest + 1) == 2 * pow2_small(rest));
        assert(r * pow2_small(rest + 1) == (2 * r) * pow2_small(rest)) by (nonlinear_arith)
            requires
                pow2_small(rest + 1) == 2 * pow2_small(rest),
        ;
        assert forall|j: nat| j < doublings(rate, r) implies (#[trigger] doubled_times(
            rate,
            j,
        )).integer < 5000000 by {
            if j > 0 {
                assert(doubled_times(rate, j) == doubled_times(rate.doubled(), (j - 1) as nat));
            }
        }
    } else {
        assert(pow2_small(0) == 1);
    }
}

/// By how much the divider search scales a whole rate of `hz` from the
/// output divider `r` on.
pub open spec fn whole_scale(hz: nat, r: nat) -> nat
    decreases
            (if r < 32 {
                32 - r
            } else {
                0
            }),
{
    if hz < 5000000 && 0 < r && r < 32 {
        2 * whole_scale(2 * hz, 2 * r)
    } else {
        1
    }
}

/// What the divider search makes of a whole rate: a whole rate again, the
/// rate times a power of two, with the output divider scaled alike. Where
/// the rate was doubled at all, it has stayed below 10 MHz.
pub proof fn lemma_whole_settled(hz: nat, r: nat)
    requires
        is_output_divider(r),
    ensures
        scaled_rate(Rational { integer: hz, num: 0, den: 1 }, r) == ((Rational {
            integer: hz * whole_scale(hz, r),
            num: 0,
            den: 1,
        }), r * whole_scale(hz, r)),
        whole_scale(hz, r) >= 1,
        r * whole_scale(hz, r) <= 32,
        hz * whole_scale(hz, r) >= 5000000 || r * whole_scale(hz, r) == 32,
        whole_scale(hz, r) > 1 ==> hz * whole_scale(hz, r) < 10000000,
    decreases
            (if r < 32 {
                32 - r
            } else {
                0
            }),
{
    if hz < 5000000 && r < 32 {
        lemma_whole_doubled(hz);
        lemma_whole_settled(2 * hz, 2 * r);
        let m = whole_scale(2 * hz, 2 * r);
        assert(whole_scale(hz, r) == 2 * m);
        assert(hz * (2 * m) == (2 * hz) * m) by (nonlinear_arith);
        assert(r * (2 * m) == (2 * r) * m) by (nonlinear_arith);
        if m == 1 {
            assert((2 * hz) * m == 2 * hz) by (nonlinear_arith)
                requires
                    m == 1,
            ;
        }
    } else {
        assert(whole_scale(hz, r) == 1);
        assert(hz * 1 == hz && r * 1 == r);
    }
}

/// A whole number of Hz can be set as the frequency of the SMB clock
/// output exactly when it lies within the range of the output, both ends
/// included.
pub proof fn lemma_smb_range_exact(hz: u32)
    ensures
        smb_freq_supported(whole_rate(hz)) <==> BLADERF_SMB_FREQUENCY_MIN <= hz
            <= BLADERF_SMB_FREQUENCY_MAX,
{
    assert(BLADERF_SMB_FREQUENCY_MIN == 139682) by {
        assert(38400000u32 * 66 == 2534400000);
        assert(32u32 * 567 == 18144);
        assert(2534400000u32 / 18144 == 139682);
    }
    let asked = whole_rate(hz)@;
    lemma_reduced_whole(asked);
    if 139682 <= hz <= 200000000 {
        lemma_whole_settled(hz as nat, 1);
        let m = whole_scale(hz as nat, 1);
        let j = hz as nat * m;
        let out = Rational { integer: j, num: 0, den: 1 };
        assert(1 * m == m) by (nonlinear_arith);
        assert(settled_rate(3, asked) == (out, m));
        assert(SI5338_F_VCO as nat * 1 == 2534400000);
        assert(j * 1 + 0 == j);
        assert(j >= hz) by (nonlinear_arith)
            requires
                j == hz * m,
                m >= 1,
        ;
        assert(divider_for(out).integer == 2534400000nat / j);
        if j >= 5000000 {
            lemma_div_is_ordered(2534400000, 2534400000, 1);
            vstd::arithmetic::div_mod::lemma_div_is_ordered_by_denominator(
                2534400000,
                5000000,
                j as int,
            );
            assert(2534400000int / 5000000 == 506);
            if m == 1 {
                assert(j == hz);
                vstd::arithmetic::div_mod::lemma_div_is_ordered_by_denominator(
                    2534400000,
                    j as int,
                    200000000,
                );
                assert(2534400000int / 200000000 == 12);
            } else {
                vstd::arithmetic::div_mod::lemma_div_is_ordered_by_denominator(
                    2534400000,
                    j as int,
                    10000000,
                );
                assert(2534400000int / 10000000 == 253);
            }
        } else {
            assert(m == 32);
            assert(j >= 4469824) by (nonlinear_arith)
                requires
                    j == hz * m,
                    m == 32,
                    hz >= 139682,
            ;
            vstd::arithmetic::div_mod::lemma_div_is_ordered_by_denominator(
                2534400000,
                4469824,
                j as int,
            );
            assert(2534400000int / 4469824 == 567);
            vstd::arithmetic::div_mod::lemma_div_is_ordered_by_denominator(
                2534400000,
                j as int,
                5000000,
            );
            assert(2534400000int / 5000000 == 506);
        }
        assert(divider_exists(3, asked));
    }
}

/// What the divider search makes of a rate with a proper fraction: a rate
/// with a proper fraction again, whose whole part has grown at least as the
/// output divider has; where the rate was doubled at all, its whole part
/// has stayed below 10 MHz.
pub proof fn lemma_scaled_bounds(rate: Rational, r: nat)
    requires
        is_output_divider(r),
        rate.den > 0,
        rate.num < rate.den,
    ensures
        is_output_divider(scaled_rate(rate, r).1),
        scaled_rate(rate, r).0.den > 0,
        scaled_rate(rate, r).0.num < scaled_rate(rate, r).0.den,
        scaled_rate(rate, r).0.integer * r >= rate.integer * scaled_rate(rate, r).1,
        scaled_rate(rate, r).0.integer >= 5000000 || scaled_rate(rate, r).1 == 32,
        scaled_rate(rate, r).1 > r ==> scaled_rate(rate, r).0.integer <= 9999999,
        scaled_rate(rate, r).1 == r ==> scaled_rate(rate, r).0 == rate,
        scaled_rate(rate, r).1 >= r,
    decreases
            (if r < 32 {
                32 - r
            } else {
                0
            }),
{
    if rate.integer < 5000000 && r < 32 {
        let twice = rate.doubled();
        lemma_doubled_parts(rate);
        assert((2 * rate.num) / rate.den <= 1) by {
            lemma_div_is_ordered((2 * rate.num) as int, (2 * rate.den - 1) as int, rate.den as int);
            assert((2 * rate.den - 1) / (rate.den as int) <= 1) by (nonlinear_arith)
                requires
                    rate.den > 0,
            ;
        }
        lemma_scaled_bounds(twice, 2 * r);
        let out = scaled_rate(twice, 2 * r).0;
        let r2 = scaled_rate(twice, 2 * r).1;
        assert(out.integer * r >= rate.integer * r2) by (nonlinear_arith)
            requires
                out.integer * (2 * r) >= twice.integer * r2,
                twice.integer >= 2 * rate.integer,
                r2 >= 0,
        ;
    } else {
        assert(rate.integer * r == rate.integer * r);
    }
}

/// The whole part of the divider for a rate with a proper fraction lies
/// between the VCO frequency over the whole part of the rate plus one and
/// the VCO frequency over the whole part of the rate.
pub proof fn lemma_divider_between(rate: Rational)
    requires
        rate.den > 0,
        rate.num < rate.den,
        rate.integer > 0,
    ensures
        SI5338_F_VCO as int / (rate.integer + 1) as int <= divider_for(rate).integer,
        divider_for(rate).integer <= SI5338_F_VCO as int / (rate.integer as int),
{
    let f = SI5338_F_VCO as int;
    let d = rate.den as int;
    let i = rate.integer as int;
    let x = f * d;
    let whole = i * d + rate.num;
    assert(i * d > 0 && whole >= i * d && whole <= (i + 1) * d && x >= 0) by (nonlinear_arith)
        requires
            i > 0,
            d > 0,
            0 <= rate.num < d,
            whole == i * d + rate.num,
            x == f * d,
            f >= 0,
    ;
    assert(divider_for(rate).integer == x / whole);
    vstd::arithmetic::div_mod::lemma_div_is_ordered_by_denominator(x, i * d, whole);
    vstd::arithmetic::div_mod::lemma_div_is_ordered_by_denominator(x, whole, (i + 1) * d);
    // f * d / (k * d) == f / k
    assert(x / (i * d) == f / i) by {
        vstd::arithmetic::div_mod::lemma_div_denominator(x, d, i);
        vstd::arithmetic::div_mod::lemma_div_multiples_vanish(f, d);
        assert(d * i == i * d) by (nonlinear_arith);
        assert(x == d * f) by (nonlinear_arith)
            requires
                x == f * d,
        ;
    }
    assert(x / ((i + 1) * d) == f / (i + 1)) by {
        vstd::arithmetic::div_mod::lemma_div_denominator(x, d, i + 1);
        vstd::arithmetic::div_mod::lemma_div_multiples_vanish(f, d);
        assert(d * (i + 1) == (i + 1) * d) by (nonlinear_arith);
        assert(x == d * f) by (nonlinear_arith)
            requires
                x == f * d,
        ;
    }
}

/// Every rate with a proper fraction whose whole part lies within the range
/// of the SMB clock output has a divider.
pub proof fn lemma_smb_rates_have_dividers(rate: Rational)
    requires
        rate.den > 0,
        rate.num < rate.den,
        139682 <= rate.integer <= 200000000,
    ensures
        divider_exists(3, rate),
{
    lemma_scaled_bounds(rate, 1);
    let out = scaled_rate(rate, 1).0;
    let r = scaled_rate(rate, 1).1;
    assert(out.integer * 1 == out.integer);
    assert(out.integer >= 139682 && (r == 32 ==> out.integer >= 4469824)) by (nonlinear_arith)
        requires
            out.integer * 1 >= rate.integer * r,
            rate.integer >= 139682,
            r >= 1,
    ;
    lemma_divider_between(out);
    let a = divider_for(out).integer as int;
    let i = out.integer as int;
    if i >= 5000000 {
        vstd::arithmetic::div_mod::lemma_div_is_ordered_by_denominator(2534400000, 5000000, i);
        assert(2534400000int / 5000000 == 506);
        if r == 1 {
            vstd::arithmetic::div_mod::lemma_div_is_ordered_by_denominator(
                2534400000,
                i + 1,
                200000001,
            );
            assert(2534400000int / 200000001 == 12);
        } else {
            vstd::arithmetic::div_mod::lemma_div_is_ordered_by_denominator(
                2534400000,
                i + 1,
                10000000,
            );
            assert(2534400000int / 10000000 == 253);
        }
    } else {
        vstd::arithmetic::div_mod::lemma_div_is_ordered_by_denominator(2534400000, 4469824, i);
        assert(2534400000int / 4469824 == 567);
        vstd::arithmetic::div_mod::lemma_div_is_ordered_by_denominator(
            2534400000,
            i + 1,
            5000000,
        );
        assert(2534400000int / 5000000 == 506);
    }
    assert(8 <= a <= 567);
}

/// A rate can be set as the frequency of the SMB clock output exactly when
/// the whole part of its reduced form lies within the range of the output,
/// as far as the rate is a number within the 64-bit limits of the search:
/// its denominator is not zero, its whole part with the whole multiples in
/// its numerator fits 64 bits, and its reduced denominator is at most
/// [`SI5338_DEN_MAX`].
pub proof fn lemma_smb_range(rate: BladerfRationalRate)
    requires
        rate.den > 0,
        rate.integer + rate.num / rate.den <= u64::MAX,
        rate@.reduced().den <= SI5338_DEN_MAX,
    ensures
        smb_freq_supported(rate) <==> BLADERF_SMB_FREQUENCY_MIN <= rate@.reduced().integer
            <= BLADERF_SMB_FREQUENCY_MAX,
{
    assert(BLADERF_SMB_FREQUENCY_MIN == 139682) by {
        assert(38400000u32 * 66 == 2534400000);
        assert(32u32 * 567 == 18144);
        assert(2534400000u32 / 18144 == 139682);
    }
    let reduced = rate@.reduced();
    lemma_reduced_is_reduced(rate@);
    if 139682 <= reduced.integer <= 200000000 {
        lemma_smb_rates_have_dividers(reduced);
    }
}

/// What is read back from the chip after a plan was written gives the rate
/// of the plan: where the ten divider registers and the output divider
/// register hold what the plan wrote, and the fraction of the divider is
/// proper with a denominator below 2^30, the multisynth unpacked from them
/// has the divider of the plan and so its rate.
pub proof fn lemma_plan_reads_back(plan: Si5338Multisynth, back: Si5338Multisynth, values: Seq<u8>)
    requires
        8 <= plan.a <= 567,
        plan.b < plan.c,
        plan.c < 0x4000_0000,
        plan.r == 1 || plan.r == 2 || plan.r == 4 || plan.r == 8 || plan.r == 16 || plan.r == 32,
        plan.p1 == Si5338Multisynth::p1_of(plan.a as int, plan.b as int, plan.c as int),
        plan.p2 == Si5338Multisynth::p2_of(plan.b as int, plan.c as int),
        plan.p3 == plan.c,
        plan.regs@ == Si5338Multisynth::regs_of(plan.p1, plan.p2, plan.p3),
        back.index == plan.index,
        back.holds(values),
        back.unpacked(),
        forall|k: int| 0 <= k < 10 ==> values[1 + k] == plan.regs@[k],
        values[11] == rdiv_register_of(plan.r),
    ensures
        back.a == plan.a,
        back.b == plan.b,
        back.c == plan.c,
        back.r == plan.r,
        back.frequency() == plan.frequency(),
{
    lemma_pack_unpack_round_trip(plan.a, plan.b, plan.c);
    lemma_rdiv_round_trip(plan.r);
    assert(back.regs@ =~= plan.regs@);
}

/// The clock synthesizer behind a channel to the command processor.
pub struct SI5338<T: Nios> {
    interface: T,
}

impl<T: Nios> SI5338<T> {
    /// The channel that the chip is reached through.
    pub closed spec fn channel(&self) -> T {
        self.interface
    }

    pub fn new(interface: T) -> (chip: Self)
        ensures
            chip.channel() == interface,
    {
        Self { interface }
    }

    /// Update the base address of the selected multisynth
    pub fn update_base(ms: &mut Si5338Multisynth)
        ensures
            final(ms).base == 53 + old(ms).index * 11,
            *final(ms) == (Si5338Multisynth { base: final(ms).base, ..*old(ms) }),
    {
        ms.base = 53 + ms.index as u16 * 11;
    }

    /// The greatest common divisor by Euclid's algorithm.
    pub fn gcd(a: u64, b: u64) -> (g: u64)
        ensures
            g == gcd(a as nat, b as nat),
    {
        let mut x = a;
        let mut y = b;
        while y != 0
            invariant
                gcd(x as nat, y as nat) == gcd(a as nat, b as nat),
            decreases y,
        {
            let t = y;
            y = x % t;
            x = t;
        }
        x
    }

    /// Moves whole multiples of `den` out of `num` into `integer`, then
    /// divides `num` and `den` by their greatest common divisor.
    pub fn rational_reduce(r: &mut BladerfRationalRate)
        requires
            old(r).den > 0 ==> old(r).integer + old(r).num / old(r).den <= u64::MAX,
        ensures
            final(r)@ == old(r)@.reduced(),
    {
        if r.den > 0 && r.num >= r.den {
            /* Get whole number */
            let whole: u64 = r.num / r.den;
            proof {
                lemma_rest_is_remainder(r.num as nat, r.den as nat);
            }
            r.integer += whole;
            r.num -= whole * r.den;
        } else {
            proof {
                if r.den > 0 {
                    vstd::arithmetic::div_mod::lemma_basic_div(r.num as int, r.den as int);
                    assert(0 * r.den == 0);
                }
            }
        }
        /* Reduce fraction */
        let val = Self::gcd(r.num, r.den);
        if val > 0 {
            r.num /= val;
            r.den /= val;
        }
    }

    /// Doubles a rate and reduces it: some outputs have to run at twice the
    /// rate of what they drive.
    pub fn rational_double(r: &mut BladerfRationalRate)
        requires
            2 * old(r).integer <= u64::MAX,
            2 * old(r).num <= u64::MAX,
            old(r).den > 0 ==> 2 * old(r).integer + (2 * old(r).num) / (old(r).den as int)
                <= u64::MAX,
        ensures
            final(r)@ == old(r)@.doubled(),
    {
        r.integer *= 2;
        r.num *= 2;
        Self::rational_reduce(r);
    }

    /// Computes the rate that the divider in `ms` gives.
    pub fn calculate_ms_freq(ms: &mut Si5338Multisynth, rate: &mut BladerfRationalRate)
        requires
            old(ms).r * (old(ms).a * old(ms).c + old(ms).b) * Si5338Multisynth::consumer_ratio(
                old(ms).index,
            ) <= u64::MAX,
        ensures
            final(rate)@ == old(ms).frequency(),
            *final(ms) == *old(ms),
    {
        let a: u64 = ms.a as u64;
        let b: u64 = ms.b as u64;
        let c: u64 = ms.c as u64;
        let r: u64 = ms.r as u64;
        assert(a * c + b <= u64::MAX && SI5338_F_VCO * c <= u64::MAX && r * (a * c + b) <= r * (a
            * c + b) * Si5338Multisynth::consumer_ratio(ms.index)) by (nonlinear_arith)
            requires
                a <= 0xFFFF_FFFF,
                b <= 0xFFFF_FFFF,
                c <= 0xFFFF_FFFF,
                SI5338_F_VCO == 2534400000,
                1 <= Si5338Multisynth::consumer_ratio(ms.index) <= 2,
                r >= 0,
        ;
        rate.integer = 0;
        rate.num = SI5338_F_VCO * c;
        rate.den = r * (a * c + b);

        /* Compensate for doubling of frequency for LMS sampling clocks */
        if ms.index == 1 || ms.index == 2 {
            rate.den *= 2;
        }
        proof {
            assert(rate.den > 0 ==> rate.num / rate.den <= rate.num) by {
                if rate.den > 0 {
                    vstd::arithmetic::div_mod::lemma_div_is_ordered_by_denominator(
                        rate.num as int,
                        1,
                        rate.den as int,
                    );
                }
            }
        }
        Self::rational_reduce(rate);
    }

    /// Pack (a, b, c) into (p1, p2, p3) and regs[]
    pub fn pack_regs(ms: &mut Si5338Multisynth)
        requires
            old(ms).packable(),
        ensures
            final(ms).p1 == Si5338Multisynth::p1_of(
                old(ms).a as int,
                old(ms).b as int,
                old(ms).c as int,
            ),
            final(ms).p2 == Si5338Multisynth::p2_of(old(ms).b as int, old(ms).c as int),
            final(ms).p3 == old(ms).c,
            final(ms).regs@ == Si5338Multisynth::regs_of(
                final(ms).p1,
                final(ms).p2,
                final(ms).p3,
            ),
            *final(ms) == (Si5338Multisynth {
                p1: final(ms).p1,
                p2: final(ms).p2,
                p3: final(ms).p3,
                regs: final(ms).regs,
                ..*old(ms)
            }),
    {
        let a: u64 = ms.a as u64;
        let b: u64 = ms.b as u64;
        let c: u64 = ms.c as u64;
        assert(a * c + b <= u64::MAX) by (nonlinear_arith)
            requires
                a <= 0xFFFF_FFFF,
                b <= 0xFFFF_FFFF,
                c <= 0xFFFF_FFFF,
        ;
        /* p1 = (a * c + b) * 128 / c - 512 */
        let mut temp: u64 = a * c + b;
        temp = temp * 128;
        temp = temp / c - 512;
        ms.p1 = temp as u32;

        /* p2 = (b * 128) % c */
        temp = b * 128;
        temp = temp % c;
        ms.p2 = temp as u32;

        /* p3 = c */
        ms.p3 = ms.c;

        /* Regs */
        ms.regs[0] = (ms.p1 & 0xff) as u8;
        ms.regs[1] = ((ms.p1 >> 8) & 0xff) as u8;
        ms.regs[2] = (((ms.p2 & 0x3f) << 2) | ((ms.p1 >> 16) & 0x3)) as u8;
        ms.regs[3] = ((ms.p2 >> 6) & 0xff) as u8;
        ms.regs[4] = ((ms.p2 >> 14) & 0xff) as u8;
        ms.regs[5] = ((ms.p2 >> 22) & 0xff) as u8;
        ms.regs[6] = (ms.p3 & 0xff) as u8;
        ms.regs[7] = ((ms.p3 >> 8) & 0xff) as u8;
        ms.regs[8] = ((ms.p3 >> 16) & 0xff) as u8;
        ms.regs[9] = ((ms.p3 >> 24) & 0xff) as u8;
        assert(ms.regs@ =~= Si5338Multisynth::regs_of(ms.p1, ms.p2, ms.p3));
    }

    /// Unpack the registers into (p1, p2, p3) and (a, b, c)
    pub fn unpack_regs(ms: &mut Si5338Multisynth)
        ensures
            final(ms).p1 == Si5338Multisynth::p1_in(old(ms).regs@),
            final(ms).p2 == Si5338Multisynth::p2_in(old(ms).regs@),
            final(ms).p3 == Si5338Multisynth::p3_in(old(ms).regs@),
            final(ms).c == final(ms).p3,
            final(ms).a == Si5338Multisynth::a_of(final(ms).p1 as int),
            final(ms).b == Si5338Multisynth::b_of(
                final(ms).p1 as int,
                final(ms).p2 as int,
                final(ms).p3 as int,
            ),
            *final(ms) == (Si5338Multisynth {
                p1: final(ms).p1,
                p2: final(ms).p2,
                p3: final(ms).p3,
                a: final(ms).a,
                b: final(ms).b,
                c: final(ms).c,
                ..*old(ms)
            }),
    {
        let r0: u32 = ms.regs[0] as u32;
        let r1: u32 = ms.regs[1] as u32;
        let r2: u32 = ms.regs[2] as u32;
        let r3: u32 = ms.regs[3] as u32;
        let r4: u32 = ms.regs[4] as u32;
        let r5: u32 = ms.regs[5] as u32;
        let r6: u32 = ms.regs[6] as u32;
        let r7: u32 = ms.regs[7] as u32;
        let r8: u32 = ms.regs[8] as u32;
        let r9: u32 = ms.regs[9] as u32;

        /* Populate */
        ms.p1 = ((r2 & 3) << 16) | (r1 << 8) | r0;
        ms.p2 = (r5 << 22) | (r4 << 14) | (r3 << 6) | ((r2 >> 2) & 0x3f);
        ms.p3 = ((r9 & 0x3f) << 24) | (r8 << 16) | (r7 << 8) | r6;
        assert(((r2 & 3) << 16) | (r1 << 8) | r0 < 0x4_0000) by (bit_vector)
            requires
                r0 < 256,
                r1 < 256,
                r2 < 256,
        ;
        assert((r5 << 22) | (r4 << 14) | (r3 << 6) | ((r2 >> 2) & 0x3f) < 0x4000_0000)
            by (bit_vector)
            requires
                r2 < 256,
                r3 < 256,
                r4 < 256,
                r5 < 256,
        ;
        assert(((r9 & 0x3f) << 24) | (r8 << 16) | (r7 << 8) | r6 < 0x4000_0000) by (bit_vector)
            requires
                r6 < 256,
                r7 < 256,
                r8 < 256,
                r9 < 256,
        ;

        /* c = p3 */
        ms.c = ms.p3;

        /* a = (p1 + 512) / 128 */
        ms.a = (ms.p1 + 512) / 128;

        /* b = (((p1 + 512) - 128 * a) * c + (b % c) + 64) / 128
         *
         * NOTE: The +64 is for rounding purposes.
         */
        let low: u64 = (ms.p1 as u64 + 512) - 128 * (ms.a as u64);
        assert(low == (ms.p1 + 512) % 128);
        assert(low * (ms.c as u64) <= 127 * 0x4000_0000) by (nonlinear_arith)
            requires
                low <= 127,
                ms.c < 0x4000_0000,
        ;
        let mut temp: u64 = low * (ms.c as u64) + ms.p2 as u64;
        temp = (temp + 64) / 128;
        ms.b = temp as u32;
    }

    /// Finds the divider `(a, b, c)` and `r` for `rate` on the multisynth
    /// `ms.index` and packs it into the register image.
    ///
    /// The sample clocks (multisynths 1 and 2) run at twice the requested
    /// rate. The rate is doubled, together with `r`, until it has reached
    /// 5 MHz; `a + b/c` is the VCO frequency over that rate in lowest terms,
    /// with numerator and denominator halved until they fit 30 bits. A rate
    /// whose `a` falls outside 8..=567 is out of range, and `ms` is left as
    /// it was.
    pub fn calculate_multisynth(ms: &mut Si5338Multisynth, rate: &BladerfRationalRate) -> (res:
        Result<(), BladeRfError>)
        requires
            rate_in_limits(*rate),
        ensures
            match res {
                Ok(_) => {
                    let (out, r) = settled_rate(old(ms).index, rate@);
                    let abc = divider_for(out);
                    let (b, c) = shrunk(abc.num, abc.den);
                    &&& divider_exists(old(ms).index, rate@)
                    &&& final(ms).a == abc.integer
                    &&& final(ms).b == b
                    &&& final(ms).c == c
                    &&& final(ms).r == r
                    &&& 8 <= final(ms).a <= 567
                    &&& final(ms).b <= final(ms).c
                    &&& 0 < final(ms).c <= 0x4000_0000
                    &&& 1 <= final(ms).r <= 32
                    &&& final(ms).packable()
                    &&& final(ms).p1 == Si5338Multisynth::p1_of(
                        final(ms).a as int,
                        final(ms).b as int,
                        final(ms).c as int,
                    )
                    &&& final(ms).p2 == Si5338Multisynth::p2_of(
                        final(ms).b as int,
                        final(ms).c as int,
                    )
                    &&& final(ms).p3 == final(ms).c
                    &&& final(ms).regs@ == Si5338Multisynth::regs_of(
                        final(ms).p1,
                        final(ms).p2,
                        final(ms).p3,
                    )
                    &&& final(ms).index == old(ms).index
                    &&& final(ms).base == old(ms).base
                    &&& final(ms).enable == old(ms).enable
                    &&& final(ms).requested == old(ms).requested
                    &&& final(ms).actual == old(ms).actual
                },
                Err(e) => {
                    &&& e == BladeRfError::Range
                    &&& !divider_exists(old(ms).index, rate@)
                    &&& *final(ms) == *old(ms)
                },
            },
    {
        /* Don't mess with the users data */
        let mut req = BladerfRationalRate { integer: rate.integer, num: rate.num, den: rate.den };

        /* Double requested frequency for sample clocks since LMS requires
         * 2:1 clock:sample rate
         */
        if ms.index == 1 || ms.index == 2 {
            proof {
                lemma_doubled_parts(req@);
                vstd::arithmetic::div_mod::lemma_div_is_ordered_by_denominator(
                    2 * req.num,
                    1,
                    req.den as int,
                );
            }
            Self::rational_double(&mut req);
        }
        /* Find a suitable R value */

        let mut r_value: u8 = 1;
        while req.integer < 5000000 && r_value < 32
            invariant
                0 < req.den <= SI5338_DEN_MAX,
                req.num <= SI5338_PART_MAX,
                req.integer <= 0x8000_0000_0000_0000,
                r_value == 1 || r_value == 2 || r_value == 4 || r_value == 8 || r_value == 16
                    || r_value == 32,
                scaled_rate(req@, r_value as nat) == settled_rate(ms.index, rate@),
            decreases 32 - r_value,
        {
            proof {
                lemma_doubled_parts(req@);
                vstd::arithmetic::div_mod::lemma_div_is_ordered_by_denominator(
                    2 * req.num,
                    1,
                    req.den as int,
                );
            }
            Self::rational_double(&mut req);
            r_value = r_value * 2;
        }

        if req.integer > SI5338_F_VCO / 8 {
            proof {
                lemma_divider_below_eight(req@);
            }
            return Err(BladeRfError::Range);
        }
        /* Find suitable MS (a, b, c) values */

        assert(SI5338_F_VCO * req.den <= u64::MAX && req.integer * req.den
            <= 0x2000_0000_0000_0000) by (nonlinear_arith)
            requires
                SI5338_F_VCO == 2534400000,
                0 < req.den <= 7278544852,
                req.integer <= 316800000,
        ;
        let mut abc = BladerfRationalRate {
            integer: 0,
            num: SI5338_F_VCO * req.den,
            den: req.integer * req.den + req.num,
        };
        if abc.den == 0 {
            return Err(BladeRfError::Range);
        }
        proof {
            vstd::arithmetic::div_mod::lemma_div_is_ordered_by_denominator(
                abc.num as int,
                1,
                abc.den as int,
            );
            lemma_reduced_is_reduced(abc@);
        }
        Self::rational_reduce(&mut abc);
        assert(abc@ == divider_for(req@));

        /* Check values to make sure they are OK */
        if abc.integer < 8 || abc.integer > 567 {
            return Err(BladeRfError::Range);
        }
        /* Loss of precision if num or den are greater than 2^30 */

        let ghost lowest = abc;
        while abc.num > 0x4000_0000 || abc.den > 0x4000_0000
            invariant
                abc.integer == lowest.integer,
                0 < abc.den,
                abc.num <= abc.den,
                shrunk(abc.num as nat, abc.den as nat) == shrunk(
                    lowest.num as nat,
                    lowest.den as nat,
                ),
            decreases abc.num + abc.den,
        {
            abc.num = abc.num / 2;
            abc.den = abc.den / 2;
        }

        /* Set it in the multisynth */
        ms.a = abc.integer as u32;
        ms.b = abc.num as u32;
        ms.c = abc.den as u32;
        ms.r = r_value as u32;
        proof {
            lemma_p1_parts(ms.a as int, ms.b as int, ms.c as int);
            assert(128 * (ms.a * ms.c + ms.b) <= u64::MAX) by (nonlinear_arith)
                requires
                    ms.a <= 567,
                    ms.b <= 0x4000_0000,
                    ms.c <= 0x4000_0000,
            ;
        }

        /* Pack the registers */
        Self::pack_regs(ms);
        Ok(())
    }

    /// The request frame that carries a register access to the chip.
    pub fn request(op: RegOp) -> (frame: Vec<u8>)
        ensures
            frame@ == request_of(op),
            frame.len() == 16,
    {
        match op {
            RegOp::Read(addr) => NiosPacket8x8::build(
                NIOS_PKT_8X8_TARGET_SI5338,
                NIOS_PKT_FLAG_READ,
                addr,
                0x0,
            ),
            RegOp::Write(addr, data) => NiosPacket8x8::build(
                NIOS_PKT_8X8_TARGET_SI5338,
                NIOS_PKT_FLAG_WRITE,
                addr,
                data,
            ),
        }
    }

    /// Makes one register access: exchanges the frame of [`Self::request`]
    /// for one response and returns the data field of the response.
    pub fn perform(&self, op: RegOp) -> (res: Result<u8, BladeRfError>)
        ensures
            exists|exchanged: Result<Vec<u8>, TransportError>|
                res == #[trigger] NiosPacket8x8::data_in(NIOS_PKT_8X8_TARGET_SI5338, exchanged),
            res is Err ==> res->Err_0.from_exchange(),
    {
        let exchanged = self.interface.nios_send(ENDPOINT_IN, ENDPOINT_OUT, Self::request(op));
        let ghost given = exchanged;
        let res = NiosPacket8x8::response_data(NIOS_PKT_8X8_TARGET_SI5338, exchanged);
        assert(res == NiosPacket8x8::data_in(NIOS_PKT_8X8_TARGET_SI5338, given));
        res
    }

    /// Reads the register `addr` of the chip: one read frame, one response.
    pub fn read(&self, addr: u8) -> (res: Result<u8, BladeRfError>)
        ensures
            exists|exchanged: Result<Vec<u8>, TransportError>|
                res == #[trigger] NiosPacket8x8::data_in(NIOS_PKT_8X8_TARGET_SI5338, exchanged),
            res is Err ==> res->Err_0.from_exchange(),
    {
        self.perform(RegOp::Read(addr))
    }

    /// Writes `data` to the register `addr` of the chip: one write frame,
    /// one response. Returns the data field of the response.
    pub fn write(&self, addr: u8, data: u8) -> (res: Result<u8, BladeRfError>)
        ensures
            exists|exchanged: Result<Vec<u8>, TransportError>|
                res == #[trigger] NiosPacket8x8::data_in(NIOS_PKT_8X8_TARGET_SI5338, exchanged),
            res is Err ==> res->Err_0.from_exchange(),
    {
        self.perform(RegOp::Write(addr, data))
    }

    /// Changes the register `addr` by reading it and writing it back with
    /// the bits of `keep` kept and the bits of `raise` set, as [`Rmw`] lays
    /// down. Returns the data field of the response to the write.
    pub fn modify(&self, addr: u8, keep: u8, raise: u8) -> (res: Result<u8, BladeRfError>)
        ensures
            exists|outcomes: Seq<Result<u8, BladeRfError>>| #[trigger]
                Rmw::begun(addr, keep, raise).run(outcomes) == Rmw::Over(res),
            exists|exchanged: Result<Vec<u8>, TransportError>|
                res == #[trigger] NiosPacket8x8::data_in(NIOS_PKT_8X8_TARGET_SI5338, exchanged),
            res is Err ==> res->Err_0.from_exchange(),
    {
        let mut rmw = Rmw::begin(addr, keep, raise);
        let ghost mut outcomes: Seq<Result<u8, BladeRfError>> = Seq::empty();
        loop
            invariant
                rmw == Rmw::begun(addr, keep, raise).run(outcomes),
                rmw matches Rmw::Over(outcome) ==> exists|exchanged: Result<Vec<u8>, TransportError>|
                    outcome == #[trigger] NiosPacket8x8::data_in(
                        NIOS_PKT_8X8_TARGET_SI5338,
                        exchanged,
                    ),
            decreases rmw.fuel(),
        {
            match rmw {
                Rmw::Over(res) => {
                    return res;
                },
                _ => {},
            }
            match rmw.op() {
                Some(op) => {
                    let outcome = self.perform(op);
                    rmw = rmw.advance(outcome);
                    proof {
                        assert(outcomes.push(outcome).drop_last() =~= outcomes);
                        outcomes = outcomes.push(outcome);
                    }
                },
                None => {},
            }
        }
    }

    /// The enable bits in a reading of the enable register: its three low
    /// bits.
    pub fn enable_bits(val: u8) -> (enable: u8)
        ensures
            enable == val & 7,
            enable <= 7,
    {
        assert(val & 7 <= 7) by (bit_vector);
        val & 7
    }

    /// The output divider that the register value `val` stands for: two to
    /// the power held in bits 2 to 4.
    pub fn rdiv_from_register(val: u8) -> (r: u32)
        ensures
            r == rdiv_in(val),
            1 <= r <= 128,
    {
        let power: u8 = (val >> 2) & 7;
        assert((val >> 2) & 7 < 8) by (bit_vector);
        assert(1 <= (1u32 << ((val >> 2) & 7)) <= 128) by (bit_vector);
        1u32 << power
    }

    /// The value of the output divider register for `r`.
    pub fn rdiv_register(r: u32) -> (val: u8)
        ensures
            val == rdiv_register_of(r),
    {
        /* Calculate r_power from r */
        let mut r_power: u8 = 0;
        let mut r_count: u32 = r >> 1;
        assert(r >> 1 == r / 2) by (bit_vector);
        proof {
            assert(pow2_small(32) == 0x1_0000_0000) by {
                reveal_with_fuel(pow2_small, 33);
            }
            lemma_log2_floor_bound(r as nat, 31);
        }
        while r_count > 0
            invariant
                log2_floor(r as nat) <= 31,
                r_power + (if r_count == 0 {
                    0nat
                } else {
                    1 + log2_floor(r_count as nat)
                }) == log2_floor(r as nat),
            decreases r_count,
        {
            assert(r_count >> 1 == r_count / 2) by (bit_vector);
            r_count = r_count >> 1;
            r_power += 1;
        }
        /* Set the r value to the log2(r) to match Figure 18 */
        0xc0u8 | (r_power << 2)
    }

    /// Reads the state of the multisynth `ms.index` back from the chip: its
    /// enable bits, the ten divider registers from `ms.base` on, and the
    /// output divider, and unpacks the registers into `(a, b, c)`. What the
    /// twelve reads gave is held as [`Si5338Multisynth::holds`] says.
    pub fn read_multisynth(&self, ms: &mut Si5338Multisynth) -> (res: Result<(), BladeRfError>)
        requires
            old(ms).addressable(),
        ensures
            final(ms).index == old(ms).index,
            final(ms).base == old(ms).base,
            final(ms).requested == old(ms).requested,
            final(ms).actual == old(ms).actual,
            match res {
                Ok(_) => {
                    &&& final(ms).enable <= 7
                    &&& 1 <= final(ms).r <= 128
                    &&& final(ms).unpacked()
                    &&& exists|values: Seq<u8>| #[trigger] final(ms).holds(values)
                },
                Err(e) => e.from_exchange(),
            },
    {
        /* Read the enable bits */
        let val = self.read(36 + ms.index)?;
        ms.enable = Self::enable_bits(val);
        let ghost mut values: Seq<u8> = seq![val];

        /* Read all the multisynth registers */
        let base: u8 = ms.base as u8;
        let mut i: u8 = 0;
        while i < 10
            invariant
                i <= 10,
                base <= 246,
                ms.index == old(ms).index,
                ms.base == old(ms).base,
                ms.requested == old(ms).requested,
                ms.actual == old(ms).actual,
                ms.enable <= 7,
                values.len() == 1 + i,
                ms.enable == values[0] & 7,
                forall|k: int| 0 <= k < i ==> ms.regs@[k] == values[1 + k],
            decreases 10 - i,
        {
            let val = self.read(base + i)?;
            ms.regs[i as usize] = val;
            proof {
                values = values.push(val);
            }
            i += 1;
        }

        /* Populate the RxDIV value from the register */
        let val = self.read(31 + ms.index)?;
        proof {
            values = values.push(val);
        }

        /* RxDIV is stored as a power of 2, so restore it on readback */
        ms.r = Self::rdiv_from_register(val);

        /* Unpack the regs into appropriate values */
        Self::unpack_regs(ms);
        assert(ms.holds(values));
        Ok(())
    }

    /// The register writes that carry the divider of `ms` to the chip, as
    /// pairs of address and value: the ten divider registers from `ms.base`
    /// on, then the output divider register at `31 + ms.index`.
    pub fn multisynth_writes(ms: &Si5338Multisynth) -> (writes: Vec<(u8, u8)>)
        requires
            ms.addressable(),
        ensures
            writes@ == multisynth_writes_of(*ms),
    {
        let mut writes: Vec<(u8, u8)> = Vec::new();
        let base: u8 = ms.base as u8;
        let mut i: u8 = 0;
        while i < 10
            invariant
                i <= 10,
                base == ms.base,
                base <= 246,
                writes@.len() == i,
                forall|k: int| 0 <= k < i ==> writes@[k] == multisynth_writes_of(*ms)[k],
            decreases 10 - i,
        {
            writes.push((base + i, ms.regs[i as usize]));
            i += 1;
        }
        writes.push((ms.index + 31, Self::rdiv_register(ms.r)));
        assert(writes@ =~= multisynth_writes_of(*ms));
        writes
    }

    /// Programs the multisynth `ms.index`: raises the enable bits `ms.enable`
    /// beside those already set in the register at `36 + ms.index`, by the
    /// [`Rmw`] that keeps every bit and raises `ms.enable`, then makes the
    /// writes of [`Self::multisynth_writes`] in their order. Returns the
    /// data field of the last response.
    ///
    /// The enable bits are read, changed and written back in two separate
    /// exchanges.
    pub fn write_multisynth(&self, ms: &Si5338Multisynth) -> (res: Result<u8, BladeRfError>)
        requires
            ms.addressable(),
        ensures
            exists|outcomes: Seq<Result<u8, BladeRfError>>|
                match #[trigger] Rmw::begun((36 + ms.index) as u8, 0xff, ms.enable).run(outcomes) {
                    Rmw::Over(Err(e)) => res == Err::<u8, BladeRfError>(e),
                    Rmw::Over(Ok(_)) => true,
                    _ => false,
                },
            exists|exchanged: Result<Vec<u8>, TransportError>|
                res == #[trigger] NiosPacket8x8::data_in(NIOS_PKT_8X8_TARGET_SI5338, exchanged),
            res is Err ==> res->Err_0.from_exchange(),
    {
        let enabled = self.modify(36 + ms.index, 0xff, ms.enable);
        let mut last = enabled;

        /* Write out the registers */
        let writes = Self::multisynth_writes(ms);
        let mut i: usize = 0;
        while i < writes.len() && last.is_ok()
            invariant
                i <= writes.len(),
                enabled is Err ==> last == enabled,
                exists|exchanged: Result<Vec<u8>, TransportError>|
                    last == #[trigger] NiosPacket8x8::data_in(
                        NIOS_PKT_8X8_TARGET_SI5338,
                        exchanged,
                    ),
                last is Err ==> last->Err_0.from_exchange(),
            decreases writes.len() - i,
        {
            last = self.write(writes[i].0, writes[i].1);
            i += 1;
        }
        last
    }

    /// Works out everything that setting the multisynth `index` to `rate`
    /// takes, without touching the chip: the reduced rate, the register
    /// base, the enable bits, the divider with its register image, and the
    /// rate that the divider really gives. A rate that is not supported is
    /// out of range.
    pub fn plan_multisynth(index: u8, channel: u8, rate: BladerfRationalRate) -> (res: Result<
        Si5338Multisynth,
        BladeRfError,
    >)
        requires
            index <= 3,
        ensures
            match res {
                Ok(ms) => {
                    &&& rate_supported(index, rate)
                    &&& ms.is_plan_for(index, channel, rate@.reduced())
                    &&& ms.addressable()
                },
                Err(e) => e == BladeRfError::Range && !rate_supported(index, rate),
            },
    {
        let mut rate = rate;
        if rate.den == 0 {
            return Err(BladeRfError::Range);
        }
        if rate.num / rate.den > u64::MAX - rate.integer {
            return Err(BladeRfError::Range);
        }
        proof {
            lemma_reduced_is_reduced(rate@);
        }
        Self::rational_reduce(&mut rate);
        if rate.den > SI5338_DEN_MAX || rate.integer > SI5338_PART_MAX {
            return Err(BladeRfError::Range);
        }
        let mut ms = Si5338Multisynth::default();

        /* Set up the multisynth enables and index */
        ms.index = index;
        ms.enable = channel;
        ms.requested = rate;

        /* Update the base address register */
        Self::update_base(&mut ms);

        /* Calculate multisynth values */
        match Self::calculate_multisynth(&mut ms, &rate) {
            Err(e) => {
                return Err(e);
            },
            Ok(_) => {},
        }

        /* Get the actual rate */
        let mut actual = BladerfRationalRate { integer: 0, num: 0, den: 0 };
        proof {
            lemma_divider_fits(ms);
        }
        Self::calculate_ms_freq(&mut ms, &mut actual);
        ms.actual = actual;
        Ok(ms)
    }

    /// The enable bits for the sample clock of channel `ch`: output A, and
    /// for the transmit channel output B as well.
    pub fn sample_clock_enables(ch: u8) -> (enable: u8)
        ensures
            enable == sample_clock_enables_of(ch),
    {
        assert(SI5338_EN_A | SI5338_EN_B == 0x03) by (bit_vector);
        let mut channel: u8 = SI5338_EN_A;
        if ch == BLADERF_MODULE_TX {
            channel |= SI5338_EN_B;
        }
        channel
    }

    /// Works out what setting the sample rate of channel `ch` to `rate`
    /// takes, without touching the chip. Rates below the minimum sample
    /// rate of the device are out of range.
    pub fn plan_sample_rate(ch: u8, rate: &BladerfRationalRate) -> (res: Result<
        Si5338Multisynth,
        BladeRfError,
    >)
        ensures
            match res {
                Ok(ms) => {
                    &&& sample_rate_supported(ch, *rate)
                    &&& ms.is_plan_for(
                        sample_clock_index(ch),
                        sample_clock_enables_of(ch),
                        rate@.reduced(),
                    )
                    &&& ms.addressable()
                },
                Err(e) => e == BladeRfError::Range && !sample_rate_supported(ch, *rate),
            },
    {
        let mut rate_reduced = BladerfRationalRate {
            integer: rate.integer,
            num: rate.num,
            den: rate.den,
        };
        let index: u8 = if ch == BLADERF_MODULE_RX {
            0x1
        } else {
            0x2
        };
        if rate_reduced.den == 0 {
            return Err(BladeRfError::Range);
        }
        if rate_reduced.num / rate_reduced.den > u64::MAX - rate_reduced.integer {
            return Err(BladeRfError::Range);
        }
        /* Enforce minimum sample rate */

        proof {
            lemma_reduced_is_reduced(rate@);
            lemma_reduced_idempotent(rate@);
        }
        Self::rational_reduce(&mut rate_reduced);
        if rate_reduced.integer < BLADERF_SAMPLERATE_MIN {
            return Err(BladeRfError::Range);
        }
        Self::plan_multisynth(index, Self::sample_clock_enables(ch), rate_reduced)
    }

    /// Works out what setting the SMB clock output to `rate` takes, without
    /// touching the chip. Frequencies whose whole part lies below the
    /// minimum or above the maximum of the output are out of range.
    pub fn plan_smb_freq(rate: &BladerfRationalRate) -> (res: Result<
        Si5338Multisynth,
        BladeRfError,
    >)
        ensures
            match res {
                Ok(ms) => {
                    &&& smb_freq_supported(*rate)
                    &&& ms.is_plan_for(3, SI5338_EN_A, rate@.reduced())
                    &&& ms.addressable()
                },
                Err(e) => e == BladeRfError::Range && !smb_freq_supported(*rate),
            },
    {
        let mut rate_reduced = BladerfRationalRate {
            integer: rate.integer,
            num: rate.num,
            den: rate.den,
        };
        if rate_reduced.den == 0 {
            return Err(BladeRfError::Range);
        }
        if rate_reduced.num / rate_reduced.den > u64::MAX - rate_reduced.integer {
            return Err(BladeRfError::Range);
        }
        /* Enforce minimum and maximum frequencies */

        proof {
            lemma_reduced_is_reduced(rate@);
            lemma_reduced_idempotent(rate@);
        }
        Self::rational_reduce(&mut rate_reduced);
        if rate_reduced.integer < BLADERF_SMB_FREQUENCY_MIN as u64 {
            return Err(BladeRfError::Range);
        } else if rate_reduced.integer > BLADERF_SMB_FREQUENCY_MAX as u64 {
            return Err(BladeRfError::Range);
        }
        Self::plan_multisynth(3, SI5338_EN_A, rate_reduced)
    }

    /// Sets the multisynth `index` to `rate` with the outputs in `channel`
    /// enabled, and returns the rate that the chip then really puts out.
    ///
    /// The returned rate is recomputed from the integers written to the
    /// chip; it differs from the request where the divider had to be cut to
    /// 30 bits. A rate that is not supported is rejected by
    /// [`Self::plan_multisynth`], before any frame is exchanged.
    pub fn set_rational_multisynth(
        &self,
        index: u8,
        channel: u8,
        rate: BladerfRationalRate,
    ) -> (res: Result<BladerfRationalRate, BladeRfError>)
        requires
            index <= 3,
        ensures
            !rate_supported(index, rate) ==> res == Err::<BladerfRationalRate, BladeRfError>(
                BladeRfError::Range,
            ),
            rate_supported(index, rate) ==> match res {
                Ok(actual) => actual@ == achieved_rate(index, rate@.reduced()),
                Err(e) => e.from_exchange(),
            },
    {
        let ms = Self::plan_multisynth(index, channel, rate)?;

        /* Program it to the part */
        self.write_multisynth(&ms)?;
        Ok(ms.actual)
    }

    /// Sets the sample rate of channel `ch`. A rate that is not supported is
    /// rejected by [`Self::plan_sample_rate`], before any frame is
    /// exchanged.
    pub fn set_rational_sample_rate(&self, ch: u8, rate: &mut BladerfRationalRate) -> (res:
        Result<BladerfRationalRate, BladeRfError>)
        ensures
            *final(rate) == *old(rate),
            !sample_rate_supported(ch, *old(rate)) ==> res == Err::<
                BladerfRationalRate,
                BladeRfError,
            >(BladeRfError::Range),
            sample_rate_supported(ch, *old(rate)) ==> match res {
                Ok(actual) => actual@ == achieved_rate(
                    sample_clock_index(ch),
                    old(rate)@.reduced(),
                ),
                Err(e) => e.from_exchange(),
            },
    {
        let ms = Self::plan_sample_rate(ch, rate)?;
        self.write_multisynth(&ms)?;
        Ok(ms.actual)
    }

    /// Sets the sample rate of `channel` to a whole number of Hz and returns
    /// the rate achieved, with any fraction of a Hz cut off.
    pub fn set_sample_rate(&self, channel: u8, rate_requested: u32) -> (res: Result<
        u32,
        BladeRfError,
    >)
        ensures
            ({
                let rate = BladerfRationalRate { integer: rate_requested as u64, num: 0, den: 1 };
                &&& !sample_rate_supported(channel, rate) ==> res == Err::<u32, BladeRfError>(
                    BladeRfError::Range,
                )
                &&& sample_rate_supported(channel, rate) ==> match res {
                    Ok(hz) => hz == achieved_rate(
                        sample_clock_index(channel),
                        rate@.reduced(),
                    ).integer,
                    Err(e) => e.from_exchange(),
                }
            }),
    {
        let mut req = BladerfRationalRate { integer: rate_requested as u64, num: 0, den: 1 };
        let act = self.set_rational_sample_rate(channel, &mut req)?;
        proof {
            lemma_achieved_rate_bound(sample_clock_index(channel), req@.reduced());
        }
        Ok(act.integer as u32)
    }

    /// Reads the sample rate of channel `ch` back from the chip.
    pub fn get_rational_sample_rate(&self, ch: u8) -> (res: Result<
        BladerfRationalRate,
        BladeRfError,
    >)
        ensures
            match res {
                Ok(rate) => {
                    &&& rate.integer <= SI5338_F_VCO / 4
                    &&& exists|ms: Si5338Multisynth| #[trigger]
                        ms.unpacked() && ms.index == sample_clock_index(ch) && 1 <= ms.r <= 128
                            && rate@ == ms.frequency()
                },
                Err(e) => e.from_exchange(),
            },
    {
        let mut ms = Si5338Multisynth::default();

        /* Select the multisynth we want to read */
        ms.index = if ch == BLADERF_MODULE_RX {
            1
        } else {
            2
        };

        /* Update the base address */
        Self::update_base(&mut ms);

        /* Readback */
        self.read_multisynth(&mut ms)?;
        let ghost read = ms;
        let rate = Self::multisynth_rate(&mut ms);
        assert(read.unpacked() && rate@ == read.frequency());
        Ok(rate)
    }

    /// Reads the sample rate of channel `ch` back from the chip, with any
    /// fraction of a Hz cut off.
    pub fn get_sample_rate(&self, ch: u8) -> (res: Result<u32, BladeRfError>)
        ensures
            match res {
                Ok(hz) => {
                    &&& hz <= SI5338_F_VCO / 4
                    &&& exists|ms: Si5338Multisynth| #[trigger]
                        ms.unpacked() && ms.index == sample_clock_index(ch) && 1 <= ms.r <= 128
                            && hz == ms.frequency().integer
                },
                Err(e) => e.from_exchange(),
            },
    {
        let actual = self.get_rational_sample_rate(ch)?;
        Ok(actual.integer as u32)
    }

    /// Sets the frequency of the SMB clock output. A frequency that is not
    /// supported is rejected by [`Self::plan_smb_freq`], before any frame is
    /// exchanged.
    pub fn set_rational_smb_freq(&self, rate: &BladerfRationalRate) -> (res: Result<
        BladerfRationalRate,
        BladeRfError,
    >)
        ensures
            !smb_freq_supported(*rate) ==> res == Err::<BladerfRationalRate, BladeRfError>(
                BladeRfError::Range,
            ),
            smb_freq_supported(*rate) ==> match res {
                Ok(actual) => actual@ == achieved_rate(3, rate@.reduced()),
                Err(e) => e.from_exchange(),
            },
    {
        let ms = Self::plan_smb_freq(rate)?;
        self.write_multisynth(&ms)?;
        Ok(ms.actual)
    }

    /// Sets the frequency of the SMB clock output to a whole number of Hz
    /// and returns the frequency achieved, with any fraction of a Hz cut
    /// off.
    pub fn set_smb_freq(&self, rate: u32) -> (res: Result<u32, BladeRfError>)
        ensures
            ({
                let req = BladerfRationalRate { integer: rate as u64, num: 0, den: 1 };
                &&& rate < BLADERF_SMB_FREQUENCY_MIN || rate > BLADERF_SMB_FREQUENCY_MAX
                    ==> res == Err::<u32, BladeRfError>(BladeRfError::Range)
                &&& BLADERF_SMB_FREQUENCY_MIN <= rate <= BLADERF_SMB_FREQUENCY_MAX ==> (match res {
                    Ok(hz) => hz == achieved_rate(3, req@.reduced()).integer,
                    Err(e) => e.from_exchange(),
                })
                &&& !smb_freq_supported(req) ==> res == Err::<u32, BladeRfError>(
                    BladeRfError::Range,
                )
                &&& smb_freq_supported(req) ==> match res {
                    Ok(hz) => hz == achieved_rate(3, req@.reduced()).integer,
                    Err(e) => e.from_exchange(),
                }
            }),
    {
        let req = BladerfRationalRate { integer: rate as u64, num: 0, den: 1 };
        proof {
            lemma_reduced_whole(req@);
            lemma_smb_range_exact(rate);
        }
        let act = self.set_rational_smb_freq(&req)?;
        proof {
            lemma_achieved_rate_bound(3, req@.reduced());
        }
        Ok(act.integer as u32)
    }

    /// Reads the frequency of the SMB clock output back from the chip.
    pub fn get_rational_smb_freq(&self) -> (res: Result<BladerfRationalRate, BladeRfError>)
        ensures
            match res {
                Ok(rate) => {
                    &&& rate.integer <= SI5338_F_VCO / 4
                    &&& exists|ms: Si5338Multisynth| #[trigger]
                        ms.unpacked() && ms.index == 3 && 1 <= ms.r <= 128 && rate@
                            == ms.frequency()
                },
                Err(e) => e.from_exchange(),
            },
    {
        let mut ms = Si5338Multisynth::default();

        /* Select MS3 for the SMB output */
        ms.index = 3;
        Self::update_base(&mut ms);
        self.read_multisynth(&mut ms)?;
        let ghost read = ms;
        let rate = Self::multisynth_rate(&mut ms);
        assert(read.unpacked() && rate@ == read.frequency());
        Ok(rate)
    }

    /// Reads the frequency of the SMB clock output back from the chip, with
    /// any fraction of a Hz cut off.
    pub fn get_smb_freq(&self) -> (res: Result<u32, BladeRfError>)
        ensures
            match res {
                Ok(hz) => {
                    &&& hz <= SI5338_F_VCO / 4
                    &&& exists|ms: Si5338Multisynth| #[trigger]
                        ms.unpacked() && ms.index == 3 && 1 <= ms.r <= 128 && hz
                            == ms.frequency().integer
                },
                Err(e) => e.from_exchange(),
            },
    {
        let actual = self.get_rational_smb_freq()?;
        Ok(actual.integer as u32)
    }

    /// The rate of a multisynth whose divider was unpacked from registers.
    fn multisynth_rate(ms: &mut Si5338Multisynth) -> (rate: BladerfRationalRate)
        requires
            old(ms).unpacked(),
            old(ms).r <= 128,
        ensures
            rate@ == old(ms).frequency(),
            rate.integer <= SI5338_F_VCO / 4,
            *final(ms) == *old(ms),
    {
        let mut rate = BladerfRationalRate { integer: 0, num: 0, den: 0 };
        proof {
            lemma_unpacked_fits(*ms);
            lemma_frequency_bound(*ms);
        }
        Self::calculate_ms_freq(ms, &mut rate);
        rate
    }
}

} // verus!
