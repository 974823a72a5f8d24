//! The LMS6002D transceiver: register access, PLL divider values and the
//! programming of a frequency.

use vstd::prelude::*;
use crate::bladerf::{BladerfLoopback, BLADERF_MODULE_RX, BLADERF_MODULE_TX};
use crate::board::bladerf1::{BladeRfError, BLADERF_FREQUENCY_MAX, BLADERF_FREQUENCY_MIN};
use crate::hardware::programming::{
    pll_base_of, PllConfig, Programming, Step, DSM_KEEP, DSM_REGISTER,
};
use crate::hardware::registers::{RegOp, Rmw};
use crate::hardware::tuning::{Probe, Tuner, Wait, Walk, WalkKind};
use crate::nios::constants::{NIOS_PKT_8X8_TARGET_LMS6, NIOS_PKT_FLAG_READ, NIOS_PKT_FLAG_WRITE};
use crate::nios::packet8x8::NiosPacket8x8;
use crate::nios::{Nios, TransportError};

verus! {

const ENDPOINT_OUT: u8 = 0x02;

const ENDPOINT_IN: u8 = 0x82;

/// Reference clock of the PLLs, in Hz.
pub const LMS_REFERENCE_HZ: u32 = 38400000;

/* LPF conversion table */
pub const UINT_BANDWIDTHS: [u32; 16] = [
    28000000,
    20000000,
    14000000,
    12000000,
    10000000,
    8750000,
    7000000,
    6000000,
    5500000,
    5000000,
    3840000,
    3000000,
    2750000,
    2500000,
    1750000,
    1500000,
];

/* Here we define more conservative band ranges than those in the
 * LMS FAQ (5.24), with the intent of avoiding the use of "edges" that might
 * cause the PLLs to lose lock over temperature changes */
pub const VCO4_LOW: u64 = 3800000000;

pub const VCO4_HIGH: u64 = 4535000000;

pub const VCO3_LOW: u64 = VCO4_HIGH;

pub const VCO3_HIGH: u64 = 5408000000;

pub const VCO2_LOW: u64 = VCO3_HIGH;

pub const VCO2_HIGH: u64 = 6480000000;

pub const VCO1_LOW: u64 = VCO2_HIGH;

pub const VCO1_HIGH: u64 = 7600000000;

/* SELVCO values, in bits 5:3 of FREQSEL */
pub const VCO4: u8 = 0x20;

pub const VCO3: u8 = 0x28;

pub const VCO2: u8 = 0x30;

pub const VCO1: u8 = 0x38;

/* FRANGE values, in bits 2:0 of FREQSEL */
pub const DIV2: u8 = 0x4;

pub const DIV4: u8 = 0x5;

pub const DIV8: u8 = 0x6;

pub const DIV16: u8 = 0x7;

/// One row of the frequency range table: the frequencies from `low` to
/// `high`, in Hz, are tuned with the FREQSEL value `value`.
#[derive(Debug, Clone, Copy, PartialEq, Eq, Structural)]
pub struct FreqRange {
    pub low: u64,
    pub high: u64,
    pub value: u8,
}

/* Frequency Range table. Corresponds to the LMS FREQSEL table.
 * Per feedback from the LMS google group, the last entry, listed as 3.72G
 * in the programming manual, can be applied up to 3.8G */
pub const BAND_LOW: [u64; 16] = [
    VCO4_LOW / 16,
    VCO3_LOW / 16,
    VCO2_LOW / 16,
    VCO1_LOW / 16,
    VCO4_LOW / 8,
    VCO3_LOW / 8,
    VCO2_LOW / 8,
    VCO1_LOW / 8,
    VCO4_LOW / 4,
    VCO3_LOW / 4,
    VCO2_LOW / 4,
    VCO1_LOW / 4,
    VCO4_LOW / 2,
    VCO3_LOW / 2,
    VCO2_LOW / 2,
    VCO1_LOW / 2,
];

pub const BAND_HIGH: [u64; 16] = [
    VCO4_HIGH / 16,
    VCO3_HIGH / 16,
    VCO2_HIGH / 16,
    VCO1_HIGH / 16,
    VCO4_HIGH / 8,
    VCO3_HIGH / 8,
    VCO2_HIGH / 8,
    VCO1_HIGH / 8,
    VCO4_HIGH / 4,
    VCO3_HIGH / 4,
    VCO2_HIGH / 4,
    VCO1_HIGH / 4,
    VCO4_HIGH / 2,
    VCO3_HIGH / 2,
    VCO2_HIGH / 2,
    VCO1_HIGH / 2,
];

pub const BAND_VALUE: [u8; 16] = [
    VCO4 | DIV16,
    VCO3 | DIV16,
    VCO2 | DIV16,
    VCO1 | DIV16,
    VCO4 | DIV8,
    VCO3 | DIV8,
    VCO2 | DIV8,
    VCO1 | DIV8,
    VCO4 | DIV4,
    VCO3 | DIV4,
    VCO2 | DIV4,
    VCO1 | DIV4,
    VCO4 | DIV2,
    VCO3 | DIV2,
    VCO2 | DIV2,
    VCO1 | DIV2,
];

/// Ratio between the VCO frequency and the output frequency in each band.
pub const BAND_RATIO: [u8; 16] = [16, 16, 16, 16, 8, 8, 8, 8, 4, 4, 4, 4, 2, 2, 2, 2];

/*
* The LMS FAQ (Rev 1.0r10, Section 5.20) states that the RXVGA1 codes may be
* converted to dB via:
*      value_db = 20 * log10(127 / (127 - code))
*
* However, an offset of 5 appears to be required, yielding:
*      value_db =  5 + 20 * log10(127 / (127 - code))
*
*/
pub const RXVGA1_LUT_CODE2VAL: [u8; 121] = [
    5, 5, 5, 5, 5, 5, 5, 5, 6, 6, 6, 6, 6, 6, 6, 6, 6, 6, 6, 6, 6, 7, 7, 7, 7, 7, 7, 7, 7, 7, 7, 7,
    8, 8, 8, 8, 8, 8, 8, 8, 8, 8, 8, 9, 9, 9, 9, 9, 9, 9, 9, 9, 10, 10, 10, 10, 10, 10, 10, 10, 11,
    11, 11, 11, 11, 11, 11, 12, 12, 12, 12, 12, 12, 12, 13, 13, 13, 13, 13, 13, 14, 14, 14, 14, 14,
    15, 15, 15, 15, 15, 16, 16, 16, 16, 17, 17, 17, 18, 18, 18, 18, 19, 19, 19, 20, 20, 21, 21, 22,
    22, 22, 23, 24, 24, 25, 25, 26, 27, 28, 29, 30,
];

/* The closest values from the above forumla have been selected.
 * indicides 0 - 4 are clamped to 5dB */
pub const RXVGA1_LUT_VAL2CODE: [u8; 31] = [
    2, 2, 2, 2, 2, 2, 14, 26, 37, 47, 56, 63, 70, 76, 82, 87, 91, 95, 99, 102, 104, 107, 109, 111,
    113, 114, 116, 117, 118, 119, 120,
];

pub const LMS_REG_DUMPSET: [u8; 107] = [
    /* Top level configuration */
    0x00, 0x01, 0x02, 0x03, 0x04, 0x05, 0x06, 0x07, 0x08, 0x09, 0x0A, 0x0B, 0x0E, 0x0F,
    /* TX PLL Configuration */
    0x10, 0x11, 0x12, 0x13, 0x14, 0x15, 0x16, 0x17, 0x18, 0x19, 0x1A, 0x1B, 0x1C, 0x1D, 0x1E, 0x1F,
    /* RX PLL Configuration */
    0x20, 0x21, 0x22, 0x23, 0x24, 0x25, 0x26, 0x27, 0x28, 0x29, 0x2A, 0x2B, 0x2C, 0x2D, 0x2E, 0x2F,
    /* TX LPF Modules Configuration */
    0x30, 0x31, 0x32, 0x33, 0x34, 0x35, 0x36, /* TX RF Modules Configuration */
    0x40, 0x41, 0x42, 0x43, 0x44, 0x45, 0x46, 0x47, 0x48, 0x49, 0x4A, 0x4B, 0x4C, 0x4D, 0x4E, 0x4F,
    /* RX LPF, ADC, and DAC Modules Configuration */
    0x50, 0x51, 0x52, 0x53, 0x54, 0x55, 0x56, 0x57, 0x58, 0x59, 0x5A, 0x5B, 0x5C, 0x5D, 0x5E, 0x5F,
    /* RX VGA2 Configuration */
    0x60, 0x61, 0x62, 0x63, 0x64, 0x65, 0x66, 0x67, 0x68,
    /* RX FE Modules Configuration */
    0x70, 0x71, 0x72, 0x73, 0x74, 0x75, 0x76, 0x77, 0x78, 0x79, 0x7A, 0x7B, 0x7C,
];

/* Register 0x08:  RF loopback config and additional BB config
 *
 * LBRFEN[3:0] @ [3:0]
 *  0000 - RF loopback disabled
 *  0001 - TXMIX output connected to LNA1 path
 *  0010 - TXMIX output connected to LNA2 path
 *  0011 - TXMIX output connected to LNA3 path
 *  else - Reserved
 *
 * LBEN_OPIN @ [4]
 *  0   - Disabled
 *  1   - TX BB loopback signal is connected to RX output pins
 *
 * LBEN_VGA2IN @ [5]
 *  0   - Disabled
 *  1   - TX BB loopback signal is connected to RXVGA2 input
 *
 * LBEN_LPFIN @ [6]
 *  0   - Disabled
 *  1   - TX BB loopback signal is connected to RXLPF input
 *
 */
pub const LBEN_OPIN: u8 = 0x10;

pub const LBEN_VGA2IN: u8 = 0x20;

pub const LBEN_LPFIN: u8 = 0x40;

pub const LBEN_MASK: u8 = 0x70;

pub const LBRFEN_LNA1: u8 = 1;

pub const LBRFEN_LNA2: u8 = 2;

pub const LBRFEN_LNA3: u8 = 3;

pub const LBRFEN_MASK: u8 = 0xf;  /* [3:2] are marked reserved */

/* Register 0x46: Baseband loopback config
 *
 * LOOPBBEN[1:0] @ [3:2]
 *  00 - All Baseband loops opened (default)
 *  01 - TX loopback path connected from TXLPF output
 *  10 - TX loopback path connected from TXVGA1 output
 *  11 - TX loopback path connected from Env/peak detect output
 */
pub const LOOPBBEN_TXLPF: u8 = 0x04;

pub const LOOPBBEN_TXVGA: u8 = 0x08;

pub const LOOPBBEN_ENVPK: u8 = 0x0c;

pub const LOOBBBEN_MASK: u8 = 0x0c;

/* VCOCAP estimation. The MIN/MAX values were determined experimentally by
 * sampling the VCOCAP values over frequency, for each of the VCOs and finding
 * these to be in the "middle" of a linear regression. Although the curve
 * isn't actually linear, the linear approximation yields satisfactory error. */
pub const VCOCAP_MAX_VALUE: u8 = 0x3f;

pub const VCOCAP_EST_MIN: u8 = 15;

pub const VCOCAP_EST_MAX: u8 = 55;

pub const VCOCAP_EST_RANGE: u8 = VCOCAP_EST_MAX - VCOCAP_EST_MIN;

pub const VCOCAP_EST_THRESH: u8 = 7;  /* Complain if we're +/- 7 on our guess */

/// If this bit is set, configure PLL output buffers for operation in the
/// bladeRF's "low band." Otherwise, configure the device for operation in the
/// "high band."
pub const LMS_FREQ_FLAGS_LOW_BAND: u8 = 0x01;

/// Use VCOCAP value as-is, rather as using it as a starting point hint
/// to the tuning algorithm.  This offers a faster retune, with a potential
/// trade-off in phase noise.
pub const LMS_FREQ_FLAGS_FORCE_VCOCAP: u8 = 0x02;

/// This bit indicates whether the quicktune needs to set XB-200 parameters
pub const LMS_FREQ_XB_200_ENABLE: u8 = 0x80;

/// This bit indicates the quicktune is for the RX module, not setting this bit
/// indicates the quicktune is for the TX module.
pub const LMS_FREQ_XB_200_MODULE_RX: u8 = 0x40;

/// This is the bit mask for the filter switch configuration for the XB-200.
pub const LMS_FREQ_XB_200_FILTER_SW: u8 = 0x30;

/// The number of bitshifts necessary to get to the filter switch field
pub const LMS_FREQ_XB_200_FILTER_SW_SHIFT: u8 = 4;

/// This is the bit mask for the path configuration for the XB-200.
pub const LMS_FREQ_XB_200_PATH: u8 = 0x0c;

/// The number of bitshifts necessary to get to the path field
pub const LMS_FREQ_XB_200_PATH_SHIFT: u8 = 2;

pub const VTUNE_DELAY_LARGE: u8 = 50;

pub const VTUNE_DELAY_SMALL: u8 = 25;

/// Readings that a walk of the tuning-capacitor code may take before it
/// gives up.
pub const VTUNE_MAX_ITERATIONS: u8 = 20;

/// Readings that a wait takes at one code before it moves the code.
pub const VTUNE_MAX_RETRIES: u8 = 15;

/// Tuning voltage above the lock range.
pub const VCO_HIGH: u8 = 0x02;

/// Tuning voltage within the lock range.
pub const VCO_NORM: u8 = 0x00;

/// Tuning voltage below the lock range.
pub const VCO_LOW: u8 = 0x01;

/* These values are the max counts we've seen (experimentally) between
 * VCOCAP values that converged */
pub const VCOCAP_MAX_LOW_HIGH: u8 = 12;

/// What the PLL of one module is to be programmed with.
#[derive(Debug, Clone, Copy, PartialEq, Eq, Structural)]
pub struct LmsFreq {
    /// Choice of VCO and division ratio
    pub freqsel: u8,
    /// VCOCAP hint
    pub vcocap: u8,
    /// Integer portion of f_LO given f_REF
    pub nint: u16,
    /// Fractional portion of f_LO given nint and f_REF
    pub nfrac: u32,
    /// Additional parameters defining the tuning configuration. See
    /// LMS_FREQ_FLAGS_* values
    pub flags: u8,
    /// Store XB-200 switch settings
    pub xb_gpio: u8,
    /// VCO division ratio
    pub x: u8,
    /// Filled in by retune operation to denote which VCOCAP value was used
    pub vcocap_result: u8,
}

impl Default for LmsFreq {
    fn default() -> (f: Self)
        ensures
            f == (LmsFreq {
                freqsel: 0,
                vcocap: 0,
                nint: 0,
                nfrac: 0,
                flags: 0,
                xb_gpio: 0,
                x: 0,
                vcocap_result: 0,
            }),
    {
        LmsFreq {
            freqsel: 0,
            vcocap: 0,
            nint: 0,
            nfrac: 0,
            flags: 0,
            xb_gpio: 0,
            x: 0,
            vcocap_result: 0,
        }
    }
}

/* For >= 1.5 GHz uses the high band should be used. Otherwise, the low
 * band should be selected */
pub const BLADERF1_BAND_HIGH: u32 = 1500000000;

/// Internal low-pass filter bandwidth selection
#[derive(Debug, Clone, Copy, PartialEq, Eq, Structural)]
pub enum LmsBw {
    /// 28MHz bandwidth, 14MHz LPF
    Bw28mhz,
    /// 20MHz bandwidth, 10MHz LPF
    Bw20mhz,
    /// 14MHz bandwidth, 7MHz LPF
    Bw14mhz,
    /// 12MHz bandwidth, 6MHz LPF
    Bw12mhz,
    /// 10MHz bandwidth, 5MHz LPF
    Bw10mhz,
    /// 8.75MHz bandwidth, 4.375MHz LPF
    Bw8p75mhz,
    /// 7MHz bandwidth, 3.5MHz LPF
    Bw7mhz,
    /// 6MHz bandwidth, 3MHz LPF
    Bw6mhz,
    /// 5.5MHz bandwidth, 2.75MHz LPF
    Bw5p5mhz,
    /// 5MHz bandwidth, 2.5MHz LPF
    Bw5mhz,
    /// 3.84MHz bandwidth, 1.92MHz LPF
    Bw3p84mhz,
    /// 3MHz bandwidth, 1.5MHz LPF
    Bw3mhz,
    /// 2.75MHz bandwidth, 1.375MHz LPF
    Bw2p75mhz,
    /// 2.5MHz bandwidth, 1.25MHz LPF
    Bw2p5mhz,
    /// 1.75MHz bandwidth, 0.875MHz LPF
    Bw1p75mhz,
    /// 1.5MHz bandwidth, 0.75MHz LPF
    Bw1p5mhz,
}

/// LNA options
#[derive(Debug, Clone, Copy, PartialEq, Eq, Structural)]
pub enum LmsLna {
    /// Disable all LNAs
    LnaNone,
    /// Enable LNA1 (300MHz - 2.8GHz)
    Lna1,
    /// Enable LNA2 (1.5GHz - 3.8GHz)
    Lna2,
    /// Enable LNA3 (Unused on the bladeRF)
    Lna3,
}

/// Loopback paths
#[derive(Debug, Clone, Copy, PartialEq, Eq, Structural)]
pub enum LmsLbp {
    /// Baseband loopback path
    LbpBb,
    /// RF Loopback path
    LbpRf,
}

/// PA Selection
#[derive(Debug, Clone, Copy, PartialEq, Eq, Structural)]
pub enum LmsPa {
    /// AUX PA Enable (for RF Loopback)
    PaAux,
    /// PA1 Enable (300MHz - 2.8GHz)
    Pa1,
    /// PA2 Enable (1.5GHz - 3.8GHz)
    Pa2,
    /// All PAs disabled
    PaNone,
}

/// LMS6002D Transceiver configuration
#[derive(Debug, Clone, Copy, PartialEq, Eq, Structural)]
pub struct LmsXcvrConfig {
    /// Transmit frequency in Hz
    pub tx_freq_hz: u32,
    /// Receive frequency in Hz
    pub rx_freq_hz: u32,
    /// Loopback Mode
    pub loopback_mode: BladerfLoopback,
    /// LNA Selection
    pub lna: LmsLna,
    /// PA Selection
    pub pa: LmsPa,
    /// Transmit Bandwidth
    pub tx_bw: LmsBw,
    /// Receive Bandwidth
    pub rx_bw: LmsBw,
}

/// Row `index` of the frequency range table.
pub open spec fn band_of(index: int) -> FreqRange {
    FreqRange { low: BAND_LOW[index], high: BAND_HIGH[index], value: BAND_VALUE[index] }
}

/// A frequency within the range that the chip can tune: below the minimum
/// it counts as the minimum, above the maximum as the maximum.
pub open spec fn clamped(freq: u32) -> u32 {
    if freq < BLADERF_FREQUENCY_MIN {
        BLADERF_FREQUENCY_MIN
    } else if freq > BLADERF_FREQUENCY_MAX {
        BLADERF_FREQUENCY_MAX
    } else {
        freq
    }
}

/// The first row from `index` on whose range reaches up to `freq`.
pub open spec fn band_from(freq: u32, index: int) -> int
    decreases 15 - index,
{
    if index >= 15 || freq <= BAND_HIGH[index] {
        index
    } else {
        band_from(freq, index + 1)
    }
}

/// The estimate of the tuning-capacitor code for `f_target` in a band from
/// `f_low` to `f_high`: from 15 at the bottom of the band to 55 at its top,
/// in proportion, rounded half up, and never above 63.
pub open spec fn vcocap_estimate(f_target: u32, f_low: u32, f_high: u32) -> u8 {
    let span = f_high - f_low;
    let scaled = (2 * VCOCAP_EST_RANGE * (f_target - f_low) + span) / (2 * span);
    if VCOCAP_EST_MIN + scaled > VCOCAP_MAX_VALUE {
        VCOCAP_MAX_VALUE
    } else {
        (VCOCAP_EST_MIN + scaled) as u8
    }
}

/// The integer part of the PLL divider `N = ratio * freq / f_ref`.
pub open spec fn nint_of(ratio: int, freq: int) -> int {
    (ratio * freq) / (LMS_REFERENCE_HZ as int)
}

/// The fractional part of the PLL divider in units of 2^-23, rounded half
/// up.
pub open spec fn nfrac_of(ratio: int, freq: int) -> int {
    (0x80_0000 * ((ratio * freq) % (LMS_REFERENCE_HZ as int)) + LMS_REFERENCE_HZ / 2) / (
    LMS_REFERENCE_HZ as int)
}

/// The tuning parameters for `freq`.
pub open spec fn tuning_params(freq: u32) -> LmsFreq {
    let f = clamped(freq);
    let i = band_from(f, 0);
    LmsFreq {
        freqsel: BAND_VALUE[i],
        vcocap: vcocap_estimate(f, BAND_LOW[i] as u32, BAND_HIGH[i] as u32),
        nint: nint_of(BAND_RATIO[i] as int, f as int) as u16,
        nfrac: nfrac_of(BAND_RATIO[i] as int, f as int) as u32,
        flags: 0,
        xb_gpio: 0,
        x: BAND_RATIO[i],
        vcocap_result: 0,
    }
}

/// The loopback mode that the registers 0x08 and 0x46 stand for. A baseband
/// loopback into RXVGA2 or RXLPF, fed from TXLPF or TXVGA1, goes before an
/// RF loopback through one of the LNAs.
pub open spec fn loopback_mode_in(lben_lbrfen: u8, loopbben: u8) -> BladerfLoopback {
    let rf = if lben_lbrfen & 0x7 == LBRFEN_LNA1 {
        BladerfLoopback::BladerfLbRfLna1
    } else if lben_lbrfen & 0x7 == LBRFEN_LNA2 {
        BladerfLoopback::BladerfLbRfLna2
    } else if lben_lbrfen & 0x7 == LBRFEN_LNA3 {
        BladerfLoopback::BladerfLbRfLna3
    } else {
        BladerfLoopback::BladerfLbNone
    };
    if lben_lbrfen & LBEN_MASK == LBEN_VGA2IN {
        if loopbben & LOOPBBEN_TXLPF != 0 {
            BladerfLoopback::BladerfLbBbTxlpfRxvga2
        } else if loopbben & LOOPBBEN_TXVGA != 0 {
            BladerfLoopback::BladerfLbBbTxvga1Rxvga2
        } else {
            rf
        }
    } else if lben_lbrfen & LBEN_MASK == LBEN_LPFIN {
        if loopbben & LOOPBBEN_TXLPF != 0 {
            BladerfLoopback::BladerfLbBbTxlpfRxlpf
        } else if loopbben & LOOPBBEN_TXVGA != 0 {
            BladerfLoopback::BladerfLbBbTxvga1Rxlpf
        } else {
            rf
        }
    } else {
        rf
    }
}

/// The value of the PLL configuration register: FREQSEL in bits 7:2, and in
/// bits 1:0 the output buffer, 1 for the low band and 2 for the high band.
/// While a loopback is enabled the output buffer bits stay as they are in
/// `regval`.
pub open spec fn pll_config_of(regval: u8, freqsel: u8, low_band: bool, lb_enabled: bool) -> u8 {
    if !lb_enabled {
        (freqsel << 2) | (if low_band {
            1u8
        } else {
            2u8
        })
    } else {
        (regval & !0xfcu8) | (freqsel << 2)
    }
}

/// The four bytes that hold the PLL divider: NINT[8:1], then NINT[0] and
/// NFRAC[22:16], then NFRAC[15:8], then NFRAC[7:0].
pub open spec fn pll_divider_bytes_of(nint: u16, nfrac: u32) -> (u8, u8, u8, u8) {
    (
        ((nint >> 1) & 0xff) as u8,
        ((((nint & 1) << 7) as u32) | ((nfrac >> 16) & 0x7f)) as u8,
        ((nfrac >> 8) & 0xff) as u8,
        (nfrac & 0xff) as u8,
    )
}

/// Byte `index` of the four bytes that hold the PLL divider.
pub open spec fn pll_divider_byte_of(nint: u16, nfrac: u32, index: u8) -> u8 {
    if index == 0 {
        pll_divider_bytes_of(nint, nfrac).0
    } else if index == 1 {
        pll_divider_bytes_of(nint, nfrac).1
    } else if index == 2 {
        pll_divider_bytes_of(nint, nfrac).2
    } else {
        pll_divider_bytes_of(nint, nfrac).3
    }
}

/// The loopback mode that the values of the registers 0x08 and 0x46 stand
/// for.
pub fn loopback_mode_from(lben_lbrfen: u8, loopbben: u8) -> (mode: BladerfLoopback)
    ensures
        mode == loopback_mode_in(lben_lbrfen, loopbben),
{
    let mut loopback = BladerfLoopback::BladerfLbNone;
    let lbrfen: u8 = lben_lbrfen & 0x7;
    if lbrfen == LBRFEN_LNA1 {
        loopback = BladerfLoopback::BladerfLbRfLna1;
    } else if lbrfen == LBRFEN_LNA2 {
        loopback = BladerfLoopback::BladerfLbRfLna2;
    } else if lbrfen == LBRFEN_LNA3 {
        loopback = BladerfLoopback::BladerfLbRfLna3;
    }
    let lben: u8 = lben_lbrfen & LBEN_MASK;
    if lben == LBEN_VGA2IN {
        if (loopbben & LOOPBBEN_TXLPF) != 0 {
            loopback = BladerfLoopback::BladerfLbBbTxlpfRxvga2;
        } else if (loopbben & LOOPBBEN_TXVGA) != 0 {
            loopback = BladerfLoopback::BladerfLbBbTxvga1Rxvga2;
        }
    } else if lben == LBEN_LPFIN {
        if (loopbben & LOOPBBEN_TXLPF) != 0 {
            loopback = BladerfLoopback::BladerfLbBbTxlpfRxlpf;
        } else if (loopbben & LOOPBBEN_TXVGA) != 0 {
            loopback = BladerfLoopback::BladerfLbBbTxvga1Rxlpf;
        }
    }
    loopback
}

/// The value of the PLL configuration register for `freqsel`.
pub fn pll_config_register(regval: u8, freqsel: u8, low_band: bool, lb_enabled: bool) -> (value:
    u8)
    ensures
        value == pll_config_of(regval, freqsel, low_band, lb_enabled),
{
    if !lb_enabled {
        /* Loopback not enabled - update the PLL output buffer. */
        let selout: u8 = if low_band {
            1
        } else {
            2
        };
        (freqsel << 2) | selout
    } else {
        /* Loopback is enabled - don't touch PLL output buffer. */
        (regval & !0xfcu8) | (freqsel << 2)
    }
}

/// Byte `index` of the four bytes that hold the PLL divider.
pub fn pll_divider_byte(nint: u16, nfrac: u32, index: u8) -> (byte: u8)
    ensures
        byte == pll_divider_byte_of(nint, nfrac, index),
{
    if index == 0 {
        ((nint >> 1) & 0xff) as u8
    } else if index == 1 {
        ((((nint & 1) << 7) as u32) | ((nfrac >> 16) & 0x7f)) as u8
    } else if index == 2 {
        ((nfrac >> 8) & 0xff) as u8
    } else {
        (nfrac & 0xff) as u8
    }
}

/// Below the tunable range a frequency is tuned as the minimum, above it as
/// the maximum.
pub proof fn lemma_tuning_params_clamp(freq: u32)
    ensures
        tuning_params(freq) == tuning_params(clamped(freq)),
        freq <= BLADERF_FREQUENCY_MIN ==> tuning_params(freq) == tuning_params(
            BLADERF_FREQUENCY_MIN,
        ),
        freq >= BLADERF_FREQUENCY_MAX ==> tuning_params(freq) == tuning_params(
            BLADERF_FREQUENCY_MAX,
        ),
{
}

/// The bands lie side by side from the minimum to the maximum frequency:
/// each starts where the one before it ends.
pub proof fn lemma_bands_contiguous(index: int)
    requires
        0 <= index < 16,
    ensures
        BAND_LOW[index] < BAND_HIGH[index],
        index < 15 ==> BAND_HIGH[index] == BAND_LOW[index + 1],
        BAND_LOW[0] == BLADERF_FREQUENCY_MIN,
        BAND_HIGH[15] == BLADERF_FREQUENCY_MAX,
        BAND_RATIO[index] * BAND_HIGH[index] <= VCO1_HIGH,
        BAND_RATIO[index] * BAND_LOW[index] >= VCO4_LOW,
{
    if index == 0 {
        assert(BAND_RATIO[0] * BAND_HIGH[0] <= VCO1_HIGH);
        assert(BAND_RATIO[0] * BAND_LOW[0] >= VCO4_LOW);
    }
    if index == 1 {
        assert(BAND_RATIO[1] * BAND_HIGH[1] <= VCO1_HIGH);
        assert(BAND_RATIO[1] * BAND_LOW[1] >= VCO4_LOW);
    }
    if index == 2 {
        assert(BAND_RATIO[2] * BAND_HIGH[2] <= VCO1_HIGH);
        assert(BAND_RATIO[2] * BAND_LOW[2] >= VCO4_LOW);
    }
    if index == 3 {
        assert(BAND_RATIO[3] * BAND_HIGH[3] <= VCO1_HIGH);
        assert(BAND_RATIO[3] * BAND_LOW[3] >= VCO4_LOW);
    }
    if index == 4 {
        assert(BAND_RATIO[4] * BAND_HIGH[4] <= VCO1_HIGH);
        assert(BAND_RATIO[4] * BAND_LOW[4] >= VCO4_LOW);
    }
    if index == 5 {
        assert(BAND_RATIO[5] * BAND_HIGH[5] <= VCO1_HIGH);
        assert(BAND_RATIO[5] * BAND_LOW[5] >= VCO4_LOW);
    }
    if index == 6 {
        assert(BAND_RATIO[6] * BAND_HIGH[6] <= VCO1_HIGH);
        assert(BAND_RATIO[6] * BAND_LOW[6] >= VCO4_LOW);
    }
    if index == 7 {
        assert(BAND_RATIO[7] * BAND_HIGH[7] <= VCO1_HIGH);
        assert(BAND_RATIO[7] * BAND_LOW[7] >= VCO4_LOW);
    }
    if index == 8 {
        assert(BAND_RATIO[8] * BAND_HIGH[8] <= VCO1_HIGH);
        assert(BAND_RATIO[8] * BAND_LOW[8] >= VCO4_LOW);
    }
    if index == 9 {
        assert(BAND_RATIO[9] * BAND_HIGH[9] <= VCO1_HIGH);
        assert(BAND_RATIO[9] * BAND_LOW[9] >= VCO4_LOW);
    }
    if index == 10 {
        assert(BAND_RATIO[10] * BAND_HIGH[10] <= VCO1_HIGH);
        assert(BAND_RATIO[10] * BAND_LOW[10] >= VCO4_LOW);
    }
    if index == 11 {
        assert(BAND_RATIO[11] * BAND_HIGH[11] <= VCO1_HIGH);
        assert(BAND_RATIO[11] * BAND_LOW[11] >= VCO4_LOW);
    }
    if index == 12 {
        assert(BAND_RATIO[12] * BAND_HIGH[12] <= VCO1_HIGH);
        assert(BAND_RATIO[12] * BAND_LOW[12] >= VCO4_LOW);
    }
    if index == 13 {
        assert(BAND_RATIO[13] * BAND_HIGH[13] <= VCO1_HIGH);
        assert(BAND_RATIO[13] * BAND_LOW[13] >= VCO4_LOW);
    }
    if index == 14 {
        assert(BAND_RATIO[14] * BAND_HIGH[14] <= VCO1_HIGH);
        assert(BAND_RATIO[14] * BAND_LOW[14] >= VCO4_LOW);
    }
    if index == 15 {
        assert(BAND_RATIO[15] * BAND_HIGH[15] <= VCO1_HIGH);
        assert(BAND_RATIO[15] * BAND_LOW[15] >= VCO4_LOW);
    }
}

/// The band chosen for a frequency within the tunable range holds it, and
/// no band before it does.
pub proof fn lemma_band_holds(freq: u32, from: int)
    requires
        0 <= from < 16,
        BAND_LOW[from] <= freq <= BLADERF_FREQUENCY_MAX,
        forall|j: int| 0 <= j < from ==> freq > BAND_HIGH[j],
    ensures
        0 <= band_from(freq, from) < 16,
        BAND_LOW[band_from(freq, from)] <= freq <= BAND_HIGH[band_from(freq, from)],
        forall|j: int| 0 <= j < band_from(freq, from) ==> freq > BAND_HIGH[j],
    decreases 15 - from,
{
    lemma_bands_contiguous(from);
    if from < 15 && freq > BAND_HIGH[from] {
        lemma_band_holds(freq, from + 1);
    }
}

/// The divider reconstructs the frequency to within half a step of the
/// fraction: `f_ref * (nint * 2^23 + nfrac)` differs from
/// `ratio * freq * 2^23` by at most `f_ref / 2`.
pub proof fn lemma_divider_reconstructs(ratio: int, freq: int)
    requires
        0 <= ratio,
        0 <= freq,
    ensures
        -(LMS_REFERENCE_HZ / 2) <= LMS_REFERENCE_HZ * (nint_of(ratio, freq) * 0x80_0000
            + nfrac_of(ratio, freq)) - ratio * freq * 0x80_0000 <= LMS_REFERENCE_HZ / 2,
{
    let vco = ratio * freq;
    assert(vco >= 0) by (nonlinear_arith)
        requires
            vco == ratio * freq,
            ratio >= 0,
            freq >= 0,
    ;
    let r = 38400000int;
    let nint = vco / r;
    let rem = vco % r;
    vstd::arithmetic::div_mod::lemma_fundamental_div_mod(vco, r);
    let t = 0x80_0000 * rem + r / 2;
    let nfrac = t / r;
    vstd::arithmetic::div_mod::lemma_fundamental_div_mod(t, r);
    assert(r * (nint * 0x80_0000 + nfrac) - vco * 0x80_0000 == r / 2 - t % r)
        by (nonlinear_arith)
        requires
            vco == r * nint + rem,
            t == r * nfrac + t % r,
            t == 0x80_0000 * rem + r / 2,
    ;
}

/// The request frame that carries a register access to the chip: a read
/// frame for the address with a data field of zero, or a write frame for the
/// address and the value.
pub open spec fn request_of(op: RegOp) -> Seq<u8> {
    match op {
        RegOp::Read(addr) => NiosPacket8x8::frame(
            NIOS_PKT_8X8_TARGET_LMS6,
            NIOS_PKT_FLAG_READ,
            addr,
            0,
        ),
        RegOp::Write(addr, data) => NiosPacket8x8::frame(
            NIOS_PKT_8X8_TARGET_LMS6,
            NIOS_PKT_FLAG_WRITE,
            addr,
            data,
        ),
    }
}

/// What one exchange with the chip comes to: the data field of the
/// response where the response is accepted, else the error.
pub open spec fn answer(exchanged: Result<Vec<u8>, TransportError>) -> Result<u8, BladeRfError> {
    NiosPacket8x8::data_in(NIOS_PKT_8X8_TARGET_LMS6, exchanged)
}

/// An outcome without its data.
pub open spec fn settled(outcome: Result<u8, BladeRfError>) -> Result<(), BladeRfError> {
    match outcome {
        Ok(_) => Ok(()),
        Err(e) => Err(e),
    }
}

/// The tuning voltage state that an exchange gave: the two high bits of the
/// data of the response, or the error of the exchange.
pub open spec fn vtune_in(exchanged: Result<Vec<u8>, TransportError>) -> Result<u8, BladeRfError> {
    match answer(exchanged) {
        Ok(reading) => Ok(reading >> 6),
        Err(e) => Err(e),
    }
}

/// The tuning voltage state that writing a code and reading the comparator
/// gave: the error of the write where it failed, else what the read gave.
pub open spec fn probed(
    written: Result<Vec<u8>, TransportError>,
    read: Result<Vec<u8>, TransportError>,
) -> Result<u8, BladeRfError> {
    match answer(written) {
        Ok(_) => vtune_in(read),
        Err(e) => Err(e),
    }
}

/// The loopback mode that reading the registers 0x08 and 0x46 gave: the
/// error of the first read that failed, else the mode that the two values
/// stand for.
pub open spec fn loopback_read(
    first: Result<Vec<u8>, TransportError>,
    second: Result<Vec<u8>, TransportError>,
) -> Result<BladerfLoopback, BladeRfError> {
    match answer(first) {
        Err(e) => Err(e),
        Ok(lben_lbrfen) => match answer(second) {
            Err(e) => Err(e),
            Ok(loopbben) => Ok(loopback_mode_in(lben_lbrfen, loopbben)),
        },
    }
}

/// Address of the front end register of `module`: 0x40 for the transmit
/// side, 0x70 for the receive side.
pub open spec fn rffe_addr_of(module: u8) -> u8 {
    if module == BLADERF_MODULE_TX {
        0x40
    } else {
        0x70
    }
}

/// The bits of the front end register that stay when `module` is switched:
/// all of them to switch it on, all but its enable bit to switch it off.
/// The enable bit is bit 0 for the transmit side and bit 1 for the receive
/// side.
pub open spec fn rffe_keep_of(module: u8, enable: bool) -> u8 {
    if enable {
        0xff
    } else if module == BLADERF_MODULE_TX {
        0xfe
    } else {
        0xfd
    }
}

/// The bits of the front end register that are set when `module` is
/// switched: its enable bit to switch it on, none to switch it off.
pub open spec fn rffe_raise_of(module: u8, enable: bool) -> u8 {
    if !enable {
        0x00
    } else if module == BLADERF_MODULE_TX {
        0x01
    } else {
        0x02
    }
}

/// What setting the three charge pump currents of the PLL at `base` comes
/// to: each register in turn, from `base + 6` on, is read and written back
/// with its five current bits set, to 0x0c for the pump and to 0x03 for the
/// up and the down offset. The first change that fails ends it with that
/// error; else it ends with the outcome of the last write.
pub open spec fn charge_pumps_run(
    base: u8,
    pump: Seq<Result<u8, BladeRfError>>,
    up: Seq<Result<u8, BladeRfError>>,
    down: Seq<Result<u8, BladeRfError>>,
) -> Option<Result<u8, BladeRfError>> {
    match Rmw::begun((base + 6) as u8, 0xe0, 0x0c).run(pump) {
        Rmw::Over(Err(e)) => Some(Err(e)),
        Rmw::Over(Ok(_)) => match Rmw::begun((base + 7) as u8, 0xe0, 0x03).run(up) {
            Rmw::Over(Err(e)) => Some(Err(e)),
            Rmw::Over(Ok(_)) => match Rmw::begun((base + 8) as u8, 0xe0, 0x03).run(down) {
                Rmw::Over(outcome) => Some(outcome),
                _ => None,
            },
            _ => None,
        },
        _ => None,
    }
}

/// Whether the search from `estimate` can end with the code `code`: some
/// sequence of readings leads it there.
pub open spec fn search_result(estimate: u8, code: u8) -> bool {
    exists|readings: Seq<u8>| #[trigger]
        Tuner::started(estimate).run(readings) == Tuner::Over(Ok::<u8, BladeRfError>(code))
}

/// Whether the search from `estimate` can end with the error `e`: some
/// sequence of readings leads it there.
pub open spec fn search_error(estimate: u8, e: BladeRfError) -> bool {
    exists|readings: Seq<u8>| #[trigger]
        Tuner::started(estimate).run(readings) == Tuner::Over(Err::<u8, BladeRfError>(e))
}

/// The LMS6002D transceiver behind a channel to the command processor.
pub struct LMS6002D<T: Nios> {
    interface: T,
}

impl<T: Nios> LMS6002D<T> {
    /// The channel that the chip is reached through.
    pub closed spec fn channel(&self) -> T {
        self.interface
    }

    pub fn new(interface: T) -> (chip: Self)
        ensures
            chip.channel() == interface,
    {
        Self { interface }
    }

    /// The request frame that carries a register access to the chip.
    pub fn request(op: RegOp) -> (frame: Vec<u8>)
        ensures
            frame@ == request_of(op),
            frame.len() == 16,
    {
        match op {
            RegOp::Read(addr) => NiosPacket8x8::build(
                NIOS_PKT_8X8_TARGET_LMS6,
                NIOS_PKT_FLAG_READ,
                addr,
                0x0,
            ),
            RegOp::Write(addr, data) => NiosPacket8x8::build(
                NIOS_PKT_8X8_TARGET_LMS6,
                NIOS_PKT_FLAG_WRITE,
                addr,
                data,
            ),
        }
    }

    /// Makes one register access: exchanges the frame of [`Self::request`]
    /// for one response and returns the data field of the response.
    pub fn perform(&self, op: RegOp) -> (res: Result<u8, BladeRfError>)
        ensures
            exists|exchanged: Result<Vec<u8>, TransportError>|
                res == #[trigger] NiosPacket8x8::data_in(NIOS_PKT_8X8_TARGET_LMS6, exchanged),
            res is Err ==> res->Err_0.from_exchange(),
    {
        let exchanged = self.interface.nios_send(ENDPOINT_IN, ENDPOINT_OUT, Self::request(op));
        let ghost given = exchanged;
        let res = NiosPacket8x8::response_data(NIOS_PKT_8X8_TARGET_LMS6, exchanged);
        assert(res == NiosPacket8x8::data_in(NIOS_PKT_8X8_TARGET_LMS6, given));
        res
    }

    /// Reads the register `addr` of the chip: one read frame, one response.
    pub fn read(&self, addr: u8) -> (res: Result<u8, BladeRfError>)
        ensures
            exists|exchanged: Result<Vec<u8>, TransportError>|
                res == #[trigger] NiosPacket8x8::data_in(NIOS_PKT_8X8_TARGET_LMS6, exchanged),
            res is Err ==> res->Err_0.from_exchange(),
    {
        self.perform(RegOp::Read(addr))
    }

    /// Writes `data` to the register `addr` of the chip: one write frame,
    /// one response. Returns the data field of the response.
    pub fn write(&self, addr: u8, data: u8) -> (res: Result<u8, BladeRfError>)
        ensures
            exists|exchanged: Result<Vec<u8>, TransportError>|
                res == #[trigger] NiosPacket8x8::data_in(NIOS_PKT_8X8_TARGET_LMS6, exchanged),
            res is Err ==> res->Err_0.from_exchange(),
    {
        self.perform(RegOp::Write(addr, data))
    }

    /// Changes the register `addr` by reading it and writing it back with
    /// the bits of `keep` kept and the bits of `raise` set, as [`Rmw`] lays
    /// down. Returns the data field of the response to the write.
    pub fn modify(&self, addr: u8, keep: u8, raise: u8) -> (res: Result<u8, BladeRfError>)
        ensures
            exists|outcomes: Seq<Result<u8, BladeRfError>>| #[trigger]
                Rmw::begun(addr, keep, raise).run(outcomes) == Rmw::Over(res),
            res is Err ==> res->Err_0.from_exchange(),
    {
        let mut rmw = Rmw::begin(addr, keep, raise);
        let ghost mut outcomes: Seq<Result<u8, BladeRfError>> = Seq::empty();
        loop
            invariant
                rmw == Rmw::begun(addr, keep, raise).run(outcomes),
                rmw matches Rmw::Over(Err(e)) ==> e.from_exchange(),
            decreases rmw.fuel(),
        {
            match rmw {
                Rmw::Over(res) => {
                    return res;
                },
                _ => {},
            }
            match rmw.op() {
                Some(op) => {
                    let outcome = self.perform(op);
                    rmw = rmw.advance(outcome);
                    proof {
                        assert(outcomes.push(outcome).drop_last() =~= outcomes);
                        outcomes = outcomes.push(outcome);
                    }
                },
                None => {},
            }
        }
    }

    /// Raises the bits of `mask` in the register `addr`: the accesses are
    /// those of the [`Rmw`] that keeps every bit and raises `mask`, so what
    /// is written is the value read or-ed with `mask`.
    ///
    /// This is a read followed by a write: two separate exchanges, with
    /// nothing to keep another user of the channel from coming in between.
    /// Callers serialize their access to the chip.
    pub fn set(&self, addr: u8, mask: u8) -> (res: Result<(), BladeRfError>)
        ensures
            exists|outcomes: Seq<Result<u8, BladeRfError>>|
                match #[trigger] Rmw::begun(addr, 0xff, mask).run(outcomes) {
                    Rmw::Over(outcome) => res == settled(outcome),
                    _ => false,
                },
            res is Err ==> res->Err_0.from_exchange(),
    {
        match self.modify(addr, 0xff, mask) {
            Ok(_) => Ok(()),
            Err(e) => Err(e),
        }
    }

    /// The tuning voltage state in a reading of the comparator register:
    /// its two high bits.
    pub fn vtune_of(reading: u8) -> (vtune: u8)
        ensures
            vtune == reading >> 6,
            vtune <= 3,
    {
        assert(reading >> 6 <= 3) by (bit_vector);
        reading >> 6
    }

    /// Reads the tuning voltage state of the PLL at `base`.
    pub fn get_vtune(&self, base: u8, _delay: u8) -> (res: Result<u8, BladeRfError>)
        requires
            base <= 245,
        ensures
            exists|exchanged: Result<Vec<u8>, TransportError>|
                res == #[trigger] vtune_in(exchanged),
            match res {
                Ok(vtune) => vtune <= 3,
                Err(e) => e.from_exchange(),
            },
    {
        let read = self.read(base + 10);
        let ghost first = choose|exchanged: Result<Vec<u8>, TransportError>|
            read == NiosPacket8x8::data_in(NIOS_PKT_8X8_TARGET_LMS6, exchanged);
        let res = match read {
            Ok(reading) => Ok(Self::vtune_of(reading)),
            Err(e) => Err(e),
        };
        assert(res == vtune_in(first));
        res
    }

    /// The address of the front end register of `module`, and the bits that
    /// stay and the bits that are set when the front end is switched.
    pub fn rffe_change(module: u8, enable: bool) -> (change: (u8, u8, u8))
        ensures
            change == (
                rffe_addr_of(module),
                rffe_keep_of(module, enable),
                rffe_raise_of(module, enable),
            ),
    {
        let addr: u8 = if module == BLADERF_MODULE_TX {
            0x40
        } else {
            0x70
        };
        let bit: u8 = if module == BLADERF_MODULE_TX {
            0x01
        } else {
            0x02
        };
        assert(!0x01u8 == 0xfe && !0x02u8 == 0xfd) by (bit_vector);
        if enable {
            (addr, 0xff, bit)
        } else {
            (addr, !bit, 0x00)
        }
    }

    /// Switches the RF front end of `module` on or off: the accesses are
    /// those of the [`Rmw`] of its front end register that sets or clears
    /// its enable bit and keeps every other bit.
    pub fn enable_rffe(&self, module: u8, enable: bool) -> (res: Result<u8, BladeRfError>)
        ensures
            exists|outcomes: Seq<Result<u8, BladeRfError>>| #[trigger]
                Rmw::begun(
                    rffe_addr_of(module),
                    rffe_keep_of(module, enable),
                    rffe_raise_of(module, enable),
                ).run(outcomes) == Rmw::Over(res),
            res is Err ==> res->Err_0.from_exchange(),
    {
        let change = Self::rffe_change(module, enable);
        self.modify(change.0, change.1, change.2)
    }

    /// Sets the charge pump currents of the PLL of `module`: the current of
    /// the pump, then the up and the down offset current, each by the
    /// [`Rmw`] of its register that [`charge_pumps_run`] names.
    pub fn config_charge_pumps(&self, module: u8) -> (res: Result<u8, BladeRfError>)
        ensures
            exists|
                pump: Seq<Result<u8, BladeRfError>>,
                up: Seq<Result<u8, BladeRfError>>,
                down: Seq<Result<u8, BladeRfError>>,
            | #[trigger]
                charge_pumps_run(pll_base_of(module), pump, up, down) == Some(res),
            res is Err ==> res->Err_0.from_exchange(),
    {
        let base: u8 = if module == BLADERF_MODULE_RX {
            0x20
        } else {
            0x10
        };
        let ghost none: Seq<Result<u8, BladeRfError>> = Seq::empty();
        assert(!0x1fu8 == 0xe0) by (bit_vector);

        // Set PLL Ichp current
        let pumped = self.modify(base + 6, !0x1fu8, 0x0c);
        let ghost pump = choose|outcomes: Seq<Result<u8, BladeRfError>>| #[trigger]
            Rmw::begun((base + 6) as u8, 0xe0, 0x0c).run(outcomes) == Rmw::Over(pumped);
        if pumped.is_err() {
            assert(charge_pumps_run(pll_base_of(module), pump, none, none) == Some(pumped));
            return pumped;
        }
        // Set Iup current

        let raised = self.modify(base + 7, !0x1fu8, 0x03);
        let ghost up = choose|outcomes: Seq<Result<u8, BladeRfError>>| #[trigger]
            Rmw::begun((base + 7) as u8, 0xe0, 0x03).run(outcomes) == Rmw::Over(raised);
        if raised.is_err() {
            assert(charge_pumps_run(pll_base_of(module), pump, up, none) == Some(raised));
            return raised;
        }
        // Set Idn current

        let lowered = self.modify(base + 8, !0x1fu8, 0x03);
        let ghost down = choose|outcomes: Seq<Result<u8, BladeRfError>>| #[trigger]
            Rmw::begun((base + 8) as u8, 0xe0, 0x03).run(outcomes) == Rmw::Over(lowered);
        assert(charge_pumps_run(pll_base_of(module), pump, up, down) == Some(lowered));
        lowered
    }

    /// This is a linear interpolation of our experimentally identified
    /// mean VCOCAP min and VCOCAP max values.
    pub fn estimate_vcocap(f_target: u32, f_low: u32, f_high: u32) -> (vcocap: u8)
        requires
            f_low <= f_target,
            f_low < f_high,
        ensures
            vcocap == vcocap_estimate(f_target, f_low, f_high),
            vcocap <= VCOCAP_MAX_VALUE,
    {
        let span: u64 = (f_high - f_low) as u64;
        let f_diff: u64 = (f_target - f_low) as u64;
        let gain: u64 = 2 * (VCOCAP_EST_RANGE as u64);
        assert(gain * f_diff <= 80 * 0xFFFF_FFFF) by (nonlinear_arith)
            requires
                gain == 80,
                f_diff <= 0xFFFF_FFFF,
        ;
        assert(2 * VCOCAP_EST_RANGE * (f_target - f_low) == gain * f_diff) by (nonlinear_arith)
            requires
                gain == 2 * VCOCAP_EST_RANGE,
                f_diff == f_target - f_low,
        ;
        let top: u64 = gain * f_diff + span;
        assert(top as int / (2 * span) <= top) by (nonlinear_arith)
            requires
                span >= 1,
                top >= 0,
        ;
        let scaled: u64 = top / (2 * span);
        if VCOCAP_EST_MIN as u64 + scaled > VCOCAP_MAX_VALUE as u64 {
            VCOCAP_MAX_VALUE
        } else {
            (VCOCAP_EST_MIN as u64 + scaled) as u8
        }
    }

    /// Row `index` of the frequency range table.
    pub fn band(index: usize) -> (range: FreqRange)
        requires
            index < 16,
        ensures
            range == band_of(index as int),
    {
        FreqRange { low: BAND_LOW[index], high: BAND_HIGH[index], value: BAND_VALUE[index] }
    }

    /// The ratio between VCO and output frequency that a FREQSEL value of
    /// the table selects: two to the power of its three low bits less 3.
    pub fn vco_ratio(index: usize) -> (x: u8)
        requires
            index < 16,
        ensures
            x == BAND_RATIO[index as int],
    {
        let freqsel: u8 = BAND_VALUE[index];
        let frange: u8 = freqsel & 7;
        assert(forall|v: u8, d: u8|
            (v == 0x20 || v == 0x28 || v == 0x30 || v == 0x38) && 4 <= d <= 7 ==> #[trigger] ((v
                | d) & 7) == d) by (bit_vector);
        assert(1u8 << 1u8 == 2 && 1u8 << 2u8 == 4 && 1u8 << 3u8 == 8 && 1u8 << 4u8 == 16)
            by (bit_vector);
        1u8 << (frange - 3)
    }

    /// Computes what the PLL has to be programmed with for `freq`: the band
    /// and its FREQSEL value, the estimate of the tuning-capacitor code, and
    /// the integer and fractional part of the divider.
    pub fn calculate_tuning_params(freq: u32) -> (res: Result<LmsFreq, BladeRfError>)
        ensures
            res == Ok::<LmsFreq, BladeRfError>(tuning_params(freq)),
    {
        /* Clamp out of range values */
        let freq: u32 = if freq < BLADERF_FREQUENCY_MIN {
            BLADERF_FREQUENCY_MIN
        } else if freq > BLADERF_FREQUENCY_MAX {
            BLADERF_FREQUENCY_MAX
        } else {
            freq
        };

        /* Figure out freqsel */
        let mut index: usize = 0;
        proof {
            lemma_bands_contiguous(0);
        }
        while index < 15 && freq as u64 > BAND_HIGH[index]
            invariant
                index <= 15,
                BAND_LOW[index as int] <= freq <= BLADERF_FREQUENCY_MAX,
                forall|j: int| 0 <= j < index ==> freq > BAND_HIGH[j],
                band_from(freq, index as int) == band_from(freq, 0),
            decreases 15 - index,
        {
            proof {
                lemma_bands_contiguous(index as int);
            }
            index += 1;
        }
        proof {
            lemma_bands_contiguous(index as int);
            lemma_band_holds(freq, index as int);
        }
        let freq_range = Self::band(index);

        /* Estimate our target VCOCAP value. */
        let vcocap = Self::estimate_vcocap(freq, freq_range.low as u32, freq_range.high as u32);

        /* Calculate integer portion of the frequency value */
        let vco_x: u64 = Self::vco_ratio(index) as u64;
        assert(vco_x * freq <= 7600000000 && vco_x * freq >= 0) by (nonlinear_arith)
            requires
                vco_x * BAND_HIGH[index as int] <= 7600000000,
                freq <= BAND_HIGH[index as int],
                vco_x >= 0,
        ;
        let ref_clock: u64 = LMS_REFERENCE_HZ as u64;
        let vco: u64 = vco_x * freq as u64;
        let nint: u64 = vco / ref_clock;
        let rest: u64 = vco - nint * ref_clock;
        proof {
            vstd::arithmetic::div_mod::lemma_fundamental_div_mod(vco as int, ref_clock as int);
            assert(nint * ref_clock == ref_clock * nint) by (nonlinear_arith);
            assert(rest == vco % ref_clock);
        }
        let nfrac: u64 = (0x80_0000 * rest + ref_clock / 2) / ref_clock;
        Ok(
            LmsFreq {
                freqsel: freq_range.value,
                vcocap,
                nint: nint as u16,
                nfrac: nfrac as u32,
                flags: 0,
                xb_gpio: 0,
                x: vco_x as u8,
                vcocap_result: 0,
            },
        )
    }

    /// The access that writes the tuning-capacitor code of the PLL at
    /// `base`: to the register at `base + 9` goes the code beside the upper
    /// bits of the register as given in `vcocap_reg_state`.
    pub fn vcocap_write(base: u8, vcocap: u8, vcocap_reg_state: u8) -> (op: RegOp)
        requires
            base <= 245,
        ensures
            op == RegOp::Write((base + 9) as u8, vcocap | vcocap_reg_state),
    {
        RegOp::Write(base + 9, vcocap | vcocap_reg_state)
    }

    /// Writes the tuning-capacitor code of the PLL at `base`, beside the
    /// upper bits of its register as given in `vcocap_reg_state`: makes the
    /// access of [`Self::vcocap_write`].
    pub fn write_vcocap(&self, base: u8, vcocap: u8, vcocap_reg_state: u8) -> (res: Result<
        u8,
        BladeRfError,
    >)
        requires
            base <= 245,
            vcocap <= VCOCAP_MAX_VALUE,
        ensures
            exists|exchanged: Result<Vec<u8>, TransportError>| res == #[trigger] answer(exchanged),
            res is Err ==> res->Err_0.from_exchange(),
    {
        let written = self.perform(Self::vcocap_write(base, vcocap, vcocap_reg_state));
        let ghost only = choose|exchanged: Result<Vec<u8>, TransportError>|
            written == NiosPacket8x8::data_in(NIOS_PKT_8X8_TARGET_LMS6, exchanged);
        assert(written == answer(only));
        written
    }

    /// Reads the loopback mode of the chip from the registers 0x08 and 0x46.
    pub fn lms_get_loopback_mode(&self) -> (res: Result<BladerfLoopback, BladeRfError>)
        ensures
            exists|first: Result<Vec<u8>, TransportError>, second: Result<Vec<u8>, TransportError>|
                res == #[trigger] loopback_read(first, second),
            res is Err ==> res->Err_0.from_exchange(),
    {
        let low = self.read(0x08);
        let ghost first = choose|exchanged: Result<Vec<u8>, TransportError>|
            low == NiosPacket8x8::data_in(NIOS_PKT_8X8_TARGET_LMS6, exchanged);
        match low {
            Err(e) => {
                assert(loopback_read(first, first) == Err::<BladerfLoopback, BladeRfError>(e));
                Err(e)
            },
            Ok(lben_lbrfen) => {
                let high = self.read(0x46);
                let ghost second = choose|exchanged: Result<Vec<u8>, TransportError>|
                    high == NiosPacket8x8::data_in(NIOS_PKT_8X8_TARGET_LMS6, exchanged);
                let res = match high {
                    Err(e) => Err(e),
                    Ok(loopbben) => Ok(loopback_mode_from(lben_lbrfen, loopbben)),
                };
                assert(res == loopback_read(first, second));
                res
            },
        }
    }

    /// Whether the chip is in any loopback mode.
    pub fn is_loopback_enabled(&self) -> (res: Result<bool, BladeRfError>)
        ensures
            exists|first: Result<Vec<u8>, TransportError>, second: Result<Vec<u8>, TransportError>|
                match #[trigger] loopback_read(first, second) {
                    Ok(mode) => res == Ok::<bool, BladeRfError>(
                        mode != BladerfLoopback::BladerfLbNone,
                    ),
                    Err(e) => res == Err::<bool, BladeRfError>(e),
                },
            res is Err ==> res->Err_0.from_exchange(),
    {
        let read = self.lms_get_loopback_mode();
        let ghost (first, second) = choose|
            first: Result<Vec<u8>, TransportError>,
            second: Result<Vec<u8>, TransportError>,
        | read == #[trigger] loopback_read(first, second);
        let res = match read {
            Ok(loopback) => Ok(loopback != BladerfLoopback::BladerfLbNone),
            Err(e) => Err(e),
        };
        assert(match loopback_read(first, second) {
            Ok(mode) => res == Ok::<bool, BladeRfError>(mode != BladerfLoopback::BladerfLbNone),
            Err(e) => res == Err::<bool, BladeRfError>(e),
        });
        res
    }

    /// Writes FREQSEL and the output buffer selection of the PLL of
    /// `module`, by the accesses that [`PllConfig`] asks for. While a
    /// loopback is enabled the output buffer selection is left as it is.
    pub fn write_pll_config(&self, module: u8, freqsel: u8, low_band: bool) -> (res: Result<
        u8,
        BladeRfError,
    >)
        ensures
            exists|outcomes: Seq<Result<u8, BladeRfError>>| #[trigger]
                PllConfig::begun(module, freqsel, low_band).run(outcomes) == PllConfig::Over(res),
            res is Err ==> res->Err_0.from_exchange(),
    {
        let mut p = PllConfig::begin(module, freqsel, low_band);
        let ghost mut outcomes: Seq<Result<u8, BladeRfError>> = Seq::empty();
        loop
            invariant
                p == PllConfig::begun(module, freqsel, low_band).run(outcomes),
                p matches PllConfig::Over(Err(e)) ==> e.from_exchange(),
            decreases p.fuel(),
        {
            match p {
                PllConfig::Over(res) => {
                    return res;
                },
                _ => {},
            }
            match p.op() {
                Some(op) => {
                    let outcome = self.perform(op);
                    p = p.advance(outcome);
                    proof {
                        assert(outcomes.push(outcome).drop_last() =~= outcomes);
                        outcomes = outcomes.push(outcome);
                    }
                },
                None => {},
            }
        }
    }

    /// Probes the chip as a state of the search asks and takes the reading.
    fn probe(&self, base: u8, probe: Probe, vcocap_reg_state: u8) -> (res: Result<
        u8,
        BladeRfError,
    >)
        requires
            base <= 245,
            probe matches Probe::WriteRead(code) ==> code <= VCOCAP_MAX_VALUE,
        ensures
            match probe {
                Probe::WriteRead(code) => exists|
                    written: Result<Vec<u8>, TransportError>,
                    read: Result<Vec<u8>, TransportError>,
                | res == #[trigger] probed(written, read),
                _ => exists|read: Result<Vec<u8>, TransportError>|
                    res == #[trigger] vtune_in(read),
            },
            match res {
                Ok(vtune) => vtune <= 3,
                Err(e) => e.from_exchange(),
            },
    {
        match probe {
            Probe::WriteRead(code) => {
                let wrote = self.write_vcocap(base, code, vcocap_reg_state);
                let ghost written = choose|exchanged: Result<Vec<u8>, TransportError>|
                    wrote == #[trigger] answer(exchanged);
                match wrote {
                    Err(e) => {
                        assert(probed(written, written) == Err::<u8, BladeRfError>(e));
                        Err(e)
                    },
                    Ok(_) => {
                        let res = self.get_vtune(base, VTUNE_DELAY_SMALL);
                        let ghost read = choose|exchanged: Result<Vec<u8>, TransportError>|
                            res == #[trigger] vtune_in(exchanged);
                        assert(res == probed(written, read));
                        res
                    },
                }
            },
            _ => self.get_vtune(base, 0),
        }
    }

    /// Runs one walk of the search on the chip.
    fn walk(&self, base: u8, kind: WalkKind, vcocap: u8, vcocap_reg_state: u8) -> (res: Result<
        u8,
        BladeRfError,
    >)
        requires
            base <= 245,
            vcocap <= VCOCAP_MAX_VALUE,
        ensures
            (res is Err && res->Err_0.from_exchange()) || exists|readings: Seq<u8>|
                Walk::begun(kind, vcocap).run(readings) == Walk::Over(res),
            res is Ok ==> res->Ok_0 <= VCOCAP_MAX_VALUE,
    {
        let mut walk = Walk::begin(kind, vcocap);
        let ghost mut readings: Seq<u8> = Seq::empty();
        loop
            invariant
                base <= 245,
                walk.wf(),
                walk == Walk::begun(kind, vcocap).run(readings),
            decreases walk.fuel(),
        {
            match walk {
                Walk::Over(outcome) => {
                    return outcome;
                },
                Walk::Probing { kind: _, code, left: _ } => {
                    let vtune = self.probe(base, Probe::WriteRead(code), vcocap_reg_state)?;
                    walk = walk.advance(vtune);
                    proof {
                        assert(readings.push(vtune).drop_last() =~= readings);
                        readings = readings.push(vtune);
                    }
                },
            }
        }
    }

    /// Walks the code up from the high region, one step per reading, until
    /// the tuning voltage is normal, and returns the last code at which it
    /// was high. At code 63 the walk ends with 63. After 20 readings without
    /// a normal voltage the search has not converged.
    pub fn vtune_high_to_norm(&self, base: u8, vcocap: u8, vcocap_reg_state: u8) -> (res: Result<
        u8,
        BladeRfError,
    >)
        requires
            base <= 245,
            vcocap <= VCOCAP_MAX_VALUE,
        ensures
            (res is Err && res->Err_0.from_exchange()) || exists|readings: Seq<u8>|
                Walk::begun(WalkKind::HighToNorm, vcocap).run(readings) == Walk::Over(res),
            res is Ok ==> res->Ok_0 <= VCOCAP_MAX_VALUE,
    {
        self.walk(base, WalkKind::HighToNorm, vcocap, vcocap_reg_state)
    }

    /// Walks the code down from the normal region, one step per reading,
    /// until the tuning voltage is high, and returns the code at which it
    /// was. At code 0 the walk ends with 0. After 20 readings without a high
    /// voltage the search has not converged.
    pub fn vtune_norm_to_high(&self, base: u8, vcocap: u8, vcocap_reg_state: u8) -> (res: Result<
        u8,
        BladeRfError,
    >)
        requires
            base <= 245,
            vcocap <= VCOCAP_MAX_VALUE,
        ensures
            (res is Err && res->Err_0.from_exchange()) || exists|readings: Seq<u8>|
                Walk::begun(WalkKind::NormToHigh, vcocap).run(readings) == Walk::Over(res),
            res is Ok ==> res->Ok_0 <= VCOCAP_MAX_VALUE,
    {
        self.walk(base, WalkKind::NormToHigh, vcocap, vcocap_reg_state)
    }

    /// Walks the code down from the low region, one step per reading, until
    /// the tuning voltage is normal, and returns the last code at which it
    /// was low. At code 0 the walk ends with 0. After 20 readings without a
    /// normal voltage the search has not converged.
    pub fn vtune_low_to_norm(&self, base: u8, vcocap: u8, vcocap_reg_state: u8) -> (res: Result<
        u8,
        BladeRfError,
    >)
        requires
            base <= 245,
            vcocap <= VCOCAP_MAX_VALUE,
        ensures
            (res is Err && res->Err_0.from_exchange()) || exists|readings: Seq<u8>|
                Walk::begun(WalkKind::LowToNorm, vcocap).run(readings) == Walk::Over(res),
            res is Ok ==> res->Ok_0 <= VCOCAP_MAX_VALUE,
    {
        self.walk(base, WalkKind::LowToNorm, vcocap, vcocap_reg_state)
    }

    /// Wait for VTUNE to reach HIGH or LOW. NORM is not a valid option here.
    ///
    /// Reads up to 15 times at the code in `vcocap`, then moves the code one
    /// step at a time toward the end of the range where the target lies. The
    /// code that the chip is left with is stored in `vcocap`. That the target
    /// was never seen is no error: the tuning that follows may then not be
    /// nominal.
    pub fn wait_for_vtune_value(
        &self,
        base: u8,
        target_value: u8,
        vcocap: &mut u8,
        vcocap_reg_state: u8,
    ) -> (res: Result<(), BladeRfError>)
        requires
            base <= 245,
            target_value == VCO_HIGH || target_value == VCO_LOW,
            *old(vcocap) <= VCOCAP_MAX_VALUE,
        ensures
            *final(vcocap) <= VCOCAP_MAX_VALUE,
            match res {
                Ok(_) => exists|readings: Seq<u8>, reached: bool|
                    Wait::begun(target_value, *old(vcocap)).run(readings) == (Wait::Over {
                        target: target_value,
                        code: *final(vcocap),
                        reached,
                    }),
                Err(e) => e.from_exchange(),
            },
    {
        let ghost start = *vcocap;
        let mut wait = Wait::begin(target_value, *vcocap);
        let ghost mut readings: Seq<u8> = Seq::empty();
        loop
            invariant
                base <= 245,
                wait.wf(),
                wait == Wait::begun(target_value, start).run(readings),
                start == *old(vcocap),
                *vcocap <= VCOCAP_MAX_VALUE,
                wait.target() == target_value,
            decreases wait.fuel(),
        {
            match wait {
                Wait::Over { target: _, code, reached } => {
                    *vcocap = code;
                    assert(Wait::begun(target_value, start).run(readings) == (Wait::Over {
                        target: target_value,
                        code,
                        reached,
                    }));
                    return Ok(());
                },
                Wait::Polling { target: _, code: _, left: _ } => {
                    let vtune = self.probe(base, Probe::Read, vcocap_reg_state)?;
                    wait = wait.advance(vtune);
                    proof {
                        assert(readings.push(vtune).drop_last() =~= readings);
                        readings = readings.push(vtune);
                    }
                },
                Wait::Creeping { target: _, code } => {
                    *vcocap = code;
                    let vtune = self.probe(base, Probe::WriteRead(code), vcocap_reg_state)?;
                    wait = wait.advance(vtune);
                    proof {
                        assert(readings.push(vtune).drop_last() =~= readings);
                        readings = readings.push(vtune);
                    }
                },
            }
        }
    }

    /// Finds the tuning-capacitor code in the middle of the lock range of
    /// the PLL at `base`, starting from the estimate `vcocap_est`.
    ///
    /// This function assumes an initial VCOCAP estimate has already been
    /// written. What it returns is what the search, see [`Tuner`], makes of
    /// the readings that the chip gives: the code settled on, or the reason
    /// why the search did not converge. A failed exchange ends the search at
    /// once.
    pub fn tune_vcocap(&self, vcocap_est: u8, base: u8, vcocap_reg_state: u8) -> (res: Result<
        u8,
        BladeRfError,
    >)
        requires
            base <= 245,
            vcocap_est <= VCOCAP_MAX_VALUE,
        ensures
            (res is Err && res->Err_0.from_exchange()) || exists|readings: Seq<u8>|
                Tuner::started(vcocap_est).run(readings) == Tuner::Over(res),
            match res {
                Ok(code) => search_result(vcocap_est, code),
                Err(e) => e.from_exchange() || search_error(vcocap_est, e),
            },
            res is Ok ==> res->Ok_0 <= VCOCAP_MAX_VALUE,
            res is Err ==> res->Err_0.from_exchange() || res->Err_0 is Convergence
                || res->Err_0 is InvalidState,
    {
        let mut tuner = Tuner::start(vcocap_est);
        let ghost mut readings: Seq<u8> = Seq::empty();
        loop
            invariant
                base <= 245,
                tuner.wf(),
                tuner == Tuner::started(vcocap_est).run(readings),
            decreases tuner.fuel(),
        {
            match tuner {
                Tuner::Over(outcome) => {
                    return outcome;
                },
                _ => {},
            }
            let vtune = self.probe(base, tuner.probe(), vcocap_reg_state)?;
            tuner = tuner.advance(vtune);
            proof {
                assert(readings.push(vtune).drop_last() =~= readings);
                readings = readings.push(vtune);
            }
        }
    }

    /// Programs the PLL of `module` with the parameters in `f`.
    ///
    /// The accesses made are those that [`Programming`] asks for, one after
    /// the other, each with the outcome of the one before: the modulators
    /// are turned on, the estimate of the tuning-capacitor code, the band
    /// selection and the divider are written, and then, unless `f.flags`
    /// forces the estimate to be used as it is, the code in the middle of
    /// the lock range is searched for. The code that the PLL is left with is
    /// stored in `f.vcocap_result`.
    ///
    /// When any step fails, the delta-sigma modulators are turned off again
    /// before the failure of that step is returned; `f.vcocap_result` is
    /// then 0xff.
    pub fn set_precalculated_frequency(&self, module: u8, f: &mut LmsFreq) -> (res: Result<
        (),
        BladeRfError,
    >)
        requires
            old(f).vcocap <= VCOCAP_MAX_VALUE,
        ensures
            *final(f) == (LmsFreq { vcocap_result: final(f).vcocap_result, ..*old(f) }),
            exists|outcomes: Seq<Result<u8, BladeRfError>>|
                match (#[trigger] Programming::begun(module, *old(f)).run(outcomes)).step {
                    Step::Over(Ok(code)) => res == Ok::<(), BladeRfError>(())
                        && final(f).vcocap_result == code,
                    Step::Over(Err(e)) => res == Err::<(), BladeRfError>(e)
                        && final(f).vcocap_result == 0xff,
                    _ => false,
                },
            match res {
                Ok(_) => {
                    &&& final(f).vcocap_result <= VCOCAP_MAX_VALUE
                    &&& if old(f).flags & LMS_FREQ_FLAGS_FORCE_VCOCAP != 0 {
                        final(f).vcocap_result == old(f).vcocap
                    } else {
                        search_result(old(f).vcocap, final(f).vcocap_result)
                    }
                },
                Err(e) => {
                    &&& final(f).vcocap_result == 0xff
                    &&& e.from_exchange() || e is Convergence || e is InvalidState
                    &&& e.from_exchange() || (old(f).flags & LMS_FREQ_FLAGS_FORCE_VCOCAP == 0
                        && search_error(old(f).vcocap, e))
                },
            },
    {
        let given: LmsFreq = *f;
        let mut p = Programming::begin(module, &given);
        f.vcocap_result = 0xff;
        let ghost mut outcomes: Seq<Result<u8, BladeRfError>> = Seq::empty();
        let ghost mut readings: Seq<u8> = Seq::empty();
        loop
            invariant
                given == *old(f),
                *f == (LmsFreq { vcocap_result: 0xff, ..given }),
                p.wf(),
                p.f == given,
                p.module == module,
                p == Programming::begun(module, given).run(outcomes),
                p.tracks(readings),
            decreases p.fuel(),
        {
            match p.op() {
                None => {
                    return match p.step {
                        Step::Over(Ok(code)) => {
                            f.vcocap_result = code;
                            Ok(())
                        },
                        Step::Over(Err(e)) => {
                            proof {
                                if !e.from_exchange() {
                                    Tuner::lemma_search_errors(given.vcocap, e);
                                }
                            }
                            Err(e)
                        },
                        _ => Err(BladeRfError::InvalidState),
                    };
                },
                Some(op) => {
                    let outcome = self.perform(op);
                    let ghost before = p;
                    p = p.advance(outcome);
                    proof {
                        assert(outcomes.push(outcome).drop_last() =~= outcomes);
                        outcomes = outcomes.push(outcome);
                        before.lemma_tracks(outcome, readings);
                        readings = before.readings_after(outcome, readings);
                    }
                },
            }
        }
    }

    /// Turns off the delta-sigma modulators: the accesses are those of the
    /// [`Rmw`] of register 0x09 that keeps every bit but bits 0 and 2, so
    /// what is written is the value read and-ed with 0xfa.
    pub fn turn_off_dsms(&self) -> (res: Result<u8, BladeRfError>)
        ensures
            exists|outcomes: Seq<Result<u8, BladeRfError>>| #[trigger]
                Rmw::begun(DSM_REGISTER, DSM_KEEP, 0).run(outcomes) == Rmw::Over(res),
            res is Err ==> res->Err_0.from_exchange(),
    {
        self.modify(DSM_REGISTER, DSM_KEEP, 0)
    }

    /// Tunes the PLL of `channel` to `frequency`, in Hz, and returns what it
    /// was programmed with: the parameters of
    /// [`Self::calculate_tuning_params`], programmed as
    /// [`Self::set_precalculated_frequency`] does.
    pub fn set_frequency(&self, channel: u8, frequency: u32) -> (res: Result<
        LmsFreq,
        BladeRfError,
    >)
        ensures
            exists|outcomes: Seq<Result<u8, BladeRfError>>|
                match (#[trigger] Programming::begun(channel, tuning_params(frequency)).run(
                    outcomes,
                )).step {
                    Step::Over(Ok(code)) => res is Ok && res->Ok_0.vcocap_result == code,
                    Step::Over(Err(e)) => res == Err::<LmsFreq, BladeRfError>(e),
                    _ => false,
                },
            match res {
                Ok(f) => {
                    &&& f == (LmsFreq {
                        vcocap_result: f.vcocap_result,
                        ..tuning_params(frequency)
                    })
                    &&& search_result(f.vcocap, f.vcocap_result)
                },
                Err(e) => {
                    &&& e.from_exchange() || e is Convergence || e is InvalidState
                    &&& e.from_exchange() || search_error(tuning_params(frequency).vcocap, e)
                },
            },
    {
        let mut f = Self::calculate_tuning_params(frequency)?;
        proof {
            assert(0u8 & LMS_FREQ_FLAGS_FORCE_VCOCAP == 0) by (bit_vector);
            lemma_tuning_vcocap(frequency);
        }
        match self.set_precalculated_frequency(channel, &mut f) {
            Ok(_) => Ok(f),
            Err(e) => Err(e),
        }
    }
}

/// The estimate in the tuning parameters is a code of the chip.
pub proof fn lemma_tuning_vcocap(freq: u32)
    ensures
        tuning_params(freq).vcocap <= VCOCAP_MAX_VALUE,
{
    let f = clamped(freq);
    lemma_bands_contiguous(0);
    lemma_band_holds(f, 0);
    let i = band_from(f, 0);
    lemma_bands_contiguous(i);
    let low = BAND_LOW[i] as u32;
    let high = BAND_HIGH[i] as u32;
    let span = high - low;
    let top = 2 * VCOCAP_EST_RANGE * (f - low) + span;
    assert(top >= 0 && 2 * span > 0);
    vstd::arithmetic::div_mod::lemma_div_pos_is_pos(top, 2 * span);
}

} // verus!
