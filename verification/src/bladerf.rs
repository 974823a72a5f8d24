//! Types shared by all bladeRF boards.

use vstd::prelude::*;
use crate::hardware::rational::Rational;

verus! {

/// Channel number of the `ch`-th receive path.
pub fn bladerf_channel_rx(ch: u8) -> (r: u8)
    requires
        ch < 128,
    ensures
        r == 2 * ch,
{
    ch * 2
}

/// Channel number of the `ch`-th transmit path.
pub fn bladerf_channel_tx(ch: u8) -> (r: u8)
    requires
        ch < 128,
    ensures
        r == 2 * ch + 1,
{
    ch * 2 + 1
}

/// The receive module.
pub const BLADERF_MODULE_RX: u8 = 0;

/// The transmit module.
pub const BLADERF_MODULE_TX: u8 = 1;

/// Loopback options.
///
/// The digital and baseband loopback modes give the most ideal operating
/// conditions; the internal RF loopback modes show more of the nonidealities
/// of analog systems.
#[derive(Debug, Clone, Copy, PartialEq, Eq, Structural)]
pub enum BladerfLoopback {
    /// Disables loopback and returns to normal operation.
    BladerfLbNone,
    /// Firmware loopback inside of the FX3
    BladerfLbFirmware,
    /// Baseband loopback. TXLPF output is connected to the RXVGA2 input.
    BladerfLbBbTxlpfRxvga2,
    /// Baseband loopback. TXVGA1 output is connected to the RXVGA2 input.
    BladerfLbBbTxvga1Rxvga2,
    /// Baseband loopback. TXLPF output is connected to the RXLPF input.
    BladerfLbBbTxlpfRxlpf,
    /// Baseband loopback. TXVGA1 output is connected to RXLPF input.
    BladerfLbBbTxvga1Rxlpf,
    /// RF loopback. The TXMIX output, through the AUX PA, is connected to the
    /// output of LNA1.
    BladerfLbRfLna1,
    /// RF loopback. The TXMIX output, through the AUX PA, is connected to the
    /// output of LNA2.
    BladerfLbRfLna2,
    /// RF loopback. The TXMIX output, through the AUX PA, is connected to the
    /// output of LNA3.
    BladerfLbRfLna3,
    /// RFIC digital loopback (built-in self-test)
    BladerfLbRficBist,
}

/// Mapping of a human-readable name to a loopback mode.
pub struct BladerfLoopbackModes {
    /// Name of loopback mode
    pub name: String,
    /// Loopback mode enumeration
    pub mode: BladerfLoopback,
}

/// Gain control modes.
///
/// The default mode is automatic gain control, which continuously adjusts
/// the gain to maximize dynamic range and minimize clipping.
#[derive(Debug, Clone, Copy, PartialEq, Eq, Structural)]
pub enum BladerfGainMode {
    /// Device-specific default (automatic, when available)
    BladerfGainDefault,
    /// Manual gain control
    BladerfGainMgc,
    /// Automatic gain control, fast attack (advanced)
    BladerfGainFastattackAgc,
    /// Automatic gain control, slow attack (advanced)
    BladerfGainSlowattackAgc,
    /// Automatic gain control, hybrid attack (advanced)
    BladerfGainHybridAgc,
}

/// Marks a board of the bladeRF family.
pub trait BladeRf {

}

/// A rate or frequency in Hz as a whole number plus a fraction:
/// `integer + num / den`.
#[derive(Debug, Clone, Copy, PartialEq, Eq, Structural)]
pub struct BladerfRationalRate {
    /// Integer portion
    pub integer: u64,
    /// Numerator in fractional portion
    pub num: u64,
    /// Denominator in fractional portion. This must be greater than 0.
    pub den: u64,
}

impl View for BladerfRationalRate {
    type V = Rational;

    open spec fn view(&self) -> Rational {
        Rational { integer: self.integer as nat, num: self.num as nat, den: self.den as nat }
    }
}

impl Default for BladerfRationalRate {
    fn default() -> (r: Self)
        ensures
            r.integer == 0,
            r.num == 0,
            r.den == 0,
    {
        BladerfRationalRate { integer: 0, num: 0, den: 0 }
    }
}

/// Indices of the string descriptors of the device.
#[derive(Debug, Clone, Copy, PartialEq, Eq, Structural)]
pub enum StringDescriptors {
    Manufacturer,
    Product,
    Serial,
    Fx3Firmware,
}

impl StringDescriptors {
    /// The descriptor index on the wire. Index 0 is the language table, so
    /// the first string is 1.
    pub open spec fn index(self) -> u8 {
        match self {
            StringDescriptors::Manufacturer => 1,
            StringDescriptors::Product => 2,
            StringDescriptors::Serial => 3,
            StringDescriptors::Fx3Firmware => 4,
        }
    }

    pub fn into(self) -> (r: u8)
        ensures
            r == self.index(),
    {
        match self {
            StringDescriptors::Manufacturer => 1,
            StringDescriptors::Product => 2,
            StringDescriptors::Serial => 3,
            StringDescriptors::Fx3Firmware => 4,
        }
    }
}

/// Descriptor types of the USB standard.
#[derive(Debug, Clone, Copy, PartialEq, Eq, Structural)]
pub enum DescriptorTypes {
    Device,
    Configuration,
    String,
    Default,
    BOS,
}

impl DescriptorTypes {
    /// The descriptor type on the wire.
    pub open spec fn code(self) -> u8 {
        match self {
            DescriptorTypes::Device => 0x01,
            DescriptorTypes::Configuration => 0x02,
            DescriptorTypes::String => 0x03,
            DescriptorTypes::Default => 0x06,
            DescriptorTypes::BOS => 0x0f,
        }
    }

    pub fn into(self) -> (r: u8)
        ensures
            r == self.code(),
    {
        match self {
            DescriptorTypes::Device => 0x01,
            DescriptorTypes::Configuration => 0x02,
            DescriptorTypes::String => 0x03,
            DescriptorTypes::Default => 0x06,
            DescriptorTypes::BOS => 0x0f,
        }
    }
}

} // verus!
