//! Backend-neutral USB descriptions.

use vstd::prelude::*;

verus! {

/// Link speed of a USB device.
#[derive(Copy, Clone, Eq, PartialOrd, Ord, PartialEq, Hash, Debug)]
#[non_exhaustive]
pub enum UsbSpeed {
    /// Low speed (1.5 Mbit)
    Low,
    /// Full speed (12 Mbit)
    Full,
    /// High speed (480 Mbit)
    High,
    /// Super speed (5000 Mbit)
    Super,
    /// Super speed (10000 Mbit)
    SuperPlus,
}

/// A three-part version consisting of major, minor, and sub minor components,
/// as found in the `bcdUSB` and `bcdDevice` fields of device descriptors.
#[derive(Debug, PartialEq, Eq, Clone, Copy, Hash, PartialOrd, Ord)]
pub struct UsbVersion {
    pub major: u8,
    pub minor: u8,
    pub sub_minor: u8,
}

impl UsbVersion {
    /// Major version encoded in a binary coded decimal field `0xJJMN`:
    /// the two decimal digits `JJ`.
    pub open spec fn bcd_major(raw: u16) -> int {
        10 * (raw as int / 4096) + (raw as int / 256) % 16
    }

    /// Minor version encoded in `0xJJMN`: the digit `M`.
    pub open spec fn bcd_minor(raw: u16) -> int {
        (raw as int / 16) % 16
    }

    /// Sub minor version encoded in `0xJJMN`: the digit `N`.
    pub open spec fn bcd_sub_minor(raw: u16) -> int {
        raw as int % 16
    }

    /// Extracts a version from a binary coded decimal (BCD) field. BCD fields
    /// encode a version as `0xJJMN`, where `JJ` is the major version, `M` is
    /// the minor version, and `N` is the sub minor version. For example, 2.0
    /// is encoded as `0x0200` and 1.1 is encoded as `0x0110`.
    pub fn from_bcd(raw: u16) -> (v: Self)
        ensures
            v.major == Self::bcd_major(raw),
            v.minor == Self::bcd_minor(raw),
            v.sub_minor == Self::bcd_sub_minor(raw),
    {
        let sub_minor: u16 = raw & 0x000F;
        let minor: u16 = (raw >> 4) & 0x000F;
        let units: u16 = (raw >> 8) & 0x000F;
        let tens: u16 = raw >> 12;
        assert(raw & 0x000F == raw % 16) by (bit_vector);
        assert((raw >> 4) & 0x000F == (raw / 16) % 16) by (bit_vector);
        assert((raw >> 8) & 0x000F == (raw / 256) % 16) by (bit_vector);
        assert(raw >> 12 == raw / 4096 && raw >> 12 <= 15) by (bit_vector);
        let major: u16 = units + 10 * tens;
        UsbVersion { major: major as u8, minor: minor as u8, sub_minor: sub_minor as u8 }
    }

    /// Returns the major version.
    pub fn major(&self) -> (r: u8)
        ensures
            r == self.major,
    {
        self.major
    }

    /// Returns the minor version.
    pub fn minor(&self) -> (r: u8)
        ensures
            r == self.minor,
    {
        self.minor
    }

    /// Returns the sub minor version.
    pub fn sub_minor(&self) -> (r: u8)
        ensures
            r == self.sub_minor,
    {
        self.sub_minor
    }
}

} // verus!
