//! The DAC161S055 that trims the VCTCXO.

use vstd::prelude::*;
use crate::board::bladerf1::BladeRfError;
use crate::nios::constants::{NIOS_PKT_8X16_TARGET_VCTCXO_DAC, NIOS_PKT_FLAG_WRITE};
use crate::nios::packet8x16::NiosPacket8x16;
use crate::nios::{Nios, TransportError};

verus! {

const PERIPHERAL_ENDPOINT_OUT: u8 = 0x02;

const PERIPHERAL_ENDPOINT_IN: u8 = 0x82;

/// Command that puts the DAC into write-through mode.
pub const DAC_CMD_WRITE_THROUGH: u8 = 0x28;

/// Command that writes the value of channel 0.
pub const DAC_CMD_WRITE_CHANNEL0: u8 = 0x08;

/// The trim DAC behind a channel to the command processor.
pub struct DAC161S055<T: Nios> {
    interface: T,
}

impl<T: Nios> DAC161S055<T> {
    /// The channel that the DAC is reached through.
    pub closed spec fn channel(&self) -> T {
        self.interface
    }

    pub fn new(interface: T) -> (dac: Self)
        ensures
            dac.channel() == interface,
    {
        Self { interface }
    }

    /// The request frame that carries the command `addr` with the value
    /// `data` to the DAC: a write frame.
    pub fn request(addr: u8, data: u16) -> (frame: Vec<u8>)
        ensures
            frame@ == NiosPacket8x16::frame(
                NIOS_PKT_8X16_TARGET_VCTCXO_DAC,
                NIOS_PKT_FLAG_WRITE,
                addr,
                data,
            ),
            frame.len() == 16,
    {
        NiosPacket8x16::build(NIOS_PKT_8X16_TARGET_VCTCXO_DAC, NIOS_PKT_FLAG_WRITE, addr, data)
    }

    /// One command to the DAC: the frame of [`Self::request`], one
    /// response. Returns the data field of the response.
    fn command(&self, addr: u8, data: u16) -> (res: Result<u16, BladeRfError>)
        ensures
            exists|exchanged: Result<Vec<u8>, TransportError>|
                res == #[trigger] NiosPacket8x16::data_in(
                    NIOS_PKT_8X16_TARGET_VCTCXO_DAC,
                    exchanged,
                ),
            res is Err ==> res->Err_0.from_exchange(),
    {
        let exchanged = self.interface.nios_send(
            PERIPHERAL_ENDPOINT_IN,
            PERIPHERAL_ENDPOINT_OUT,
            Self::request(addr, data),
        );
        let ghost given = exchanged;
        let res = NiosPacket8x16::response_data(NIOS_PKT_8X16_TARGET_VCTCXO_DAC, exchanged);
        assert(res == NiosPacket8x16::data_in(NIOS_PKT_8X16_TARGET_VCTCXO_DAC, given));
        res
    }

    /// The commands that set the output of the DAC to `value`, as pairs of
    /// command and value: first the one that puts the DAC into write-through
    /// mode, then the one that writes the value to channel 0.
    pub fn commands(value: u16) -> (commands: Vec<(u8, u16)>)
        ensures
            commands@ == seq![(DAC_CMD_WRITE_THROUGH, 0u16), (DAC_CMD_WRITE_CHANNEL0, value)],
    {
        let mut commands: Vec<(u8, u16)> = Vec::new();
        /* Ensure device is in write-through mode */
        commands.push((DAC_CMD_WRITE_THROUGH, 0x0000));
        /* Write DAC value to channel 0 */
        commands.push((DAC_CMD_WRITE_CHANNEL0, value));
        assert(commands@ =~= seq![(DAC_CMD_WRITE_THROUGH, 0u16), (DAC_CMD_WRITE_CHANNEL0, value)]);
        commands
    }

    /// Sets the output of the DAC to `value`: gives the commands of
    /// [`Self::commands`] in their order, the second only after the first
    /// was answered without error. Returns the data field of the last
    /// response.
    pub fn write(&self, value: u16) -> (res: Result<u16, BladeRfError>)
        ensures
            exists|exchanged: Result<Vec<u8>, TransportError>|
                res == #[trigger] NiosPacket8x16::data_in(
                    NIOS_PKT_8X16_TARGET_VCTCXO_DAC,
                    exchanged,
                ),
            res is Err ==> res->Err_0.from_exchange(),
    {
        let commands = Self::commands(value);
        let mut last = self.command(commands[0].0, commands[0].1);
        let mut i: usize = 1;
        while i < commands.len() && last.is_ok()
            invariant
                1 <= i <= commands.len(),
                exists|exchanged: Result<Vec<u8>, TransportError>|
                    last == #[trigger] NiosPacket8x16::data_in(
                        NIOS_PKT_8X16_TARGET_VCTCXO_DAC,
                        exchanged,
                    ),
                last is Err ==> last->Err_0.from_exchange(),
            decreases commands.len() - i,
        {
            last = self.command(commands[i].0, commands[i].1);
            i += 1;
        }
        last
    }
}

} // verus!
