//! The bladeRF x40/x115 board.

use vstd::prelude::*;
use crate::bladerf::{BladeRf, BladerfGainMode, BLADERF_MODULE_RX, BLADERF_MODULE_TX};
use crate::hardware::dac161s055::DAC161S055;
use crate::hardware::lms6002d::{search_error, search_result, tuning_params, LMS6002D};
use crate::hardware::si5338::{
    lemma_one_megahertz_supported, sample_rate_supported, whole_rate, SI5338,
};
use crate::nios::constants::{
    NIOS_PKT_8X32_TARGET_CONTROL, NIOS_PKT_FLAG_READ, NIOS_PKT_FLAG_WRITE,
};
use crate::nios::packet8x32::NiosPacket8x32;
use crate::nios::{Nios, TransportError};

verus! {

const ENDPOINT_OUT: u8 = 0x02;

const ENDPOINT_IN: u8 = 0x82;

/// Enable LMS receive
pub const BLADERF_GPIO_LMS_RX_ENABLE: u8 = 0x02;

/// Enable LMS transmit
pub const BLADERF_GPIO_LMS_TX_ENABLE: u8 = 0x04;

/// Switch to use TX low band (300MHz - 1.5GHz)
pub const BLADERF_GPIO_TX_LB_ENABLE: u8 = 0x10;

/// Switch to use TX high band (1.5GHz - 3.8GHz)
pub const BLADERF_GPIO_TX_HB_ENABLE: u8 = 0x08;

/// Counter mode enable
///
/// Setting this bit to 1 instructs the FPGA to replace the (I, Q) pair in
/// sample data with an incrementing, little-endian, 32-bit counter value. A
/// 0 in bit specifies that sample data should be sent (as normally done).
pub const BLADERF_GPIO_COUNTER_ENABLE: u16 = 0x0200;

/// Starting bit index of the RX mux values in FX3 <-> FPGA GPIO bank
pub const BLADERF_GPIO_RX_MUX_SHIFT: u16 = 8;

/// Bit mask representing the rx mux selection
pub const BLADERF_GPIO_RX_MUX_MASK: u16 = 0x0700;

/// Switch to use RX low band (300M - 1.5GHz)
pub const BLADERF_GPIO_RX_LB_ENABLE: u16 = 0x0040;

/// Switch to use RX high band (1.5GHz - 3.8GHz)
pub const BLADERF_GPIO_RX_HB_ENABLE: u16 = 0x0020;

/// This GPIO bit configures the FPGA to use smaller DMA transfers (256 cycles
/// instead of 512). This is required when the device is not connected at
/// Super Speed (i.e., when it is connected at High Speed).
pub const BLADERF_GPIO_FEATURE_SMALL_DMA_XFER: u16 = 0x0080;

/// Enable Packet mode
pub const BLADERF_GPIO_PACKET: u32 = 0x0008_0000;

/// Enable 8bit sample mode
pub const BLADERF_GPIO_8BIT_MODE: u32 = 0x0010_0000;

/// AGC enable control bit
pub const BLADERF_GPIO_AGC_ENABLE: u32 = 0x0004_0000;

/// Enable-bit for timestamp counter in the FPGA
pub const BLADERF_GPIO_TIMESTAMP: u32 = 0x0001_0000;

/// Timestamp 2x divider control. This bit has no effect and is always
/// enabled (1) in FPGA versions >= v0.3.0.
pub const BLADERF_GPIO_TIMESTAMP_DIV2: u32 = 0x0002_0000;

/// Packet capable core present bit. The FPGA sets it to tell the host that
/// there is a core capable of using packets in the FPGA.
pub const BLADERF_GPIO_PACKET_CORE_PRESENT: u32 = 0x1000_0000;

/// The control word that a device out of reset is given: the LMS enabled and
/// the low band selected.
pub const BLADERF_GPIO_DEFAULT: u32 = 0x57;

/// Sample rate set on both channels when the device is brought up, in Hz.
pub const BLADERF_DEFAULT_SAMPLE_RATE: u32 = 1000000;

/// Transmit frequency set when the device is brought up, in Hz.
pub const BLADERF_DEFAULT_TX_FREQUENCY: u64 = 2447000000;

/// Receive frequency set when the device is brought up, in Hz.
pub const BLADERF_DEFAULT_RX_FREQUENCY: u64 = 2484000000;

/// BladeRF1 USB vendor ID.
pub const BLADERF1_USB_VID: u16 = 0x2CF0;

/// BladeRF1 USB product ID.
pub const BLADERF1_USB_PID: u16 = 0x5246;

/// LNA gain options
#[derive(Debug, Clone, Copy, PartialEq, Eq, Structural)]
pub enum BladerfLnaGain {
    /// Invalid LNA gain
    BladerfLnaGainUnknown,
    /// LNA bypassed - 0dB gain
    BladerfLnaGainBypass,
    /// LNA Mid Gain (MAX-6dB)
    BladerfLnaGainMid,
    /// LNA Max Gain
    BladerfLnaGainMax,
}

/// Speed of the USB link to the device.
#[derive(Debug, Clone, Copy, PartialEq, Eq, Structural)]
pub enum DeviceSpeed {
    BladerfDeviceSpeedUnknown,
    BladerfDeviceSpeedHigh,
    BladerfDeviceSpeedSuper,
}

/// Lowest sample rate of the device, in Hz.
pub const BLADERF_SAMPLERATE_MIN: u64 = 80000;

/// Minimum tunable frequency (without an XB-200 attached), in Hz.
pub const BLADERF_FREQUENCY_MIN: u32 = 237500000;

/// Maximum tunable frequency, in Hz.
pub const BLADERF_FREQUENCY_MAX: u32 = 3800000000;

/// Maximum output frequency on SMB connector, if no expansion board attached.
pub const BLADERF_SMB_FREQUENCY_MAX: u32 = 200000000;

/// Minimum output frequency on SMB connector, if no expansion board attached.
pub const BLADERF_SMB_FREQUENCY_MIN: u32 = (38400000 * 66) / (32 * 567);

/// What can go wrong while driving the board.
#[derive(Debug, Clone, Copy, PartialEq, Eq, Structural)]
pub enum BladeRfError {
    /// The frame exchange itself failed. Fatal to the operation under way;
    /// nothing here retries it.
    Transport(TransportError),
    /// A response was not a 16-byte frame of the expected class and target.
    Protocol,
    /// The device answered with the success bit clear.
    OperationFailed,
    /// A requested frequency or rate lies outside the supported bounds.
    /// Raised before any frame is exchanged.
    Range,
    /// The tuning search ran out of iterations, or ended outside the lock
    /// range. Carries the last capacitor code written and the last tuning
    /// voltage state observed.
    Convergence { vcocap: u8, vtune: u8 },
    /// An internal invariant of the tuning search was violated.
    InvalidState,
    /// The operation is not available on the channel it was asked for.
    Unsupported,
}

impl BladeRfError {
    /// Whether the error stems from a frame exchange: the transport failed,
    /// the response was malformed, or the device reported failure.
    pub open spec fn from_exchange(self) -> bool {
        self is Transport || self is Protocol || self is OperationFailed
    }
}

/// Whether a control word is that of a device that has not been set up
/// since its FPGA was loaded: its seven low bits are clear.
pub open spec fn gpio_is_default(cfg: u32) -> bool {
    cfg & 0x7f == 0
}

/// The control word as it is written for a link of the given speed. On a
/// high speed link the bit for small DMA transfers is set. On a super speed
/// link that bit is cleared, and with it every bit above bit 15: the mask is
/// the 16-bit complement of the flag. On a link of unknown speed the word
/// goes out as it is.
pub open spec fn gpio_for_speed(data: u32, speed: DeviceSpeed) -> u32 {
    match speed {
        DeviceSpeed::BladerfDeviceSpeedUnknown => data,
        DeviceSpeed::BladerfDeviceSpeedHigh => data | 0x0080,
        DeviceSpeed::BladerfDeviceSpeedSuper => data & 0xff7f,
    }
}

/// The control word with automatic gain control switched as `mode` asks:
/// on for the default mode, off for manual gain control, and as it is for
/// the other modes.
pub open spec fn gpio_for_gain_mode(config_gpio: u32, mode: BladerfGainMode) -> u32 {
    match mode {
        BladerfGainMode::BladerfGainDefault => config_gpio | BLADERF_GPIO_AGC_ENABLE,
        BladerfGainMode::BladerfGainMgc => config_gpio & !BLADERF_GPIO_AGC_ENABLE,
        _ => config_gpio,
    }
}

/// One step of bringing the device up.
#[derive(Debug, Clone, Copy, PartialEq, Eq)]
pub enum SetupStep {
    /// The control word of the FPGA is written.
    ControlWord(u32),
    /// The RF front end of a module is switched on or off.
    FrontEnd { module: u8, enable: bool },
    /// A register of the transceiver is written.
    Register { addr: u8, value: u8 },
    /// Bits of a register of the transceiver are raised.
    Raise { addr: u8, mask: u8 },
    /// The charge pump currents of the PLL of a module are set.
    ChargePumps { module: u8 },
    /// The sample rate of a channel is set, in Hz.
    SampleRate { channel: u8, hz: u32 },
    /// A channel is tuned to a frequency, in Hz.
    Frequency { channel: u8, hz: u64 },
    /// The trim DAC is set.
    Dac(u16),
    /// The gain mode of a channel is set.
    GainMode { channel: u8, mode: BladerfGainMode },
}

/// The steps that bring a device up, in their order: the control word is
/// written, both front ends are disabled, the transceiver registers are
/// given their recommended values, the DC calibration comparators are
/// powered down, the charge pumps are set, both channels are set to the
/// default sample rate and tuned to their default frequencies, the trim DAC
/// is zeroed, and automatic gain control is asked for.
pub open spec fn setup_steps_of() -> Seq<SetupStep> {
    seq![
        SetupStep::ControlWord(BLADERF_GPIO_DEFAULT),
        SetupStep::FrontEnd { module: BLADERF_MODULE_TX, enable: false },
        SetupStep::FrontEnd { module: BLADERF_MODULE_RX, enable: false },
        SetupStep::Register { addr: 0x05, value: 0x3e },
        SetupStep::Register { addr: 0x47, value: 0x40 },
        SetupStep::Register { addr: 0x59, value: 0x29 },
        SetupStep::Register { addr: 0x64, value: 0x36 },
        SetupStep::Register { addr: 0x79, value: 0x37 },
        SetupStep::Raise { addr: 0x3f, mask: 0x80 },
        SetupStep::Raise { addr: 0x5f, mask: 0x80 },
        SetupStep::Raise { addr: 0x6e, mask: 0xc0 },
        SetupStep::ChargePumps { module: BLADERF_MODULE_TX },
        SetupStep::ChargePumps { module: BLADERF_MODULE_RX },
        SetupStep::SampleRate { channel: BLADERF_MODULE_TX, hz: BLADERF_DEFAULT_SAMPLE_RATE },
        SetupStep::SampleRate { channel: BLADERF_MODULE_RX, hz: BLADERF_DEFAULT_SAMPLE_RATE },
        SetupStep::Frequency { channel: BLADERF_MODULE_TX, hz: BLADERF_DEFAULT_TX_FREQUENCY },
        SetupStep::Frequency { channel: BLADERF_MODULE_RX, hz: BLADERF_DEFAULT_RX_FREQUENCY },
        SetupStep::Dac(0),
        SetupStep::GainMode { channel: BLADERF_MODULE_RX, mode: BladerfGainMode::BladerfGainDefault },
    ]
}

/// Every sample rate among the steps is supported, every gain mode is for
/// the receive channel, and the two frequencies are the defaults of the
/// transmit and of the receive channel, at places 15 and 16.
pub proof fn lemma_setup_steps(k: int)
    requires
        0 <= k < 19,
    ensures
        setup_steps_of().len() == 19,
        match setup_steps_of()[k] {
            SetupStep::SampleRate { channel, hz } => sample_rate_supported(
                channel,
                whole_rate(hz),
            ),
            SetupStep::GainMode { channel, mode } => channel == BLADERF_MODULE_RX,
            SetupStep::Frequency { channel, hz } => (k == 15 && hz
                == BLADERF_DEFAULT_TX_FREQUENCY) || (k == 16 && hz
                == BLADERF_DEFAULT_RX_FREQUENCY),
            _ => true,
        },
        setup_steps_of()[15] is Frequency,
        setup_steps_of()[16] is Frequency,
{
    lemma_one_megahertz_supported(BLADERF_MODULE_TX);
    lemma_one_megahertz_supported(BLADERF_MODULE_RX);
}

/// What writing the control word comes to: nothing where the response to
/// the exchange is accepted, else the error.
pub open spec fn gpio_written(exchanged: Result<Vec<u8>, TransportError>) -> Result<
    (),
    BladeRfError,
> {
    match NiosPacket8x32::data_in(NIOS_PKT_8X32_TARGET_CONTROL, exchanged) {
        Ok(_) => Ok(()),
        Err(e) => Err(e),
    }
}

/// The frequency that the transceiver is asked for when `frequency` is asked
/// of the board: the frequency itself, and the largest 32-bit number where
/// it is beyond that. The transceiver tunes whatever lies above its maximum
/// as its maximum.
pub open spec fn transceiver_frequency(frequency: u64) -> u32 {
    if frequency > u32::MAX {
        u32::MAX
    } else {
        frequency as u32
    }
}

/// Whether the search for the tuning-capacitor code of `frequency` can end
/// with a code: it starts from the estimate for that frequency, and some
/// sequence of readings leads it to a code.
pub open spec fn tuned(frequency: u64) -> bool {
    exists|code: u8| #[trigger] search_result(tuning_params(transceiver_frequency(frequency)).vcocap, code)
}

/// Whether the search for the tuning-capacitor code of `frequency` can end
/// with the error `e`.
pub open spec fn tuning_failed(frequency: u64, e: BladeRfError) -> bool {
    search_error(tuning_params(transceiver_frequency(frequency)).vcocap, e)
}

/// A bladeRF x40/x115 behind a channel to its command processor.
pub struct BladeRf1<T: Nios> {
    pub interface: T,
    /// The transceiver of the board.
    pub lms: LMS6002D<T>,
    /// The clock synthesizer of the board.
    pub si5338: SI5338<T>,
    /// The trim DAC of the board.
    pub dac: DAC161S055<T>,
}

impl<T: Nios> BladeRf for BladeRf1<T> {

}

impl<T: Nios + Clone> BladeRf1<T> {
    /// The board behind `interface`. The three chips share the channel,
    /// each through a clone of it.
    pub fn new(interface: T) -> (board: Self)
        ensures
            board.interface == interface,
    {
        let lms = LMS6002D::new(interface.clone());
        let si5338 = SI5338::new(interface.clone());
        let dac = DAC161S055::new(interface.clone());
        BladeRf1 { interface, lms, si5338, dac }
    }
}

impl<T: Nios> BladeRf1<T> {
    /// The request frame that reads the control word.
    pub fn gpio_read_request() -> (frame: Vec<u8>)
        ensures
            frame@ == NiosPacket8x32::frame(NIOS_PKT_8X32_TARGET_CONTROL, NIOS_PKT_FLAG_READ, 0, 0),
            frame.len() == 16,
    {
        NiosPacket8x32::build(NIOS_PKT_8X32_TARGET_CONTROL, NIOS_PKT_FLAG_READ, 0x0, 0x0)
    }

    /// The request frame that writes the control word `data` over a link of
    /// the given speed: its data field is [`gpio_for_speed`] of the word.
    pub fn gpio_write_request(data: u32, speed: DeviceSpeed) -> (frame: Vec<u8>)
        ensures
            frame@ == NiosPacket8x32::frame(
                NIOS_PKT_8X32_TARGET_CONTROL,
                NIOS_PKT_FLAG_WRITE,
                0,
                gpio_for_speed(data, speed),
            ),
            frame.len() == 16,
    {
        NiosPacket8x32::build(
            NIOS_PKT_8X32_TARGET_CONTROL,
            NIOS_PKT_FLAG_WRITE,
            0x0,
            Self::gpio_word(data, speed),
        )
    }

    /// On a super speed link the word written for a gain mode is the low 16
    /// bits of the word read, less the bit for small DMA transfers: the
    /// enable bit of automatic gain control is not among them.
    pub proof fn lemma_gain_mode_word(config_gpio: u32, mode: BladerfGainMode)
        ensures
            gpio_for_speed(
                gpio_for_gain_mode(config_gpio, mode),
                DeviceSpeed::BladerfDeviceSpeedSuper,
            ) == config_gpio & 0xff7f,
            gpio_for_speed(
                gpio_for_gain_mode(config_gpio, mode),
                DeviceSpeed::BladerfDeviceSpeedSuper,
            ) & BLADERF_GPIO_AGC_ENABLE == 0,
    {
        assert((config_gpio | 0x0004_0000u32) & 0xff7f == config_gpio & 0xff7f) by (bit_vector);
        assert((config_gpio & !0x0004_0000u32) & 0xff7f == config_gpio & 0xff7f)
            by (bit_vector);
        assert((config_gpio & 0xff7fu32) & 0x0004_0000 == 0) by (bit_vector);
    }

    /// Reads the control word of the FPGA.
    pub fn config_gpio_read(&self) -> (res: Result<u32, BladeRfError>)
        ensures
            exists|exchanged: Result<Vec<u8>, TransportError>|
                res == #[trigger] NiosPacket8x32::data_in(NIOS_PKT_8X32_TARGET_CONTROL, exchanged),
            res is Err ==> res->Err_0.from_exchange(),
    {
        let request = Self::gpio_read_request();
        let exchanged = self.interface.nios_send(ENDPOINT_IN, ENDPOINT_OUT, request);
        let ghost given = exchanged;
        let res = NiosPacket8x32::response_data(NIOS_PKT_8X32_TARGET_CONTROL, exchanged);
        assert(res == NiosPacket8x32::data_in(NIOS_PKT_8X32_TARGET_CONTROL, given));
        res
    }

    /// The control word as it is written for a link of the given speed.
    pub fn gpio_word(data: u32, speed: DeviceSpeed) -> (word: u32)
        ensures
            word == gpio_for_speed(data, speed),
    {
        assert((!0x0080u16) as u32 == 0xff7fu32) by (bit_vector);
        match speed {
            DeviceSpeed::BladerfDeviceSpeedUnknown => data,
            DeviceSpeed::BladerfDeviceSpeedHigh => data | (
            BLADERF_GPIO_FEATURE_SMALL_DMA_XFER as u32),
            DeviceSpeed::BladerfDeviceSpeedSuper => data & ((
            !BLADERF_GPIO_FEATURE_SMALL_DMA_XFER) as u32),
        }
    }

    /// Writes the control word of the FPGA, as [`Self::gpio_word`] makes it
    /// for a super speed link.
    pub fn config_gpio_write(&self, data: u32) -> (res: Result<(), BladeRfError>)
        ensures
            exists|exchanged: Result<Vec<u8>, TransportError>|
                res == #[trigger] gpio_written(exchanged),
            res is Err ==> res->Err_0.from_exchange(),
    {
        let device_speed: DeviceSpeed = DeviceSpeed::BladerfDeviceSpeedSuper;
        let request = Self::gpio_write_request(data, device_speed);
        let exchanged = self.interface.nios_send(ENDPOINT_IN, ENDPOINT_OUT, request);
        let ghost given = exchanged;
        let res = match NiosPacket8x32::response_data(NIOS_PKT_8X32_TARGET_CONTROL, exchanged) {
            Ok(_) => Ok(()),
            Err(e) => Err(e),
        };
        assert(res == gpio_written(given));
        res
    }

    /// Whether the control word `cfg` is that of a device yet to be set up.
    pub fn needs_setup(cfg: u32) -> (r: bool)
        ensures
            r == gpio_is_default(cfg),
    {
        (cfg & 0x7f) == 0
    }

    /// The steps that bring a device up, in their order.
    pub fn setup_steps() -> (steps: Vec<SetupStep>)
        ensures
            steps@ == setup_steps_of(),
    {
        let mut steps: Vec<SetupStep> = Vec::new();
        /* the control word that enables the LMS and selects the low band */
        steps.push(SetupStep::ControlWord(BLADERF_GPIO_DEFAULT));
        /* the front ends are disabled */
        steps.push(SetupStep::FrontEnd { module: BLADERF_MODULE_TX, enable: false });
        steps.push(SetupStep::FrontEnd { module: BLADERF_MODULE_RX, enable: false });
        /* RX and TX are enabled in the transceiver */
        steps.push(SetupStep::Register { addr: 0x05, value: 0x3e });
        /* lower spurious emissions of the transmitter */
        steps.push(SetupStep::Register { addr: 0x47, value: 0x40 });
        /* better performance of the ADC */
        steps.push(SetupStep::Register { addr: 0x59, value: 0x29 });
        /* common mode voltage of the ADC */
        steps.push(SetupStep::Register { addr: 0x64, value: 0x36 });
        /* higher LNA gain */
        steps.push(SetupStep::Register { addr: 0x79, value: 0x37 });
        /* the DC calibration comparators are powered down: TX LPF */
        steps.push(SetupStep::Raise { addr: 0x3f, mask: 0x80 });
        /* RX LPF */
        steps.push(SetupStep::Raise { addr: 0x5f, mask: 0x80 });
        /* RXVGA2A/B */
        steps.push(SetupStep::Raise { addr: 0x6e, mask: 0xc0 });
        /* charge pump current offsets */
        steps.push(SetupStep::ChargePumps { module: BLADERF_MODULE_TX });
        steps.push(SetupStep::ChargePumps { module: BLADERF_MODULE_RX });
        /* the default sample rate */
        steps.push(SetupStep::SampleRate { channel: BLADERF_MODULE_TX, hz: BLADERF_DEFAULT_SAMPLE_RATE });
        steps.push(SetupStep::SampleRate { channel: BLADERF_MODULE_RX, hz: BLADERF_DEFAULT_SAMPLE_RATE });
        /* the default frequencies */
        steps.push(SetupStep::Frequency { channel: BLADERF_MODULE_TX, hz: BLADERF_DEFAULT_TX_FREQUENCY });
        steps.push(SetupStep::Frequency { channel: BLADERF_MODULE_RX, hz: BLADERF_DEFAULT_RX_FREQUENCY });
        /* the trim DAC */
        steps.push(SetupStep::Dac(0));
        /* the default gain mode */
        steps.push(SetupStep::GainMode { channel: BLADERF_MODULE_RX, mode: BladerfGainMode::BladerfGainDefault });
        assert(steps@ =~= setup_steps_of());
        steps
    }

    /// Makes one step of bringing the device up, by the function of the
    /// board or of the chip that the step names.
    pub fn setup(&self, step: SetupStep) -> (res: Result<(), BladeRfError>)
        ensures
            match res {
                Ok(_) => step matches SetupStep::Frequency { channel, hz } ==> tuned(hz),
                Err(e) => match step {
                    SetupStep::Frequency { channel, hz } => {
                        &&& e.from_exchange() || e is Convergence || e is InvalidState
                        &&& e.from_exchange() || tuning_failed(hz, e)
                    },
                    SetupStep::SampleRate { channel, hz } => e.from_exchange() || (e
                        == BladeRfError::Range && !sample_rate_supported(channel, whole_rate(hz))),
                    SetupStep::GainMode { channel, mode } => e.from_exchange() || (e
                        == BladeRfError::Unsupported && channel != BLADERF_MODULE_RX),
                    _ => e.from_exchange(),
                },
            },
    {
        match step {
            SetupStep::ControlWord(word) => self.config_gpio_write(word),
            SetupStep::FrontEnd { module, enable } => match self.lms.enable_rffe(module, enable) {
                Ok(_) => Ok(()),
                Err(e) => Err(e),
            },
            SetupStep::Register { addr, value } => match self.lms.write(addr, value) {
                Ok(_) => Ok(()),
                Err(e) => Err(e),
            },
            SetupStep::Raise { addr, mask } => self.lms.set(addr, mask),
            SetupStep::ChargePumps { module } => match self.lms.config_charge_pumps(module) {
                Ok(_) => Ok(()),
                Err(e) => Err(e),
            },
            SetupStep::SampleRate { channel, hz } => match self.si5338.set_sample_rate(
                channel,
                hz,
            ) {
                Ok(_) => Ok(()),
                Err(e) => Err(e),
            },
            SetupStep::Frequency { channel, hz } => self.set_frequency(channel, hz),
            SetupStep::Dac(value) => match self.dac.write(value) {
                Ok(_) => Ok(()),
                Err(e) => Err(e),
            },
            SetupStep::GainMode { channel, mode } => self.set_gain_mode(channel, mode),
        }
    }

    /// Brings the device up after its FPGA was loaded.
    ///
    /// The control word is read. A device whose control word shows that it
    /// was set up before is left alone. Else the steps of
    /// [`Self::setup_steps`] are made in their order, each by
    /// [`Self::setup`]; the first step that fails ends the bring-up with its
    /// error.
    pub fn initialize(&self) -> (res: Result<(), BladeRfError>)
        ensures
            match res {
                Ok(_) => exists|answered: Result<Vec<u8>, TransportError>|
                    match #[trigger] NiosPacket8x32::data_in(
                        NIOS_PKT_8X32_TARGET_CONTROL,
                        answered,
                    ) {
                        Ok(cfg) => !gpio_is_default(cfg) || (tuned(BLADERF_DEFAULT_TX_FREQUENCY)
                            && tuned(BLADERF_DEFAULT_RX_FREQUENCY)),
                        Err(_) => false,
                    },
                Err(e) => {
                    &&& e.from_exchange() || e is Convergence || e is InvalidState
                    &&& e.from_exchange() || tuning_failed(BLADERF_DEFAULT_TX_FREQUENCY, e)
                        || tuning_failed(BLADERF_DEFAULT_RX_FREQUENCY, e)
                },
            },
    {
        let read = self.config_gpio_read();
        let ghost answered = choose|exchanged: Result<Vec<u8>, TransportError>|
            read == NiosPacket8x32::data_in(NIOS_PKT_8X32_TARGET_CONTROL, exchanged);
        let cfg = match read {
            Ok(cfg) => cfg,
            Err(e) => {
                return Err(e);
            },
        };
        if Self::needs_setup(cfg) {
            let steps = Self::setup_steps();
            proof {
                lemma_setup_steps(0);
            }
            let mut i: usize = 0;
            while i < steps.len()
                invariant
                    i <= steps.len(),
                    steps@ == setup_steps_of(),
                    steps.len() == 19,
                    i > 15 ==> tuned(BLADERF_DEFAULT_TX_FREQUENCY),
                    i > 16 ==> tuned(BLADERF_DEFAULT_RX_FREQUENCY),
                decreases steps.len() - i,
            {
                proof {
                    lemma_setup_steps(i as int);
                }
                match self.setup(steps[i]) {
                    Ok(_) => {},
                    Err(e) => {
                        return Err(e);
                    },
                }
                i += 1;
            }
        }
        Ok(())
    }

    /// Tunes `channel` to `frequency`, in Hz. A frequency above the maximum
    /// of the transceiver is tuned as the maximum, however far above.
    pub fn set_frequency(&self, channel: u8, frequency: u64) -> (res: Result<(), BladeRfError>)
        ensures
            match res {
                Ok(_) => tuned(frequency),
                Err(e) => {
                    &&& e.from_exchange() || e is Convergence || e is InvalidState
                    &&& e.from_exchange() || tuning_failed(frequency, e)
                },
            },
    {
        let hz: u32 = if frequency > u32::MAX as u64 {
            u32::MAX
        } else {
            frequency as u32
        };
        match self.lms.set_frequency(channel, hz) {
            Ok(f) => {
                assert(search_result(tuning_params(transceiver_frequency(frequency)).vcocap, f.vcocap_result));
                Ok(())
            },
            Err(e) => Err(e),
        }
    }

    /// The control word with automatic gain control switched as `mode`
    /// asks.
    pub fn gain_mode_gpio(config_gpio: u32, mode: BladerfGainMode) -> (word: u32)
        ensures
            word == gpio_for_gain_mode(config_gpio, mode),
    {
        match mode {
            BladerfGainMode::BladerfGainDefault => config_gpio | BLADERF_GPIO_AGC_ENABLE,
            BladerfGainMode::BladerfGainMgc => config_gpio & !BLADERF_GPIO_AGC_ENABLE,
            _ => config_gpio,
        }
    }

    /// Asks for automatic gain control of the receive channel to be switched
    /// on or off. The control word is read, changed by
    /// [`Self::gain_mode_gpio`] and written back by
    /// [`Self::config_gpio_write`], in two separate exchanges. On any other
    /// channel the operation is not supported.
    ///
    /// The enable bit of automatic gain control is bit 18 of the control
    /// word. [`Self::config_gpio_write`] writes the word as
    /// [`Self::gpio_word`] makes it for a super speed link, which clears
    /// every bit above bit 15: the enable bit does not reach the device on
    /// such a link, and what is written are the low 16 bits of the word that
    /// was read, see [`Self::lemma_gain_mode_word`].
    pub fn set_gain_mode(&self, channel: u8, mode: BladerfGainMode) -> (res: Result<
        (),
        BladeRfError,
    >)
        ensures
            channel != BLADERF_MODULE_RX ==> res == Err::<(), BladeRfError>(
                BladeRfError::Unsupported,
            ),
            channel == BLADERF_MODULE_RX ==> (res is Err ==> res->Err_0.from_exchange()),
    {
        if channel != BLADERF_MODULE_RX {
            return Err(BladeRfError::Unsupported);
        }
        let config_gpio = self.config_gpio_read()?;
        self.config_gpio_write(Self::gain_mode_gpio(config_gpio, mode))
    }
}

} // verus!
