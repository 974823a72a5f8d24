use seify_bladerf::bladerf::{BladerfGainMode, BLADERF_MODULE_RX, BLADERF_MODULE_TX};
use seify_bladerf::board::bladerf1::{BladeRf1, BladeRfError, DeviceSpeed, SetupStep};
use seify_bladerf::hardware::dac161s055::DAC161S055;
use seify_bladerf::hardware::lms6002d::{
    loopback_mode_from, pll_config_register, pll_divider_byte, LmsFreq, LMS6002D,
    LMS_FREQ_FLAGS_FORCE_VCOCAP,
};
use seify_bladerf::hardware::programming::{
    multiwrite_base, pll_base, pll_config_addr, PllConfig, Programming, Step,
};
use seify_bladerf::hardware::registers::{RegOp, Rmw};
use seify_bladerf::hardware::si5338::SI5338;
use seify_bladerf::nios::{Nios, TransportError};

struct NoLink;

#[derive(Clone)]
struct NoLinkClone;

impl Nios for NoLinkClone {
    fn nios_send(&self, _endpoint_in: u8, _endpoint_out: u8, _pkt: Vec<u8>) -> Result<Vec<u8>, TransportError> {
        Err(TransportError::Disconnected)
    }
}

impl Nios for NoLink {
    fn nios_send(&self, _endpoint_in: u8, _endpoint_out: u8, _pkt: Vec<u8>) -> Result<Vec<u8>, TransportError> {
        Err(TransportError::Disconnected)
    }
}

/// Registers of a transceiver with an ideal comparator at both PLLs.
struct Chip {
    regs: [u8; 128],
    window: (u8, u8),
    asked: Vec<RegOp>,
}

impl Chip {
    fn new(window: (u8, u8)) -> Self {
        Chip { regs: [0; 128], window, asked: Vec::new() }
    }

    fn answer(&mut self, op: RegOp) -> Result<u8, BladeRfError> {
        self.asked.push(op);
        match op {
            RegOp::Write(addr, data) => {
                self.regs[(addr & 0x7f) as usize] = data;
                Ok(data)
            }
            RegOp::Read(addr) if addr == 0x1a || addr == 0x2a => {
                let code = self.regs[addr as usize - 1] & 0x3f;
                let vtune = if code < self.window.0 {
                    2
                } else if code > self.window.1 {
                    1
                } else {
                    0
                };
                Ok(vtune << 6)
            }
            RegOp::Read(addr) => Ok(self.regs[(addr & 0x7f) as usize]),
        }
    }

    fn run(&mut self, mut p: Programming) -> Programming {
        while let Some(op) = p.op() {
            let outcome = self.answer(op);
            p = p.advance(outcome);
        }
        p
    }
}

fn transmit_default(flags: u8) -> LmsFreq {
    LmsFreq {
        freqsel: 0x2c,
        vcocap: 31,
        nint: 127,
        nfrac: 0x39_5555,
        flags,
        xb_gpio: 0,
        x: 2,
        vcocap_result: 0,
    }
}

#[test]
fn rmw_writes_back_what_it_read_with_the_change() {
    let rmw = Rmw::begin(0x3f, 0xff, 0x80);
    assert_eq!(rmw.op(), Some(RegOp::Read(0x3f)));
    let rmw = rmw.advance(Ok(0x15));
    assert_eq!(rmw.op(), Some(RegOp::Write(0x3f, 0x95)));
    let rmw = rmw.advance(Ok(0x95));
    assert_eq!(rmw, Rmw::Over(Ok(0x95)));
    assert_eq!(rmw.op(), None);
    assert_eq!(rmw.advance(Ok(1)), Rmw::Over(Ok(0x95)));
}

#[test]
fn rmw_keeps_and_raises() {
    assert_eq!(Rmw::begin(0x09, 0xfa, 0).advance(Ok(0xff)).op(), Some(RegOp::Write(0x09, 0xfa)));
    assert_eq!(Rmw::begin(0x09, 0xfa, 0).advance(Ok(0x05)).op(), Some(RegOp::Write(0x09, 0x00)));
    assert_eq!(Rmw::begin(0x16, 0xe0, 0x0c).advance(Ok(0xff)).op(), Some(RegOp::Write(0x16, 0xec)));
    assert_eq!(Rmw::begin(0x09, 0xff, 0x05).advance(Ok(0x10)).op(), Some(RegOp::Write(0x09, 0x15)));
}

#[test]
fn rmw_does_not_write_after_a_failed_read() {
    let rmw = Rmw::begin(0x3f, 0xff, 0x80).advance(Err(BladeRfError::OperationFailed));
    assert_eq!(rmw, Rmw::Over(Err(BladeRfError::OperationFailed)));
    assert_eq!(rmw.op(), None);
    let rmw = Rmw::begin(0x3f, 0xff, 0x80).advance(Ok(0)).advance(Err(BladeRfError::Protocol));
    assert_eq!(rmw, Rmw::Over(Err(BladeRfError::Protocol)));
}

#[test]
fn pll_addresses() {
    assert_eq!((pll_base(BLADERF_MODULE_RX), pll_base(BLADERF_MODULE_TX)), (0x20, 0x10));
    assert_eq!((multiwrite_base(BLADERF_MODULE_RX), multiwrite_base(BLADERF_MODULE_TX)), (0xa0, 0x90));
    assert_eq!((pll_config_addr(BLADERF_MODULE_RX), pll_config_addr(BLADERF_MODULE_TX)), (0x25, 0x15));
}

#[test]
fn free_register_values() {
    assert_eq!(pll_config_register(0xff, 0x2c, false, false), 0xb2);
    assert_eq!(pll_config_register(0x03, 0x2c, false, true), 0xb3);
    assert_eq!(
        loopback_mode_from(0x40, 0x08),
        seify_bladerf::bladerf::BladerfLoopback::BladerfLbBbTxvga1Rxlpf
    );
    let bytes: Vec<u8> = (0..4).map(|i| pll_divider_byte(127, 0x39_5555, i)).collect();
    assert_eq!(bytes, vec![0x3f, 0xb9, 0x55, 0x55]);
    assert_eq!(LMS6002D::<NoLink>::vcocap_write(0x10, 31, 0x80), RegOp::Write(0x19, 0x9f));
    assert_eq!(LMS6002D::<NoLink>::vcocap_write(0x20, 0, 0xc0), RegOp::Write(0x29, 0xc0));
    assert_eq!(SI5338::<NoLink>::enable_bits(0xff), 7);
    assert_eq!(SI5338::<NoLink>::enable_bits(0xf9), 1);
}

#[test]
fn request_frames_of_register_accesses() {
    assert_eq!(
        LMS6002D::<NoLink>::request(RegOp::Read(0x2a)),
        vec![0x41, 0x00, 0x00, 0x00, 0x2a, 0x00, 0, 0, 0, 0, 0, 0, 0, 0, 0, 0]
    );
    assert_eq!(
        LMS6002D::<NoLink>::request(RegOp::Write(0x09, 0x15)),
        vec![0x41, 0x00, 0x01, 0x00, 0x09, 0x15, 0, 0, 0, 0, 0, 0, 0, 0, 0, 0]
    );
    assert_eq!(
        SI5338::<NoLink>::request(RegOp::Read(36)),
        vec![0x41, 0x01, 0x00, 0x00, 36, 0x00, 0, 0, 0, 0, 0, 0, 0, 0, 0, 0]
    );
    assert_eq!(
        SI5338::<NoLink>::request(RegOp::Write(0x4b, 0x66)),
        vec![0x41, 0x01, 0x01, 0x00, 0x4b, 0x66, 0, 0, 0, 0, 0, 0, 0, 0, 0, 0]
    );
    assert_eq!(
        DAC161S055::<NoLink>::request(0x08, 0x1234),
        vec![0x42, 0x00, 0x01, 0x00, 0x08, 0x34, 0x12, 0, 0, 0, 0, 0, 0, 0, 0, 0]
    );
    assert_eq!(
        BladeRf1::<NoLink>::gpio_read_request(),
        vec![0x43, 0x01, 0x00, 0x00, 0x00, 0, 0, 0, 0, 0, 0, 0, 0, 0, 0, 0]
    );
    assert_eq!(
        BladeRf1::<NoLink>::gpio_write_request(0x0004_00d7, DeviceSpeed::BladerfDeviceSpeedSuper),
        vec![0x43, 0x01, 0x01, 0x00, 0x00, 0x57, 0, 0, 0, 0, 0, 0, 0, 0, 0, 0]
    );
}

#[test]
fn programming_with_the_estimate_forced() {
    let f = transmit_default(LMS_FREQ_FLAGS_FORCE_VCOCAP);
    let mut chip = Chip::new((0, 63));
    chip.regs[0x09] = 0x10;
    chip.regs[0x19] = 0x80;
    let over = chip.run(Programming::begin(BLADERF_MODULE_TX, &f));
    assert_eq!(over.step, Step::Over(Ok(31)));
    assert_eq!(
        chip.asked,
        vec![
            RegOp::Read(0x09),
            RegOp::Write(0x09, 0x15),
            RegOp::Read(0x19),
            RegOp::Write(0x19, 0x9f),
            RegOp::Read(0x15),
            RegOp::Read(0x08),
            RegOp::Read(0x46),
            RegOp::Write(0x15, 0xb2),
            RegOp::Write(0x90, 0x3f),
            RegOp::Write(0x91, 0xb9),
            RegOp::Write(0x92, 0x55),
            RegOp::Write(0x93, 0x55),
        ]
    );
    assert!(!chip.asked.contains(&RegOp::Read(0x1a)));
}

#[test]
fn programming_keeps_the_output_buffer_in_loopback() {
    let f = transmit_default(LMS_FREQ_FLAGS_FORCE_VCOCAP);
    let mut chip = Chip::new((0, 63));
    chip.regs[0x08] = 0x01;
    chip.regs[0x25] = 0x03;
    chip.run(Programming::begin(BLADERF_MODULE_RX, &f));
    assert!(chip.asked.contains(&RegOp::Write(0x25, 0xb3)));
    assert!(chip.asked.contains(&RegOp::Write(0xa0, 0x3f)));
}

#[test]
fn programming_searches_unless_forced() {
    let f = transmit_default(0);
    let mut chip = Chip::new((28, 40));
    let over = chip.run(Programming::begin(BLADERF_MODULE_RX, &f));
    assert_eq!(over.step, Step::Over(Ok(34)));
    assert_eq!(chip.regs[0x29] & 0x3f, 34);
    assert_eq!(chip.regs[0x09], 0x05);
    assert_eq!(chip.asked[12], RegOp::Read(0x2a));
    assert_eq!(chip.asked[13], RegOp::Write(0x29, 30));
}

#[test]
fn programming_turns_the_modulators_off_after_a_failed_step() {
    let f = transmit_default(0);
    for failing in 0..12 {
        let mut chip = Chip::new((28, 40));
        chip.regs[0x09] = 0xf0;
        let mut p = Programming::begin(BLADERF_MODULE_TX, &f);
        for _ in 0..failing {
            let op = p.op().unwrap();
            let outcome = chip.answer(op);
            p = p.advance(outcome);
        }
        let failed_op = p.op().unwrap();
        p = p.advance(Err(BladeRfError::OperationFailed));
        assert_eq!(p.op(), Some(RegOp::Read(0x09)));
        let data = chip.answer(RegOp::Read(0x09)).unwrap();
        p = p.advance(Ok(data));
        assert_eq!(p.op(), Some(RegOp::Write(0x09, data & 0xfa)));
        assert_eq!(data & 0xfa, 0xf0);
        p = p.advance(Ok(0));
        assert_eq!(p.step, Step::Over(Err(BladeRfError::OperationFailed)));
        assert_eq!(p.op(), None);
        assert_ne!(failed_op, RegOp::Read(0x1a));
    }
}

#[test]
fn programming_reports_the_failed_step_whatever_becomes_of_the_cleanup() {
    let f = transmit_default(0);
    let failed = Programming::begin(BLADERF_MODULE_TX, &f)
        .advance(Ok(0))
        .advance(Ok(0))
        .advance(Err(BladeRfError::Transport(TransportError::Timeout)));
    assert_eq!(failed.op(), Some(RegOp::Read(0x09)));
    let over = failed.advance(Err(BladeRfError::Protocol));
    assert_eq!(over.step, Step::Over(Err(BladeRfError::Transport(TransportError::Timeout))));
    let over = failed.advance(Ok(0x05)).advance(Err(BladeRfError::OperationFailed));
    assert_eq!(over.step, Step::Over(Err(BladeRfError::Transport(TransportError::Timeout))));
}

#[test]
fn programming_turns_the_modulators_off_after_a_failed_search() {
    let f = transmit_default(0);
    let mut chip = Chip::new((64, 64));
    let over = chip.run(Programming::begin(BLADERF_MODULE_TX, &f));
    assert_eq!(over.step, Step::Over(Err(BladeRfError::Convergence { vcocap: 51, vtune: 2 })));
    let n = chip.asked.len();
    assert_eq!(chip.asked[n - 2], RegOp::Read(0x09));
    assert_eq!(chip.asked[n - 1], RegOp::Write(0x09, 0x00));
    assert_eq!(chip.regs[0x09], 0x00);
}

#[test]
fn pll_config_reads_three_registers_and_writes_one() {
    let p = PllConfig::begin(BLADERF_MODULE_RX, 0x2c, false);
    assert_eq!(p.op(), Some(RegOp::Read(0x25)));
    let p = p.advance(Ok(0x03));
    assert_eq!(p.op(), Some(RegOp::Read(0x08)));
    let p = p.advance(Ok(0x00));
    assert_eq!(p.op(), Some(RegOp::Read(0x46)));
    let written = p.advance(Ok(0x00));
    assert_eq!(written.op(), Some(RegOp::Write(0x25, 0xb2)));
    assert_eq!(written.advance(Ok(0xb2)), PllConfig::Over(Ok(0xb2)));
    let in_loopback = PllConfig::begin(BLADERF_MODULE_TX, 0x27, true)
        .advance(Ok(0xfd))
        .advance(Ok(0x01))
        .advance(Ok(0x00));
    assert_eq!(in_loopback.op(), Some(RegOp::Write(0x15, 0x9d)));
    let failed = PllConfig::begin(BLADERF_MODULE_TX, 0x27, true)
        .advance(Ok(0xfd))
        .advance(Err(BladeRfError::Protocol));
    assert_eq!(failed, PllConfig::Over(Err(BladeRfError::Protocol)));
    assert_eq!(failed.op(), None);
}

#[test]
fn dac_commands_of_a_value() {
    assert_eq!(DAC161S055::<NoLink>::commands(0x1234), vec![(0x28, 0x0000), (0x08, 0x1234)]);
}

#[test]
fn setup_steps_in_their_order() {
    let steps = BladeRf1::<NoLink>::setup_steps();
    assert_eq!(
        steps,
        vec![
            SetupStep::ControlWord(0x57),
            SetupStep::FrontEnd { module: BLADERF_MODULE_TX, enable: false },
            SetupStep::FrontEnd { module: BLADERF_MODULE_RX, enable: false },
            SetupStep::Register { addr: 0x05, value: 0x3e },
            SetupStep::Register { addr: 0x47, value: 0x40 },
            SetupStep::Register { addr: 0x59, value: 0x29 },
            SetupStep::Register { addr: 0x64, value: 0x36 },
            SetupStep::Register { addr: 0x79, value: 0x37 },
            SetupStep::Raise { addr: 0x3f, mask: 0x80 },
            SetupStep::Raise { addr: 0x5f, mask: 0x80 },
            SetupStep::Raise { addr: 0x6e, mask: 0xc0 },
            SetupStep::ChargePumps { module: BLADERF_MODULE_TX },
            SetupStep::ChargePumps { module: BLADERF_MODULE_RX },
            SetupStep::SampleRate { channel: BLADERF_MODULE_TX, hz: 1_000_000 },
            SetupStep::SampleRate { channel: BLADERF_MODULE_RX, hz: 1_000_000 },
            SetupStep::Frequency { channel: BLADERF_MODULE_TX, hz: 2_447_000_000 },
            SetupStep::Frequency { channel: BLADERF_MODULE_RX, hz: 2_484_000_000 },
            SetupStep::Dac(0),
            SetupStep::GainMode { channel: BLADERF_MODULE_RX, mode: BladerfGainMode::BladerfGainDefault },
        ]
    );
}

#[test]
fn a_setup_step_fails_as_its_function_fails() {
    let board = BladeRf1::new(NoLinkClone);
    let lost = Err(BladeRfError::Transport(TransportError::Disconnected));
    assert_eq!(board.setup(SetupStep::Register { addr: 0x05, value: 0x3e }), lost);
    assert_eq!(board.setup(SetupStep::Dac(0)), lost);
    assert_eq!(
        board.setup(SetupStep::SampleRate { channel: 0, hz: 1 }),
        Err(BladeRfError::Range)
    );
    assert_eq!(
        board.setup(SetupStep::GainMode { channel: 1, mode: BladerfGainMode::BladerfGainMgc }),
        Err(BladeRfError::Unsupported)
    );
}
