//! The programming of a PLL with a frequency, as a state machine over
//! register accesses.
//!
//! 1. Turn on the delta-sigma modulators: read register 0x09 and write it
//!    back with bits 0 and 2 set.
//! 2. Read the register that holds the tuning-capacitor code, keep its two
//!    upper bits, and write the estimate of the code beside them.
//! 3. Read the PLL configuration register and the two loopback registers,
//!    and write FREQSEL with the output buffer selection; while a loopback
//!    is enabled the output buffer selection stays as it was read.
//! 4. Write the four bytes of the divider through the multiwrite addresses.
//! 5. Unless the estimate is forced, search for the code in the middle of
//!    the lock range, see [`Tuner`].
//!
//! When an access fails, or the search ends with an error, the modulators
//! are turned off again: register 0x09 is read and written back with bits 0
//! and 2 cleared. What the programming then ends with is the error that led
//! there, whatever becomes of those two accesses.

use vstd::prelude::*;
use crate::bladerf::{BladerfLoopback, BLADERF_MODULE_RX, BLADERF_MODULE_TX};
use crate::board::bladerf1::BladeRfError;
use crate::hardware::lms6002d::{
    loopback_mode_from, loopback_mode_in, pll_config_of, pll_config_register,
    pll_divider_byte, pll_divider_byte_of, search_error, search_result, LmsFreq,
    LMS_FREQ_FLAGS_FORCE_VCOCAP, LMS_FREQ_FLAGS_LOW_BAND, VCOCAP_MAX_VALUE,
};
use crate::hardware::registers::RegOp;
use crate::hardware::tuning::{Probe, Tuner};

verus! {

/// Register of the two enable bits of the delta-sigma modulators.
pub const DSM_REGISTER: u8 = 0x09;

/// The enable bits of the delta-sigma modulators.
pub const DSM_ENABLE: u8 = 0x05;

/// Every bit but the enable bits of the delta-sigma modulators.
pub const DSM_KEEP: u8 = 0xfa;

/// The bits of the tuning-capacitor register that are not the code.
pub const VCOCAP_STATE_MASK: u8 = 0xc0;

/// First loopback register: RF loopback and the baseband loopback inputs.
pub const LOOPBACK_REGISTER_LOW: u8 = 0x08;

/// Second loopback register: the baseband loopback source.
pub const LOOPBACK_REGISTER_HIGH: u8 = 0x46;

/// The writing of FREQSEL and the output buffer selection of a PLL, as a
/// state machine: the configuration register and the two loopback registers
/// are read, and the configuration register is written with FREQSEL in bits
/// 7:2 and the output buffer selection in bits 1:0. While a loopback is
/// enabled the output buffer selection stays as it was read.
#[derive(Debug, Clone, Copy, PartialEq, Eq)]
pub enum PllConfig {
    /// About to read the configuration register.
    Reading { module: u8, freqsel: u8, low_band: bool },
    /// About to read the first loopback register.
    LoopbackLow { module: u8, freqsel: u8, low_band: bool, regval: u8 },
    /// About to read the second loopback register.
    LoopbackHigh { module: u8, freqsel: u8, low_band: bool, regval: u8, lben_lbrfen: u8 },
    /// About to write `value` to the configuration register.
    Writing { module: u8, value: u8 },
    /// Done: the outcome of the write, or the error of the read that
    /// failed.
    Over(Result<u8, BladeRfError>),
}

impl PllConfig {
    pub open spec fn begun(module: u8, freqsel: u8, low_band: bool) -> PllConfig {
        PllConfig::Reading { module, freqsel, low_band }
    }

    /// The access that is asked for next; none when the writing is over.
    pub open spec fn op_of(self) -> Option<RegOp> {
        match self {
            PllConfig::Reading { module, freqsel, low_band } => Some(
                RegOp::Read(pll_config_addr_of(module)),
            ),
            PllConfig::LoopbackLow { module, freqsel, low_band, regval } => Some(
                RegOp::Read(LOOPBACK_REGISTER_LOW),
            ),
            PllConfig::LoopbackHigh { module, freqsel, low_band, regval, lben_lbrfen } => Some(
                RegOp::Read(LOOPBACK_REGISTER_HIGH),
            ),
            PllConfig::Writing { module, value } => Some(
                RegOp::Write(pll_config_addr_of(module), value),
            ),
            PllConfig::Over(_) => None,
        }
    }

    /// The state after the outcome of the access that was asked for. A read
    /// that fails ends the writing with its error and without a write.
    pub open spec fn advanced(self, outcome: Result<u8, BladeRfError>) -> PllConfig {
        match self {
            PllConfig::Over(_) => self,
            PllConfig::Writing { module, value } => PllConfig::Over(outcome),
            _ => match outcome {
                Err(e) => PllConfig::Over(Err(e)),
                Ok(data) => match self {
                    PllConfig::Reading { module, freqsel, low_band } => PllConfig::LoopbackLow {
                        module,
                        freqsel,
                        low_band,
                        regval: data,
                    },
                    PllConfig::LoopbackLow {
                        module,
                        freqsel,
                        low_band,
                        regval,
                    } => PllConfig::LoopbackHigh {
                        module,
                        freqsel,
                        low_band,
                        regval,
                        lben_lbrfen: data,
                    },
                    PllConfig::LoopbackHigh {
                        module,
                        freqsel,
                        low_band,
                        regval,
                        lben_lbrfen,
                    } => PllConfig::Writing {
                        module,
                        value: pll_config_of(
                            regval,
                            freqsel,
                            low_band,
                            loopback_mode_in(lben_lbrfen, data) != BladerfLoopback::BladerfLbNone,
                        ),
                    },
                    _ => self,
                },
            },
        }
    }

    /// The state after a sequence of outcomes, first to last.
    pub open spec fn run(self, outcomes: Seq<Result<u8, BladeRfError>>) -> PllConfig
        decreases outcomes.len(),
    {
        if outcomes.len() == 0 {
            self
        } else {
            self.run(outcomes.drop_last()).advanced(outcomes.last())
        }
    }

    /// The accesses that can still be asked for.
    pub open spec fn fuel(self) -> nat {
        match self {
            PllConfig::Reading { module, freqsel, low_band } => 4,
            PllConfig::LoopbackLow { module, freqsel, low_band, regval } => 3,
            PllConfig::LoopbackHigh { module, freqsel, low_band, regval, lben_lbrfen } => 2,
            PllConfig::Writing { module, value } => 1,
            PllConfig::Over(_) => 0,
        }
    }

    pub fn begin(module: u8, freqsel: u8, low_band: bool) -> (p: PllConfig)
        ensures
            p == Self::begun(module, freqsel, low_band),
    {
        PllConfig::Reading { module, freqsel, low_band }
    }

    pub fn op(&self) -> (op: Option<RegOp>)
        ensures
            op == self.op_of(),
            op is None <==> *self is Over,
    {
        match self {
            PllConfig::Reading { module, freqsel, low_band } => Some(
                RegOp::Read(pll_config_addr(*module)),
            ),
            PllConfig::LoopbackLow { module, freqsel, low_band, regval } => Some(
                RegOp::Read(LOOPBACK_REGISTER_LOW),
            ),
            PllConfig::LoopbackHigh { module, freqsel, low_band, regval, lben_lbrfen } => Some(
                RegOp::Read(LOOPBACK_REGISTER_HIGH),
            ),
            PllConfig::Writing { module, value } => Some(
                RegOp::Write(pll_config_addr(*module), *value),
            ),
            PllConfig::Over(_) => None,
        }
    }

    pub fn advance(self, outcome: Result<u8, BladeRfError>) -> (p: PllConfig)
        ensures
            p == self.advanced(outcome),
            !(self is Over) ==> p.fuel() < self.fuel(),
    {
        match self {
            PllConfig::Over(_) => self,
            PllConfig::Writing { module, value } => PllConfig::Over(outcome),
            _ => match outcome {
                Err(e) => PllConfig::Over(Err(e)),
                Ok(data) => match self {
                    PllConfig::Reading { module, freqsel, low_band } => PllConfig::LoopbackLow {
                        module,
                        freqsel,
                        low_band,
                        regval: data,
                    },
                    PllConfig::LoopbackLow {
                        module,
                        freqsel,
                        low_band,
                        regval,
                    } => PllConfig::LoopbackHigh {
                        module,
                        freqsel,
                        low_band,
                        regval,
                        lben_lbrfen: data,
                    },
                    PllConfig::LoopbackHigh {
                        module,
                        freqsel,
                        low_band,
                        regval,
                        lben_lbrfen,
                    } => {
                        let mode = loopback_mode_from(lben_lbrfen, data);
                        let lb_enabled = mode != BladerfLoopback::BladerfLbNone;
                        PllConfig::Writing {
                            module,
                            value: pll_config_register(regval, freqsel, low_band, lb_enabled),
                        }
                    },
                    _ => self,
                },
            },
        }
    }
}

/// Where the programming stands.
#[derive(Debug, Clone, Copy, PartialEq, Eq)]
pub enum Step {
    /// About to read the modulator register.
    EnableRead,
    /// About to write `value` to the modulator register.
    EnableWrite { value: u8 },
    /// About to read the tuning-capacitor register.
    StateRead,
    /// About to write the estimate beside the upper bits `state`.
    EstimateWrite { state: u8 },
    /// About to read the PLL configuration register.
    ConfigRead { state: u8 },
    /// About to read the first loopback register.
    LoopbackLow { state: u8, regval: u8 },
    /// About to read the second loopback register.
    LoopbackHigh { state: u8, regval: u8, lben_lbrfen: u8 },
    /// About to write `value` to the PLL configuration register.
    ConfigWrite { state: u8, value: u8 },
    /// About to write byte `index` of the divider.
    Divider { state: u8, index: u8 },
    /// Searching, and about to write the code that the search asks for.
    SearchWrite { state: u8, tuner: Tuner },
    /// Searching, and about to read the tuning voltage.
    SearchRead { state: u8, tuner: Tuner },
    /// Failed with `error`, and about to read the modulator register.
    CleanupRead { error: BladeRfError },
    /// Failed with `error`, and about to write `value` to the modulator
    /// register.
    CleanupWrite { error: BladeRfError, value: u8 },
    /// Done: the code that the PLL is left with, or the error.
    Over(Result<u8, BladeRfError>),
}

/// The programming of the PLL of `module` with the parameters `f`.
#[derive(Debug, Clone, Copy, PartialEq, Eq)]
pub struct Programming {
    pub module: u8,
    pub f: LmsFreq,
    pub step: Step,
}

/// Base address of the registers of the PLL of `module`.
pub open spec fn pll_base_of(module: u8) -> u8 {
    if module == BLADERF_MODULE_RX {
        0x20
    } else {
        0x10
    }
}

/// Base address of the divider registers of the PLL of `module` for
/// writing all of them at once: the base address with bit 7 set.
pub open spec fn multiwrite_base_of(module: u8) -> u8 {
    if module == BLADERF_MODULE_RX {
        0xa0
    } else {
        0x90
    }
}

/// Address of the configuration register of the PLL of `module`.
pub open spec fn pll_config_addr_of(module: u8) -> u8 {
    if module == BLADERF_MODULE_TX {
        0x15
    } else {
        0x25
    }
}

pub fn pll_base(module: u8) -> (base: u8)
    ensures
        base == pll_base_of(module),
{
    if module == BLADERF_MODULE_RX {
        0x20
    } else {
        0x10
    }
}

pub fn multiwrite_base(module: u8) -> (base: u8)
    ensures
        base == multiwrite_base_of(module),
        base == pll_base_of(module) | 0x80,
{
    assert(0x20u8 | 0x80 == 0xa0 && 0x10u8 | 0x80 == 0x90) by (bit_vector);
    pll_base(module) | 0x80
}

pub fn pll_config_addr(module: u8) -> (addr: u8)
    ensures
        addr == pll_config_addr_of(module),
{
    if module == BLADERF_MODULE_TX {
        0x15
    } else {
        0x25
    }
}

impl Programming {
    pub open spec fn wf(self) -> bool {
        &&& self.f.vcocap <= VCOCAP_MAX_VALUE
        &&& match self.step {
            Step::Divider { state, index } => index <= 3,
            Step::SearchWrite { state, tuner } => tuner.wf() && tuner.probe_of() is WriteRead,
            Step::SearchRead { state, tuner } => tuner.wf() && !(tuner is Over),
            Step::Over(Ok(code)) => code <= VCOCAP_MAX_VALUE,
            _ => true,
        }
    }

    /// Whether the estimate is to be used as it is, without a search.
    pub open spec fn forced(self) -> bool {
        self.f.flags & LMS_FREQ_FLAGS_FORCE_VCOCAP != 0
    }

    /// The programming at its start.
    pub open spec fn begun(module: u8, f: LmsFreq) -> Programming {
        Programming { module, f, step: Step::EnableRead }
    }

    /// The step at which a search stands that has come to `tuner`: over
    /// with the code found, on the way to turning the modulators off after
    /// an error of the search, or about to make the next probe.
    pub open spec fn searching(state: u8, tuner: Tuner) -> Step {
        match tuner {
            Tuner::Over(Ok(code)) => Step::Over(Ok(code)),
            Tuner::Over(Err(e)) => Step::CleanupRead { error: e },
            _ => match tuner.probe_of() {
                Probe::WriteRead(code) => Step::SearchWrite { state, tuner },
                _ => Step::SearchRead { state, tuner },
            },
        }
    }

    /// The access that the programming asks for next; none when it is over.
    pub open spec fn op_of(self) -> Option<RegOp> {
        let base = pll_base_of(self.module);
        match self.step {
            Step::EnableRead => Some(RegOp::Read(DSM_REGISTER)),
            Step::EnableWrite { value } => Some(RegOp::Write(DSM_REGISTER, value)),
            Step::StateRead => Some(RegOp::Read((base + 9) as u8)),
            Step::EstimateWrite { state } => Some(
                RegOp::Write((base + 9) as u8, self.f.vcocap | state),
            ),
            Step::ConfigRead { state } => Some(RegOp::Read(pll_config_addr_of(self.module))),
            Step::LoopbackLow { state, regval } => Some(RegOp::Read(LOOPBACK_REGISTER_LOW)),
            Step::LoopbackHigh { state, regval, lben_lbrfen } => Some(
                RegOp::Read(LOOPBACK_REGISTER_HIGH),
            ),
            Step::ConfigWrite { state, value } => Some(
                RegOp::Write(pll_config_addr_of(self.module), value),
            ),
            Step::Divider { state, index } => Some(
                RegOp::Write(
                    (multiwrite_base_of(self.module) + index) as u8,
                    pll_divider_byte_of(self.f.nint, self.f.nfrac, index),
                ),
            ),
            Step::SearchWrite { state, tuner } => match tuner.probe_of() {
                Probe::WriteRead(code) => Some(RegOp::Write((base + 9) as u8, code | state)),
                _ => Some(RegOp::Read((base + 10) as u8)),
            },
            Step::SearchRead { state, tuner } => Some(RegOp::Read((base + 10) as u8)),
            Step::CleanupRead { error } => Some(RegOp::Read(DSM_REGISTER)),
            Step::CleanupWrite { error, value } => Some(RegOp::Write(DSM_REGISTER, value)),
            Step::Over(_) => None,
        }
    }

    /// The step after the outcome of the access that was asked for.
    pub open spec fn next_step(self, outcome: Result<u8, BladeRfError>) -> Step {
        match self.step {
            Step::Over(_) => self.step,
            Step::CleanupRead { error } => match outcome {
                Ok(data) => Step::CleanupWrite { error, value: data & DSM_KEEP },
                Err(_) => Step::Over(Err(error)),
            },
            Step::CleanupWrite { error, value } => Step::Over(Err(error)),
            _ => match outcome {
                Err(e) => Step::CleanupRead { error: e },
                Ok(data) => match self.step {
                    Step::EnableRead => Step::EnableWrite { value: data | DSM_ENABLE },
                    Step::EnableWrite { value } => Step::StateRead,
                    Step::StateRead => Step::EstimateWrite { state: data & VCOCAP_STATE_MASK },
                    Step::EstimateWrite { state } => Step::ConfigRead { state },
                    Step::ConfigRead { state } => Step::LoopbackLow { state, regval: data },
                    Step::LoopbackLow { state, regval } => Step::LoopbackHigh {
                        state,
                        regval,
                        lben_lbrfen: data,
                    },
                    Step::LoopbackHigh { state, regval, lben_lbrfen } => Step::ConfigWrite {
                        state,
                        value: pll_config_of(
                            regval,
                            self.f.freqsel,
                            self.f.flags & LMS_FREQ_FLAGS_LOW_BAND != 0,
                            loopback_mode_in(lben_lbrfen, data) != BladerfLoopback::BladerfLbNone,
                        ),
                    },
                    Step::ConfigWrite { state, value } => Step::Divider { state, index: 0 },
                    Step::Divider { state, index } => if index < 3 {
                        Step::Divider { state, index: (index + 1) as u8 }
                    } else if self.forced() {
                        Step::Over(Ok(self.f.vcocap))
                    } else {
                        Self::searching(state, Tuner::started(self.f.vcocap))
                    },
                    Step::SearchWrite { state, tuner } => Step::SearchRead { state, tuner },
                    Step::SearchRead { state, tuner } => Self::searching(
                        state,
                        tuner.advanced(data >> 6),
                    ),
                    _ => self.step,
                },
            },
        }
    }

    /// The programming after the outcome of the access that it asked for.
    pub open spec fn advanced(self, outcome: Result<u8, BladeRfError>) -> Programming {
        Programming { module: self.module, f: self.f, step: self.next_step(outcome) }
    }

    /// The programming after a sequence of outcomes, first to last.
    pub open spec fn run(self, outcomes: Seq<Result<u8, BladeRfError>>) -> Programming
        decreases outcomes.len(),
    {
        if outcomes.len() == 0 {
            self
        } else {
            self.run(outcomes.drop_last()).advanced(outcomes.last())
        }
    }

    /// The accesses that the programming asks for while it takes
    /// `outcomes`, one before each outcome.
    pub open spec fn ops(self, outcomes: Seq<Result<u8, BladeRfError>>) -> Seq<Option<RegOp>> {
        Seq::new(outcomes.len(), |i: int| self.run(outcomes.take(i)).op_of())
    }

    /// An upper bound on the accesses that the programming can still ask
    /// for.
    pub open spec fn fuel(self) -> nat {
        match self.step {
            Step::EnableRead => 520,
            Step::EnableWrite { value } => 519,
            Step::StateRead => 518,
            Step::EstimateWrite { state } => 517,
            Step::ConfigRead { state } => 516,
            Step::LoopbackLow { state, regval } => 515,
            Step::LoopbackHigh { state, regval, lben_lbrfen } => 514,
            Step::ConfigWrite { state, value } => 513,
            Step::Divider { state, index } => if index <= 3 {
                (512 - index) as nat
            } else {
                509
            },
            Step::SearchWrite { state, tuner } => 2 * tuner.fuel() + 4,
            Step::SearchRead { state, tuner } => 2 * tuner.fuel() + 3,
            Step::CleanupRead { error } => 2,
            Step::CleanupWrite { error, value } => 1,
            Step::Over(_) => 0,
        }
    }

    pub fn begin(module: u8, f: &LmsFreq) -> (p: Programming)
        requires
            f.vcocap <= VCOCAP_MAX_VALUE,
        ensures
            p == Self::begun(module, *f),
            p.wf(),
    {
        Programming { module, f: *f, step: Step::EnableRead }
    }

    /// The access to make next; none when the programming is over.
    pub fn op(&self) -> (op: Option<RegOp>)
        requires
            self.wf(),
        ensures
            op == self.op_of(),
            op is None <==> self.step is Over,
    {
        let base: u8 = pll_base(self.module);
        match self.step {
            Step::EnableRead => Some(RegOp::Read(DSM_REGISTER)),
            Step::EnableWrite { value } => Some(RegOp::Write(DSM_REGISTER, value)),
            Step::StateRead => Some(RegOp::Read(base + 9)),
            Step::EstimateWrite { state } => Some(RegOp::Write(base + 9, self.f.vcocap | state)),
            Step::ConfigRead { state } => Some(RegOp::Read(pll_config_addr(self.module))),
            Step::LoopbackLow { state, regval } => Some(RegOp::Read(LOOPBACK_REGISTER_LOW)),
            Step::LoopbackHigh { state, regval, lben_lbrfen } => Some(
                RegOp::Read(LOOPBACK_REGISTER_HIGH),
            ),
            Step::ConfigWrite { state, value } => Some(
                RegOp::Write(pll_config_addr(self.module), value),
            ),
            Step::Divider { state, index } => Some(
                RegOp::Write(
                    multiwrite_base(self.module) + index,
                    pll_divider_byte(self.f.nint, self.f.nfrac, index),
                ),
            ),
            Step::SearchWrite { state, tuner } => match tuner.probe() {
                Probe::WriteRead(code) => Some(RegOp::Write(base + 9, code | state)),
                _ => Some(RegOp::Read(base + 10)),
            },
            Step::SearchRead { state, tuner } => Some(RegOp::Read(base + 10)),
            Step::CleanupRead { error } => Some(RegOp::Read(DSM_REGISTER)),
            Step::CleanupWrite { error, value } => Some(RegOp::Write(DSM_REGISTER, value)),
            Step::Over(_) => None,
        }
    }

    fn search_step(state: u8, tuner: Tuner) -> (step: Step)
        requires
            tuner.wf(),
        ensures
            step == Self::searching(state, tuner),
            step matches Step::SearchWrite { state, tuner } ==> tuner.wf() && tuner.probe_of()
                is WriteRead,
            step matches Step::SearchRead { state, tuner } ==> tuner.wf() && !(tuner is Over),
            step matches Step::Over(Ok(code)) ==> code <= VCOCAP_MAX_VALUE,
            step matches Step::Over(Err(e)) ==> false,
    {
        match tuner {
            Tuner::Over(Ok(code)) => Step::Over(Ok(code)),
            Tuner::Over(Err(e)) => Step::CleanupRead { error: e },
            _ => match tuner.probe() {
                Probe::WriteRead(code) => Step::SearchWrite { state, tuner },
                _ => Step::SearchRead { state, tuner },
            },
        }
    }

    /// Takes the outcome of the access that was asked for.
    pub fn advance(self, outcome: Result<u8, BladeRfError>) -> (p: Programming)
        requires
            self.wf(),
        ensures
            p == self.advanced(outcome),
            p.wf(),
            !(self.step is Over) ==> p.fuel() < self.fuel(),
    {
        let step = match self.step {
            Step::Over(_) => self.step,
            Step::CleanupRead { error } => match outcome {
                Ok(data) => Step::CleanupWrite { error, value: data & DSM_KEEP },
                Err(_) => Step::Over(Err(error)),
            },
            Step::CleanupWrite { error, value } => Step::Over(Err(error)),
            _ => match outcome {
                Err(e) => Step::CleanupRead { error: e },
                Ok(data) => match self.step {
                    Step::EnableRead => Step::EnableWrite { value: data | DSM_ENABLE },
                    Step::EnableWrite { value } => Step::StateRead,
                    Step::StateRead => Step::EstimateWrite { state: data & VCOCAP_STATE_MASK },
                    Step::EstimateWrite { state } => Step::ConfigRead { state },
                    Step::ConfigRead { state } => Step::LoopbackLow { state, regval: data },
                    Step::LoopbackLow { state, regval } => Step::LoopbackHigh {
                        state,
                        regval,
                        lben_lbrfen: data,
                    },
                    Step::LoopbackHigh { state, regval, lben_lbrfen } => {
                        let low_band = (self.f.flags & LMS_FREQ_FLAGS_LOW_BAND) != 0;
                        let mode = loopback_mode_from(lben_lbrfen, data);
                        let lb_enabled = mode != BladerfLoopback::BladerfLbNone;
                        Step::ConfigWrite {
                            state,
                            value: pll_config_register(
                                regval,
                                self.f.freqsel,
                                low_band,
                                lb_enabled,
                            ),
                        }
                    },
                    Step::ConfigWrite { state, value } => Step::Divider { state, index: 0 },
                    Step::Divider { state, index } => if index < 3 {
                        Step::Divider { state, index: index + 1 }
                    } else if (self.f.flags & LMS_FREQ_FLAGS_FORCE_VCOCAP) != 0 {
                        Step::Over(Ok(self.f.vcocap))
                    } else {
                        Self::search_step(state, Tuner::start(self.f.vcocap))
                    },
                    Step::SearchWrite { state, tuner } => Step::SearchRead { state, tuner },
                    Step::SearchRead { state, tuner } => {
                        assert(data >> 6 <= 3) by (bit_vector);
                        Self::search_step(state, tuner.advance(data >> 6))
                    },
                    _ => self.step,
                },
            },
        };
        Programming { module: self.module, f: self.f, step }
    }

    /// Whether the programming, having taken errors of exchanges only and
    /// the readings `readings` since its search began, stands where the
    /// search stands: a search under way is the search from the estimate
    /// after those readings, a code at the end is the estimate where it was
    /// forced and else a code that the search can end with, and an error is
    /// one of an exchange or one that the search can end with.
    pub open spec fn tracks(self, readings: Seq<u8>) -> bool {
        match self.step {
            Step::SearchWrite { state, tuner } => !self.forced() && tuner == Tuner::started(
                self.f.vcocap,
            ).run(readings),
            Step::SearchRead { state, tuner } => !self.forced() && tuner == Tuner::started(
                self.f.vcocap,
            ).run(readings),
            Step::CleanupRead { error } => error.from_exchange() || (!self.forced()
                && search_error(self.f.vcocap, error)),
            Step::CleanupWrite { error, value } => error.from_exchange() || (!self.forced()
                && search_error(self.f.vcocap, error)),
            Step::Over(Err(error)) => error.from_exchange() || (!self.forced() && search_error(
                self.f.vcocap,
                error,
            )),
            Step::Over(Ok(code)) => if self.forced() {
                code == self.f.vcocap
            } else {
                search_result(self.f.vcocap, code)
            },
            _ => true,
        }
    }

    /// The readings that the search has taken once the programming has
    /// taken `outcome`.
    pub open spec fn readings_after(
        self,
        outcome: Result<u8, BladeRfError>,
        readings: Seq<u8>,
    ) -> Seq<u8> {
        match self.step {
            Step::Divider { state, index } => Seq::empty(),
            Step::SearchRead { state, tuner } => match outcome {
                Ok(data) => readings.push(data >> 6),
                Err(_) => readings,
            },
            _ => readings,
        }
    }

    /// The programming goes on standing where the search stands.
    pub proof fn lemma_tracks(self, outcome: Result<u8, BladeRfError>, readings: Seq<u8>)
        requires
            self.wf(),
            self.tracks(readings),
            outcome is Err ==> outcome->Err_0.from_exchange(),
        ensures
            self.advanced(outcome).tracks(self.readings_after(outcome, readings)),
    {
        let after = self.advanced(outcome);
        let start = Tuner::started(self.f.vcocap);
        match self.step {
            Step::Divider { state, index } => {
                assert(start.run(Seq::<u8>::empty()) == start);
            },
            Step::SearchRead { state, tuner } => {
                match outcome {
                    Ok(data) => {
                        let vtune = data >> 6;
                        let longer = readings.push(vtune);
                        assert(longer.drop_last() =~= readings);
                        assert(start.run(longer) == tuner.advanced(vtune));
                    },
                    Err(_) => {},
                }
            },
            _ => {},
        }
    }

    /// One outcome is one transition.
    pub proof fn lemma_run_one(self, outcome: Result<u8, BladeRfError>)
        ensures
            self.run(seq![outcome]) == self.advanced(outcome),
    {
        reveal_with_fuel(Programming::run, 2);
        assert(seq![outcome].drop_last() =~= Seq::<Result<u8, BladeRfError>>::empty());
    }

    /// Outcomes taken one after another can be taken in two parts.
    pub proof fn lemma_run_concat(
        self,
        first: Seq<Result<u8, BladeRfError>>,
        then: Seq<Result<u8, BladeRfError>>,
    )
        ensures
            self.run(first + then) == self.run(first).run(then),
        decreases then.len(),
    {
        if then.len() == 0 {
            assert(first + then =~= first);
        } else {
            assert((first + then).drop_last() =~= first + then.drop_last());
            self.lemma_run_concat(first, then.drop_last());
        }
    }

    /// A step that fails is followed by turning the modulators off, and the
    /// programming ends with the error of that step.
    ///
    /// Whatever the programming was about to do, short of turning the
    /// modulators off or being over: after the error `e` it asks for a read
    /// of the modulator register; after the value `data` it asks for the
    /// write of `data & 0xfa` to that register; after the outcome of that
    /// write it is over with `e`. Where the read fails, it is over with `e`
    /// at once. No other access is asked for.
    pub proof fn lemma_failure_turns_modulators_off(
        self,
        e: BladeRfError,
        data: u8,
        read_error: BladeRfError,
        written: Result<u8, BladeRfError>,
    )
        requires
            !(self.step is Over),
            !(self.step is CleanupRead),
            !(self.step is CleanupWrite),
        ensures
            self.advanced(Err(e)).op_of() == Some(RegOp::Read(DSM_REGISTER)),
            self.advanced(Err(e)).advanced(Ok(data)).op_of() == Some(
                RegOp::Write(DSM_REGISTER, data & 0xfa),
            ),
            self.advanced(Err(e)).advanced(Ok(data)).advanced(written).step == Step::Over(
                Err::<u8, BladeRfError>(e),
            ),
            self.advanced(Err(e)).advanced(Err(read_error)).step == Step::Over(
                Err::<u8, BladeRfError>(e),
            ),
            self.run(seq![Err(e), Ok(data), written]).step == Step::Over(
                Err::<u8, BladeRfError>(e),
            ),
            self.run(seq![Err(e), Ok(data), written]).op_of() is None,
    {
        let failed = self.advanced(Err(e));
        let read = failed.advanced(Ok(data));
        let over = read.advanced(written);
        self.lemma_run_one(Err(e));
        failed.lemma_run_one(Ok(data));
        read.lemma_run_one(written);
        self.lemma_run_concat(seq![Err(e)], seq![Ok(data)]);
        self.lemma_run_concat(seq![Err(e)] + seq![Ok(data)], seq![written]);
        assert(seq![Err::<u8, BladeRfError>(e), Ok(data), written] =~= seq![Err(e)] + seq![
            Ok(data),
        ] + seq![written]);
    }

    /// An error of the search, too, is followed by turning the modulators
    /// off.
    pub proof fn lemma_search_error_turns_modulators_off(state: u8, e: BladeRfError)
        ensures
            Self::searching(state, Tuner::Over(Err(e))) == (Step::CleanupRead { error: e }),
    {
    }

    /// The value that is written to the PLL configuration register after
    /// `regval` was read from it and `lben_lbrfen` and `loopbben` from the
    /// two loopback registers.
    pub open spec fn config_value(f: LmsFreq, regval: u8, lben_lbrfen: u8, loopbben: u8) -> u8 {
        pll_config_of(
            regval,
            f.freqsel,
            f.flags & LMS_FREQ_FLAGS_LOW_BAND != 0,
            loopback_mode_in(lben_lbrfen, loopbben) != BladerfLoopback::BladerfLbNone,
        )
    }

    /// Twelve accesses that all succeed: the values read from the modulator
    /// register, the tuning-capacitor register, the configuration register
    /// and the two loopback registers, and between and after them the data
    /// of the responses to the seven writes.
    pub open spec fn successes(
        d: u8,
        s: u8,
        regval: u8,
        lben_lbrfen: u8,
        loopbben: u8,
        w0: u8,
        w1: u8,
        w2: u8,
        w3: u8,
        w4: u8,
        w5: u8,
        w6: u8,
    ) -> Seq<Result<u8, BladeRfError>> {
        seq![
            Ok(d),
            Ok(w0),
            Ok(s),
            Ok(w1),
            Ok(regval),
            Ok(lben_lbrfen),
            Ok(loopbben),
            Ok(w2),
            Ok(w3),
            Ok(w4),
            Ok(w5),
            Ok(w6),
        ]
    }

    /// The accesses of a programming without search, in their order.
    pub open spec fn forced_ops(
        module: u8,
        f: LmsFreq,
        d: u8,
        s: u8,
        regval: u8,
        lben_lbrfen: u8,
        loopbben: u8,
    ) -> Seq<Option<RegOp>> {
        seq![
            Some(RegOp::Read(DSM_REGISTER)),
            Some(RegOp::Write(DSM_REGISTER, d | 0x05)),
            Some(RegOp::Read((pll_base_of(module) + 9) as u8)),
            Some(RegOp::Write((pll_base_of(module) + 9) as u8, f.vcocap | (s & 0xc0))),
            Some(RegOp::Read(pll_config_addr_of(module))),
            Some(RegOp::Read(LOOPBACK_REGISTER_LOW)),
            Some(RegOp::Read(LOOPBACK_REGISTER_HIGH)),
            Some(RegOp::Write(pll_config_addr_of(module), Self::config_value(f, regval, lben_lbrfen, loopbben))),
            Some(RegOp::Write(multiwrite_base_of(module), pll_divider_byte_of(f.nint, f.nfrac, 0))),
            Some(RegOp::Write((multiwrite_base_of(module) + 1) as u8, pll_divider_byte_of(f.nint, f.nfrac, 1))),
            Some(RegOp::Write((multiwrite_base_of(module) + 2) as u8, pll_divider_byte_of(f.nint, f.nfrac, 2))),
            Some(RegOp::Write((multiwrite_base_of(module) + 3) as u8, pll_divider_byte_of(f.nint, f.nfrac, 3))),
        ]
    }

    /// The step of a programming without search after `at` accesses that
    /// all succeeded.
    pub open spec fn forced_step(
        f: LmsFreq,
        d: u8,
        s: u8,
        regval: u8,
        lben_lbrfen: u8,
        loopbben: u8,
        at: int,
    ) -> Step {
        if at == 0 {
            Step::EnableRead
        }         else if at == 1 {
            Step::EnableWrite { value: d | 0x05 }
        }         else if at == 2 {
            Step::StateRead
        }         else if at == 3 {
            Step::EstimateWrite { state: s & 0xc0 }
        }         else if at == 4 {
            Step::ConfigRead { state: s & 0xc0 }
        }         else if at == 5 {
            Step::LoopbackLow { state: s & 0xc0, regval }
        }         else if at == 6 {
            Step::LoopbackHigh { state: s & 0xc0, regval, lben_lbrfen }
        }         else if at == 7 {
            Step::ConfigWrite { state: s & 0xc0, value: Self::config_value(f, regval, lben_lbrfen, loopbben) }
        }         else if at == 8 {
            Step::Divider { state: s & 0xc0, index: 0 }
        }         else if at == 9 {
            Step::Divider { state: s & 0xc0, index: 1 }
        }         else if at == 10 {
            Step::Divider { state: s & 0xc0, index: 2 }
        }         else if at == 11 {
            Step::Divider { state: s & 0xc0, index: 3 }
        } else {
            Step::Over(Ok(f.vcocap))
        }
    }

    /// With the estimate forced, the programming stands after `at`
    /// successes where [`Self::forced_step`] says.
    #[verifier::spinoff_prover]
    pub proof fn lemma_forced_steps(
        module: u8,
        f: LmsFreq,
        d: u8,
        s: u8,
        regval: u8,
        lben_lbrfen: u8,
        loopbben: u8,
        w0: u8,
        w1: u8,
        w2: u8,
        w3: u8,
        w4: u8,
        w5: u8,
        w6: u8,
        at: int,
    )
        requires
            f.flags & LMS_FREQ_FLAGS_FORCE_VCOCAP != 0,
            0 <= at <= 12,
        ensures
            Programming::begun(module, f).run(
                Self::successes(d, s, regval, lben_lbrfen, loopbben, w0, w1, w2, w3, w4, w5, w6).take(
                    at,
                ),
            ) == (Programming {
                module,
                f,
                step: Self::forced_step(f, d, s, regval, lben_lbrfen, loopbben, at),
            }),
        decreases at,
    {
        let outcomes = Self::successes(
            d,
            s,
            regval,
            lben_lbrfen,
            loopbben,
            w0,
            w1,
            w2,
            w3,
            w4,
            w5,
            w6,
        );
        let start = Programming::begun(module, f);
        if at == 0 {
            assert(outcomes.take(0) =~= Seq::<Result<u8, BladeRfError>>::empty());
        } else {
            Self::lemma_forced_steps(
                module,
                f,
                d,
                s,
                regval,
                lben_lbrfen,
                loopbben,
                w0,
                w1,
                w2,
                w3,
                w4,
                w5,
                w6,
                at - 1,
            );
            let before = start.run(outcomes.take(at - 1));
            assert(outcomes.take(at).drop_last() =~= outcomes.take(at - 1));
            assert(outcomes.take(at).last() == outcomes[at - 1]);
            assert(start.run(outcomes.take(at)) == before.advanced(outcomes[at - 1]));
            if at == 1 {
                assert(before.advanced(outcomes[0]).step == Self::forced_step(
                    f,
                    d,
                    s,
                    regval,
                    lben_lbrfen,
                    loopbben,
                    1,
                ));
            }
            if at == 2 {
                assert(before.advanced(outcomes[1]).step == Self::forced_step(
                    f,
                    d,
                    s,
                    regval,
                    lben_lbrfen,
                    loopbben,
                    2,
                ));
            }
            if at == 3 {
                assert(before.advanced(outcomes[2]).step == Self::forced_step(
                    f,
                    d,
                    s,
                    regval,
                    lben_lbrfen,
                    loopbben,
                    3,
                ));
            }
            if at == 4 {
                assert(before.advanced(outcomes[3]).step == Self::forced_step(
                    f,
                    d,
                    s,
                    regval,
                    lben_lbrfen,
                    loopbben,
                    4,
                ));
            }
            if at == 5 {
                assert(before.advanced(outcomes[4]).step == Self::forced_step(
                    f,
                    d,
                    s,
                    regval,
                    lben_lbrfen,
                    loopbben,
                    5,
                ));
            }
            if at == 6 {
                assert(before.advanced(outcomes[5]).step == Self::forced_step(
                    f,
                    d,
                    s,
                    regval,
                    lben_lbrfen,
                    loopbben,
                    6,
                ));
            }
            if at == 7 {
                assert(before.advanced(outcomes[6]).step == Self::forced_step(
                    f,
                    d,
                    s,
                    regval,
                    lben_lbrfen,
                    loopbben,
                    7,
                ));
            }
            if at == 8 {
                assert(before.advanced(outcomes[7]).step == Self::forced_step(
                    f,
                    d,
                    s,
                    regval,
                    lben_lbrfen,
                    loopbben,
                    8,
                ));
            }
            if at == 9 {
                assert(before.advanced(outcomes[8]).step == Self::forced_step(
                    f,
                    d,
                    s,
                    regval,
                    lben_lbrfen,
                    loopbben,
                    9,
                ));
            }
            if at == 10 {
                assert(before.advanced(outcomes[9]).step == Self::forced_step(
                    f,
                    d,
                    s,
                    regval,
                    lben_lbrfen,
                    loopbben,
                    10,
                ));
            }
            if at == 11 {
                assert(before.advanced(outcomes[10]).step == Self::forced_step(
                    f,
                    d,
                    s,
                    regval,
                    lben_lbrfen,
                    loopbben,
                    11,
                ));
            }
            if at == 12 {
                assert(before.advanced(outcomes[11]).step == Self::forced_step(
                    f,
                    d,
                    s,
                    regval,
                    lben_lbrfen,
                    loopbben,
                    12,
                ));
            }
        }
    }

    /// With the estimate forced and every access answered, the programming
    /// makes exactly twelve accesses and no search: it turns the modulators
    /// on by writing what it read from their register with bits 0 and 2
    /// set, writes the estimate beside the two upper bits of what it read
    /// from the tuning-capacitor register, reads the configuration register
    /// and the two loopback registers and writes the band selection, writes
    /// the four divider bytes, and ends with the estimate as the code.
    #[verifier::spinoff_prover]
    pub proof fn lemma_forced_accesses(
        module: u8,
        f: LmsFreq,
        d: u8,
        s: u8,
        regval: u8,
        lben_lbrfen: u8,
        loopbben: u8,
        w0: u8,
        w1: u8,
        w2: u8,
        w3: u8,
        w4: u8,
        w5: u8,
        w6: u8,
    )
        requires
            f.flags & LMS_FREQ_FLAGS_FORCE_VCOCAP != 0,
        ensures
            Programming::begun(module, f).run(
                Self::successes(d, s, regval, lben_lbrfen, loopbben, w0, w1, w2, w3, w4, w5, w6),
            ).step == Step::Over(Ok::<u8, BladeRfError>(f.vcocap)),
            Programming::begun(module, f).ops(
                Self::successes(d, s, regval, lben_lbrfen, loopbben, w0, w1, w2, w3, w4, w5, w6),
            ) == Self::forced_ops(module, f, d, s, regval, lben_lbrfen, loopbben),
    {
        let outcomes = Self::successes(
            d,
            s,
            regval,
            lben_lbrfen,
            loopbben,
            w0,
            w1,
            w2,
            w3,
            w4,
            w5,
            w6,
        );
        let start = Programming::begun(module, f);
        let asked = start.ops(outcomes);
        let listed = Self::forced_ops(module, f, d, s, regval, lben_lbrfen, loopbben);
        assert(outcomes.take(12) =~= outcomes);
        Self::lemma_forced_steps(
            module,
            f,
            d,
            s,
            regval,
            lben_lbrfen,
            loopbben,
            w0,
            w1,
            w2,
            w3,
            w4,
            w5,
            w6,
            12,
        );
        assert forall|i: int| 0 <= i < 12 implies asked[i] == listed[i] by {
            Self::lemma_forced_steps(
                module,
                f,
                d,
                s,
                regval,
                lben_lbrfen,
                loopbben,
                w0,
                w1,
                w2,
                w3,
                w4,
                w5,
                w6,
                i,
            );
        }
        assert(asked =~= listed);
    }
}

} // verus!
