//! The search for the tuning-capacitor code (VCOCAP) of a PLL.
//!
//! A comparator on the chip tells whether the tuning voltage at the current
//! code is too high, within the lock range, or too low. Increasing the code
//! lowers the voltage:
//!
//! ```text
//!  VCOCAP = 0              VCOCAP = 63
//! /                                 \
//! v                                  v
//! |----High-----[ Normal ]----Low----|     tuning voltage comparison
//! ```
//!
//! The search finds both edges of the normal region by walking the code one
//! step per reading, and settles in the middle. It is written here as state
//! machines: a state says which code to write before the next reading, and a
//! transition takes the reading and gives the next state. What a search
//! results in is thereby a function of the readings alone, whoever supplies
//! them.

use vstd::prelude::*;
use crate::board::bladerf1::BladeRfError;
use crate::hardware::lms6002d::{
    VCOCAP_MAX_LOW_HIGH, VCOCAP_MAX_VALUE, VCO_HIGH, VCO_LOW, VCO_NORM, VTUNE_MAX_ITERATIONS,
    VTUNE_MAX_RETRIES,
};

verus! {

/// What has to happen on the chip before the next reading is taken.
#[derive(Debug, Clone, Copy, PartialEq, Eq)]
pub enum Probe {
    /// Write this code, then read the tuning voltage state.
    WriteRead(u8),
    /// Read the tuning voltage state again.
    Read,
    /// Nothing: the machine is at its end.
    Nothing,
}

/// The three walks of the search.
#[derive(Debug, Clone, Copy, PartialEq, Eq)]
pub enum WalkKind {
    /// From the high region up the codes until the voltage is normal.
    HighToNorm,
    /// From the normal region down the codes until the voltage is high.
    NormToHigh,
    /// From the low region down the codes until the voltage is normal.
    LowToNorm,
}

impl WalkKind {
    /// The reading that ends the walk.
    pub open spec fn target(self) -> u8 {
        match self {
            WalkKind::HighToNorm => VCO_NORM,
            WalkKind::NormToHigh => VCO_HIGH,
            WalkKind::LowToNorm => VCO_NORM,
        }
    }

    /// Whether the walk cannot leave `code`: 63 on the way up, 0 on the way
    /// down.
    pub open spec fn at_end(self, code: u8) -> bool {
        match self {
            WalkKind::HighToNorm => code >= VCOCAP_MAX_VALUE,
            _ => code == 0,
        }
    }

    /// The code at which the walk stops for want of codes.
    pub open spec fn end(self) -> u8 {
        match self {
            WalkKind::HighToNorm => VCOCAP_MAX_VALUE,
            _ => 0,
        }
    }

    /// The code after `code`.
    pub open spec fn step(self, code: u8) -> u8 {
        match self {
            WalkKind::HighToNorm => (code + 1) as u8,
            _ => (code - 1) as u8,
        }
    }

    /// The edge that the walk has found when the reading at `code` is its
    /// target: the last code whose voltage was high, or the last code whose
    /// voltage was low.
    pub open spec fn limit(self, code: u8) -> u8 {
        match self {
            WalkKind::HighToNorm => (code - 1) as u8,
            WalkKind::NormToHigh => code,
            WalkKind::LowToNorm => (code + 1) as u8,
        }
    }
}

/// A walk of the code, one step per reading, toward a change of the tuning
/// voltage state.
#[derive(Debug, Clone, Copy, PartialEq, Eq)]
pub enum Walk {
    /// `code` is to be written and the tuning voltage read; `left` readings
    /// remain, this one included.
    Probing { kind: WalkKind, code: u8, left: u8 },
    /// The walk is over: it found an edge, or it gave up.
    Over(Result<u8, BladeRfError>),
}

impl Walk {
    /// Whether the codes of the walk are codes of the chip.
    pub open spec fn wf(self) -> bool {
        match self {
            Walk::Probing { kind, code, left } => {
                &&& code <= VCOCAP_MAX_VALUE
                &&& 1 <= left <= VTUNE_MAX_ITERATIONS
                &&& (kind is HighToNorm ==> code >= 1)
                &&& (!(kind is HighToNorm) ==> code < VCOCAP_MAX_VALUE)
            },
            Walk::Over(Ok(limit)) => limit <= VCOCAP_MAX_VALUE,
            Walk::Over(Err(e)) => e is Convergence,
        }
    }

    /// The walk of kind `kind` from `vcocap`: over at once where there is no
    /// code to step to, else about to probe the next code.
    pub open spec fn begun(kind: WalkKind, vcocap: u8) -> Walk {
        if kind.at_end(vcocap) {
            Walk::Over(Ok(kind.end()))
        } else {
            Walk::Probing { kind, code: kind.step(vcocap), left: VTUNE_MAX_ITERATIONS }
        }
    }

    /// The walk after the reading `vtune` at its code. The target ends it
    /// with the edge found; the last of its readings ends it as not
    /// converged; the last code of the range ends it at that code; else it
    /// steps.
    pub open spec fn advanced(self, vtune: u8) -> Walk {
        match self {
            Walk::Over(_) => self,
            Walk::Probing { kind, code, left } => {
                if vtune == kind.target() {
                    Walk::Over(Ok(kind.limit(code)))
                } else if left <= 1 {
                    Walk::Over(Err(BladeRfError::Convergence { vcocap: code, vtune }))
                } else if kind.at_end(code) {
                    Walk::Over(Ok(kind.end()))
                } else {
                    Walk::Probing { kind, code: kind.step(code), left: (left - 1) as u8 }
                }
            },
        }
    }

    /// The walk after a sequence of readings, first to last.
    pub open spec fn run(self, readings: Seq<u8>) -> Walk
        decreases readings.len(),
    {
        if readings.len() == 0 {
            self
        } else {
            self.run(readings.drop_last()).advanced(readings.last())
        }
    }

    /// What the walk asks for before its next reading.
    pub open spec fn probe_of(self) -> Probe {
        match self {
            Walk::Probing { kind, code, left } => Probe::WriteRead(code),
            Walk::Over(_) => Probe::Nothing,
        }
    }

    /// The readings that the walk can still take.
    pub open spec fn fuel(self) -> nat {
        match self {
            Walk::Probing { kind, code, left } => left as nat,
            Walk::Over(_) => 0,
        }
    }

    pub fn begin(kind: WalkKind, vcocap: u8) -> (walk: Walk)
        requires
            vcocap <= VCOCAP_MAX_VALUE,
        ensures
            walk == Walk::begun(kind, vcocap),
            walk.wf(),
    {
        match kind {
            WalkKind::HighToNorm => {
                if vcocap >= VCOCAP_MAX_VALUE {
                    Walk::Over(Ok(VCOCAP_MAX_VALUE))
                } else {
                    Walk::Probing { kind, code: vcocap + 1, left: VTUNE_MAX_ITERATIONS }
                }
            },
            _ => {
                if vcocap == 0 {
                    Walk::Over(Ok(0))
                } else {
                    Walk::Probing { kind, code: vcocap - 1, left: VTUNE_MAX_ITERATIONS }
                }
            },
        }
    }

    pub fn advance(self, vtune: u8) -> (walk: Walk)
        requires
            self.wf(),
        ensures
            walk == self.advanced(vtune),
            walk.wf(),
            self is Probing ==> walk.fuel() < self.fuel(),
    {
        match self {
            Walk::Over(_) => self,
            Walk::Probing { kind, code, left } => {
                let target: u8 = match kind {
                    WalkKind::NormToHigh => VCO_HIGH,
                    _ => VCO_NORM,
                };
                if vtune == target {
                    match kind {
                        WalkKind::HighToNorm => Walk::Over(Ok(code - 1)),
                        WalkKind::NormToHigh => Walk::Over(Ok(code)),
                        WalkKind::LowToNorm => Walk::Over(Ok(code + 1)),
                    }
                } else if left <= 1 {
                    Walk::Over(Err(BladeRfError::Convergence { vcocap: code, vtune }))
                } else {
                    match kind {
                        WalkKind::HighToNorm => {
                            if code >= VCOCAP_MAX_VALUE {
                                Walk::Over(Ok(VCOCAP_MAX_VALUE))
                            } else {
                                Walk::Probing { kind, code: code + 1, left: left - 1 }
                            }
                        },
                        _ => {
                            if code == 0 {
                                Walk::Over(Ok(0))
                            } else {
                                Walk::Probing { kind, code: code - 1, left: left - 1 }
                            }
                        },
                    }
                }
            },
        }
    }

    /// What to do on the chip before the next reading.
    pub fn probe(&self) -> (p: Probe)
        ensures
            p == self.probe_of(),
    {
        match self {
            Walk::Probing { kind, code, left } => Probe::WriteRead(*code),
            Walk::Over(_) => Probe::Nothing,
        }
    }
}

/// A wait for the tuning voltage to reach one of the two extremes, `VCO_HIGH`
/// or `VCO_LOW`: first by reading again at the same code, then by moving the
/// code one step at a time toward the end of the range where that extreme
/// lies.
#[derive(Debug, Clone, Copy, PartialEq, Eq)]
pub enum Wait {
    /// The code stays; `left` readings remain at it, the next included.
    Polling { target: u8, code: u8, left: u8 },
    /// `code` is to be written and the tuning voltage read.
    Creeping { target: u8, code: u8 },
    /// The wait is over at `code`; `reached` tells whether the target was
    /// seen there.
    Over { target: u8, code: u8, reached: bool },
}

impl Wait {
    /// The end of the range toward which a target lies: code 0 for the high
    /// voltage, code 63 for the low.
    pub open spec fn end_for(target: u8) -> u8 {
        if target == VCO_HIGH {
            0
        } else {
            VCOCAP_MAX_VALUE
        }
    }

    /// The code one step from `code` toward the target.
    pub open spec fn step_for(target: u8, code: u8) -> u8 {
        if target == VCO_HIGH {
            (code - 1) as u8
        } else {
            (code + 1) as u8
        }
    }

    pub open spec fn wf(self) -> bool {
        match self {
            Wait::Polling { target, code, left } => {
                &&& code <= VCOCAP_MAX_VALUE
                &&& 1 <= left <= VTUNE_MAX_RETRIES
            },
            Wait::Creeping { target, code } => code <= VCOCAP_MAX_VALUE,
            Wait::Over { target, code, reached } => code <= VCOCAP_MAX_VALUE,
        }
    }

    /// The extreme that the wait is for.
    pub open spec fn target(self) -> u8 {
        match self {
            Wait::Polling { target, code, left } => target,
            Wait::Creeping { target, code } => target,
            Wait::Over { target, code, reached } => target,
        }
    }

    /// The wait for `target` with `vcocap` on the chip.
    pub open spec fn begun(target: u8, vcocap: u8) -> Wait {
        Wait::Polling { target, code: vcocap, left: VTUNE_MAX_RETRIES }
    }

    /// The wait once reading at `code` has not helped: over where the range
    /// ends, else about to try the next code.
    pub open spec fn crept(target: u8, code: u8) -> Wait {
        if code == Self::end_for(target) {
            Wait::Over { target, code, reached: false }
        } else {
            Wait::Creeping { target, code: Self::step_for(target, code) }
        }
    }

    /// The wait after the reading `vtune`.
    pub open spec fn advanced(self, vtune: u8) -> Wait {
        match self {
            Wait::Over { target, code, reached } => self,
            Wait::Polling { target, code, left } => {
                if vtune == target {
                    Wait::Over { target, code, reached: true }
                } else if left > 1 {
                    Wait::Polling { target, code, left: (left - 1) as u8 }
                } else {
                    Self::crept(target, code)
                }
            },
            Wait::Creeping { target, code } => {
                if vtune == target {
                    Wait::Over { target, code, reached: true }
                } else {
                    Self::crept(target, code)
                }
            },
        }
    }

    /// The wait after a sequence of readings, first to last.
    pub open spec fn run(self, readings: Seq<u8>) -> Wait
        decreases readings.len(),
    {
        if readings.len() == 0 {
            self
        } else {
            self.run(readings.drop_last()).advanced(readings.last())
        }
    }

    pub open spec fn probe_of(self) -> Probe {
        match self {
            Wait::Polling { target, code, left } => Probe::Read,
            Wait::Creeping { target, code } => Probe::WriteRead(code),
            Wait::Over { target, code, reached } => Probe::Nothing,
        }
    }

    /// An upper bound on the readings that the wait can still take.
    pub open spec fn fuel(self) -> nat {
        match self {
            Wait::Polling { target, code, left } => (left + 64) as nat,
            Wait::Creeping { target, code } => if target == VCO_HIGH {
                (code + 1) as nat
            } else {
                (64 - code) as nat
            },
            Wait::Over { target, code, reached } => 0,
        }
    }

    pub fn begin(target: u8, vcocap: u8) -> (wait: Wait)
        requires
            vcocap <= VCOCAP_MAX_VALUE,
        ensures
            wait == Wait::begun(target, vcocap),
            wait.wf(),
    {
        Wait::Polling { target, code: vcocap, left: VTUNE_MAX_RETRIES }
    }

    fn creep(target: u8, code: u8) -> (wait: Wait)
        requires
            code <= VCOCAP_MAX_VALUE,
        ensures
            wait == Wait::crept(target, code),
            wait.wf(),
            wait.fuel() <= 64,
            wait is Creeping ==> wait.fuel() < (if target == VCO_HIGH {
                code + 1
            } else {
                64 - code
            }),
    {
        if target == VCO_HIGH {
            if code == 0 {
                Wait::Over { target, code, reached: false }
            } else {
                Wait::Creeping { target, code: code - 1 }
            }
        } else {
            if code == VCOCAP_MAX_VALUE {
                Wait::Over { target, code, reached: false }
            } else {
                Wait::Creeping { target, code: code + 1 }
            }
        }
    }

    pub fn advance(self, vtune: u8) -> (wait: Wait)
        requires
            self.wf(),
        ensures
            wait == self.advanced(vtune),
            wait.wf(),
            !(self is Over) ==> wait.fuel() < self.fuel(),
    {
        match self {
            Wait::Over { target, code, reached } => self,
            Wait::Polling { target, code, left } => {
                if vtune == target {
                    Wait::Over { target, code, reached: true }
                } else if left > 1 {
                    Wait::Polling { target, code, left: left - 1 }
                } else {
                    Self::creep(target, code)
                }
            },
            Wait::Creeping { target, code } => {
                if vtune == target {
                    Wait::Over { target, code, reached: true }
                } else {
                    Self::creep(target, code)
                }
            },
        }
    }

    /// What to do on the chip before the next reading.
    pub fn probe(&self) -> (p: Probe)
        ensures
            p == self.probe_of(),
    {
        match self {
            Wait::Polling { target, code, left } => Probe::Read,
            Wait::Creeping { target, code } => Probe::WriteRead(*code),
            Wait::Over { target, code, reached } => Probe::Nothing,
        }
    }
}

/// The whole search, from the reading at the estimate to the reading at the
/// code it settles on.
///
/// 1. Sample the tuning voltage at the estimate.
/// 2. Walk to the nearer edge of the normal region: up from the high
///    region, down from the low region, and down to the high edge from
///    within the normal region.
/// 3. Jump 12 codes from that edge toward the other, within 0..=63, and wait
///    for the voltage to reach the opposite extreme.
/// 4. Walk back from there to the normal region: the second edge.
/// 5. Settle on the integer average of the two edges.
/// 6. Read once more: anything but a normal voltage is a failure.
#[derive(Debug, Clone, Copy, PartialEq, Eq)]
pub enum Tuner {
    /// About to read the tuning voltage at the estimate.
    Sampling { estimate: u8 },
    /// On the first walk; `initial` is the reading at the estimate.
    FirstWalk { initial: u8, walk: Walk },
    /// Waiting for the opposite extreme. `high` and `low` are the edges
    /// known so far, 63 and 0 standing for unknown. While `unwritten`, the
    /// code of the wait is still to be written.
    Settling { high: u8, low: u8, wait: Wait, unwritten: bool },
    /// On the walk back.
    SecondWalk { high: u8, low: u8, walk: Walk },
    /// About to write the final code and read the tuning voltage at it.
    Verifying { code: u8 },
    /// The search is over.
    Over(Result<u8, BladeRfError>),
}

impl Tuner {
    pub open spec fn wf(self) -> bool {
        match self {
            Tuner::Sampling { estimate } => estimate <= VCOCAP_MAX_VALUE,
            Tuner::FirstWalk { initial, walk } => walk.wf() && walk is Probing,
            Tuner::Settling { high, low, wait, unwritten } => {
                &&& high <= VCOCAP_MAX_VALUE
                &&& low <= VCOCAP_MAX_VALUE
                &&& wait.wf()
                &&& !(wait is Over)
                &&& (unwritten ==> wait is Polling)
            },
            Tuner::SecondWalk { high, low, walk } => {
                &&& high <= VCOCAP_MAX_VALUE
                &&& low <= VCOCAP_MAX_VALUE
                &&& walk.wf()
                &&& walk is Probing
            },
            Tuner::Verifying { code } => code <= VCOCAP_MAX_VALUE,
            Tuner::Over(Ok(code)) => code <= VCOCAP_MAX_VALUE,
            Tuner::Over(Err(e)) => e is Convergence || e is InvalidState,
        }
    }

    /// The code halfway between two edges.
    pub open spec fn midpoint(high: u8, low: u8) -> u8 {
        ((high + low) / 2) as u8
    }

    /// The search at its start.
    pub open spec fn started(estimate: u8) -> Tuner {
        Tuner::Sampling { estimate }
    }

    /// The search once the first walk stands at `walk`.
    pub open spec fn on_first_walk(initial: u8, walk: Walk) -> Tuner {
        match walk {
            Walk::Probing { kind, code, left } => Tuner::FirstWalk { initial, walk },
            Walk::Over(Err(e)) => Tuner::Over(Err(e)),
            Walk::Over(Ok(limit)) => if initial == VCO_LOW {
                Self::on_first_edge(initial, VCOCAP_MAX_VALUE, limit)
            } else {
                Self::on_first_edge(initial, limit, 0)
            },
        }
    }

    /// The search once the first walk has ended with the edges `high` and
    /// `low`, of which one is still unknown. With the high edge in hand the
    /// search jumps up and waits for a low voltage; else it jumps down from
    /// the low edge and waits for a high voltage.
    pub open spec fn on_first_edge(initial: u8, high: u8, low: u8) -> Tuner {
        if high != VCOCAP_MAX_VALUE {
            if initial == VCO_NORM || initial == VCO_HIGH {
                let jump = if high + VCOCAP_MAX_LOW_HIGH < VCOCAP_MAX_VALUE {
                    (high + VCOCAP_MAX_LOW_HIGH) as u8
                } else {
                    VCOCAP_MAX_VALUE
                };
                Tuner::Settling { high, low, wait: Wait::begun(VCO_LOW, jump), unwritten: true }
            } else {
                Tuner::Over(Err(BladeRfError::InvalidState))
            }
        } else {
            if initial == VCO_LOW || initial == VCO_NORM {
                let jump = if low > VCOCAP_MAX_LOW_HIGH {
                    (low - VCOCAP_MAX_LOW_HIGH) as u8
                } else {
                    0u8
                };
                Tuner::Settling { high, low, wait: Wait::begun(VCO_HIGH, jump), unwritten: true }
            } else {
                Tuner::Over(Err(BladeRfError::InvalidState))
            }
        }
    }

    /// The search once the wait stands at `wait`.
    pub open spec fn on_wait(high: u8, low: u8, wait: Wait) -> Tuner {
        match wait {
            Wait::Over { target, code, reached } => if target == VCO_LOW {
                Self::on_second_walk(high, low, WalkKind::LowToNorm, Walk::begun(
                    WalkKind::LowToNorm,
                    code,
                ))
            } else {
                Self::on_second_walk(high, low, WalkKind::HighToNorm, Walk::begun(
                    WalkKind::HighToNorm,
                    code,
                ))
            },
            _ => Tuner::Settling { high, low, wait, unwritten: false },
        }
    }

    /// The search once the walk back stands at `walk`.
    pub open spec fn on_second_walk(high: u8, low: u8, kind: WalkKind, walk: Walk) -> Tuner {
        match walk {
            Walk::Probing { kind, code, left } => Tuner::SecondWalk { high, low, walk },
            Walk::Over(Err(e)) => Tuner::Over(Err(e)),
            Walk::Over(Ok(limit)) => if kind is LowToNorm {
                Tuner::Verifying { code: Self::midpoint(high, limit) }
            } else {
                Tuner::Verifying { code: Self::midpoint(limit, low) }
            },
        }
    }

    /// The search after the reading `vtune`.
    pub open spec fn advanced(self, vtune: u8) -> Tuner {
        match self {
            Tuner::Sampling { estimate } => {
                if vtune == VCO_HIGH {
                    Self::on_first_walk(vtune, Walk::begun(WalkKind::HighToNorm, estimate))
                } else if vtune == VCO_NORM {
                    Self::on_first_walk(vtune, Walk::begun(WalkKind::NormToHigh, estimate))
                } else if vtune == VCO_LOW {
                    Self::on_first_walk(vtune, Walk::begun(WalkKind::LowToNorm, estimate))
                } else {
                    Self::on_first_edge(vtune, VCOCAP_MAX_VALUE, 0)
                }
            },
            Tuner::FirstWalk { initial, walk } => Self::on_first_walk(
                initial,
                walk.advanced(vtune),
            ),
            Tuner::Settling { high, low, wait, unwritten } => Self::on_wait(
                high,
                low,
                wait.advanced(vtune),
            ),
            Tuner::SecondWalk { high, low, walk } => match walk {
                Walk::Probing { kind, code, left } => Self::on_second_walk(
                    high,
                    low,
                    kind,
                    walk.advanced(vtune),
                ),
                Walk::Over(_) => self,
            },
            Tuner::Verifying { code } => {
                if vtune == VCO_NORM {
                    Tuner::Over(Ok(code))
                } else {
                    Tuner::Over(Err(BladeRfError::Convergence { vcocap: code, vtune }))
                }
            },
            Tuner::Over(_) => self,
        }
    }

    /// The search after a sequence of readings, first to last.
    pub open spec fn run(self, readings: Seq<u8>) -> Tuner
        decreases readings.len(),
    {
        if readings.len() == 0 {
            self
        } else {
            self.run(readings.drop_last()).advanced(readings.last())
        }
    }

    /// What the search asks for before its next reading.
    pub open spec fn probe_of(self) -> Probe {
        match self {
            Tuner::Sampling { estimate } => Probe::Read,
            Tuner::FirstWalk { initial, walk } => walk.probe_of(),
            Tuner::Settling { high, low, wait, unwritten } => match wait {
                Wait::Polling { target, code, left } => if unwritten {
                    Probe::WriteRead(code)
                } else {
                    Probe::Read
                },
                _ => wait.probe_of(),
            },
            Tuner::SecondWalk { high, low, walk } => walk.probe_of(),
            Tuner::Verifying { code } => Probe::WriteRead(code),
            Tuner::Over(_) => Probe::Nothing,
        }
    }

    /// An upper bound on the readings that the search can still take.
    pub open spec fn fuel(self) -> nat {
        match self {
            Tuner::Sampling { estimate } => 200,
            Tuner::FirstWalk { initial, walk } => 150 + walk.fuel(),
            Tuner::Settling { high, low, wait, unwritten } => 30 + wait.fuel(),
            Tuner::SecondWalk { high, low, walk } => 2 + walk.fuel(),
            Tuner::Verifying { code } => 1,
            Tuner::Over(_) => 0,
        }
    }

    pub fn start(estimate: u8) -> (tuner: Tuner)
        requires
            estimate <= VCOCAP_MAX_VALUE,
        ensures
            tuner == Tuner::started(estimate),
            tuner.wf(),
    {
        Tuner::Sampling { estimate }
    }

    fn first_walk(initial: u8, walk: Walk) -> (tuner: Tuner)
        requires
            walk.wf(),
        ensures
            tuner == Tuner::on_first_walk(initial, walk),
            tuner.wf(),
            tuner.fuel() <= 150 + walk.fuel(),
    {
        match walk {
            Walk::Probing { kind, code, left } => Tuner::FirstWalk { initial, walk },
            Walk::Over(Err(e)) => Tuner::Over(Err(e)),
            Walk::Over(Ok(limit)) => if initial == VCO_LOW {
                Self::first_edge(initial, VCOCAP_MAX_VALUE, limit)
            } else {
                Self::first_edge(initial, limit, 0)
            },
        }
    }

    fn first_edge(initial: u8, high: u8, low: u8) -> (tuner: Tuner)
        requires
            high <= VCOCAP_MAX_VALUE,
            low <= VCOCAP_MAX_VALUE,
        ensures
            tuner == Tuner::on_first_edge(initial, high, low),
            tuner.wf(),
            tuner.fuel() <= 150,
    {
        if high != VCOCAP_MAX_VALUE {
            if initial == VCO_NORM || initial == VCO_HIGH {
                let jump: u8 = if high + VCOCAP_MAX_LOW_HIGH < VCOCAP_MAX_VALUE {
                    high + VCOCAP_MAX_LOW_HIGH
                } else {
                    VCOCAP_MAX_VALUE
                };
                Tuner::Settling { high, low, wait: Wait::begin(VCO_LOW, jump), unwritten: true }
            } else {
                Tuner::Over(Err(BladeRfError::InvalidState))
            }
        } else {
            if initial == VCO_LOW || initial == VCO_NORM {
                let jump: u8 = if low > VCOCAP_MAX_LOW_HIGH {
                    low - VCOCAP_MAX_LOW_HIGH
                } else {
                    0
                };
                Tuner::Settling { high, low, wait: Wait::begin(VCO_HIGH, jump), unwritten: true }
            } else {
                Tuner::Over(Err(BladeRfError::InvalidState))
            }
        }
    }

    fn waited(high: u8, low: u8, wait: Wait) -> (tuner: Tuner)
        requires
            high <= VCOCAP_MAX_VALUE,
            low <= VCOCAP_MAX_VALUE,
            wait.wf(),
        ensures
            tuner == Tuner::on_wait(high, low, wait),
            tuner.wf(),
            tuner.fuel() <= 30 + wait.fuel(),
    {
        match wait {
            Wait::Over { target, code, reached } => if target == VCO_LOW {
                Self::second_walk(high, low, WalkKind::LowToNorm, Walk::begin(
                    WalkKind::LowToNorm,
                    code,
                ))
            } else {
                Self::second_walk(high, low, WalkKind::HighToNorm, Walk::begin(
                    WalkKind::HighToNorm,
                    code,
                ))
            },
            _ => Tuner::Settling { high, low, wait, unwritten: false },
        }
    }

    fn second_walk(high: u8, low: u8, kind: WalkKind, walk: Walk) -> (tuner: Tuner)
        requires
            high <= VCOCAP_MAX_VALUE,
            low <= VCOCAP_MAX_VALUE,
            walk.wf(),
        ensures
            tuner == Tuner::on_second_walk(high, low, kind, walk),
            tuner.wf(),
            tuner.fuel() <= 2 + walk.fuel(),
    {
        match walk {
            Walk::Probing { kind, code, left } => Tuner::SecondWalk { high, low, walk },
            Walk::Over(Err(e)) => Tuner::Over(Err(e)),
            Walk::Over(Ok(limit)) => match kind {
                WalkKind::LowToNorm => Tuner::Verifying { code: (high + limit) / 2 },
                _ => Tuner::Verifying { code: (limit + low) / 2 },
            },
        }
    }

    pub fn advance(self, vtune: u8) -> (tuner: Tuner)
        requires
            self.wf(),
        ensures
            tuner == self.advanced(vtune),
            tuner.wf(),
            !(self is Over) ==> tuner.fuel() < self.fuel(),
    {
        match self {
            Tuner::Sampling { estimate } => {
                if vtune == VCO_HIGH {
                    Self::first_walk(vtune, Walk::begin(WalkKind::HighToNorm, estimate))
                } else if vtune == VCO_NORM {
                    Self::first_walk(vtune, Walk::begin(WalkKind::NormToHigh, estimate))
                } else if vtune == VCO_LOW {
                    Self::first_walk(vtune, Walk::begin(WalkKind::LowToNorm, estimate))
                } else {
                    Self::first_edge(vtune, VCOCAP_MAX_VALUE, 0)
                }
            },
            Tuner::FirstWalk { initial, walk } => Self::first_walk(initial, walk.advance(vtune)),
            Tuner::Settling { high, low, wait, unwritten } => Self::waited(
                high,
                low,
                wait.advance(vtune),
            ),
            Tuner::SecondWalk { high, low, walk } => match walk {
                Walk::Probing { kind, code, left } => Self::second_walk(
                    high,
                    low,
                    kind,
                    walk.advance(vtune),
                ),
                Walk::Over(_) => self,
            },
            Tuner::Verifying { code } => {
                if vtune == VCO_NORM {
                    Tuner::Over(Ok(code))
                } else {
                    Tuner::Over(Err(BladeRfError::Convergence { vcocap: code, vtune }))
                }
            },
            Tuner::Over(_) => self,
        }
    }

    /// What to do on the chip before the next reading.
    pub fn probe(&self) -> (p: Probe)
        ensures
            p == self.probe_of(),
            self.wf() ==> match p {
                Probe::WriteRead(code) => code <= VCOCAP_MAX_VALUE,
                Probe::Read => true,
                Probe::Nothing => *self is Over,
            },
    {
        match self {
            Tuner::Sampling { estimate } => Probe::Read,
            Tuner::FirstWalk { initial, walk } => walk.probe(),
            Tuner::Settling { high, low, wait, unwritten } => match wait {
                Wait::Polling { target, code, left } => if *unwritten {
                    Probe::WriteRead(*code)
                } else {
                    Probe::Read
                },
                _ => wait.probe(),
            },
            Tuner::SecondWalk { high, low, walk } => walk.probe(),
            Tuner::Verifying { code } => Probe::WriteRead(*code),
            Tuner::Over(_) => Probe::Nothing,
        }
    }
}

/// The reading `vtune`, `count` times over.
pub open spec fn repeated(vtune: u8, count: nat) -> Seq<u8> {
    Seq::new(count, |i: int| vtune)
}

/// The code that a walk of kind `kind` stands at after `steps` steps from
/// `code`.
pub open spec fn stepped(kind: WalkKind, code: u8, steps: nat) -> u8 {
    if kind is HighToNorm {
        (code + steps) as u8
    } else {
        (code - steps) as u8
    }
}

impl Tuner {
    /// One reading is one transition.
    pub proof fn lemma_run_one(self, vtune: u8)
        ensures
            self.run(seq![vtune]) == self.advanced(vtune),
    {
        reveal_with_fuel(Tuner::run, 2);
        assert(seq![vtune].drop_last() =~= Seq::<u8>::empty());
    }

    /// Readings taken one after another can be taken in two parts.
    pub proof fn lemma_run_concat(self, first: Seq<u8>, then: Seq<u8>)
        ensures
            self.run(first + then) == self.run(first).run(then),
        decreases then.len(),
    {
        if then.len() == 0 {
            assert(first + then =~= first);
        } else {
            assert((first + then).drop_last() =~= first + then.drop_last());
            self.lemma_run_concat(first, then.drop_last());
        }
    }

    /// Every state that a search from a code of the chip comes to is well
    /// formed.
    pub proof fn lemma_run_wf(estimate: u8, readings: Seq<u8>)
        requires
            estimate <= VCOCAP_MAX_VALUE,
        ensures
            Tuner::started(estimate).run(readings).wf(),
        decreases readings.len(),
    {
        if readings.len() > 0 {
            Self::lemma_run_wf(estimate, readings.drop_last());
            Self::lemma_advanced_wf(
                Tuner::started(estimate).run(readings.drop_last()),
                readings.last(),
            );
        }
    }

    /// A transition keeps a state well formed.
    pub proof fn lemma_advanced_wf(tuner: Tuner, vtune: u8)
        requires
            tuner.wf(),
        ensures
            tuner.advanced(vtune).wf(),
    {
    }

    /// An error that a search ends with tells that it did not converge or
    /// that it came to an invalid state.
    pub proof fn lemma_search_errors(estimate: u8, e: BladeRfError)
        requires
            estimate <= VCOCAP_MAX_VALUE,
            exists|readings: Seq<u8>| #[trigger]
                Tuner::started(estimate).run(readings) == Tuner::Over(Err::<u8, BladeRfError>(e)),
        ensures
            e is Convergence || e is InvalidState,
    {
        let readings = choose|readings: Seq<u8>| #[trigger]
            Tuner::started(estimate).run(readings) == Tuner::Over(Err::<u8, BladeRfError>(e));
        Self::lemma_run_wf(estimate, readings);
    }

    /// Once the search is over, further readings change nothing.
    pub proof fn lemma_over_stays(self, readings: Seq<u8>)
        requires
            self is Over,
        ensures
            self.run(readings) == self,
        decreases readings.len(),
    {
        if readings.len() > 0 {
            self.lemma_over_stays(readings.drop_last());
        }
    }

    /// Readings that miss the target of the first walk move it on by one
    /// code each, as long as readings and codes last.
    pub proof fn lemma_first_walk_misses(
        initial: u8,
        kind: WalkKind,
        code: u8,
        left: u8,
        misses: Seq<u8>,
    )
        requires
            (Walk::Probing { kind, code, left }).wf(),
            misses.len() < left,
            forall|i: int| 0 <= i < misses.len() ==> misses[i] != kind.target(),
            kind is HighToNorm ==> code + misses.len() <= VCOCAP_MAX_VALUE,
            !(kind is HighToNorm) ==> code >= misses.len(),
        ensures
            (Tuner::FirstWalk { initial, walk: Walk::Probing { kind, code, left } }).run(misses)
                == (Tuner::FirstWalk {
                initial,
                walk: Walk::Probing {
                    kind,
                    code: stepped(kind, code, misses.len()),
                    left: (left - misses.len()) as u8,
                },
            }),
        decreases misses.len(),
    {
        if misses.len() > 0 {
            Self::lemma_first_walk_misses(initial, kind, code, left, misses.drop_last());
        }
    }

    /// Readings that miss the target of the walk back move it on by one
    /// code each, as long as readings and codes last.
    pub proof fn lemma_second_walk_misses(
        high: u8,
        low: u8,
        kind: WalkKind,
        code: u8,
        left: u8,
        misses: Seq<u8>,
    )
        requires
            (Walk::Probing { kind, code, left }).wf(),
            misses.len() < left,
            forall|i: int| 0 <= i < misses.len() ==> misses[i] != kind.target(),
            kind is HighToNorm ==> code + misses.len() <= VCOCAP_MAX_VALUE,
            !(kind is HighToNorm) ==> code >= misses.len(),
        ensures
            (Tuner::SecondWalk { high, low, walk: Walk::Probing { kind, code, left } }).run(
                misses,
            ) == (Tuner::SecondWalk {
                high,
                low,
                walk: Walk::Probing {
                    kind,
                    code: stepped(kind, code, misses.len()),
                    left: (left - misses.len()) as u8,
                },
            }),
        decreases misses.len(),
    {
        if misses.len() > 0 {
            Self::lemma_second_walk_misses(high, low, kind, code, left, misses.drop_last());
        }
    }

    /// A search that ends with a code has read a normal tuning voltage at
    /// that code as the last thing it did.
    pub proof fn lemma_ok_after_normal(estimate: u8, readings: Seq<u8>, code: u8)
        requires
            Tuner::started(estimate).run(readings) == Tuner::Over(Ok::<u8, BladeRfError>(code)),
        ensures
            exists|n: int|
                0 <= n < readings.len() && #[trigger] Tuner::started(estimate).run(
                    readings.take(n),
                ) == (Tuner::Verifying { code }) && readings[n] == VCO_NORM,
        decreases readings.len(),
    {
        let start = Tuner::started(estimate);
        if readings.len() > 0 {
            let before = start.run(readings.drop_last());
            if before == Tuner::Over(Ok::<u8, BladeRfError>(code)) {
                Self::lemma_ok_after_normal(estimate, readings.drop_last(), code);
                let n = choose|n: int|
                    0 <= n < readings.drop_last().len() && #[trigger] start.run(
                        readings.drop_last().take(n),
                    ) == (Tuner::Verifying { code }) && readings.drop_last()[n] == VCO_NORM;
                assert(readings.drop_last().take(n) =~= readings.take(n));
            } else {
                let n = readings.len() - 1;
                assert(readings.take(n) =~= readings.drop_last());
                assert(before == (Tuner::Verifying { code }) && readings[n] == VCO_NORM);
            }
        }
    }

    /// High, normal, low, normal: a search that starts in the high region
    /// settles strictly between the two edges it finds.
    ///
    /// The search reads a high voltage at the estimate and at the next `k`
    /// codes, and a normal voltage at the code after them: its high edge is
    /// `estimate + k`. It jumps 12 codes up, or to 63, reads a low voltage
    /// there and at the next `m` codes down, and a normal voltage at the
    /// code after them: its low edge is `m` below the jump. It settles on the
    /// integer average of the two edges, reads a normal voltage there, and
    /// ends with that code.
    #[verifier::spinoff_prover]
    pub proof fn lemma_high_norm_low_norm(estimate: u8, k: nat, m: nat)
        requires
            k < VTUNE_MAX_ITERATIONS,
            m < VTUNE_MAX_ITERATIONS,
            estimate + k < VCOCAP_MAX_VALUE,
            Self::jump_up(estimate, k) > m,
            estimate + k + 2 <= Self::jump_up(estimate, k) - m,
        ensures
            ({
                let high = (estimate + k) as u8;
                let low = (Self::jump_up(estimate, k) - m) as u8;
                let readings = repeated(VCO_HIGH, k + 1) + seq![VCO_NORM] + repeated(
                    VCO_LOW,
                    m + 1,
                ) + seq![VCO_NORM, VCO_NORM];
                &&& Tuner::started(estimate).run(readings) == Tuner::Over(
                    Ok::<u8, BladeRfError>(Self::midpoint(high, low)),
                )
                &&& high < Self::midpoint(high, low) < low
            }),
    {
        let high = (estimate + k) as u8;
        let jump = Self::jump_up(estimate, k) as u8;
        let low = (jump - m) as u8;
        let t0 = Tuner::started(estimate);
        let t1 = Tuner::FirstWalk {
            initial: VCO_HIGH,
            walk: Walk::Probing {
                kind: WalkKind::HighToNorm,
                code: (estimate + 1) as u8,
                left: VTUNE_MAX_ITERATIONS,
            },
        };
        let t2 = Tuner::FirstWalk {
            initial: VCO_HIGH,
            walk: Walk::Probing {
                kind: WalkKind::HighToNorm,
                code: (estimate + 1 + k) as u8,
                left: (VTUNE_MAX_ITERATIONS - k) as u8,
            },
        };
        let t3 = Tuner::Settling {
            high,
            low: 0,
            wait: Wait::Polling { target: VCO_LOW, code: jump, left: VTUNE_MAX_RETRIES },
            unwritten: true,
        };
        let t4 = Tuner::SecondWalk {
            high,
            low: 0,
            walk: Walk::Probing {
                kind: WalkKind::LowToNorm,
                code: (jump - 1) as u8,
                left: VTUNE_MAX_ITERATIONS,
            },
        };
        let t5 = Tuner::SecondWalk {
            high,
            low: 0,
            walk: Walk::Probing {
                kind: WalkKind::LowToNorm,
                code: (jump - 1 - m) as u8,
                left: (VTUNE_MAX_ITERATIONS - m) as u8,
            },
        };
        let t6 = Tuner::Verifying { code: Self::midpoint(high, low) };
        let t7 = Tuner::Over(Ok::<u8, BladeRfError>(Self::midpoint(high, low)));
        let r0 = seq![VCO_HIGH];
        let r1 = repeated(VCO_HIGH, k);
        let r2 = seq![VCO_NORM];
        let r3 = seq![VCO_LOW];
        let r4 = repeated(VCO_LOW, m);
        let readings = repeated(VCO_HIGH, k + 1) + seq![VCO_NORM] + repeated(VCO_LOW, m + 1)
            + seq![VCO_NORM, VCO_NORM];
        assert(readings =~= r0 + r1 + r2 + r3 + r4 + r2 + r2);
        t0.lemma_run_one(VCO_HIGH);
        assert(t0.run(r0) == t1);
        Self::lemma_first_walk_misses(
            VCO_HIGH,
            WalkKind::HighToNorm,
            (estimate + 1) as u8,
            VTUNE_MAX_ITERATIONS,
            r1,
        );
        assert(t1.run(r1) == t2);
        t2.lemma_run_one(VCO_NORM);
        assert(t2.run(r2) == t3);
        t3.lemma_run_one(VCO_LOW);
        assert(t3.run(r3) == t4);
        Self::lemma_second_walk_misses(
            high,
            0,
            WalkKind::LowToNorm,
            (jump - 1) as u8,
            VTUNE_MAX_ITERATIONS,
            r4,
        );
        assert(t4.run(r4) == t5);
        t5.lemma_run_one(VCO_NORM);
        assert(t5.run(r2) == t6);
        t6.lemma_run_one(VCO_NORM);
        assert(t6.run(r2) == t7);
        t0.lemma_run_concat(r0, r1);
        t0.lemma_run_concat(r0 + r1, r2);
        t0.lemma_run_concat(r0 + r1 + r2, r3);
        t0.lemma_run_concat(r0 + r1 + r2 + r3, r4);
        t0.lemma_run_concat(r0 + r1 + r2 + r3 + r4, r2);
        t0.lemma_run_concat(r0 + r1 + r2 + r3 + r4 + r2, r2);
    }

    /// The code that the search jumps to from the high edge `estimate + k`:
    /// 12 codes up, or 63 where that is nearer.
    pub open spec fn jump_up(estimate: u8, k: nat) -> int {
        if estimate + k + VCOCAP_MAX_LOW_HIGH < VCOCAP_MAX_VALUE {
            estimate + k + VCOCAP_MAX_LOW_HIGH
        } else {
            VCOCAP_MAX_VALUE as int
        }
    }

    /// A search that starts in the high region and does not read a normal
    /// voltage at any of the next 20 codes has not converged: it ends with
    /// the last code and the last reading.
    pub proof fn lemma_never_normal_from_high(estimate: u8, readings: Seq<u8>)
        requires
            estimate + VTUNE_MAX_ITERATIONS <= VCOCAP_MAX_VALUE,
            readings.len() == VTUNE_MAX_ITERATIONS + 1,
            readings[0] == VCO_HIGH,
            forall|i: int| 1 <= i < readings.len() ==> readings[i] != VCO_NORM,
        ensures
            Tuner::started(estimate).run(readings) == Tuner::Over(
                Err::<u8, BladeRfError>(
                    BladeRfError::Convergence {
                        vcocap: (estimate + VTUNE_MAX_ITERATIONS) as u8,
                        vtune: readings.last(),
                    },
                ),
            ),
    {
        Self::lemma_never_normal(estimate, WalkKind::HighToNorm, readings);
    }

    /// A search that starts in the low region and does not read a normal
    /// voltage at any of the 20 codes below has not converged: it ends with
    /// the last code and the last reading.
    pub proof fn lemma_never_normal_from_low(estimate: u8, readings: Seq<u8>)
        requires
            VTUNE_MAX_ITERATIONS <= estimate <= VCOCAP_MAX_VALUE,
            readings.len() == VTUNE_MAX_ITERATIONS + 1,
            readings[0] == VCO_LOW,
            forall|i: int| 1 <= i < readings.len() ==> readings[i] != VCO_NORM,
        ensures
            Tuner::started(estimate).run(readings) == Tuner::Over(
                Err::<u8, BladeRfError>(
                    BladeRfError::Convergence {
                        vcocap: (estimate - VTUNE_MAX_ITERATIONS) as u8,
                        vtune: readings.last(),
                    },
                ),
            ),
    {
        Self::lemma_never_normal(estimate, WalkKind::LowToNorm, readings);
    }

    proof fn lemma_never_normal(estimate: u8, kind: WalkKind, readings: Seq<u8>)
        requires
            kind is HighToNorm || kind is LowToNorm,
            kind is HighToNorm ==> estimate + VTUNE_MAX_ITERATIONS <= VCOCAP_MAX_VALUE,
            kind is LowToNorm ==> VTUNE_MAX_ITERATIONS <= estimate <= VCOCAP_MAX_VALUE,
            readings.len() == VTUNE_MAX_ITERATIONS + 1,
            readings[0] == (if kind is HighToNorm {
                VCO_HIGH
            } else {
                VCO_LOW
            }),
            forall|i: int| 1 <= i < readings.len() ==> readings[i] != VCO_NORM,
        ensures
            Tuner::started(estimate).run(readings) == Tuner::Over(
                Err::<u8, BladeRfError>(
                    BladeRfError::Convergence {
                        vcocap: stepped(kind, estimate, VTUNE_MAX_ITERATIONS as nat),
                        vtune: readings.last(),
                    },
                ),
            ),
    {
        let initial = readings[0];
        let t0 = Tuner::started(estimate);
        let first = stepped(kind, estimate, 1);
        let t1 = Tuner::FirstWalk {
            initial,
            walk: Walk::Probing { kind, code: first, left: VTUNE_MAX_ITERATIONS },
        };
        let r0 = seq![initial];
        let misses = readings.subrange(1, VTUNE_MAX_ITERATIONS as int);
        let last = seq![readings.last()];
        assert(readings =~= r0 + misses + last);
        t0.lemma_run_one(initial);
        assert(t0.run(r0) == t1);
        Self::lemma_first_walk_misses(initial, kind, first, VTUNE_MAX_ITERATIONS, misses);
        let t2 = Tuner::FirstWalk {
            initial,
            walk: Walk::Probing {
                kind,
                code: stepped(kind, first, (VTUNE_MAX_ITERATIONS - 1) as nat),
                left: 1,
            },
        };
        assert(t1.run(misses) == t2);
        t2.lemma_run_one(readings.last());
        t0.lemma_run_concat(r0, misses);
        t0.lemma_run_concat(r0 + misses, last);
    }
}

/// The reading of an ideal comparator at `code`: the tuning voltage is high
/// below the code `first`, low above the code `last`, and normal from
/// `first` to `last`.
pub open spec fn comparator(first: u8, last: u8, code: u8) -> u8 {
    if code < first {
        VCO_HIGH
    } else if code > last {
        VCO_LOW
    } else {
        VCO_NORM
    }
}

impl Tuner {
    /// The code that the chip holds once the probe that the search asks for
    /// is made, where it held `on_chip` before.
    pub open spec fn on_chip_after(self, on_chip: u8) -> u8 {
        match self.probe_of() {
            Probe::WriteRead(code) => code,
            _ => on_chip,
        }
    }

    /// The search after `steps` probes of a chip with an ideal comparator,
    /// and the code that the chip then holds: each reading is what the
    /// comparator gives for the code that the chip holds when it is read.
    pub open spec fn simulated(self, on_chip: u8, first: u8, last: u8, steps: nat) -> (Tuner, u8)
        decreases steps,
    {
        if steps == 0 {
            (self, on_chip)
        } else {
            let code = self.on_chip_after(on_chip);
            self.advanced(comparator(first, last, code)).simulated(
                code,
                first,
                last,
                (steps - 1) as nat,
            )
        }
    }

    /// The readings that a chip with an ideal comparator gives to the first
    /// `steps` probes of the search.
    pub open spec fn simulated_readings(
        self,
        on_chip: u8,
        first: u8,
        last: u8,
        steps: nat,
    ) -> Seq<u8>
        decreases steps,
    {
        if steps == 0 {
            Seq::empty()
        } else {
            let code = self.on_chip_after(on_chip);
            let vtune = comparator(first, last, code);
            seq![vtune] + self.advanced(vtune).simulated_readings(
                code,
                first,
                last,
                (steps - 1) as nat,
            )
        }
    }

    /// The search on a chip with an ideal comparator is the search after
    /// the readings that the comparator gives.
    pub proof fn lemma_simulated_is_run(self, on_chip: u8, first: u8, last: u8, steps: nat)
        ensures
            self.simulated(on_chip, first, last, steps).0 == self.run(
                self.simulated_readings(on_chip, first, last, steps),
            ),
            self.simulated_readings(on_chip, first, last, steps).len() == steps,
        decreases steps,
    {
        if steps > 0 {
            let code = self.on_chip_after(on_chip);
            let vtune = comparator(first, last, code);
            let next = self.advanced(vtune);
            let rest = next.simulated_readings(code, first, last, (steps - 1) as nat);
            next.lemma_simulated_is_run(code, first, last, (steps - 1) as nat);
            self.lemma_run_one(vtune);
            self.lemma_run_concat(seq![vtune], rest);
        }
    }

    /// Probes made one after another can be made in two parts.
    pub proof fn lemma_simulated_concat(
        self,
        on_chip: u8,
        first: u8,
        last: u8,
        steps: nat,
        more: nat,
    )
        ensures
            self.simulated(on_chip, first, last, steps + more) == self.simulated(
                on_chip,
                first,
                last,
                steps,
            ).0.simulated(self.simulated(on_chip, first, last, steps).1, first, last, more),
        decreases steps,
    {
        if steps > 0 {
            let code = self.on_chip_after(on_chip);
            self.advanced(comparator(first, last, code)).lemma_simulated_concat(
                code,
                first,
                last,
                (steps - 1) as nat,
                more,
            );
        }
    }

    /// Below the normal region the first walk goes up one code per probe.
    proof fn lemma_simulated_walk_up(
        initial: u8,
        code: u8,
        left: u8,
        on_chip: u8,
        first: u8,
        last: u8,
        n: nat,
    )
        requires
            1 <= code,
            code + n <= first <= VCOCAP_MAX_VALUE,
            n < left <= VTUNE_MAX_ITERATIONS,
        ensures
            (Tuner::FirstWalk {
                initial,
                walk: Walk::Probing { kind: WalkKind::HighToNorm, code, left },
            }).simulated(on_chip, first, last, n) == ((Tuner::FirstWalk {
                initial,
                walk: Walk::Probing {
                    kind: WalkKind::HighToNorm,
                    code: (code + n) as u8,
                    left: (left - n) as u8,
                },
            }), if n == 0 {
                on_chip
            } else {
                (code + n - 1) as u8
            }),
        decreases n,
    {
        if n > 0 {
            Self::lemma_simulated_walk_up(
                initial,
                (code + 1) as u8,
                (left - 1) as u8,
                code,
                first,
                last,
                (n - 1) as nat,
            );
        }
    }

    /// Above the normal region the walk back goes down one code per probe.
    proof fn lemma_simulated_walk_down(
        high: u8,
        low: u8,
        code: u8,
        left: u8,
        on_chip: u8,
        first: u8,
        last: u8,
        n: nat,
    )
        requires
            code < VCOCAP_MAX_VALUE,
            last + n <= code,
            n < left <= VTUNE_MAX_ITERATIONS,
        ensures
            (Tuner::SecondWalk {
                high,
                low,
                walk: Walk::Probing { kind: WalkKind::LowToNorm, code, left },
            }).simulated(on_chip, first, last, n) == ((Tuner::SecondWalk {
                high,
                low,
                walk: Walk::Probing {
                    kind: WalkKind::LowToNorm,
                    code: (code - n) as u8,
                    left: (left - n) as u8,
                },
            }), if n == 0 {
                on_chip
            } else {
                (code - n + 1) as u8
            }),
        decreases n,
    {
        if n > 0 {
            Self::lemma_simulated_walk_down(
                high,
                low,
                (code - 1) as u8,
                (left - 1) as u8,
                code,
                first,
                last,
                (n - 1) as nat,
            );
        }
    }

    /// At a code that is not in the low region the wait for a low voltage
    /// reads again, as long as it has readings left.
    proof fn lemma_simulated_polls(
        high: u8,
        low: u8,
        code: u8,
        left: u8,
        first: u8,
        last: u8,
        n: nat,
    )
        requires
            code <= last,
            n < left <= VTUNE_MAX_RETRIES,
        ensures
            (Tuner::Settling {
                high,
                low,
                wait: Wait::Polling { target: VCO_LOW, code, left },
                unwritten: false,
            }).simulated(code, first, last, n) == ((Tuner::Settling {
                high,
                low,
                wait: Wait::Polling { target: VCO_LOW, code, left: (left - n) as u8 },
                unwritten: false,
            }), code),
        decreases n,
    {
        if n > 0 {
            Self::lemma_simulated_polls(
                high,
                low,
                code,
                (left - 1) as u8,
                first,
                last,
                (n - 1) as nat,
            );
        }
    }

    /// Up to the end of the normal region the wait for a low voltage moves
    /// the code up by one per probe.
    proof fn lemma_simulated_creep(
        high: u8,
        low: u8,
        code: u8,
        on_chip: u8,
        first: u8,
        last: u8,
        n: nat,
    )
        requires
            code + n <= last + 1,
            last < VCOCAP_MAX_VALUE,
        ensures
            (Tuner::Settling {
                high,
                low,
                wait: Wait::Creeping { target: VCO_LOW, code },
                unwritten: false,
            }).simulated(on_chip, first, last, n) == ((Tuner::Settling {
                high,
                low,
                wait: Wait::Creeping { target: VCO_LOW, code: (code + n) as u8 },
                unwritten: false,
            }), if n == 0 {
                on_chip
            } else {
                (code + n - 1) as u8
            }),
        decreases n,
    {
        if n > 0 {
            Self::lemma_simulated_creep(
                high,
                low,
                (code + 1) as u8,
                code,
                first,
                last,
                (n - 1) as nat,
            );
        }
    }

    /// From the end of the first walk on: with the high edge found and the
    /// jump landing in the low region, the search walks back, settles on
    /// the middle and ends with it.
    #[verifier::spinoff_prover]
    proof fn lemma_simulated_from_edge_low(first: u8, last: u8, jump: u8)
        requires
            1 <= first <= last < jump <= VCOCAP_MAX_VALUE,
            jump <= last + VTUNE_MAX_ITERATIONS,
        ensures
            (Tuner::Settling {
                high: (first - 1) as u8,
                low: 0,
                wait: Wait::Polling { target: VCO_LOW, code: jump, left: VTUNE_MAX_RETRIES },
                unwritten: true,
            }).simulated(first, first, last, (jump - last + 2) as nat).0 == Tuner::Over(
                Ok::<u8, BladeRfError>(Self::midpoint((first - 1) as u8, (last + 1) as u8)),
            ),
    {
        let high = (first - 1) as u8;
        let mid = Self::midpoint(high, (last + 1) as u8);
        let m = (jump - 1 - last) as nat;
        let settling = Tuner::Settling {
            high,
            low: 0,
            wait: Wait::Polling { target: VCO_LOW, code: jump, left: VTUNE_MAX_RETRIES },
            unwritten: true,
        };
        let walking = Tuner::SecondWalk {
            high,
            low: 0,
            walk: Walk::Probing {
                kind: WalkKind::LowToNorm,
                code: (jump - 1) as u8,
                left: VTUNE_MAX_ITERATIONS,
            },
        };
        let arrived = Tuner::SecondWalk {
            high,
            low: 0,
            walk: Walk::Probing {
                kind: WalkKind::LowToNorm,
                code: last,
                left: (VTUNE_MAX_ITERATIONS - m) as u8,
            },
        };
        let verifying = Tuner::Verifying { code: mid };
        let over = Tuner::Over(Ok::<u8, BladeRfError>(mid));
        assert(first <= mid <= last);
        // the jump: low at once
        assert(settling.simulated(first, first, last, 1) == (walking, jump)) by {
            reveal_with_fuel(Tuner::simulated, 2);
        }
        // the walk back
        Self::lemma_simulated_walk_down(
            high,
            0,
            (jump - 1) as u8,
            VTUNE_MAX_ITERATIONS,
            jump,
            first,
            last,
            m,
        );
        let chip = walking.simulated(jump, first, last, m).1;
        assert(walking.simulated(jump, first, last, m).0 == arrived);
        // normal at the last code of the region, and normal in the middle
        assert(arrived.simulated(chip, first, last, 2).0 == over) by {
            reveal_with_fuel(Tuner::simulated, 3);
            assert(arrived.advanced(VCO_NORM) == verifying);
            assert(verifying.advanced(VCO_NORM) == over);
        }
        settling.lemma_simulated_concat(first, first, last, 1, m + 2);
        walking.lemma_simulated_concat(jump, first, last, m, 2);
    }

    /// From the end of the first walk on: with the high edge found and the
    /// jump landing within the normal region, the search reads 15 times,
    /// moves the code up until the voltage is low, walks back one code,
    /// settles on the middle and ends with it.
    #[verifier::spinoff_prover]
    proof fn lemma_simulated_from_edge_normal(first: u8, last: u8, jump: u8)
        requires
            1 <= first <= jump <= last,
            last < VCOCAP_MAX_VALUE,
        ensures
            (Tuner::Settling {
                high: (first - 1) as u8,
                low: 0,
                wait: Wait::Polling { target: VCO_LOW, code: jump, left: VTUNE_MAX_RETRIES },
                unwritten: true,
            }).simulated(first, first, last, (last - jump + 18) as nat).0 == Tuner::Over(
                Ok::<u8, BladeRfError>(Self::midpoint((first - 1) as u8, (last + 1) as u8)),
            ),
    {
        let high = (first - 1) as u8;
        let mid = Self::midpoint(high, (last + 1) as u8);
        let n = (last - jump) as nat;
        let settling = Tuner::Settling {
            high,
            low: 0,
            wait: Wait::Polling { target: VCO_LOW, code: jump, left: VTUNE_MAX_RETRIES },
            unwritten: true,
        };
        let polling = Tuner::Settling {
            high,
            low: 0,
            wait: Wait::Polling { target: VCO_LOW, code: jump, left: 14 },
            unwritten: false,
        };
        let polled = Tuner::Settling {
            high,
            low: 0,
            wait: Wait::Polling { target: VCO_LOW, code: jump, left: 1 },
            unwritten: false,
        };
        let creeping = Tuner::Settling {
            high,
            low: 0,
            wait: Wait::Creeping { target: VCO_LOW, code: (jump + 1) as u8 },
            unwritten: false,
        };
        let crept = Tuner::Settling {
            high,
            low: 0,
            wait: Wait::Creeping { target: VCO_LOW, code: (last + 1) as u8 },
            unwritten: false,
        };
        let over = Tuner::Over(Ok::<u8, BladeRfError>(mid));
        let walking = Tuner::SecondWalk {
            high,
            low: 0,
            walk: Walk::Probing {
                kind: WalkKind::LowToNorm,
                code: last,
                left: VTUNE_MAX_ITERATIONS,
            },
        };
        let verifying = Tuner::Verifying { code: mid };
        assert(first <= mid <= last);
        // the jump: normal
        assert(settling.simulated(first, first, last, 1) == (polling, jump)) by {
            reveal_with_fuel(Tuner::simulated, 2);
        }
        // thirteen more readings at the same code
        Self::lemma_simulated_polls(high, 0, jump, 14, first, last, 13);
        assert(polling.simulated(jump, first, last, 13) == (polled, jump));
        // the last reading there, and the first step up
        assert(polled.simulated(jump, first, last, 1) == (creeping, jump)) by {
            reveal_with_fuel(Tuner::simulated, 2);
        }
        // up to the end of the normal region
        Self::lemma_simulated_creep(high, 0, (jump + 1) as u8, jump, first, last, n);
        let chip = creeping.simulated(jump, first, last, n).1;
        assert(creeping.simulated(jump, first, last, n).0 == crept);
        // low above the region, normal at its last code, normal in the middle
        assert(crept.simulated(chip, first, last, 3).0 == over) by {
            reveal_with_fuel(Tuner::simulated, 4);
            assert(crept.advanced(VCO_LOW) == walking);
            assert(walking.advanced(VCO_NORM) == verifying);
            assert(verifying.advanced(VCO_NORM) == over);
        }
        settling.lemma_simulated_concat(first, first, last, 1, 13 + 1 + n + 3);
        polling.lemma_simulated_concat(jump, first, last, 13, 1 + n + 3);
        polled.lemma_simulated_concat(jump, first, last, 1, n + 3);
        creeping.lemma_simulated_concat(jump, first, last, n, 3);
    }

    /// On a chip with an ideal comparator, a search that starts below the
    /// normal region and within 20 codes of it ends with the code in the
    /// middle between the two edges.
    ///
    /// The voltage is high below the code `first`, normal from `first` to
    /// `last`, and low above `last`; the estimate has been written, lies
    /// below `first` and at most 20 codes from it. Then, after some number
    /// of probes, the search is over with the code halfway between the last
    /// code of the high region, `first - 1`, and the first code of the low
    /// region, `last + 1`: strictly between the two. This holds where the
    /// jump of 12 codes lands in the low region, and where it lands within
    /// the normal region and the search has to wait and move the code up.
    #[verifier::spinoff_prover]
    pub proof fn lemma_comparator_search(estimate: u8, first: u8, last: u8)
        requires
            1 <= first <= last < VCOCAP_MAX_VALUE,
            estimate < first <= estimate + VTUNE_MAX_ITERATIONS,
        ensures
            exists|steps: nat|
                (#[trigger] Tuner::started(estimate).simulated(estimate, first, last, steps)).0
                    == Tuner::Over(
                    Ok::<u8, BladeRfError>(Self::midpoint((first - 1) as u8, (last + 1) as u8)),
                ),
            first - 1 < Self::midpoint((first - 1) as u8, (last + 1) as u8) < last + 1,
            Self::midpoint((first - 1) as u8, (last + 1) as u8) == (first - 1) + ((last + 1) - (
            first - 1)) / 2,
    {
        let high = (first - 1) as u8;
        let k = (first - 1 - estimate) as nat;
        let jump: u8 = if high + VCOCAP_MAX_LOW_HIGH < VCOCAP_MAX_VALUE {
            (high + VCOCAP_MAX_LOW_HIGH) as u8
        } else {
            VCOCAP_MAX_VALUE
        };
        let start = Tuner::started(estimate);
        let walking = Tuner::FirstWalk {
            initial: VCO_HIGH,
            walk: Walk::Probing {
                kind: WalkKind::HighToNorm,
                code: (estimate + 1) as u8,
                left: VTUNE_MAX_ITERATIONS,
            },
        };
        let arrived = Tuner::FirstWalk {
            initial: VCO_HIGH,
            walk: Walk::Probing {
                kind: WalkKind::HighToNorm,
                code: first,
                left: (VTUNE_MAX_ITERATIONS - k) as u8,
            },
        };
        let settling = Tuner::Settling {
            high,
            low: 0,
            wait: Wait::Polling { target: VCO_LOW, code: jump, left: VTUNE_MAX_RETRIES },
            unwritten: true,
        };
        let rest: nat = if jump > last {
            (jump - last + 2) as nat
        } else {
            (last - jump + 18) as nat
        };
        // high at the estimate
        assert(start.simulated(estimate, first, last, 1) == (walking, estimate)) by {
            reveal_with_fuel(Tuner::simulated, 2);
        }
        // high up to the code before the normal region
        Self::lemma_simulated_walk_up(
            VCO_HIGH,
            (estimate + 1) as u8,
            VTUNE_MAX_ITERATIONS,
            estimate,
            first,
            last,
            k,
        );
        let chip = walking.simulated(estimate, first, last, k).1;
        assert(walking.simulated(estimate, first, last, k).0 == arrived);
        // normal at the first code of the region: the high edge, and the jump
        assert(arrived.simulated(chip, first, last, 1) == (settling, first)) by {
            reveal_with_fuel(Tuner::simulated, 2);
        }
        if jump > last {
            Self::lemma_simulated_from_edge_low(first, last, jump);
        } else {
            Self::lemma_simulated_from_edge_normal(first, last, jump);
        }
        start.lemma_simulated_concat(estimate, first, last, 1, k + 1 + rest);
        walking.lemma_simulated_concat(estimate, first, last, k, 1 + rest);
        arrived.lemma_simulated_concat(chip, first, last, 1, rest);
        assert(start.simulated(estimate, first, last, 1 + k + 1 + rest).0 == Tuner::Over(
            Ok::<u8, BladeRfError>(Self::midpoint(high, (last + 1) as u8)),
        ));
    }

    /// The same of the search as a function of readings: the readings that
    /// the ideal comparator gives lead the search from the estimate to the
    /// code in the middle between the two edges.
    pub proof fn lemma_comparator_readings(estimate: u8, first: u8, last: u8)
        requires
            1 <= first <= last < VCOCAP_MAX_VALUE,
            estimate < first <= estimate + VTUNE_MAX_ITERATIONS,
        ensures
            exists|steps: nat|
                Tuner::started(estimate).run(
                    #[trigger] Tuner::started(estimate).simulated_readings(
                        estimate,
                        first,
                        last,
                        steps,
                    ),
                ) == Tuner::Over(
                    Ok::<u8, BladeRfError>(Self::midpoint((first - 1) as u8, (last + 1) as u8)),
                ),
    {
        Self::lemma_comparator_search(estimate, first, last);
        let start = Tuner::started(estimate);
        let steps = choose|steps: nat|
            (#[trigger] start.simulated(estimate, first, last, steps)).0 == Tuner::Over(
                Ok::<u8, BladeRfError>(Self::midpoint((first - 1) as u8, (last + 1) as u8)),
            );
        start.lemma_simulated_is_run(estimate, first, last, steps);
    }
}

} // verus!
