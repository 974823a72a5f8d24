//! Register accesses as values, and the read-modify-write of one register as
//! a state machine.
//!
//! A driver that talks to a chip asks the machine which access to make,
//! makes it, and hands the outcome back. Which register is written with
//! which value is thereby a function of what was read, stated here once and
//! for every channel.

use vstd::prelude::*;
use crate::board::bladerf1::BladeRfError;

verus! {

/// One access to a register of a chip.
#[derive(Debug, Clone, Copy, PartialEq, Eq)]
pub enum RegOp {
    /// Read the register at this address.
    Read(u8),
    /// Write this value to the register at this address.
    Write(u8, u8),
}

/// The change of one register by reading it and writing it back: of the
/// value read the bits in `keep` stay, and the bits in `raise` are set.
///
/// The read and the write are two separate exchanges, with nothing to keep
/// another user of the channel from coming in between.
#[derive(Debug, Clone, Copy, PartialEq, Eq)]
pub enum Rmw {
    /// About to read the register.
    Reading { addr: u8, keep: u8, raise: u8 },
    /// About to write `value` to the register.
    Writing { addr: u8, value: u8 },
    /// Done: the outcome of the write, or the error of the read.
    Over(Result<u8, BladeRfError>),
}

impl Rmw {
    /// The value that is written back for the value `data` that was read.
    pub open spec fn changed(data: u8, keep: u8, raise: u8) -> u8 {
        (data & keep) | raise
    }

    /// The change at its start.
    pub open spec fn begun(addr: u8, keep: u8, raise: u8) -> Rmw {
        Rmw::Reading { addr, keep, raise }
    }

    /// The access that the change asks for next; none when it is over.
    pub open spec fn op_of(self) -> Option<RegOp> {
        match self {
            Rmw::Reading { addr, keep, raise } => Some(RegOp::Read(addr)),
            Rmw::Writing { addr, value } => Some(RegOp::Write(addr, value)),
            Rmw::Over(_) => None,
        }
    }

    /// The change after the outcome of the access it asked for. A failed
    /// read ends it with that error and without a write.
    pub open spec fn advanced(self, outcome: Result<u8, BladeRfError>) -> Rmw {
        match self {
            Rmw::Reading { addr, keep, raise } => match outcome {
                Ok(data) => Rmw::Writing { addr, value: Self::changed(data, keep, raise) },
                Err(e) => Rmw::Over(Err(e)),
            },
            Rmw::Writing { addr, value } => Rmw::Over(outcome),
            Rmw::Over(_) => self,
        }
    }

    /// The change after a sequence of outcomes, first to last.
    pub open spec fn run(self, outcomes: Seq<Result<u8, BladeRfError>>) -> Rmw
        decreases outcomes.len(),
    {
        if outcomes.len() == 0 {
            self
        } else {
            self.run(outcomes.drop_last()).advanced(outcomes.last())
        }
    }

    /// The accesses that the change can still ask for.
    pub open spec fn fuel(self) -> nat {
        match self {
            Rmw::Reading { addr, keep, raise } => 2,
            Rmw::Writing { addr, value } => 1,
            Rmw::Over(_) => 0,
        }
    }

    pub fn begin(addr: u8, keep: u8, raise: u8) -> (rmw: Rmw)
        ensures
            rmw == Rmw::begun(addr, keep, raise),
    {
        Rmw::Reading { addr, keep, raise }
    }

    pub fn op(&self) -> (op: Option<RegOp>)
        ensures
            op == self.op_of(),
    {
        match self {
            Rmw::Reading { addr, keep, raise } => Some(RegOp::Read(*addr)),
            Rmw::Writing { addr, value } => Some(RegOp::Write(*addr, *value)),
            Rmw::Over(_) => None,
        }
    }

    pub fn advance(self, outcome: Result<u8, BladeRfError>) -> (rmw: Rmw)
        ensures
            rmw == self.advanced(outcome),
            !(self is Over) ==> rmw.fuel() < self.fuel(),
    {
        match self {
            Rmw::Reading { addr, keep, raise } => match outcome {
                Ok(data) => Rmw::Writing { addr, value: (data & keep) | raise },
                Err(e) => Rmw::Over(Err(e)),
            },
            Rmw::Writing { addr, value } => Rmw::Over(outcome),
            Rmw::Over(_) => self,
        }
    }

    /// One outcome is one transition.
    pub proof fn lemma_run_one(self, outcome: Result<u8, BladeRfError>)
        ensures
            self.run(seq![outcome]) == self.advanced(outcome),
    {
        reveal_with_fuel(Rmw::run, 2);
        assert(seq![outcome].drop_last() =~= Seq::<Result<u8, BladeRfError>>::empty());
    }

    /// A read that succeeds with `data` is followed by the write of
    /// `(data & keep) | raise` to the same register, and the outcome of
    /// that write is the outcome of the change: two accesses, no more.
    pub proof fn lemma_read_then_write(
        addr: u8,
        keep: u8,
        raise: u8,
        data: u8,
        written: Result<u8, BladeRfError>,
    )
        ensures
            Rmw::begun(addr, keep, raise).op_of() == Some(RegOp::Read(addr)),
            Rmw::begun(addr, keep, raise).run(seq![Ok(data)]).op_of() == Some(
                RegOp::Write(addr, (data & keep) | raise),
            ),
            Rmw::begun(addr, keep, raise).run(seq![Ok(data), written]) == Rmw::Over(written),
    {
        let start = Rmw::begun(addr, keep, raise);
        start.lemma_run_one(Ok(data));
        reveal_with_fuel(Rmw::run, 3);
        assert(seq![Ok::<u8, BladeRfError>(data), written].drop_last() =~= seq![
            Ok::<u8, BladeRfError>(data),
        ]);
    }

    /// A read that fails ends the change with its error; nothing is
    /// written.
    pub proof fn lemma_failed_read(addr: u8, keep: u8, raise: u8, e: BladeRfError)
        ensures
            Rmw::begun(addr, keep, raise).run(seq![Err(e)]) == Rmw::Over(
                Err::<u8, BladeRfError>(e),
            ),
            Rmw::begun(addr, keep, raise).run(seq![Err(e)]).op_of() is None,
    {
        Rmw::begun(addr, keep, raise).lemma_run_one(Err(e));
    }

    /// Keeping every bit and raising `mask` is the value read or-ed with
    /// `mask`; keeping the bits of `keep` and raising none is the value
    /// read and-ed with `keep`.
    pub proof fn lemma_changed_values(data: u8, mask: u8)
        ensures
            Self::changed(data, 0xff, mask) == data | mask,
            Self::changed(data, mask, 0) == data & mask,
    {
        assert((data & 0xff) | mask == data | mask) by (bit_vector);
        assert((data & mask) | 0 == data & mask) by (bit_vector);
    }
}

} // verus!
