//! Command frames of the FPGA command processor and the transport that
//! carries them.

use vstd::prelude::*;

pub mod constants;
pub mod packet16x64;
pub mod packet32x32;
pub mod packet8x16;
pub mod packet8x32;
pub mod packet8x64;
pub mod packet8x8;
pub mod packet_generic;

verus! {

/// Why a frame exchange did not complete.
#[derive(Debug, Clone, Copy, PartialEq, Eq, Structural)]
pub enum TransportError {
    /// The endpoint stalled.
    Stall,
    /// The exchange did not complete within the fixed timeout.
    Timeout,
    /// The device is gone.
    Disconnected,
    /// Any other I/O failure.
    Io,
}

/// One channel to the command processor.
///
/// An exchange writes one 16-byte request frame to the bulk endpoint
/// `endpoint_out` and reads one response frame from `endpoint_in`. It blocks
/// until the response or a failure, and performs no retries. Responses carry
/// no request tag, so at most one exchange is in flight per channel: callers
/// that share a channel serialize their calls.
///
/// Implementations do not interpret the frames. Nothing is assumed of what
/// comes back: every caller in this crate checks length, magic, target and
/// success bit of the response itself.
pub trait Nios {
    fn nios_send(&self, endpoint_in: u8, endpoint_out: u8, pkt: Vec<u8>) -> Result<
        Vec<u8>,
        TransportError,
    >;
}

} // verus!
