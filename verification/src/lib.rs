//! Protocol engine for a segmented electrophoretic display panel.
//!
//! The engine drives the panel through three channels: a serial
//! configuration shift register (eight control lines committed as a unit),
//! a hardware timing-pulse channel that synthesizes precisely timed
//! high/low gating windows, and an exclusive bus transfer resource that
//! carries one row of pixel bytes at a time.  The modules here model those
//! channels as data — committed register snapshots, sent pulses, and
//! transferred rows are recorded in traces — so that the power-rail
//! sequencing, the frame scan state machine, and the linear ownership
//! discipline over the two hardware capabilities are all checked.

use vstd::prelude::*;

pub mod config;
pub mod ed047tc1;
pub mod rmt;

verus! {

/// Errors surfaced by the panel protocol engine.
#[derive(Clone, Copy, Debug, PartialEq, Eq, Structural)]
pub enum Error {
    /// The timing-pulse peripheral failed to configure or transmit.
    TimingChannelError,
    /// A bus transfer failed; the transfer resource was still reclaimed.
    TransferError,
    /// The row transfer buffer could not be set up at construction time.
    BufferInitError,
    /// A linear hardware capability that was expected to be present was
    /// absent: a defect in call sequencing, not a transient fault.
    ResourceUnavailable,
}

} // verus!
