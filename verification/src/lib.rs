//! Core of a neutral-atom device visualizer: an instruction timeline that is
//! interpolated into visual snapshots, fixed-point viewport projection, and the
//! buffer-update protocol that keeps rendered geometry in sync with a snapshot.
//!
//! All times are integer ticks and all coordinates are fixed-point integers;
//! conversion to floating point happens only at the presentation boundary,
//! outside this crate.

pub mod adapter;
pub mod atoms;
pub mod color;
pub mod config;
pub mod instructions;
pub mod menu;
pub mod num;
pub mod playback;
pub mod state;
pub mod text;
pub mod timeline;
pub mod track;
pub mod viewport;

use vstd::prelude::*;

verus! {

/// Everything that can go wrong while building a timeline or a viewport,
/// or while pushing geometry into a buffer of bounded capacity.
#[derive(Clone, Copy, Debug, PartialEq, Eq, Structural)]
pub enum CoreError {
    /// Two instructions for the same atom and property overlap in time.
    OverlappingInstruction,
    /// An instruction references an atom id absent from the machine layout.
    UnknownAtomReference,
    /// A transition duration is negative, or start plus duration does not fit a tick counter.
    InvalidDuration,
    /// A viewport rectangle has no area, so its projection cannot be inverted.
    DegenerateViewport,
    /// A partial update needed more buffer space than the host allows.
    BufferCapacityExceeded,
}

} // verus!
