//! Static presentation settings and the machine layout.
//!
//! These change only when the user loads new settings or a new machine, never
//! per frame; the timeline holds them immutably once built.

use vstd::prelude::*;

verus! {

use crate::color::Rgba;
use crate::state::Position;

/// One atom of the machine layout: its identity and its resting appearance
/// before any instruction affects it.
#[derive(Clone, Debug, PartialEq, Eq)]
pub struct AtomDef {
    /// Identity the instructions refer to.
    pub id: u64,
    /// Initial position in logical coordinates.
    pub position: Position,
    /// Initial label text.
    pub label: String,
}

/// The machine layout: the set of atoms a timeline may address.
#[derive(Clone, Debug, PartialEq, Eq)]
pub struct MachineConfig {
    pub atoms: Vec<AtomDef>,
}

/// Style of the guide lines drawn through a shuttling atom.
#[derive(Clone, Copy, Debug, PartialEq, Eq, Structural)]
pub struct LineStyle {
    pub color: Rgba,
    /// Line width in logical units.
    pub width: i64,
    /// Length of one dash-plus-gap segment in logical units.
    pub segment_length: i64,
    /// Drawn share of one segment, as a fixed-point fraction of the segment.
    pub duty: i64,
}

/// Style of the atom labels.
#[derive(Clone, Debug, PartialEq, Eq)]
pub struct LabelStyle {
    pub color: Rgba,
    /// Font size in logical units.
    pub size: i64,
    /// Font family name, passed through to the text shaper.
    pub family: String,
}

/// Static presentation parameters for everything the core draws.
#[derive(Clone, Debug, PartialEq, Eq)]
pub struct Config {
    /// Global background color.
    pub background: Rgba,
    /// Radius an atom rests at before any size instruction.
    pub atom_size: i64,
    /// Fill color an atom rests at before any color instruction.
    pub atom_color: Rgba,
    /// Guide-line style.
    pub shuttle: LineStyle,
    /// Label style.
    pub label: LabelStyle,
}

} // verus!
