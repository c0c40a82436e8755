//! Visual snapshots: the derived appearance of every atom at one query time.
//!
//! A snapshot is never stored long-term; each query recomputes it from the
//! timeline, so two snapshots for the same time are equal by construction.

use vstd::prelude::*;

verus! {

use crate::color::Rgba;

/// A point in logical (source-rectangle) coordinates.
#[derive(Clone, Copy, Debug, PartialEq, Eq, Structural)]
pub struct Position {
    pub x: i64,
    pub y: i64,
}

/// The appearance of one atom at one query time.
#[derive(Clone, Debug, PartialEq, Eq)]
pub struct AtomState {
    /// Center of the atom in logical coordinates.
    pub position: Position,
    /// Radius of the drawn circle.
    pub size: i64,
    /// Fill color of the drawn circle.
    pub color: Rgba,
    /// Whether guide lines are drawn through the atom's position.
    pub shuttle: bool,
    /// Text drawn next to the atom.
    pub label: String,
}

/// Mathematical value of an [`AtomState`]: the same fields with the label as a
/// character sequence.
pub struct AtomModel {
    pub position: Position,
    pub size: i64,
    pub color: Rgba,
    pub shuttle: bool,
    pub label: Seq<char>,
}

impl View for AtomState {
    type V = AtomModel;

    open spec fn view(&self) -> AtomModel {
        AtomModel {
            position: self.position,
            size: self.size,
            color: self.color,
            shuttle: self.shuttle,
            label: self.label@,
        }
    }
}

/// One atom's identity together with its appearance.
#[derive(Clone, Debug, PartialEq, Eq)]
pub struct AtomSnapshot {
    pub id: u64,
    pub atom: AtomState,
}

impl View for AtomSnapshot {
    type V = (u64, AtomModel);

    open spec fn view(&self) -> (u64, AtomModel) {
        (self.id, self.atom@)
    }
}

/// A full visual snapshot: every atom's appearance, in machine-layout order,
/// plus the global background color.
#[derive(Clone, Debug, PartialEq, Eq)]
pub struct State {
    pub atoms: Vec<AtomSnapshot>,
    pub background: Rgba,
}

/// Mathematical value of a [`State`].
pub struct StateModel {
    pub atoms: Seq<(u64, AtomModel)>,
    pub background: Rgba,
}

impl View for State {
    type V = StateModel;

    open spec fn view(&self) -> StateModel {
        StateModel { atoms: self.atoms@.map_values(|s: AtomSnapshot| s@), background: self.background }
    }
}

} // verus!
