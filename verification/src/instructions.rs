//! Raw, time-stamped instructions as the host hands them in, and the
//! conflict rules the timeline constructor enforces on them.

use vstd::prelude::*;

verus! {

use crate::color::Rgba;
use crate::state::Position;

/// The change one instruction makes to one atom's appearance.
#[derive(Clone, Debug, PartialEq, Eq)]
pub enum InstructionAction {
    /// Move the atom; interpolates linearly over the transition window.
    SetPosition(Position),
    /// Resize the atom; interpolates linearly over the transition window.
    SetSize(i64),
    /// Recolor the atom; steps at the start unless `fade` is set, in which
    /// case the channels interpolate like a numeric property.
    SetColor { color: Rgba, fade: bool },
    /// Set or clear the shuttle flag; always steps at the start.
    SetShuttle(bool),
    /// Replace the label text; always steps at the start.
    SetLabel(String),
}

/// The visual property an action addresses; instructions conflict only when
/// they address the same property of the same atom.
#[derive(Clone, Copy, Debug, PartialEq, Eq, Structural)]
pub enum PropertyKind {
    Position,
    Size,
    Color,
    Shuttle,
    Label,
}

/// The property an action addresses.
pub open spec fn action_kind(a: InstructionAction) -> PropertyKind {
    match a {
        InstructionAction::SetPosition(_) => PropertyKind::Position,
        InstructionAction::SetSize(_) => PropertyKind::Size,
        InstructionAction::SetColor { .. } => PropertyKind::Color,
        InstructionAction::SetShuttle(_) => PropertyKind::Shuttle,
        InstructionAction::SetLabel(_) => PropertyKind::Label,
    }
}

/// A time-stamped change to one atom's visual property, immutable once
/// constructed. The transition duration is taken signed so that a malformed
/// negative duration can be rejected rather than assumed away.
#[derive(Clone, Debug, PartialEq, Eq)]
pub struct Instruction {
    /// Identity of the atom the change applies to.
    pub atom: u64,
    /// Tick at which the change begins.
    pub start: u64,
    /// Transition duration in ticks; must be nonnegative.
    pub duration: i64,
    /// The change itself.
    pub action: InstructionAction,
}

/// A duration is malformed when it is negative or when the window end does
/// not fit a tick counter.
pub open spec fn bad_duration(r: Instruction) -> bool {
    r.duration < 0 || r.start + r.duration > u64::MAX
}

/// Exclusive end of the window an instruction occupies; instantaneous
/// instructions occupy a single tick, so two steps at the same tick conflict.
pub open spec fn instr_end(r: Instruction) -> int {
    if r.duration > 0 {
        r.start + r.duration
    } else {
        r.start + 1
    }
}

/// Two instructions conflict when they address the same property of the same
/// atom and their windows intersect.
pub open spec fn conflicts(a: Instruction, b: Instruction) -> bool {
    &&& a.atom == b.atom
    &&& action_kind(a.action) == action_kind(b.action)
    &&& !(instr_end(a) <= b.start || instr_end(b) <= a.start)
}

/// Some instruction in the list has a malformed duration.
pub open spec fn has_bad_duration(instrs: Seq<Instruction>) -> bool {
    exists|i: int| 0 <= i < instrs.len() && bad_duration(#[trigger] instrs[i])
}

/// The layout contains an atom with the given identity.
pub open spec fn layout_has_atom(layout: Seq<crate::config::AtomDef>, id: u64) -> bool {
    exists|k: int| 0 <= k < layout.len() && (#[trigger] layout[k]).id == id
}

/// Some instruction references an atom missing from the layout.
pub open spec fn has_unknown_atom(
    layout: Seq<crate::config::AtomDef>,
    instrs: Seq<Instruction>,
) -> bool {
    exists|i: int| 0 <= i < instrs.len() && !layout_has_atom(layout, (#[trigger] instrs[i]).atom)
}

/// Some two instructions in the list conflict.
pub open spec fn has_conflict(instrs: Seq<Instruction>) -> bool {
    exists|i: int, j: int|
        0 <= i < j < instrs.len() && conflicts(#[trigger] instrs[i], #[trigger] instrs[j])
}

/// End of the animation: the latest window end over all instructions, where a
/// step contributes its start tick, or zero when there are no instructions.
pub open spec fn timeline_duration(instrs: Seq<Instruction>) -> int
    decreases instrs.len(),
{
    if instrs.len() == 0 {
        0
    } else {
        let rest = timeline_duration(instrs.drop_last());
        let this = instrs.last().start + if instrs.last().duration > 0 {
            instrs.last().duration as int
        } else {
            0
        };
        if this > rest {
            this
        } else {
            rest
        }
    }
}

/// The duration bounds every instruction's window.
pub proof fn lemma_duration_bounds(instrs: Seq<Instruction>)
    requires
        !has_bad_duration(instrs),
    ensures
        timeline_duration(instrs) >= 0,
        forall|i: int|
            0 <= i < instrs.len() ==> (#[trigger] instrs[i]).start + if instrs[i].duration > 0 {
                instrs[i].duration as int
            } else {
                0
            } <= timeline_duration(instrs),
    decreases instrs.len(),
{
    if instrs.len() > 0 {
        assert(!has_bad_duration(instrs.drop_last())) by {
            assert forall|i: int|
                0 <= i < instrs.drop_last().len() implies !bad_duration(
                #[trigger] instrs.drop_last()[i],
            ) by {
                assert(instrs.drop_last()[i] == instrs[i]);
                assert(!bad_duration(instrs[i]));
            }
        }
        lemma_duration_bounds(instrs.drop_last());
        assert forall|i: int|
            0 <= i < instrs.len() implies (#[trigger] instrs[i]).start + if instrs[i].duration
            > 0 {
            instrs[i].duration as int
        } else {
            0
        } <= timeline_duration(instrs) by {
            if i < instrs.len() - 1 {
                assert(instrs.drop_last()[i] == instrs[i]);
            }
        }
    }
}

} // verus!
