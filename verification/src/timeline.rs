//! The instruction timeline and its interpolator: the immutable object that
//! answers "what does the device look like at time `t`".
//!
//! A timeline is built once from a machine layout, presentation settings and a
//! validated list of instructions. Queries are pure: the snapshot for a time
//! is a mathematical function of the timeline and the (clamped) query time.

use vstd::prelude::*;

verus! {

use crate::color::{Rgba, lerp_color_spec, lerp_rgba};
use crate::config::{AtomDef, Config, MachineConfig};
use crate::instructions::{
    Instruction, InstructionAction, PropertyKind, action_kind, bad_duration, has_bad_duration,
    has_conflict, has_unknown_atom, layout_has_atom, timeline_duration,
};
use crate::num::{lerp_spec, lerp_i64};
use crate::state::{AtomModel, AtomSnapshot, AtomState, Position, State, StateModel};
use crate::track::{
    TimedChange, track_find, track_locate, track_within, track_insert, insert_pos,
    lemma_track_locate_props, lemma_insert_pos_props, lemma_insert_sorted,
    lemma_disjoint_wf_track, sorted_strict, wf_track, windows_disjoint, tc_end,
};
use crate::config::LabelStyle;
use crate::instructions::{conflicts, instr_end, lemma_duration_bounds};
use crate::CoreError;

/// Interpolation of `i64` endpoints; exact, so the cast is the identity.
pub open spec fn lerp_i64_spec(a: i64, b: i64, num: int, den: int) -> i64 {
    lerp_spec(a as int, b as int, num, den) as i64
}

/// Value of an `i64` track at time `t`: the last change that has started
/// decides; while an interpolating change is in flight the value moves
/// linearly from the previous resting value to the change's target.
pub open spec fn track_value_i64(init: i64, s: Seq<TimedChange<i64>>, t: int) -> i64 {
    let i = track_locate(s, t);
    if i < 0 {
        init
    } else {
        let c = s[i];
        let prev = if i == 0 {
            init
        } else {
            s[i - 1].target
        };
        if c.interpolate && c.dur > 0 && t < c.start + c.dur {
            lerp_i64_spec(prev, c.target, t - c.start, c.dur as int)
        } else {
            c.target
        }
    }
}

/// Value of a position track at time `t`; both coordinates interpolate
/// independently.
pub open spec fn track_value_pos(init: Position, s: Seq<TimedChange<Position>>, t: int) -> Position {
    let i = track_locate(s, t);
    if i < 0 {
        init
    } else {
        let c = s[i];
        let prev = if i == 0 {
            init
        } else {
            s[i - 1].target
        };
        if c.interpolate && c.dur > 0 && t < c.start + c.dur {
            Position {
                x: lerp_i64_spec(prev.x, c.target.x, t - c.start, c.dur as int),
                y: lerp_i64_spec(prev.y, c.target.y, t - c.start, c.dur as int),
            }
        } else {
            c.target
        }
    }
}

/// Value of a color track at time `t`; a fade interpolates component-wise,
/// any other change steps at its start.
pub open spec fn track_value_color(init: Rgba, s: Seq<TimedChange<Rgba>>, t: int) -> Rgba {
    let i = track_locate(s, t);
    if i < 0 {
        init
    } else {
        let c = s[i];
        let prev = if i == 0 {
            init
        } else {
            s[i - 1].target
        };
        if c.interpolate && c.dur > 0 && t < c.start + c.dur {
            lerp_color_spec(prev, c.target, t - c.start, c.dur as int)
        } else {
            c.target
        }
    }
}

/// Value of a flag track at time `t`; flags always step at the start.
pub open spec fn track_value_bool(init: bool, s: Seq<TimedChange<bool>>, t: int) -> bool {
    let i = track_locate(s, t);
    if i < 0 {
        init
    } else {
        s[i].target
    }
}

/// Value of a label track at time `t`; labels always step at the start.
pub open spec fn track_value_label(init: Seq<char>, s: Seq<TimedChange<String>>, t: int) -> Seq<
    char,
> {
    let i = track_locate(s, t);
    if i < 0 {
        init
    } else {
        s[i].target@
    }
}

/// All scheduled changes of one atom, one track per property, each sorted by
/// start time with disjoint windows.
#[derive(Clone, Debug)]
pub struct AtomTimeline {
    /// Identity of the atom.
    pub id: u64,
    /// Appearance before any change affects a property.
    pub initial: AtomState,
    pub position: Vec<TimedChange<Position>>,
    pub size: Vec<TimedChange<i64>>,
    pub color: Vec<TimedChange<Rgba>>,
    pub shuttle: Vec<TimedChange<bool>>,
    pub label: Vec<TimedChange<String>>,
}

impl AtomTimeline {
    /// Every track closes its windows in order and within `duration`.
    pub open spec fn wf(&self, duration: int) -> bool {
        &&& wf_track(self.position@) && track_within(self.position@, duration)
        &&& wf_track(self.size@) && track_within(self.size@, duration)
        &&& wf_track(self.color@) && track_within(self.color@, duration)
        &&& wf_track(self.shuttle@) && track_within(self.shuttle@, duration)
        &&& wf_track(self.label@) && track_within(self.label@, duration)
    }
}

/// The appearance of one atom at time `t`, each property evaluated
/// independently over its track.
pub open spec fn atom_model_at(a: AtomTimeline, t: int) -> AtomModel {
    AtomModel {
        position: track_value_pos(a.initial.position, a.position@, t),
        size: track_value_i64(a.initial.size, a.size@, t),
        color: track_value_color(a.initial.color, a.color@, t),
        shuttle: track_value_bool(a.initial.shuttle, a.shuttle@, t),
        label: track_value_label(a.initial.label@, a.label@, t),
    }
}

/// The instruction timeline: per-atom ordered change tracks, the presentation
/// settings, and the precomputed animation end.
#[derive(Clone, Debug)]
pub struct Timeline {
    pub atoms: Vec<AtomTimeline>,
    pub config: Config,
    pub duration: u64,
}

/// The full snapshot at time `t`: every atom's appearance in layout order,
/// plus the background color.
pub open spec fn state_model_at(tl: Timeline, t: int) -> StateModel {
    StateModel {
        atoms: Seq::new(
            tl.atoms@.len(),
            |k: int| (tl.atoms@[k].id, atom_model_at(tl.atoms@[k], t)),
        ),
        background: tl.config.background,
    }
}

/// A query time is clamped into `[0, duration]`; tick counts cannot be
/// negative, so only the upper end needs clamping.
pub open spec fn clamped(t: int, duration: int) -> int {
    if t <= duration {
        t
    } else {
        duration
    }
}

fn eval_track_i64(init: i64, items: &Vec<TimedChange<i64>>, t: u64) -> (r: i64)
    requires
        track_within(items@, u64::MAX as int),
    ensures
        r == track_value_i64(init, items@, t as int),
{
    proof {
        lemma_track_locate_props(items@, t as int);
    }
    match track_find(items, t) {
        None => init,
        Some(i) => {
            let c = items[i];
            if c.interpolate && c.dur > 0 && t < c.start + c.dur {
                let prev = if i == 0 {
                    init
                } else {
                    items[i - 1].target
                };
                proof {
                    crate::num::lemma_lerp_within(
                        prev as int,
                        c.target as int,
                        t - c.start,
                        c.dur as int,
                    );
                }
                lerp_i64(prev, c.target, t - c.start, c.dur)
            } else {
                c.target
            }
        },
    }
}

fn eval_track_pos(init: Position, items: &Vec<TimedChange<Position>>, t: u64) -> (r: Position)
    requires
        track_within(items@, u64::MAX as int),
    ensures
        r == track_value_pos(init, items@, t as int),
{
    proof {
        lemma_track_locate_props(items@, t as int);
    }
    match track_find(items, t) {
        None => init,
        Some(i) => {
            let c = items[i];
            if c.interpolate && c.dur > 0 && t < c.start + c.dur {
                let prev = if i == 0 {
                    init
                } else {
                    items[i - 1].target
                };
                proof {
                    crate::num::lemma_lerp_within(
                        prev.x as int,
                        c.target.x as int,
                        t - c.start,
                        c.dur as int,
                    );
                    crate::num::lemma_lerp_within(
                        prev.y as int,
                        c.target.y as int,
                        t - c.start,
                        c.dur as int,
                    );
                }
                Position {
                    x: lerp_i64(prev.x, c.target.x, t - c.start, c.dur),
                    y: lerp_i64(prev.y, c.target.y, t - c.start, c.dur),
                }
            } else {
                c.target
            }
        },
    }
}

fn eval_track_color(init: Rgba, items: &Vec<TimedChange<Rgba>>, t: u64) -> (r: Rgba)
    requires
        track_within(items@, u64::MAX as int),
    ensures
        r == track_value_color(init, items@, t as int),
{
    proof {
        lemma_track_locate_props(items@, t as int);
    }
    match track_find(items, t) {
        None => init,
        Some(i) => {
            let c = items[i];
            if c.interpolate && c.dur > 0 && t < c.start + c.dur {
                let prev = if i == 0 {
                    init
                } else {
                    items[i - 1].target
                };
                lerp_rgba(prev, c.target, t - c.start, c.dur)
            } else {
                c.target
            }
        },
    }
}

fn eval_track_bool(init: bool, items: &Vec<TimedChange<bool>>, t: u64) -> (r: bool)
    ensures
        r == track_value_bool(init, items@, t as int),
{
    proof {
        lemma_track_locate_props(items@, t as int);
    }
    match track_find(items, t) {
        None => init,
        Some(i) => items[i].target,
    }
}

fn eval_track_label(init: &String, items: &Vec<TimedChange<String>>, t: u64) -> (r: String)
    ensures
        r@ == track_value_label(init@, items@, t as int),
{
    proof {
        lemma_track_locate_props(items@, t as int);
    }
    match track_find(items, t) {
        None => init.clone(),
        Some(i) => items[i].target.clone(),
    }
}

fn eval_atom(a: &AtomTimeline, t: u64) -> (r: AtomState)
    requires
        track_within(a.position@, u64::MAX as int),
        track_within(a.size@, u64::MAX as int),
        track_within(a.color@, u64::MAX as int),
    ensures
        r@ == atom_model_at(*a, t as int),
{
    AtomState {
        position: eval_track_pos(a.initial.position, &a.position, t),
        size: eval_track_i64(a.initial.size, &a.size, t),
        color: eval_track_color(a.initial.color, &a.color, t),
        shuttle: eval_track_bool(a.initial.shuttle, &a.shuttle, t),
        label: eval_track_label(&a.initial.label, &a.label, t),
    }
}

/// The instruction addresses the given atom and property.
pub open spec fn matches_kind(r: Instruction, id: u64, kind: PropertyKind) -> bool {
    r.atom == id && action_kind(r.action) == kind
}

/// The track change a position instruction becomes.
pub open spec fn pos_tc(r: Instruction) -> TimedChange<Position> {
    TimedChange {
        start: r.start,
        dur: r.duration as u64,
        interpolate: true,
        target: match r.action {
            InstructionAction::SetPosition(p) => p,
            _ => Position { x: 0, y: 0 },
        },
    }
}

/// The track change a size instruction becomes.
pub open spec fn size_tc(r: Instruction) -> TimedChange<i64> {
    TimedChange {
        start: r.start,
        dur: r.duration as u64,
        interpolate: true,
        target: match r.action {
            InstructionAction::SetSize(s) => s,
            _ => 0,
        },
    }
}

/// The track change a color instruction becomes; only a fade interpolates.
pub open spec fn color_tc(r: Instruction) -> TimedChange<Rgba> {
    TimedChange {
        start: r.start,
        dur: r.duration as u64,
        interpolate: match r.action {
            InstructionAction::SetColor { fade, .. } => fade,
            _ => false,
        },
        target: match r.action {
            InstructionAction::SetColor { color, .. } => color,
            _ => Rgba { r: 0, g: 0, b: 0, a: 0 },
        },
    }
}

/// The track change a shuttle instruction becomes; flags always step.
pub open spec fn shuttle_tc(r: Instruction) -> TimedChange<bool> {
    TimedChange {
        start: r.start,
        dur: r.duration as u64,
        interpolate: false,
        target: match r.action {
            InstructionAction::SetShuttle(b) => b,
            _ => false,
        },
    }
}

/// The track change a label instruction becomes; labels always step.
pub open spec fn label_tc(r: Instruction) -> TimedChange<String> {
    TimedChange {
        start: r.start,
        dur: r.duration as u64,
        interpolate: false,
        target: match r.action {
            InstructionAction::SetLabel(s) => s,
            _ => arbitrary(),
        },
    }
}

/// The position conversion as a single function value, so that every mention
/// denotes one term.
pub open spec fn pos_conv() -> spec_fn(Instruction) -> TimedChange<Position> {
    |r: Instruction| pos_tc(r)
}

pub open spec fn size_conv() -> spec_fn(Instruction) -> TimedChange<i64> {
    |r: Instruction| size_tc(r)
}

pub open spec fn color_conv() -> spec_fn(Instruction) -> TimedChange<Rgba> {
    |r: Instruction| color_tc(r)
}

pub open spec fn shuttle_conv() -> spec_fn(Instruction) -> TimedChange<bool> {
    |r: Instruction| shuttle_tc(r)
}

pub open spec fn label_conv() -> spec_fn(Instruction) -> TimedChange<String> {
    |r: Instruction| label_tc(r)
}

/// A conversion copies the instruction's start and duration.
pub open spec fn conv_ok<T>(conv: spec_fn(Instruction) -> TimedChange<T>) -> bool {
    forall|r: Instruction| (#[trigger] conv(r)).start == r.start && conv(r).dur == r.duration as u64
}

/// Every instruction before `upto` addressing this atom and property has its
/// converted change on the track.
pub open spec fn covers_fwd<T>(
    track: Seq<TimedChange<T>>,
    instrs: Seq<Instruction>,
    upto: int,
    id: u64,
    kind: PropertyKind,
    conv: spec_fn(Instruction) -> TimedChange<T>,
) -> bool {
    forall|j: int|
        0 <= j < upto && matches_kind(#[trigger] instrs[j], id, kind) ==> track.contains(
            conv(instrs[j]),
        )
}

/// The change at index `k` of the track is the conversion of some instruction
/// before `upto` addressing this atom and property.
pub open spec fn from_instr<T>(
    track: Seq<TimedChange<T>>,
    k: int,
    instrs: Seq<Instruction>,
    upto: int,
    id: u64,
    kind: PropertyKind,
    conv: spec_fn(Instruction) -> TimedChange<T>,
) -> bool {
    exists|j: int|
        0 <= j < upto && matches_kind(#[trigger] instrs[j], id, kind) && track[k] == conv(
            instrs[j],
        )
}

/// Every change on the track is the conversion of some instruction before
/// `upto` addressing this atom and property.
pub open spec fn covers_bwd<T>(
    track: Seq<TimedChange<T>>,
    instrs: Seq<Instruction>,
    upto: int,
    id: u64,
    kind: PropertyKind,
    conv: spec_fn(Instruction) -> TimedChange<T>,
) -> bool {
    forall|k: int|
        0 <= k < track.len() ==> #[trigger] from_instr(track, k, instrs, upto, id, kind, conv)
}

/// A fully built track: sorted, and in exact correspondence with the
/// instructions addressing this atom and property.
pub open spec fn track_built<T>(
    track: Seq<TimedChange<T>>,
    instrs: Seq<Instruction>,
    id: u64,
    kind: PropertyKind,
    conv: spec_fn(Instruction) -> TimedChange<T>,
) -> bool {
    &&& sorted_strict(track)
    &&& covers_fwd(track, instrs, instrs.len() as int, id, kind, conv)
    &&& covers_bwd(track, instrs, instrs.len() as int, id, kind, conv)
}

/// What construction reports: the first applicable failure, checked in the
/// order malformed durations, unknown atoms, overlapping windows; or success
/// exactly when none applies.
pub open spec fn spec_validate(layout: Seq<AtomDef>, instrs: Seq<Instruction>) -> Result<
    (),
    CoreError,
> {
    if has_bad_duration(instrs) {
        Result::Err(CoreError::InvalidDuration)
    } else if has_unknown_atom(layout, instrs) {
        Result::Err(CoreError::UnknownAtomReference)
    } else if has_conflict(instrs) {
        Result::Err(CoreError::OverlappingInstruction)
    } else {
        Result::Ok(())
    }
}

/// The resting appearance of an atom before any instruction affects it.
pub open spec fn initial_model(def: AtomDef, config: Config) -> AtomModel {
    AtomModel {
        position: def.position,
        size: config.atom_size,
        color: config.atom_color,
        shuttle: false,
        label: def.label@,
    }
}

/// One atom's timeline as construction promises it: the layout's identity and
/// initial appearance, and one exact track per property.
pub open spec fn atom_built(
    a: AtomTimeline,
    def: AtomDef,
    config: Config,
    instrs: Seq<Instruction>,
) -> bool {
    &&& a.id == def.id
    &&& a.initial@ == initial_model(def, config)
    &&& track_built(a.position@, instrs, def.id, PropertyKind::Position, pos_conv())
    &&& track_built(a.size@, instrs, def.id, PropertyKind::Size, size_conv())
    &&& track_built(a.color@, instrs, def.id, PropertyKind::Color, color_conv())
    &&& track_built(a.shuttle@, instrs, def.id, PropertyKind::Shuttle, shuttle_conv())
    &&& track_built(a.label@, instrs, def.id, PropertyKind::Label, label_conv())
}

/// What a successfully built timeline is: well formed, carrying these
/// settings, ending at the instructions' latest window end, with one atom per
/// layout entry holding its initial appearance and exact per-property tracks.
pub open spec fn timeline_built(
    tl: Timeline,
    machine: MachineConfig,
    config: Config,
    instrs: Seq<Instruction>,
) -> bool {
    &&& tl.wf()
    &&& tl.config == config
    &&& tl.duration as int == timeline_duration(instrs)
    &&& tl.atoms@.len() == machine.atoms@.len()
    &&& forall|k: int|
        0 <= k < machine.atoms@.len() ==> atom_built(
            #[trigger] tl.atoms@[k],
            machine.atoms@[k],
            config,
            instrs,
        )
}

/// The property an action addresses.
fn kind_of(a: &InstructionAction) -> (r: PropertyKind)
    ensures
        r == action_kind(*a),
{
    match a {
        InstructionAction::SetPosition(_) => PropertyKind::Position,
        InstructionAction::SetSize(_) => PropertyKind::Size,
        InstructionAction::SetColor { .. } => PropertyKind::Color,
        InstructionAction::SetShuttle(_) => PropertyKind::Shuttle,
        InstructionAction::SetLabel(_) => PropertyKind::Label,
    }
}

/// Whether two instructions with well-formed durations conflict.
fn instr_conflicts(a: &Instruction, b: &Instruction) -> (r: bool)
    requires
        !bad_duration(*a),
        !bad_duration(*b),
    ensures
        r == conflicts(*a, *b),
{
    if a.atom != b.atom {
        return false;
    }
    let ka = kind_of(&a.action);
    let kb = kind_of(&b.action);
    if ka != kb {
        return false;
    }
    let ea: u128 = if a.duration > 0 {
        a.start as u128 + a.duration as u128
    } else {
        a.start as u128 + 1
    };
    let eb: u128 = if b.duration > 0 {
        b.start as u128 + b.duration as u128
    } else {
        b.start as u128 + 1
    };
    !(ea <= b.start as u128 || eb <= a.start as u128)
}

/// Whether the layout contains an atom with this identity.
fn layout_contains(machine: &MachineConfig, id: u64) -> (r: bool)
    ensures
        r == layout_has_atom(machine.atoms@, id),
{
    let mut k: usize = 0;
    while k < machine.atoms.len()
        invariant
            k <= machine.atoms@.len(),
            forall|i: int| 0 <= i < k ==> (#[trigger] machine.atoms@[i]).id != id,
        decreases machine.atoms@.len() - k,
    {
        if machine.atoms[k].id == id {
            return true;
        }
        k = k + 1;
    }
    false
}

/// Semantic validation of an instruction list against a machine layout:
/// rejects malformed durations, references to unknown atoms, and overlapping
/// instructions, in that order, and accepts everything else.
pub fn validate(machine: &MachineConfig, instrs: &Vec<Instruction>) -> (r: Result<(), CoreError>)
    ensures
        r == spec_validate(machine.atoms@, instrs@),
{
    let mut i: usize = 0;
    while i < instrs.len()
        invariant
            i <= instrs@.len(),
            forall|k: int| 0 <= k < i ==> !bad_duration(#[trigger] instrs@[k]),
        decreases instrs@.len() - i,
    {
        let r = &instrs[i];
        if r.duration < 0 || (r.duration as u64) > u64::MAX - r.start {
            proof {
                assert(bad_duration(instrs@[i as int]));
            }
            return Err(CoreError::InvalidDuration);
        }
        i = i + 1;
    }
    assert(!has_bad_duration(instrs@));

    let mut i: usize = 0;
    while i < instrs.len()
        invariant
            i <= instrs@.len(),
            !has_bad_duration(instrs@),
            forall|k: int|
                0 <= k < i ==> layout_has_atom(machine.atoms@, (#[trigger] instrs@[k]).atom),
        decreases instrs@.len() - i,
    {
        if !layout_contains(machine, instrs[i].atom) {
            return Err(CoreError::UnknownAtomReference);
        }
        i = i + 1;
    }
    assert(!has_unknown_atom(machine.atoms@, instrs@));

    let mut b: usize = 0;
    while b < instrs.len()
        invariant
            b <= instrs@.len(),
            !has_bad_duration(instrs@),
            !has_unknown_atom(machine.atoms@, instrs@),
            forall|x: int, y: int|
                0 <= x < y < b ==> !conflicts(#[trigger] instrs@[x], #[trigger] instrs@[y]),
        decreases instrs@.len() - b,
    {
        let mut a: usize = 0;
        while a < b
            invariant
                a <= b < instrs@.len(),
                !has_bad_duration(instrs@),
                !has_unknown_atom(machine.atoms@, instrs@),
                forall|x: int, y: int|
                    0 <= x < y < b ==> !conflicts(#[trigger] instrs@[x], #[trigger] instrs@[y]),
                forall|x: int|
                    0 <= x < a ==> !conflicts(
                        #[trigger] instrs@[x],
                        instrs@[b as int],
                    ),
            decreases b - a,
        {
            if instr_conflicts(&instrs[a], &instrs[b]) {
                return Err(CoreError::OverlappingInstruction);
            }
            a = a + 1;
        }
        b = b + 1;
    }
    assert(!has_conflict(instrs@));
    Ok(())
}

/// Computes the animation end: the latest window end over all instructions.
fn compute_duration(instrs: &Vec<Instruction>) -> (r: u64)
    requires
        !has_bad_duration(instrs@),
    ensures
        r as int == timeline_duration(instrs@),
{
    let mut d: u64 = 0;
    let mut i: usize = 0;
    while i < instrs.len()
        invariant
            i <= instrs@.len(),
            !has_bad_duration(instrs@),
            d as int == timeline_duration(instrs@.take(i as int)),
        decreases instrs@.len() - i,
    {
        proof {
            assert(!bad_duration(instrs@[i as int]));
            assert(instrs@.take(i as int + 1).drop_last() =~= instrs@.take(i as int));
            assert(instrs@.take(i as int + 1).last() == instrs@[i as int]);
        }
        let r = &instrs[i];
        let end: u64 = if r.duration > 0 {
            r.start + (r.duration as u64)
        } else {
            r.start
        };
        if end > d {
            d = end;
        }
        i = i + 1;
    }
    proof {
        assert(instrs@.take(instrs@.len() as int) =~= instrs@);
    }
    d
}

/// Two non-conflicting instructions on the same atom and property start at
/// different ticks: each window reaches past its own start.
proof fn lemma_no_conflict_distinct_starts(a: Instruction, b: Instruction)
    requires
        !conflicts(a, b),
        a.atom == b.atom,
        action_kind(a.action) == action_kind(b.action),
    ensures
        a.start != b.start,
{
    assert(instr_end(a) > a.start);
    assert(instr_end(b) > b.start);
}

/// Inserting the conversion of the next matching instruction at its sorted
/// position keeps the track sorted and extends the exact correspondence by
/// one instruction.
proof fn lemma_insert_maintains<T>(
    old_track: Seq<TimedChange<T>>,
    new_track: Seq<TimedChange<T>>,
    instrs: Seq<Instruction>,
    j: int,
    id: u64,
    kind: PropertyKind,
    conv: spec_fn(Instruction) -> TimedChange<T>,
)
    requires
        0 <= j < instrs.len(),
        matches_kind(instrs[j], id, kind),
        !has_conflict(instrs),
        conv_ok(conv),
        sorted_strict(old_track),
        covers_fwd(old_track, instrs, j, id, kind, conv),
        covers_bwd(old_track, instrs, j, id, kind, conv),
        new_track == old_track.insert(
            insert_pos(old_track, conv(instrs[j]).start as int),
            conv(instrs[j]),
        ),
    ensures
        sorted_strict(new_track),
        covers_fwd(new_track, instrs, j + 1, id, kind, conv),
        covers_bwd(new_track, instrs, j + 1, id, kind, conv),
{
    let item = conv(instrs[j]);
    let p = insert_pos(old_track, item.start as int);
    lemma_insert_pos_props(old_track, item.start as int);
    old_track.insert_ensures(p, item);

    assert forall|k: int| 0 <= k < old_track.len() implies (#[trigger] old_track[k]).start
        != item.start by {
        assert(from_instr(old_track, k, instrs, j, id, kind, conv));
        let j2 = choose|j2: int|
            0 <= j2 < j && matches_kind(#[trigger] instrs[j2], id, kind) && old_track[k] == conv(
                instrs[j2],
            );
        assert(old_track[k].start == instrs[j2].start);
        assert(!conflicts(instrs[j2], instrs[j]));
        lemma_no_conflict_distinct_starts(instrs[j2], instrs[j]);
    }
    lemma_insert_sorted(old_track, item);

    assert forall|j2: int|
        0 <= j2 < j + 1 && matches_kind(#[trigger] instrs[j2], id, kind) implies new_track.contains(
        conv(instrs[j2]),
    ) by {
        if j2 == j {
            assert(new_track[p] == item);
        } else {
            assert(old_track.contains(conv(instrs[j2])));
            let i2 = choose|i2: int|
                0 <= i2 < old_track.len() && old_track[i2] == conv(instrs[j2]);
            if i2 < p {
                assert(new_track[i2] == old_track[i2]);
            } else {
                assert(new_track[i2 + 1] == old_track[i2]);
            }
        }
    }

    assert forall|k: int| 0 <= k < new_track.len() implies #[trigger] from_instr(
        new_track,
        k,
        instrs,
        j + 1,
        id,
        kind,
        conv,
    ) by {
        if k == p {
            assert(matches_kind(instrs[j], id, kind) && new_track[k] == conv(instrs[j]));
        } else {
            let ko = if k < p {
                k
            } else {
                k - 1
            };
            assert(new_track[k] == old_track[ko]);
            assert(from_instr(old_track, ko, instrs, j, id, kind, conv));
            let j2 = choose|j2: int|
                0 <= j2 < j && matches_kind(#[trigger] instrs[j2], id, kind) && old_track[ko]
                    == conv(instrs[j2]);
            assert(matches_kind(instrs[j2], id, kind) && new_track[k] == conv(instrs[j2]));
        }
    }
}

/// An instruction that does not address this atom and property leaves the
/// track's correspondence intact.
proof fn lemma_skip_maintains<T>(
    track: Seq<TimedChange<T>>,
    instrs: Seq<Instruction>,
    j: int,
    id: u64,
    kind: PropertyKind,
    conv: spec_fn(Instruction) -> TimedChange<T>,
)
    requires
        0 <= j < instrs.len(),
        !matches_kind(instrs[j], id, kind),
        covers_fwd(track, instrs, j, id, kind, conv),
        covers_bwd(track, instrs, j, id, kind, conv),
    ensures
        covers_fwd(track, instrs, j + 1, id, kind, conv),
        covers_bwd(track, instrs, j + 1, id, kind, conv),
{
    assert forall|k: int| 0 <= k < track.len() implies #[trigger] from_instr(
        track,
        k,
        instrs,
        j + 1,
        id,
        kind,
        conv,
    ) by {
        assert(from_instr(track, k, instrs, j, id, kind, conv));
        let j2 = choose|j2: int|
            0 <= j2 < j && matches_kind(#[trigger] instrs[j2], id, kind) && track[k] == conv(
                instrs[j2],
            );
        assert(matches_kind(instrs[j2], id, kind) && track[k] == conv(instrs[j2]));
    }
}

/// A built track inherits from validation what the interpolator needs: its
/// windows are pairwise disjoint, so they close in order, and every window
/// closes by the computed duration.
proof fn lemma_built_track_wf<T>(
    track: Seq<TimedChange<T>>,
    instrs: Seq<Instruction>,
    id: u64,
    kind: PropertyKind,
    conv: spec_fn(Instruction) -> TimedChange<T>,
)
    requires
        !has_conflict(instrs),
        !has_bad_duration(instrs),
        conv_ok(conv),
        track_built(track, instrs, id, kind, conv),
    ensures
        wf_track(track),
        track_within(track, timeline_duration(instrs)),
{
    lemma_duration_bounds(instrs);
    assert forall|k: int| 0 <= k < track.len() implies (#[trigger] track[k]).start + track[k].dur
        <= timeline_duration(instrs) by {
        assert(from_instr(track, k, instrs, instrs.len() as int, id, kind, conv));
        let j = choose|j: int|
            0 <= j < instrs.len() && matches_kind(#[trigger] instrs[j], id, kind) && track[k]
                == conv(instrs[j]);
        assert(!bad_duration(instrs[j]));
        assert(track[k].dur == instrs[j].duration as u64);
        assert(instrs[j].start + if instrs[j].duration > 0 {
            instrs[j].duration as int
        } else {
            0
        } <= timeline_duration(instrs));
    }
    assert forall|k: int, l: int| 0 <= k < l < track.len() implies windows_disjoint(
        #[trigger] track[k],
        #[trigger] track[l],
    ) by {
        assert(from_instr(track, k, instrs, instrs.len() as int, id, kind, conv));
        assert(from_instr(track, l, instrs, instrs.len() as int, id, kind, conv));
        let a = choose|a: int|
            0 <= a < instrs.len() && matches_kind(#[trigger] instrs[a], id, kind) && track[k]
                == conv(instrs[a]);
        let b = choose|b: int|
            0 <= b < instrs.len() && matches_kind(#[trigger] instrs[b], id, kind) && track[l]
                == conv(instrs[b]);
        assert(track[k].start == instrs[a].start);
        assert(track[l].start == instrs[b].start);
        assert(track[k].start < track[l].start);
        assert(a != b);
        if a < b {
            assert(!conflicts(instrs[a], instrs[b]));
        } else {
            assert(!conflicts(instrs[b], instrs[a]));
        }
        assert(!bad_duration(instrs[a]));
        assert(!bad_duration(instrs[b]));
        assert(tc_end(track[k]) == instr_end(instrs[a]));
        assert(tc_end(track[l]) == instr_end(instrs[b]));
    }
    lemma_disjoint_wf_track(track);
}

/// Builds one atom's timeline: the initial appearance from the layout and the
/// settings, and one sorted track per property holding exactly the
/// instructions that address this atom.
fn build_atom_timeline(def: &AtomDef, config: &Config, instrs: &Vec<Instruction>) -> (r:
    AtomTimeline)
    requires
        !has_bad_duration(instrs@),
        !has_conflict(instrs@),
    ensures
        atom_built(r, *def, *config, instrs@),
{
    let mut position: Vec<TimedChange<Position>> = Vec::new();
    let mut size: Vec<TimedChange<i64>> = Vec::new();
    let mut color: Vec<TimedChange<Rgba>> = Vec::new();
    let mut shuttle: Vec<TimedChange<bool>> = Vec::new();
    let mut label: Vec<TimedChange<String>> = Vec::new();
    let mut j: usize = 0;
    while j < instrs.len()
        invariant
            j <= instrs@.len(),
            !has_bad_duration(instrs@),
            !has_conflict(instrs@),
            sorted_strict(position@),
            covers_fwd(position@, instrs@, j as int, def.id, PropertyKind::Position, pos_conv()),
            covers_bwd(position@, instrs@, j as int, def.id, PropertyKind::Position, pos_conv()),
            sorted_strict(size@),
            covers_fwd(size@, instrs@, j as int, def.id, PropertyKind::Size, size_conv()),
            covers_bwd(size@, instrs@, j as int, def.id, PropertyKind::Size, size_conv()),
            sorted_strict(color@),
            covers_fwd(color@, instrs@, j as int, def.id, PropertyKind::Color, color_conv()),
            covers_bwd(color@, instrs@, j as int, def.id, PropertyKind::Color, color_conv()),
            sorted_strict(shuttle@),
            covers_fwd(shuttle@, instrs@, j as int, def.id, PropertyKind::Shuttle, shuttle_conv()),
            covers_bwd(shuttle@, instrs@, j as int, def.id, PropertyKind::Shuttle, shuttle_conv()),
            sorted_strict(label@),
            covers_fwd(label@, instrs@, j as int, def.id, PropertyKind::Label, label_conv()),
            covers_bwd(label@, instrs@, j as int, def.id, PropertyKind::Label, label_conv()),
        decreases instrs@.len() - j,
    {
        let r = &instrs[j];
        proof {
            assert(!bad_duration(instrs@[j as int]));
        }
        if r.atom == def.id {
            match &r.action {
                InstructionAction::SetPosition(p) => {
                    let ghost oldt = position@;
                    let item = TimedChange {
                        start: r.start,
                        dur: r.duration as u64,
                        interpolate: true,
                        target: *p,
                    };
                    track_insert(&mut position, item);
                    proof {
                        assert(item == pos_conv()(instrs@[j as int]));
                        lemma_insert_maintains(
                            oldt,
                            position@,
                            instrs@,
                            j as int,
                            def.id,
                            PropertyKind::Position,
                            pos_conv(),
                        );
                        lemma_skip_maintains(size@, instrs@, j as int, def.id, PropertyKind::Size, size_conv());
                        lemma_skip_maintains(color@, instrs@, j as int, def.id, PropertyKind::Color, color_conv());
                        lemma_skip_maintains(shuttle@, instrs@, j as int, def.id, PropertyKind::Shuttle, shuttle_conv());
                        lemma_skip_maintains(label@, instrs@, j as int, def.id, PropertyKind::Label, label_conv());
                    }
                },
                InstructionAction::SetSize(s) => {
                    let ghost oldt = size@;
                    let item = TimedChange {
                        start: r.start,
                        dur: r.duration as u64,
                        interpolate: true,
                        target: *s,
                    };
                    track_insert(&mut size, item);
                    proof {
                        assert(item == size_conv()(instrs@[j as int]));
                        lemma_insert_maintains(
                            oldt,
                            size@,
                            instrs@,
                            j as int,
                            def.id,
                            PropertyKind::Size,
                            size_conv(),
                        );
                        lemma_skip_maintains(position@, instrs@, j as int, def.id, PropertyKind::Position, pos_conv());
                        lemma_skip_maintains(color@, instrs@, j as int, def.id, PropertyKind::Color, color_conv());
                        lemma_skip_maintains(shuttle@, instrs@, j as int, def.id, PropertyKind::Shuttle, shuttle_conv());
                        lemma_skip_maintains(label@, instrs@, j as int, def.id, PropertyKind::Label, label_conv());
                    }
                },
                InstructionAction::SetColor { color: c, fade } => {
                    let ghost oldt = color@;
                    let item = TimedChange {
                        start: r.start,
                        dur: r.duration as u64,
                        interpolate: *fade,
                        target: *c,
                    };
                    track_insert(&mut color, item);
                    proof {
                        assert(item == color_conv()(instrs@[j as int]));
                        lemma_insert_maintains(
                            oldt,
                            color@,
                            instrs@,
                            j as int,
                            def.id,
                            PropertyKind::Color,
                            color_conv(),
                        );
                        lemma_skip_maintains(position@, instrs@, j as int, def.id, PropertyKind::Position, pos_conv());
                        lemma_skip_maintains(size@, instrs@, j as int, def.id, PropertyKind::Size, size_conv());
                        lemma_skip_maintains(shuttle@, instrs@, j as int, def.id, PropertyKind::Shuttle, shuttle_conv());
                        lemma_skip_maintains(label@, instrs@, j as int, def.id, PropertyKind::Label, label_conv());
                    }
                },
                InstructionAction::SetShuttle(v) => {
                    let ghost oldt = shuttle@;
                    let item = TimedChange {
                        start: r.start,
                        dur: r.duration as u64,
                        interpolate: false,
                        target: *v,
                    };
                    track_insert(&mut shuttle, item);
                    proof {
                        assert(item == shuttle_conv()(instrs@[j as int]));
                        lemma_insert_maintains(
                            oldt,
                            shuttle@,
                            instrs@,
                            j as int,
                            def.id,
                            PropertyKind::Shuttle,
                            shuttle_conv(),
                        );
                        lemma_skip_maintains(position@, instrs@, j as int, def.id, PropertyKind::Position, pos_conv());
                        lemma_skip_maintains(size@, instrs@, j as int, def.id, PropertyKind::Size, size_conv());
                        lemma_skip_maintains(color@, instrs@, j as int, def.id, PropertyKind::Color, color_conv());
                        lemma_skip_maintains(label@, instrs@, j as int, def.id, PropertyKind::Label, label_conv());
                    }
                },
                InstructionAction::SetLabel(s) => {
                    let ghost oldt = label@;
                    let item = TimedChange {
                        start: r.start,
                        dur: r.duration as u64,
                        interpolate: false,
                        target: s.clone(),
                    };
                    track_insert(&mut label, item);
                    proof {
                        assert(item == label_conv()(instrs@[j as int]));
                        lemma_insert_maintains(
                            oldt,
                            label@,
                            instrs@,
                            j as int,
                            def.id,
                            PropertyKind::Label,
                            label_conv(),
                        );
                        lemma_skip_maintains(position@, instrs@, j as int, def.id, PropertyKind::Position, pos_conv());
                        lemma_skip_maintains(size@, instrs@, j as int, def.id, PropertyKind::Size, size_conv());
                        lemma_skip_maintains(color@, instrs@, j as int, def.id, PropertyKind::Color, color_conv());
                        lemma_skip_maintains(shuttle@, instrs@, j as int, def.id, PropertyKind::Shuttle, shuttle_conv());
                    }
                },
            }
        } else {
            proof {
                lemma_skip_maintains(position@, instrs@, j as int, def.id, PropertyKind::Position, pos_conv());
                lemma_skip_maintains(size@, instrs@, j as int, def.id, PropertyKind::Size, size_conv());
                lemma_skip_maintains(color@, instrs@, j as int, def.id, PropertyKind::Color, color_conv());
                lemma_skip_maintains(shuttle@, instrs@, j as int, def.id, PropertyKind::Shuttle, shuttle_conv());
                lemma_skip_maintains(label@, instrs@, j as int, def.id, PropertyKind::Label, label_conv());
            }
        }
        j = j + 1;
    }
    AtomTimeline {
        id: def.id,
        initial: AtomState {
            position: def.position,
            size: config.atom_size,
            color: config.atom_color,
            shuttle: false,
            label: def.label.clone(),
        },
        position,
        size,
        color,
        shuttle,
        label,
    }
}

/// A field-wise copy of the settings; the clone of the family string keeps
/// its value.
pub(crate) fn clone_config(c: &Config) -> (r: Config)
    ensures
        r == *c,
{
    Config {
        background: c.background,
        atom_size: c.atom_size,
        atom_color: c.atom_color,
        shuttle: c.shuttle,
        label: LabelStyle {
            color: c.label.color,
            size: c.label.size,
            family: c.label.family.clone(),
        },
    }
}

impl Timeline {
    /// Every atom's tracks are well formed and close within the duration.
    pub open spec fn wf(&self) -> bool {
        forall|k: int| 0 <= k < self.atoms@.len() ==> (#[trigger] self.atoms@[k]).wf(
            self.duration as int,
        )
    }

    /// Builds a timeline from a machine layout, presentation settings and an
    /// instruction list. Construction either fully succeeds or fully fails:
    /// it reports the first applicable failure — a malformed duration, a
    /// reference to an atom missing from the layout, or two overlapping
    /// instructions on one atom's property — and succeeds exactly when none
    /// applies, yielding the exact per-property tracks and the animation end.
    pub fn new(machine: &MachineConfig, config: &Config, instrs: &Vec<Instruction>) -> (r: Result<
        Timeline,
        CoreError,
    >)
        ensures
            match r {
                Result::Err(e) => spec_validate(machine.atoms@, instrs@) == Result::Err::<
                    (),
                    CoreError,
                >(e),
                Result::Ok(tl) => {
                    &&& spec_validate(machine.atoms@, instrs@) == Result::Ok::<(), CoreError>(())
                    &&& timeline_built(tl, *machine, *config, instrs@)
                },
            },
    {
        match validate(machine, instrs) {
            Err(e) => Err(e),
            Ok(()) => {
                let duration = compute_duration(instrs);
                let mut atoms: Vec<AtomTimeline> = Vec::new();
                let mut k: usize = 0;
                while k < machine.atoms.len()
                    invariant
                        !has_bad_duration(instrs@),
                        !has_conflict(instrs@),
                        k <= machine.atoms@.len(),
                        atoms@.len() == k,
                        forall|i: int|
                            0 <= i < k ==> atom_built(
                                #[trigger] atoms@[i],
                                machine.atoms@[i],
                                *config,
                                instrs@,
                            ),
                    decreases machine.atoms@.len() - k,
                {
                    let at = build_atom_timeline(&machine.atoms[k], config, instrs);
                    atoms.push(at);
                    k = k + 1;
                }
                let tl = Timeline { atoms, config: clone_config(config), duration };
                proof {
                    assert forall|k2: int| 0 <= k2 < tl.atoms@.len() implies (
                    #[trigger] tl.atoms@[k2]).wf(tl.duration as int) by {
                        let a = tl.atoms@[k2];
                        let id = machine.atoms@[k2].id;
                        assert(a.id == id);
                        lemma_built_track_wf(
                            a.position@,
                            instrs@,
                            id,
                            PropertyKind::Position,
                            pos_conv(),
                        );
                        lemma_built_track_wf(a.size@, instrs@, id, PropertyKind::Size, size_conv());
                        lemma_built_track_wf(
                            a.color@,
                            instrs@,
                            id,
                            PropertyKind::Color,
                            color_conv(),
                        );
                        lemma_built_track_wf(
                            a.shuttle@,
                            instrs@,
                            id,
                            PropertyKind::Shuttle,
                            shuttle_conv(),
                        );
                        lemma_built_track_wf(
                            a.label@,
                            instrs@,
                            id,
                            PropertyKind::Label,
                            label_conv(),
                        );
                    }
                }
                Ok(tl)
            },
        }
    }

    /// End of the animation in ticks; zero when there are no instructions.
    pub fn duration(&self) -> (r: u64)
        ensures
            r == self.duration,
    {
        self.duration
    }

    /// The global background color.
    pub fn background(&self) -> (r: Rgba)
        ensures
            r == self.config.background,
    {
        self.config.background
    }

    /// The visual snapshot at query time `t`. Out-of-range times are silently
    /// clamped to the animation's end; the query never fails and mutates
    /// nothing, so equal times give equal snapshots.
    pub fn state(&self, t: u64) -> (r: State)
        requires
            self.wf(),
        ensures
            r@ == state_model_at(*self, clamped(t as int, self.duration as int)),
    {
        let tc = crate::num::clamp_time(t, self.duration);
        let mut atoms: Vec<AtomSnapshot> = Vec::new();
        let mut k: usize = 0;
        while k < self.atoms.len()
            invariant
                self.wf(),
                tc as int == clamped(t as int, self.duration as int),
                k <= self.atoms@.len(),
                atoms@.len() == k,
                forall|i: int|
                    0 <= i < k ==> (#[trigger] atoms@[i])@ == (
                    self.atoms@[i].id,
                    atom_model_at(self.atoms@[i], tc as int),
                ),
            decreases self.atoms@.len() - k,
        {
            let a = &self.atoms[k];
            proof {
                assert(self.atoms@[k as int].wf(self.duration as int));
            }
            let snap = AtomSnapshot { id: a.id, atom: eval_atom(a, tc) };
            atoms.push(snap);
            k = k + 1;
        }
        let r = State { atoms, background: self.config.background };
        proof {
            assert(r@.atoms =~= state_model_at(*self, tc as int).atoms);
        }
        r
    }
}


/// The first change of the track, if any, is a transition rather than a step
/// at tick zero: before it completes, the interpolation still passes through
/// the initial value.
pub open spec fn no_step_at_zero<T>(s: Seq<TimedChange<T>>) -> bool {
    s.len() > 0 && s[0].start == 0 ==> s[0].interpolate && s[0].dur > 0
}

/// The first change of the track, if any, comes strictly after tick zero.
pub open spec fn starts_after_zero<T>(s: Seq<TimedChange<T>>) -> bool {
    s.len() > 0 ==> s[0].start > 0
}

/// No atom's property is stepped exactly at tick zero: numeric and fading
/// tracks may start a transition there, discrete tracks must start later.
pub open spec fn no_changes_at_zero(tl: Timeline) -> bool {
    forall|k: int|
        0 <= k < tl.atoms@.len() ==> {
            let a = #[trigger] tl.atoms@[k];
            &&& no_step_at_zero(a.position@)
            &&& no_step_at_zero(a.size@)
            &&& no_step_at_zero(a.color@)
            &&& starts_after_zero(a.shuttle@)
            &&& starts_after_zero(a.label@)
        }
}

/// The snapshot of the initial values alone.
pub open spec fn initial_state_model(tl: Timeline) -> StateModel {
    StateModel {
        atoms: Seq::new(tl.atoms@.len(), |k: int| (tl.atoms@[k].id, tl.atoms@[k].initial@)),
        background: tl.config.background,
    }
}

/// The value a track rests at once every change has completed.
pub open spec fn track_final_i64(init: i64, s: Seq<TimedChange<i64>>) -> i64 {
    if s.len() == 0 {
        init
    } else {
        s.last().target
    }
}

pub open spec fn track_final_pos(init: Position, s: Seq<TimedChange<Position>>) -> Position {
    if s.len() == 0 {
        init
    } else {
        s.last().target
    }
}

pub open spec fn track_final_color(init: Rgba, s: Seq<TimedChange<Rgba>>) -> Rgba {
    if s.len() == 0 {
        init
    } else {
        s.last().target
    }
}

pub open spec fn track_final_bool(init: bool, s: Seq<TimedChange<bool>>) -> bool {
    if s.len() == 0 {
        init
    } else {
        s.last().target
    }
}

pub open spec fn track_final_label(init: Seq<char>, s: Seq<TimedChange<String>>) -> Seq<char> {
    if s.len() == 0 {
        init
    } else {
        s.last().target@
    }
}

/// The appearance an atom rests at once every change has completed.
pub open spec fn final_atom_model(a: AtomTimeline) -> AtomModel {
    AtomModel {
        position: track_final_pos(a.initial.position, a.position@),
        size: track_final_i64(a.initial.size, a.size@),
        color: track_final_color(a.initial.color, a.color@),
        shuttle: track_final_bool(a.initial.shuttle, a.shuttle@),
        label: track_final_label(a.initial.label@, a.label@),
    }
}

/// The snapshot of the final values alone.
pub open spec fn final_state_model(tl: Timeline) -> StateModel {
    StateModel {
        atoms: Seq::new(
            tl.atoms@.len(),
            |k: int| (tl.atoms@[k].id, final_atom_model(tl.atoms@[k])),
        ),
        background: tl.config.background,
    }
}

/// Common shape of the tick-zero argument: the located change, if any, is the
/// first one, in flight at tick zero.
proof fn lemma_locate_at_zero<T>(s: Seq<TimedChange<T>>)
    requires
        wf_track(s),
    ensures
        s.len() == 0 || s[0].start > 0 ==> track_locate(s, 0) == -1,
        s.len() > 0 && s[0].start == 0 ==> track_locate(s, 0) == 0,
{
    crate::track::lemma_wf_track_sorted(s);
    lemma_track_locate_props(s, 0);
    if s.len() == 0 {
    } else if s[0].start > 0 {
        assert forall|k: int| 0 <= k < s.len() implies (#[trigger] s[k]).start > 0 by {
            if k > 0 {
                assert(s[0].start < s[k].start);
            }
        }
        crate::track::lemma_locate_none(s, 0);
    } else {
        let r = track_locate(s, 0);
        if r < 0 {
            assert(s[0].start > 0);
        } else if r > 0 {
            assert(s[0].start < s[r].start);
        }
    }
}

/// Common shape of the end argument: once every window has closed, the last
/// change, if any, is located and no longer in flight.
proof fn lemma_locate_at_end<T>(s: Seq<TimedChange<T>>, t: int)
    requires
        track_within(s, t),
    ensures
        s.len() == 0 ==> track_locate(s, t) == -1,
        s.len() > 0 ==> track_locate(s, t) == s.len() - 1 && !(t < s.last().start + s.last().dur),
{
    if s.len() > 0 {
        assert forall|k: int| 0 <= k < s.len() implies (#[trigger] s[k]).start <= t by {
            assert(s[k].start + s[k].dur <= t);
        }
        crate::track::lemma_locate_last(s, t);
        assert(s.last().start + s.last().dur <= t);
    }
}

proof fn lemma_track_i64_at_zero(init: i64, s: Seq<TimedChange<i64>>)
    requires
        wf_track(s),
        no_step_at_zero(s),
    ensures
        track_value_i64(init, s, 0) == init,
{
    lemma_locate_at_zero(s);
    if s.len() > 0 && s[0].start == 0 {
        crate::num::lemma_lerp_endpoints(init as int, s[0].target as int, s[0].dur as int);
    }
}

proof fn lemma_track_pos_at_zero(init: Position, s: Seq<TimedChange<Position>>)
    requires
        wf_track(s),
        no_step_at_zero(s),
    ensures
        track_value_pos(init, s, 0) == init,
{
    lemma_locate_at_zero(s);
    if s.len() > 0 && s[0].start == 0 {
        crate::num::lemma_lerp_endpoints(init.x as int, s[0].target.x as int, s[0].dur as int);
        crate::num::lemma_lerp_endpoints(init.y as int, s[0].target.y as int, s[0].dur as int);
    }
}

proof fn lemma_track_color_at_zero(init: Rgba, s: Seq<TimedChange<Rgba>>)
    requires
        wf_track(s),
        no_step_at_zero(s),
    ensures
        track_value_color(init, s, 0) == init,
{
    lemma_locate_at_zero(s);
    if s.len() > 0 && s[0].start == 0 {
        crate::num::lemma_lerp_endpoints(init.r as int, s[0].target.r as int, s[0].dur as int);
        crate::num::lemma_lerp_endpoints(init.g as int, s[0].target.g as int, s[0].dur as int);
        crate::num::lemma_lerp_endpoints(init.b as int, s[0].target.b as int, s[0].dur as int);
        crate::num::lemma_lerp_endpoints(init.a as int, s[0].target.a as int, s[0].dur as int);
    }
}

proof fn lemma_track_bool_at_zero(init: bool, s: Seq<TimedChange<bool>>)
    requires
        wf_track(s),
        starts_after_zero(s),
    ensures
        track_value_bool(init, s, 0) == init,
{
    lemma_locate_at_zero(s);
}

proof fn lemma_track_label_at_zero(init: Seq<char>, s: Seq<TimedChange<String>>)
    requires
        wf_track(s),
        starts_after_zero(s),
    ensures
        track_value_label(init, s, 0) == init,
{
    lemma_locate_at_zero(s);
}

/// Law: at time zero a valid timeline shows each atom's initial values,
/// provided nothing is stepped exactly at tick zero — a step at zero is first
/// visible at zero, so the initial value is never shown for it.
pub proof fn lemma_state_at_start(tl: Timeline)
    requires
        tl.wf(),
        no_changes_at_zero(tl),
    ensures
        state_model_at(tl, 0) == initial_state_model(tl),
{
    assert forall|k: int| 0 <= k < tl.atoms@.len() implies atom_model_at(
        #[trigger] tl.atoms@[k],
        0,
    ) == tl.atoms@[k].initial@ by {
        let a = tl.atoms@[k];
        assert(a.wf(tl.duration as int));
        lemma_track_pos_at_zero(a.initial.position, a.position@);
        lemma_track_i64_at_zero(a.initial.size, a.size@);
        lemma_track_color_at_zero(a.initial.color, a.color@);
        lemma_track_bool_at_zero(a.initial.shuttle, a.shuttle@);
        lemma_track_label_at_zero(a.initial.label@, a.label@);
    }
    assert(state_model_at(tl, 0).atoms =~= initial_state_model(tl).atoms);
}

/// Law: from the animation's end onward a valid timeline shows each atom's
/// final values — the last target of each track, or the initial value where
/// nothing ever changed. Every query past the end equals the query at the
/// end, which is why clamping the query time is invisible.
pub proof fn lemma_state_from_end(tl: Timeline, t: int)
    requires
        tl.wf(),
        t >= tl.duration,
    ensures
        state_model_at(tl, t) == final_state_model(tl),
{
    assert forall|k: int| 0 <= k < tl.atoms@.len() implies atom_model_at(
        #[trigger] tl.atoms@[k],
        t,
    ) == final_atom_model(tl.atoms@[k]) by {
        let a = tl.atoms@[k];
        assert(a.wf(tl.duration as int));
        assert(track_within(a.position@, t)) by {
            assert forall|j: int|
                0 <= j < a.position@.len() implies (#[trigger] a.position@[j]).start
                + a.position@[j].dur <= t by {
                assert(a.position@[j].start + a.position@[j].dur <= tl.duration as int);
            }
        }
        assert(track_within(a.size@, t)) by {
            assert forall|j: int| 0 <= j < a.size@.len() implies (#[trigger] a.size@[j]).start
                + a.size@[j].dur <= t by {
                assert(a.size@[j].start + a.size@[j].dur <= tl.duration as int);
            }
        }
        assert(track_within(a.color@, t)) by {
            assert forall|j: int| 0 <= j < a.color@.len() implies (#[trigger] a.color@[j]).start
                + a.color@[j].dur <= t by {
                assert(a.color@[j].start + a.color@[j].dur <= tl.duration as int);
            }
        }
        assert(track_within(a.shuttle@, t)) by {
            assert forall|j: int|
                0 <= j < a.shuttle@.len() implies (#[trigger] a.shuttle@[j]).start
                + a.shuttle@[j].dur <= t by {
                assert(a.shuttle@[j].start + a.shuttle@[j].dur <= tl.duration as int);
            }
        }
        assert(track_within(a.label@, t)) by {
            assert forall|j: int| 0 <= j < a.label@.len() implies (#[trigger] a.label@[j]).start
                + a.label@[j].dur <= t by {
                assert(a.label@[j].start + a.label@[j].dur <= tl.duration as int);
            }
        }
        lemma_locate_at_end(a.position@, t);
        lemma_locate_at_end(a.size@, t);
        lemma_locate_at_end(a.color@, t);
        lemma_locate_at_end(a.shuttle@, t);
        lemma_locate_at_end(a.label@, t);
    }
    assert(state_model_at(tl, t).atoms =~= final_state_model(tl).atoms);
}

/// Law: inside an interpolating window the value is continuous in the query
/// time. Approaching the window's end, the value approaches the change's
/// target with the proportional share of the endpoint distance, up to one
/// unit of rounding; at the window's start it equals the previous resting
/// value exactly, joining the curve without a jump.
pub proof fn lemma_track_i64_continuous(init: i64, s: Seq<TimedChange<i64>>, i: int, t: int)
    requires
        wf_track(s),
        0 <= i < s.len(),
        s[i].interpolate,
        s[i].dur > 0,
        s[i].start <= t < s[i].start + s[i].dur,
    ensures
        ({
            let prev = if i == 0 {
                init
            } else {
                s[i - 1].target
            };
            let v = track_value_i64(init, s, t);
            &&& crate::num::abs_i(v - s[i].target) <= crate::num::abs_i(s[i].target - prev) * (
            s[i].start + s[i].dur - t) / (s[i].dur as int) + 1
            &&& crate::num::abs_i(v - prev) <= crate::num::abs_i(s[i].target - prev) * (t
                - s[i].start) / (s[i].dur as int)
            &&& t == s[i].start ==> v == prev
        }),
{
    crate::track::lemma_locate_in_window(s, i, t);
    let prev = if i == 0 {
        init
    } else {
        s[i - 1].target
    };
    crate::num::lemma_lerp_within(prev as int, s[i].target as int, t - s[i].start, s[i].dur as int);
    crate::num::lemma_lerp_continuous(
        prev as int,
        s[i].target as int,
        t - s[i].start,
        s[i].dur as int,
    );
    crate::num::lemma_lerp_endpoints(prev as int, s[i].target as int, s[i].dur as int);
}

/// Law: both coordinates of a position are continuous in the query time
/// inside an interpolating window, as [`lemma_track_i64_continuous`] states it
/// for one scalar.
pub proof fn lemma_track_pos_continuous(
    init: Position,
    s: Seq<TimedChange<Position>>,
    i: int,
    t: int,
)
    requires
        wf_track(s),
        0 <= i < s.len(),
        s[i].interpolate,
        s[i].dur > 0,
        s[i].start <= t < s[i].start + s[i].dur,
    ensures
        ({
            let prev = if i == 0 {
                init
            } else {
                s[i - 1].target
            };
            let v = track_value_pos(init, s, t);
            &&& crate::num::abs_i(v.x - s[i].target.x) <= crate::num::abs_i(
                s[i].target.x - prev.x,
            ) * (s[i].start + s[i].dur - t) / (s[i].dur as int) + 1
            &&& crate::num::abs_i(v.y - s[i].target.y) <= crate::num::abs_i(
                s[i].target.y - prev.y,
            ) * (s[i].start + s[i].dur - t) / (s[i].dur as int) + 1
            &&& t == s[i].start ==> v == prev
        }),
{
    crate::track::lemma_locate_in_window(s, i, t);
    let prev = if i == 0 {
        init
    } else {
        s[i - 1].target
    };
    crate::num::lemma_lerp_within(
        prev.x as int,
        s[i].target.x as int,
        t - s[i].start,
        s[i].dur as int,
    );
    crate::num::lemma_lerp_continuous(
        prev.x as int,
        s[i].target.x as int,
        t - s[i].start,
        s[i].dur as int,
    );
    crate::num::lemma_lerp_endpoints(prev.x as int, s[i].target.x as int, s[i].dur as int);
    crate::num::lemma_lerp_within(
        prev.y as int,
        s[i].target.y as int,
        t - s[i].start,
        s[i].dur as int,
    );
    crate::num::lemma_lerp_continuous(
        prev.y as int,
        s[i].target.y as int,
        t - s[i].start,
        s[i].dur as int,
    );
    crate::num::lemma_lerp_endpoints(prev.y as int, s[i].target.y as int, s[i].dur as int);
}


/// Law: a snapshot is a mathematical function of the timeline and the query
/// time alone — `state` mutates nothing and reads nothing else, so repeated
/// queries with identical times yield identical snapshots, however far apart
/// the calls are in the timeline's lifetime.
pub proof fn lemma_state_deterministic(tl: Timeline, t1: int, t2: int)
    requires
        t1 == t2,
    ensures
        state_model_at(tl, t1) == state_model_at(tl, t2),
{
}

/// Law: the snapshot is continuous in the query time wherever a position
/// interpolates. For the atom at index `k` whose position change `i` is in
/// flight at `t`, the snapshot's position differs from the change's target by
/// at most the proportional share of the remaining distance, plus one unit of
/// rounding — so as `t` approaches the window's end, the shown position
/// approaches the target; at the window's start it equals the previous
/// resting value exactly.
pub proof fn lemma_state_position_continuous(tl: Timeline, k: int, i: int, t: int)
    requires
        tl.wf(),
        0 <= k < tl.atoms@.len(),
        0 <= i < tl.atoms@[k].position@.len(),
        tl.atoms@[k].position@[i].interpolate,
        tl.atoms@[k].position@[i].dur > 0,
        tl.atoms@[k].position@[i].start <= t < tl.atoms@[k].position@[i].start
            + tl.atoms@[k].position@[i].dur,
    ensures
        ({
            let a = tl.atoms@[k];
            let c = a.position@[i];
            let prev = if i == 0 {
                a.initial.position
            } else {
                a.position@[i - 1].target
            };
            let shown = state_model_at(tl, t).atoms[k].1.position;
            &&& crate::num::abs_i(shown.x - c.target.x) <= crate::num::abs_i(c.target.x - prev.x)
                * (c.start + c.dur - t) / (c.dur as int) + 1
            &&& crate::num::abs_i(shown.y - c.target.y) <= crate::num::abs_i(c.target.y - prev.y)
                * (c.start + c.dur - t) / (c.dur as int) + 1
            &&& t == c.start ==> shown == prev
        }),
{
    let a = tl.atoms@[k];
    assert(a.wf(tl.duration as int));
    lemma_track_pos_continuous(a.initial.position, a.position@, i, t);
    assert(state_model_at(tl, t).atoms[k].1 == atom_model_at(a, t));
}

} // verus!
