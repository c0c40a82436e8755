//! The animator adapter: owns the inputs, rebuilds the timeline atomically
//! when one of them changes, and hands out per-frame snapshots together with
//! the full-versus-partial update decision.

use vstd::prelude::*;

verus! {

use crate::atoms::{Atoms, update_ok, circles_spec, lines_spec, labels_spec};
use crate::color::Rgba;
use crate::config::{Config, MachineConfig};
use crate::instructions::Instruction;
use crate::playback::Playback;
use crate::state::State;
use crate::timeline::{Timeline, clamped, spec_validate, state_model_at, timeline_built};
use crate::viewport::{ViewportProjection, degenerate};
use crate::CoreError;

/// The animator's output for one frame: the snapshot at the current cursor,
/// the settings it was derived under, whether the consumer must take the full
/// update path, and the background color.
#[derive(Debug)]
pub struct AnimatorState {
    /// Whether a structural change demands a full update this frame.
    pub update_full: bool,
    /// The snapshot at the current query time.
    pub state: State,
    /// The settings the snapshot was derived under.
    pub config: Config,
    /// The background color.
    pub background: Rgba,
}

impl AnimatorState {
    /// The background color of this animator state.
    pub fn background(&self) -> (r: Rgba)
        ensures
            r == self.background,
    {
        self.background
    }

    /// Pushes this animator state into the atoms component, taking the full
    /// path when a structural change demands it and the cheap partial path
    /// otherwise. Failures surface; they must not be swallowed, since drawing
    /// with undersized buffers would corrupt output.
    pub fn update(&self, atoms: &mut Atoms, viewport_projection: ViewportProjection) -> (r: Result<
        bool,
        CoreError,
    >)
        requires
            old(atoms).wf(),
            -0x7fff_ffff_ffff_ffff <= viewport_projection.target.height,
            i64::MIN <= viewport_projection.target.y + viewport_projection.target.height
                <= i64::MAX,
        ensures
            match r {
                Result::Ok(resized) => {
                    &&& final(atoms).wf()
                    &&& final(atoms).holds(self.config, self.state@)
                    &&& self.update_full ==> final(atoms).viewport.projection
                        == viewport_projection
                    &&& !self.update_full ==> update_ok(
                        *old(atoms),
                        *final(atoms),
                        resized,
                        self.config,
                        self.state@,
                    )
                },
                Result::Err(e) => {
                    &&& *final(atoms) == *old(atoms)
                    &&& (e == CoreError::BufferCapacityExceeded || (self.update_full && e
                        == CoreError::DegenerateViewport && degenerate(viewport_projection)))
                    &&& (e == CoreError::BufferCapacityExceeded ==> ({
                        let src = if self.update_full {
                            viewport_projection.source
                        } else {
                            old(atoms).viewport.projection.source
                        };
                        ||| circles_spec(self.state@.atoms).len() > old(atoms).atoms.limit
                        ||| lines_spec(self.state@.atoms, self.config.shuttle, src).len() > old(
                            atoms,
                        ).shuttles.limit
                        ||| labels_spec(self.state@.atoms).len() > old(atoms).labels.limit
                    }))
                },
            },
    {
        if self.update_full {
            atoms.update_full(&self.config, &self.state, viewport_projection)
        } else {
            atoms.update(&self.config, &self.state)
        }
    }
}

/// What replacing an input guarantees. With all three inputs present the
/// timeline is rebuilt: on success the new timeline replaces the old one, a
/// fresh paused cursor starts at zero, and the next frame takes the full
/// path; on failure — reported exactly as validation decides — the previous
/// timeline, cursor and pending update demand stay untouched. While an input
/// is missing nothing is rebuilt.
pub open spec fn rebuild_post(
    pre: AnimatorAdapter,
    post: AnimatorAdapter,
    r: Result<(), CoreError>,
) -> bool {
    match (post.machine, post.visual, post.instructions) {
        (Option::Some(m), Option::Some(v), Option::Some(ins)) => match r {
            Result::Ok(()) => {
                &&& spec_validate(m.atoms@, ins@) == Result::Ok::<(), CoreError>(())
                &&& post.timeline matches Option::Some(tl) && timeline_built(tl, m, v, ins@)
                &&& post.update_full
                &&& post.playback.t == 0 && !post.playback.playing
                &&& post.timeline matches Option::Some(tl2) && post.playback.duration
                    == tl2.duration
            },
            Result::Err(e) => {
                &&& spec_validate(m.atoms@, ins@) == Result::Err::<(), CoreError>(e)
                &&& post.timeline == pre.timeline
                &&& post.playback == pre.playback
                &&& post.update_full == pre.update_full
            },
        },
        _ => {
            &&& r == Result::Ok::<(), CoreError>(())
            &&& post.timeline == pre.timeline
            &&& post.playback == pre.playback
            &&& post.update_full == pre.update_full
        },
    }
}

/// Owns the three inputs and the timeline built from them. Replacing an input
/// rebuilds the timeline atomically: a failed rebuild leaves the previous
/// timeline fully usable.
#[derive(Debug)]
pub struct AnimatorAdapter {
    /// Whether the next frame must take the full update path; set whenever
    /// an input or the target viewport changes, cleared once the host reports
    /// a full update performed.
    pub update_full: bool,
    /// The playback cursor over the current timeline.
    pub playback: Playback,
    /// The timeline built from the last consistent set of inputs.
    pub timeline: Option<Timeline>,
    pub machine: Option<MachineConfig>,
    pub visual: Option<Config>,
    pub instructions: Option<Vec<Instruction>>,
}

impl AnimatorAdapter {
    /// Any held timeline is well formed, and the cursor stays within it.
    pub open spec fn wf(&self) -> bool {
        &&& match self.timeline {
            Option::Some(tl) => tl.wf(),
            Option::None => true,
        }
        &&& self.playback.wf()
    }

    /// A fresh adapter: no inputs, no timeline, nothing to play.
    pub fn new() -> (r: AnimatorAdapter)
        ensures
            r.machine is None,
            r.visual is None,
            r.instructions is None,
            r.timeline is None,
            !r.update_full,
            r.wf(),
    {
        AnimatorAdapter {
            update_full: false,
            playback: Playback::new(0),
            timeline: None,
            machine: None,
            visual: None,
            instructions: None,
        }
    }

    /// Whether all three inputs are set.
    pub fn all_inputs_set(&self) -> (r: bool)
        ensures
            r == (self.machine is Some && self.visual is Some && self.instructions is Some),
    {
        self.machine.is_some() && self.visual.is_some() && self.instructions.is_some()
    }

    /// Rebuilds the timeline once all inputs are set, as [`rebuild_post`]
    /// promises it.
    fn recreate_animator(&mut self) -> (r: Result<(), CoreError>)
        requires
            old(self).wf(),
        ensures
            final(self).machine == old(self).machine,
            final(self).visual == old(self).visual,
            final(self).instructions == old(self).instructions,
            final(self).wf(),
            rebuild_post(*old(self), *final(self), r),
    {
        match (&self.machine, &self.visual, &self.instructions) {
            (Some(machine), Some(visual), Some(instructions)) => {
                match Timeline::new(machine, visual, instructions) {
                    Ok(tl) => {
                        self.update_full = true;
                        self.playback = Playback::new(tl.duration());
                        self.timeline = Some(tl);
                        Ok(())
                    },
                    Err(e) => Err(e),
                }
            },
            _ => Ok(()),
        }
    }

    /// Sets the machine layout and rebuilds the timeline if the other inputs
    /// are present; a failed rebuild keeps the previous timeline usable.
    pub fn set_machine_config(&mut self, config: MachineConfig) -> (r: Result<(), CoreError>)
        requires
            old(self).wf(),
        ensures
            final(self).machine == Option::Some(config),
            final(self).visual == old(self).visual,
            final(self).instructions == old(self).instructions,
            final(self).wf(),
            rebuild_post(*old(self), *final(self), r),
    {
        self.machine = Some(config);
        self.recreate_animator()
    }

    /// Sets the presentation settings and rebuilds the timeline if the other
    /// inputs are present; a failed rebuild keeps the previous timeline usable.
    pub fn set_visual_config(&mut self, config: Config) -> (r: Result<(), CoreError>)
        requires
            old(self).wf(),
        ensures
            final(self).visual == Option::Some(config),
            final(self).machine == old(self).machine,
            final(self).instructions == old(self).instructions,
            final(self).wf(),
            rebuild_post(*old(self), *final(self), r),
    {
        self.visual = Some(config);
        self.recreate_animator()
    }

    /// Sets the instructions and rebuilds the timeline if the other inputs
    /// are present; a failed rebuild keeps the previous timeline usable.
    pub fn set_instructions(&mut self, instructions: Vec<Instruction>) -> (r: Result<(), CoreError>)
        requires
            old(self).wf(),
        ensures
            final(self).instructions == Option::Some(instructions),
            final(self).machine == old(self).machine,
            final(self).visual == old(self).visual,
            final(self).wf(),
            rebuild_post(*old(self), *final(self), r),
    {
        self.instructions = Some(instructions);
        self.recreate_animator()
    }

    /// Records that the target viewport changed size: the next frame must
    /// take the full update path, since the projection transform has to be
    /// recomputed.
    pub fn viewport_resized(&mut self)
        ensures
            final(self).update_full,
            final(self).playback == old(self).playback,
            final(self).timeline == old(self).timeline,
            final(self).machine == old(self).machine,
            final(self).visual == old(self).visual,
            final(self).instructions == old(self).instructions,
    {
        self.update_full = true;
    }

    /// The animator state for this frame: the snapshot at the current cursor,
    /// carrying the pending full-update demand. The demand stays pending
    /// until the host reports the full update performed, so a failed frame
    /// does not lose it. Returns nothing while no timeline is built.
    pub fn get(&mut self) -> (r: Option<AnimatorState>)
        requires
            old(self).wf(),
        ensures
            *final(self) == *old(self),
            match r {
                Option::None => old(self).timeline is None,
                Option::Some(st) => old(self).timeline matches Option::Some(tl) && {
                    &&& st.update_full == old(self).update_full
                    &&& st.state@ == state_model_at(
                        tl,
                        clamped(old(self).playback.t as int, tl.duration as int),
                    )
                    &&& st.config == tl.config
                    &&& st.background == tl.config.background
                },
            },
    {
        match &self.timeline {
            Some(tl) => {
                let st = AnimatorState {
                    update_full: self.update_full,
                    state: tl.state(self.playback.time()),
                    config: crate::timeline::clone_config(&tl.config),
                    background: tl.background(),
                };
                Some(st)
            },
            None => None,
        }
    }

    /// Records that the demanded full update has been performed: the next
    /// frame takes the cheap partial path. A frame whose full update failed
    /// does not call this, so the demand stays pending.
    pub fn full_update_performed(&mut self)
        ensures
            !final(self).update_full,
            final(self).playback == old(self).playback,
            final(self).timeline == old(self).timeline,
            final(self).machine == old(self).machine,
            final(self).visual == old(self).visual,
            final(self).instructions == old(self).instructions,
    {
        self.update_full = false;
    }

    /// Builds a fresh timeline from the current inputs, as the video exporter
    /// consumes it: the held one keeps animating the view meanwhile. Returns
    /// nothing while an input is missing or the inputs do not validate.
    pub fn animator(&self) -> (r: Option<Timeline>)
        ensures
            match r {
                Option::Some(tl) => match (self.machine, self.visual, self.instructions) {
                    (Option::Some(m), Option::Some(v), Option::Some(ins)) => timeline_built(
                        tl,
                        m,
                        v,
                        ins@,
                    ),
                    _ => false,
                },
                Option::None => !(self.machine is Some && self.visual is Some
                    && self.instructions is Some) || match (self.machine, self.instructions) {
                    (Option::Some(m), Option::Some(ins)) => spec_validate(m.atoms@, ins@) is Err,
                    _ => true,
                },
            },
    {
        match (&self.machine, &self.visual, &self.instructions) {
            (Some(machine), Some(visual), Some(instructions)) => {
                match Timeline::new(machine, visual, instructions) {
                    Ok(tl) => Some(tl),
                    Err(_) => None,
                }
            },
            _ => None,
        }
    }
}

} // verus!
