//! The atoms component: per-snapshot geometry derivation and the
//! full-versus-partial buffer-update protocol.
//!
//! From one snapshot and the settings it derives, per atom, one filled circle,
//! two guide lines when the atom shuttles, and one centered label. The derived
//! geometry lives in buffers of bounded capacity: a partial update rewrites
//! buffer contents in place and resizes only when the instance count outgrew
//! the capacity; a full update additionally recomputes the viewport transform.

use vstd::prelude::*;

verus! {

use crate::color::Rgba;
use crate::config::{Config, LineStyle};
use crate::state::{AtomModel, Position, State};
use crate::text::{Alignment, HAlignment, VAlignment, LabelModel, LabelSpec};
use crate::viewport::{Viewport, ViewportProjection, ViewportSource, degenerate};
use crate::CoreError;

/// One filled circle: an atom's body.
#[derive(Clone, Copy, Debug, PartialEq, Eq, Structural)]
pub struct CircleSpec {
    pub center: Position,
    pub radius: i64,
    pub color: Rgba,
    pub radius_inner: i64,
}

/// One styled line segment: half of an atom's guide cross.
#[derive(Clone, Copy, Debug, PartialEq, Eq, Structural)]
pub struct LineSpec {
    pub start: Position,
    pub end: Position,
    pub color: Rgba,
    pub width: i64,
    pub segment_length: i64,
    pub duty: i64,
}

/// The circle an atom's appearance derives to.
pub open spec fn circle_of(a: AtomModel) -> CircleSpec {
    CircleSpec { center: a.position, radius: a.size, color: a.color, radius_inner: 0 }
}

/// One circle per atom, in snapshot order.
pub open spec fn circles_spec(atoms: Seq<(u64, AtomModel)>) -> Seq<CircleSpec> {
    atoms.map_values(|p: (u64, AtomModel)| circle_of(p.1))
}

/// The vertical guide line through an atom: at the atom's `x`, spanning the
/// full height of the source rectangle.
pub open spec fn vertical_line_of(a: AtomModel, style: LineStyle, source: ViewportSource) -> LineSpec {
    LineSpec {
        start: Position { x: a.position.x, y: 0 },
        end: Position { x: a.position.x, y: source.height },
        color: style.color,
        width: style.width,
        segment_length: style.segment_length,
        duty: style.duty,
    }
}

/// The horizontal guide line through an atom: at the atom's `y`, spanning the
/// full width of the source rectangle.
pub open spec fn horizontal_line_of(a: AtomModel, style: LineStyle, source: ViewportSource) -> LineSpec {
    LineSpec {
        start: Position { x: 0, y: a.position.y },
        end: Position { x: source.width, y: a.position.y },
        color: style.color,
        width: style.width,
        segment_length: style.segment_length,
        duty: style.duty,
    }
}

/// The guide lines one atom contributes: exactly two — vertical then
/// horizontal — when it shuttles, none otherwise.
pub open spec fn shuttle_lines_of(a: AtomModel, style: LineStyle, source: ViewportSource) -> Seq<
    LineSpec,
> {
    if a.shuttle {
        seq![vertical_line_of(a, style, source), horizontal_line_of(a, style, source)]
    } else {
        Seq::empty()
    }
}

/// All guide lines of a snapshot, in snapshot order.
pub open spec fn lines_spec(
    atoms: Seq<(u64, AtomModel)>,
    style: LineStyle,
    source: ViewportSource,
) -> Seq<LineSpec>
    decreases atoms.len(),
{
    if atoms.len() == 0 {
        Seq::empty()
    } else {
        lines_spec(atoms.drop_last(), style, source) + shuttle_lines_of(
            atoms.last().1,
            style,
            source,
        )
    }
}

/// The label an atom's appearance derives to: its text at its position,
/// centered both ways.
pub open spec fn label_of(a: AtomModel) -> LabelModel {
    LabelModel {
        text: a.label,
        position: a.position,
        alignment: Alignment(HAlignment::Center, VAlignment::Center),
    }
}

/// One label per atom, in snapshot order.
pub open spec fn labels_spec(atoms: Seq<(u64, AtomModel)>) -> Seq<LabelModel> {
    atoms.map_values(|p: (u64, AtomModel)| label_of(p.1))
}

/// Derives the three geometry lists of a snapshot: the atom circles, the
/// guide lines of every shuttling atom spanning the source rectangle, and the
/// centered labels. Cost is linear in the atom count.
pub fn get_specs(config: &Config, state: &State, viewport_projection: ViewportProjection) -> (r: (
    Vec<CircleSpec>,
    Vec<LineSpec>,
    Vec<LabelSpec>,
))
    ensures
        r.0@ == circles_spec(state@.atoms),
        r.1@ == lines_spec(state@.atoms, config.shuttle, viewport_projection.source),
        r.2@.map_values(|l: LabelSpec| l@) == labels_spec(state@.atoms),
{
    let source = viewport_projection.source;
    let style = config.shuttle;
    let mut circles: Vec<CircleSpec> = Vec::new();
    let mut lines: Vec<LineSpec> = Vec::new();
    let mut labels: Vec<LabelSpec> = Vec::new();
    let mut i: usize = 0;
    while i < state.atoms.len()
        invariant
            i <= state.atoms@.len(),
            style == config.shuttle,
            source == viewport_projection.source,
            circles@.len() == i,
            forall|k: int| 0 <= k < i ==> circles@[k] == circle_of(state@.atoms[k].1),
            lines@ == lines_spec(state@.atoms.take(i as int), style, source),
            labels@.len() == i,
            forall|k: int| 0 <= k < i ==> (#[trigger] labels@[k])@ == label_of(state@.atoms[k].1),
        decreases state.atoms@.len() - i,
    {
        proof {
            assert(state@.atoms.take(i as int + 1).drop_last() =~= state@.atoms.take(i as int));
            assert(state@.atoms.take(i as int + 1).last() == state@.atoms[i as int]);
            assert(state@.atoms[i as int] == state.atoms@[i as int]@);
        }
        let a = &state.atoms[i];
        circles.push(
            CircleSpec {
                center: a.atom.position,
                radius: a.atom.size,
                color: a.atom.color,
                radius_inner: 0,
            },
        );
        if a.atom.shuttle {
            lines.push(
                LineSpec {
                    start: Position { x: a.atom.position.x, y: 0 },
                    end: Position { x: a.atom.position.x, y: source.height },
                    color: style.color,
                    width: style.width,
                    segment_length: style.segment_length,
                    duty: style.duty,
                },
            );
            lines.push(
                LineSpec {
                    start: Position { x: 0, y: a.atom.position.y },
                    end: Position { x: source.width, y: a.atom.position.y },
                    color: style.color,
                    width: style.width,
                    segment_length: style.segment_length,
                    duty: style.duty,
                },
            );
        }
        labels.push(
            LabelSpec {
                text: a.atom.label.clone(),
                position: a.atom.position,
                alignment: Alignment(HAlignment::Center, VAlignment::Center),
            },
        );
        proof {
            assert(lines@ =~= lines_spec(state@.atoms.take(i as int + 1), style, source));
        }
        i = i + 1;
    }
    proof {
        assert(state@.atoms.take(state@.atoms.len() as int) =~= state@.atoms);
        assert(circles@ =~= circles_spec(state@.atoms));
        assert(labels@.map_values(|l: LabelSpec| l@) =~= labels_spec(state@.atoms));
    }
    (circles, lines, labels)
}

/// A geometry buffer of bounded capacity, standing for GPU-resident instance
/// data: `capacity` slots are allocated, at most `limit` may ever be.
#[derive(Clone, Debug, PartialEq, Eq)]
pub struct Buffer<T> {
    pub data: Vec<T>,
    pub capacity: usize,
    pub limit: usize,
}

impl<T: Copy> Buffer<T> {
    /// The contents fit the allocation, which fits the host's limit.
    pub open spec fn wf(&self) -> bool {
        self.data@.len() <= self.capacity <= self.limit
    }

    /// Allocates a buffer holding the given instances.
    pub fn new(specs: &Vec<T>, limit: usize) -> (r: Result<Buffer<T>, CoreError>)
        ensures
            match r {
                Result::Ok(b) => specs@.len() <= limit && b.data@ == specs@ && b.capacity
                    == specs@.len() && b.limit == limit && b.wf(),
                Result::Err(e) => e == CoreError::BufferCapacityExceeded && specs@.len() > limit,
            },
    {
        if specs.len() > limit {
            return Err(CoreError::BufferCapacityExceeded);
        }
        let mut data: Vec<T> = Vec::new();
        let mut i: usize = 0;
        while i < specs.len()
            invariant
                i <= specs@.len(),
                data@ == specs@.take(i as int),
            decreases specs@.len() - i,
        {
            data.push(specs[i]);
            proof {
                assert(data@ =~= specs@.take(i as int + 1));
            }
            i = i + 1;
        }
        proof {
            assert(specs@.take(specs@.len() as int) =~= specs@);
        }
        Ok(Buffer { data, capacity: specs.len(), limit })
    }

    /// Rewrites the contents in place. Reallocates only when the instance
    /// count outgrew the capacity, and reports that resize; fails, changing
    /// nothing, when the count exceeds the host's limit.
    pub fn write(&mut self, specs: &Vec<T>) -> (r: Result<bool, CoreError>)
        requires
            old(self).wf(),
        ensures
            match r {
                Result::Ok(resized) => {
                    &&& final(self).data@ == specs@
                    &&& final(self).limit == old(self).limit
                    &&& final(self).capacity == if specs@.len() > old(self).capacity {
                        specs@.len() as int
                    } else {
                        old(self).capacity as int
                    }
                    &&& resized == (specs@.len() > old(self).capacity)
                    &&& final(self).wf()
                },
                Result::Err(e) => {
                    &&& e == CoreError::BufferCapacityExceeded
                    &&& specs@.len() > old(self).limit
                    &&& *final(self) == *old(self)
                },
            },
    {
        if specs.len() > self.limit {
            return Err(CoreError::BufferCapacityExceeded);
        }
        let resized = specs.len() > self.capacity;
        if resized {
            self.capacity = specs.len();
        }
        self.data.clear();
        let mut i: usize = 0;
        while i < specs.len()
            invariant
                i <= specs@.len(),
                self.data@ == specs@.take(i as int),
                self.limit == old(self).limit,
                self.capacity == if specs@.len() > old(self).capacity {
                    specs@.len() as int
                } else {
                    old(self).capacity as int
                },
            decreases specs@.len() - i,
        {
            self.data.push(specs[i]);
            proof {
                assert(self.data@ =~= specs@.take(i as int + 1));
            }
            i = i + 1;
        }
        proof {
            assert(specs@.take(specs@.len() as int) =~= specs@);
        }
        Ok(resized)
    }
}

/// A label buffer: as [`Buffer`], for owned label instances.
#[derive(Clone, Debug)]
pub struct LabelBuffer {
    pub data: Vec<LabelSpec>,
    pub capacity: usize,
    pub limit: usize,
}

/// Clones one label; the clone of the text keeps its value.
fn clone_label(l: &LabelSpec) -> (r: LabelSpec)
    ensures
        r == *l,
{
    LabelSpec { text: l.text.clone(), position: l.position, alignment: l.alignment }
}

impl LabelBuffer {
    /// The contents fit the allocation, which fits the host's limit.
    pub open spec fn wf(&self) -> bool {
        self.data@.len() <= self.capacity <= self.limit
    }

    /// Allocates a buffer holding the given labels.
    pub fn new(specs: &Vec<LabelSpec>, limit: usize) -> (r: Result<LabelBuffer, CoreError>)
        ensures
            match r {
                Result::Ok(b) => specs@.len() <= limit && b.data@ == specs@ && b.capacity
                    == specs@.len() && b.limit == limit && b.wf(),
                Result::Err(e) => e == CoreError::BufferCapacityExceeded && specs@.len() > limit,
            },
    {
        if specs.len() > limit {
            return Err(CoreError::BufferCapacityExceeded);
        }
        let mut data: Vec<LabelSpec> = Vec::new();
        let mut i: usize = 0;
        while i < specs.len()
            invariant
                i <= specs@.len(),
                data@ == specs@.take(i as int),
            decreases specs@.len() - i,
        {
            data.push(clone_label(&specs[i]));
            proof {
                assert(data@ =~= specs@.take(i as int + 1));
            }
            i = i + 1;
        }
        proof {
            assert(specs@.take(specs@.len() as int) =~= specs@);
        }
        Ok(LabelBuffer { data, capacity: specs.len(), limit })
    }

    /// Rewrites the contents in place, as [`Buffer::write`] does.
    pub fn write(&mut self, specs: &Vec<LabelSpec>) -> (r: Result<bool, CoreError>)
        requires
            old(self).wf(),
        ensures
            match r {
                Result::Ok(resized) => {
                    &&& final(self).data@ == specs@
                    &&& final(self).limit == old(self).limit
                    &&& final(self).capacity == if specs@.len() > old(self).capacity {
                        specs@.len() as int
                    } else {
                        old(self).capacity as int
                    }
                    &&& resized == (specs@.len() > old(self).capacity)
                    &&& final(self).wf()
                },
                Result::Err(e) => {
                    &&& e == CoreError::BufferCapacityExceeded
                    &&& specs@.len() > old(self).limit
                    &&& *final(self) == *old(self)
                },
            },
    {
        if specs.len() > self.limit {
            return Err(CoreError::BufferCapacityExceeded);
        }
        let resized = specs.len() > self.capacity;
        if resized {
            self.capacity = specs.len();
        }
        self.data.clear();
        let mut i: usize = 0;
        while i < specs.len()
            invariant
                i <= specs@.len(),
                self.data@ == specs@.take(i as int),
                self.limit == old(self).limit,
                self.capacity == if specs@.len() > old(self).capacity {
                    specs@.len() as int
                } else {
                    old(self).capacity as int
                },
            decreases specs@.len() - i,
        {
            self.data.push(clone_label(&specs[i]));
            proof {
                assert(self.data@ =~= specs@.take(i as int + 1));
            }
            i = i + 1;
        }
        proof {
            assert(specs@.take(specs@.len() as int) =~= specs@);
        }
        Ok(resized)
    }
}

/// The geometry classes the component draws, bottom-most first.
#[derive(Clone, Copy, Debug, PartialEq, Eq, Structural)]
pub enum DrawLayer {
    GuideLines,
    AtomBodies,
    Labels,
}

/// The atoms component: one buffer per geometry class, and the viewport whose
/// transform all of them draw through.
#[derive(Debug)]
pub struct Atoms {
    pub viewport: Viewport,
    pub atoms: Buffer<CircleSpec>,
    pub shuttles: Buffer<LineSpec>,
    pub labels: LabelBuffer,
    pub screen_resolution: (u32, u32),
}

impl Atoms {
    /// The viewport transform matches its projection and every buffer fits
    /// its allocation.
    pub open spec fn wf(&self) -> bool {
        self.viewport.wf() && self.atoms.wf() && self.shuttles.wf() && self.labels.wf()
    }

    /// The buffers hold exactly the geometry this snapshot and these settings
    /// derive to under the held projection.
    pub open spec fn holds(&self, config: Config, st: crate::state::StateModel) -> bool {
        &&& self.atoms.data@ == circles_spec(st.atoms)
        &&& self.shuttles.data@ == lines_spec(
            st.atoms,
            config.shuttle,
            self.viewport.projection.source,
        )
        &&& self.labels.data@.map_values(|l: LabelSpec| l@) == labels_spec(st.atoms)
    }

    /// Builds the component for a snapshot: derives the geometry, allocates
    /// one buffer per class with the given instance limit, and derives the
    /// viewport transform. Fails on a degenerate projection, or when a
    /// geometry list exceeds the limit.
    pub fn new(
        config: &Config,
        state: &State,
        viewport_projection: ViewportProjection,
        screen_resolution: (u32, u32),
        limit: usize,
    ) -> (r: Result<Atoms, CoreError>)
        requires
            -0x7fff_ffff_ffff_ffff <= viewport_projection.target.height,
            i64::MIN <= viewport_projection.target.y + viewport_projection.target.height
                <= i64::MAX,
        ensures
            match r {
                Result::Ok(a) => {
                    &&& !degenerate(viewport_projection)
                    &&& a.wf()
                    &&& a.viewport.projection == viewport_projection
                    &&& a.holds(*config, state@)
                    &&& a.atoms.limit == limit && a.shuttles.limit == limit && a.labels.limit
                        == limit
                    &&& a.atoms.capacity == circles_spec(state@.atoms).len()
                    &&& a.shuttles.capacity == lines_spec(
                        state@.atoms,
                        config.shuttle,
                        viewport_projection.source,
                    ).len()
                    &&& a.labels.capacity == labels_spec(state@.atoms).len()
                    &&& a.screen_resolution == screen_resolution
                },
                Result::Err(e) => (e == CoreError::DegenerateViewport && degenerate(
                    viewport_projection,
                )) || (e == CoreError::BufferCapacityExceeded && !degenerate(viewport_projection)
                    && (circles_spec(state@.atoms).len() > limit || lines_spec(
                    state@.atoms,
                    config.shuttle,
                    viewport_projection.source,
                ).len() > limit || labels_spec(state@.atoms).len() > limit)),
            },
    {
        let viewport = match Viewport::new(viewport_projection) {
            Err(e) => {
                return Err(e);
            },
            Ok(v) => v,
        };
        let (circles, lines, labels) = get_specs(config, state, viewport_projection);
        let atoms = match Buffer::new(&circles, limit) {
            Err(e) => {
                return Err(e);
            },
            Ok(b) => b,
        };
        let shuttles = match Buffer::new(&lines, limit) {
            Err(e) => {
                return Err(e);
            },
            Ok(b) => b,
        };
        let labels = match LabelBuffer::new(&labels, limit) {
            Err(e) => {
                proof {
                    assert(labels_spec(state@.atoms).len() == labels@.map_values(
                        |l: LabelSpec| l@,
                    ).len());
                }
                return Err(e);
            },
            Ok(b) => b,
        };
        Ok(Atoms { viewport, atoms, shuttles, labels, screen_resolution })
    }

    /// Replaces the screen resolution the text layer renders at.
    pub fn update_viewport(&mut self, screen_resolution: (u32, u32))
        ensures
            final(self).screen_resolution == screen_resolution,
            final(self).viewport == old(self).viewport,
            final(self).atoms == old(self).atoms,
            final(self).shuttles == old(self).shuttles,
            final(self).labels == old(self).labels,
    {
        self.screen_resolution = screen_resolution;
    }

    /// The fixed draw order: guide lines, then atom bodies, then labels, so
    /// that bodies cover their guides and labels stay readable on top.
    pub fn draw_order(&self) -> (r: Vec<DrawLayer>)
        ensures
            r@.len() == 3,
            r@[0] == DrawLayer::GuideLines,
            r@[1] == DrawLayer::AtomBodies,
            r@[2] == DrawLayer::Labels,
    {
        let mut r: Vec<DrawLayer> = Vec::new();
        r.push(DrawLayer::GuideLines);
        r.push(DrawLayer::AtomBodies);
        r.push(DrawLayer::Labels);
        r
    }
}

/// The component with its viewport replaced by the one a projection derives
/// to: what a full update does before rewriting the buffers.
pub open spec fn with_viewport(a: Atoms, vp: ViewportProjection) -> Atoms {
    Atoms {
        viewport: Viewport { projection: vp, transform: crate::viewport::transform_of(vp) },
        ..a
    }
}

/// What a successful partial update changes: the buffers now hold the derived
/// geometry, the viewport and every limit are untouched, capacities grow only
/// where the instance count outgrew them, and the report says whether any did.
pub open spec fn update_ok(
    pre: Atoms,
    post: Atoms,
    resized: bool,
    config: Config,
    st: crate::state::StateModel,
) -> bool {
    let circles = circles_spec(st.atoms);
    let lines = lines_spec(st.atoms, config.shuttle, pre.viewport.projection.source);
    let labels = labels_spec(st.atoms);
    &&& post.viewport == pre.viewport
    &&& post.screen_resolution == pre.screen_resolution
    &&& post.holds(config, st)
    &&& post.atoms.limit == pre.atoms.limit
    &&& post.shuttles.limit == pre.shuttles.limit
    &&& post.labels.limit == pre.labels.limit
    &&& post.atoms.capacity == if circles.len() > pre.atoms.capacity {
        circles.len() as int
    } else {
        pre.atoms.capacity as int
    }
    &&& post.shuttles.capacity == if lines.len() > pre.shuttles.capacity {
        lines.len() as int
    } else {
        pre.shuttles.capacity as int
    }
    &&& post.labels.capacity == if labels.len() > pre.labels.capacity {
        labels.len() as int
    } else {
        pre.labels.capacity as int
    }
    &&& resized == (circles.len() > pre.atoms.capacity || lines.len() > pre.shuttles.capacity
        || labels.len() > pre.labels.capacity)
}

impl Atoms {
    /// The per-frame cheap path: rewrites the buffer contents in place from
    /// the snapshot, under the unchanged viewport. Reallocates only the
    /// buffers whose instance count outgrew their capacity and reports
    /// whether any did; fails, changing nothing, when a count exceeds the
    /// host's limit.
    pub fn update(&mut self, config: &Config, state: &State) -> (r: Result<bool, CoreError>)
        requires
            old(self).wf(),
        ensures
            match r {
                Result::Ok(resized) => update_ok(*old(self), *final(self), resized, *config, state@)
                    && final(self).wf(),
                Result::Err(e) => {
                    &&& e == CoreError::BufferCapacityExceeded
                    &&& *final(self) == *old(self)
                    &&& (circles_spec(state@.atoms).len() > old(self).atoms.limit || lines_spec(
                        state@.atoms,
                        config.shuttle,
                        old(self).viewport.projection.source,
                    ).len() > old(self).shuttles.limit || labels_spec(state@.atoms).len() > old(
                        self,
                    ).labels.limit)
                },
            },
    {
        let (circles, lines, labels) = get_specs(config, state, self.viewport.projection);
        proof {
            assert(labels_spec(state@.atoms).len() == labels@.map_values(|l: LabelSpec| l@).len());
        }
        if circles.len() > self.atoms.limit || lines.len() > self.shuttles.limit || labels.len()
            > self.labels.limit {
            return Err(CoreError::BufferCapacityExceeded);
        }
        let r1 = self.atoms.write(&circles).unwrap();
        let r2 = self.shuttles.write(&lines).unwrap();
        let r3 = self.labels.write(&labels).unwrap();
        Ok(r1 || r2 || r3)
    }

    /// The structural path: recomputes the viewport transform for a new
    /// projection and rewrites all buffers, including everything the partial
    /// path touches. Fails, changing nothing, on a degenerate projection or
    /// when a geometry list exceeds a host limit.
    pub fn update_full(
        &mut self,
        config: &Config,
        state: &State,
        viewport_projection: ViewportProjection,
    ) -> (r: Result<bool, CoreError>)
        requires
            old(self).wf(),
            -0x7fff_ffff_ffff_ffff <= viewport_projection.target.height,
            i64::MIN <= viewport_projection.target.y + viewport_projection.target.height
                <= i64::MAX,
        ensures
            match r {
                Result::Ok(resized) => {
                    &&& !degenerate(viewport_projection)
                    &&& final(self).wf()
                    &&& final(self).viewport.projection == viewport_projection
                    &&& update_ok(
                        with_viewport(*old(self), viewport_projection),
                        *final(self),
                        resized,
                        *config,
                        state@,
                    )
                },
                Result::Err(e) => {
                    &&& *final(self) == *old(self)
                    &&& ((e == CoreError::DegenerateViewport && degenerate(viewport_projection))
                        || (e == CoreError::BufferCapacityExceeded && !degenerate(
                        viewport_projection,
                    ) && (circles_spec(state@.atoms).len() > old(self).atoms.limit || lines_spec(
                        state@.atoms,
                        config.shuttle,
                        viewport_projection.source,
                    ).len() > old(self).shuttles.limit || labels_spec(state@.atoms).len() > old(
                        self,
                    ).labels.limit)))
                },
            },
    {
        let viewport = match Viewport::new(viewport_projection) {
            Err(e) => {
                return Err(e);
            },
            Ok(v) => v,
        };
        let (circles, lines, labels) = get_specs(config, state, viewport_projection);
        proof {
            assert(labels_spec(state@.atoms).len() == labels@.map_values(|l: LabelSpec| l@).len());
        }
        if circles.len() > self.atoms.limit || lines.len() > self.shuttles.limit || labels.len()
            > self.labels.limit {
            return Err(CoreError::BufferCapacityExceeded);
        }
        self.viewport = viewport;
        let r1 = self.atoms.write(&circles).unwrap();
        let r2 = self.shuttles.write(&lines).unwrap();
        let r3 = self.labels.write(&labels).unwrap();
        Ok(r1 || r2 || r3)
    }
}

/// Law: a partial update right after a full update with identical derived
/// geometry leaves every buffer exactly as the full update wrote it — the
/// steady-state path rewrites the same contents, reallocates nothing, and
/// reports no resize.
pub proof fn lemma_partial_after_full(
    pre: Atoms,
    post: Atoms,
    resized: bool,
    config: Config,
    st: crate::state::StateModel,
)
    requires
        pre.wf(),
        pre.holds(config, st),
        update_ok(pre, post, resized, config, st),
    ensures
        post.atoms.data@ == pre.atoms.data@,
        post.shuttles.data@ == pre.shuttles.data@,
        post.labels.data@.map_values(|l: LabelSpec| l@) == pre.labels.data@.map_values(
            |l: LabelSpec| l@,
        ),
        post.viewport == pre.viewport,
        post.atoms.capacity == pre.atoms.capacity,
        post.shuttles.capacity == pre.shuttles.capacity,
        post.labels.capacity == pre.labels.capacity,
        !resized,
{
    assert(pre.labels.data@.map_values(|l: LabelSpec| l@).len() == pre.labels.data@.len());
}

} // verus!
