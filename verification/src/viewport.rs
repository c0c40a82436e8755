//! Viewport projection: pure fixed-point math mapping a logical content
//! rectangle onto a render-space target rectangle.
//!
//! The transform is the composition of two orthographic projections — content
//! to the canonical square, then the inverse of target to the canonical
//! square — which collapses to one affine map per axis. Render-space
//! coordinates are fixed-point with [`FX_ONE`] as one canonical unit; a
//! degenerate target cannot be inverted, so construction fails on it.

use vstd::prelude::*;

verus! {

use crate::num::{mul_div_spec, mul_div_i64};
use crate::state::Position;
use crate::CoreError;

/// One render-space unit in fixed-point coordinates: the canonical square
/// spans `-FX_ONE ..= FX_ONE` on both axes.
pub const FX_ONE: i64 = 65536;

/// The source coordinates of the viewport: logical content from `(0, 0)` in
/// the top-left to `(width, height)` in the bottom-right.
#[derive(Clone, Copy, Debug, PartialEq, Eq, Structural)]
pub struct ViewportSource {
    pub width: i64,
    pub height: i64,
}

impl ViewportSource {
    /// Logical coordinate of the left edge.
    pub fn left(&self) -> (r: i64)
        ensures
            r == 0,
    {
        0
    }

    /// Logical coordinate of the right edge.
    pub fn right(&self) -> (r: i64)
        ensures
            r == self.width,
    {
        self.width
    }

    /// Logical coordinate of the top edge.
    pub fn top(&self) -> (r: i64)
        ensures
            r == 0,
    {
        0
    }

    /// Logical coordinate of the bottom edge.
    pub fn bottom(&self) -> (r: i64)
        ensures
            r == self.height,
    {
        self.height
    }
}

/// The target coordinates of the viewport, in fixed-point render space.
#[derive(Clone, Copy, Debug, PartialEq, Eq, Structural)]
pub struct ViewportTarget {
    pub x: i64,
    pub y: i64,
    pub width: i64,
    pub height: i64,
}

impl Default for ViewportTarget {
    /// The default target fills the whole canonical render square.
    fn default() -> (r: Self)
        ensures
            r.x == -(FX_ONE as int),
            r.y == -(FX_ONE as int),
            r.width == 2 * FX_ONE as int,
            r.height == 2 * FX_ONE as int,
    {
        ViewportTarget { x: -FX_ONE, y: -FX_ONE, width: 2 * FX_ONE, height: 2 * FX_ONE }
    }
}

/// The specs of a viewport: coordinates are mapped from `source` into
/// `target`. Convertible into an affine transform by [`ViewportProjection::transform`].
#[derive(Clone, Copy, Debug, PartialEq, Eq, Structural)]
pub struct ViewportProjection {
    pub source: ViewportSource,
    pub target: ViewportTarget,
}

/// A projection is degenerate when the source rectangle has no positive area
/// or the target rectangle has no area: the target projection could not be
/// inverted, and the transform would be undefined.
pub open spec fn degenerate(p: ViewportProjection) -> bool {
    p.source.width <= 0 || p.source.height <= 0 || p.target.width == 0 || p.target.height == 0
}

/// The affine per-axis transform a projection composes to:
/// `X = x * x_num / x_den + x_off` and `Y = y * y_num / y_den + y_off`.
#[derive(Clone, Copy, Debug, PartialEq, Eq, Structural)]
pub struct ProjectionTransform {
    pub x_num: i64,
    pub x_den: i64,
    pub x_off: i64,
    pub y_num: i64,
    pub y_den: i64,
    pub y_off: i64,
}

/// The transform a non-degenerate projection denotes. The horizontal axis
/// scales by `target.width / source.width` from offset `target.x`; the
/// vertical axis flips, because the source counts down from the top while
/// render space counts up, so the top edge lands at `target.y + target.height`.
pub open spec fn transform_of(p: ViewportProjection) -> ProjectionTransform {
    ProjectionTransform {
        x_num: p.target.width,
        x_den: p.source.width,
        x_off: p.target.x,
        y_num: (-(p.target.height as int)) as i64,
        y_den: p.source.height,
        y_off: (p.target.y + p.target.height) as i64,
    }
}

impl ProjectionTransform {
    /// The divisors are positive, as they are for any transform built from a
    /// non-degenerate projection.
    pub open spec fn wf(&self) -> bool {
        self.x_den > 0 && self.y_den > 0
    }

    /// Exact render-space image of a logical `x` coordinate.
    pub open spec fn spec_apply_x(&self, x: int) -> int {
        mul_div_spec(x, self.x_num as int, self.x_den as int) + self.x_off
    }

    /// Exact render-space image of a logical `y` coordinate.
    pub open spec fn spec_apply_y(&self, y: int) -> int {
        mul_div_spec(y, self.y_num as int, self.y_den as int) + self.y_off
    }

    /// Both images of a point, and the scaled intermediate of each axis, fit
    /// a fixed-point coordinate.
    pub open spec fn apply_fits(&self, p: Position) -> bool {
        &&& i64::MIN <= mul_div_spec(p.x as int, self.x_num as int, self.x_den as int) <= i64::MAX
        &&& i64::MIN <= self.spec_apply_x(p.x as int) <= i64::MAX
        &&& i64::MIN <= mul_div_spec(p.y as int, self.y_num as int, self.y_den as int) <= i64::MAX
        &&& i64::MIN <= self.spec_apply_y(p.y as int) <= i64::MAX
    }

    /// Projects a logical point into render space.
    pub fn apply(&self, p: Position) -> (r: Position)
        requires
            self.wf(),
            self.apply_fits(p),
        ensures
            r.x as int == self.spec_apply_x(p.x as int),
            r.y as int == self.spec_apply_y(p.y as int),
    {
        let sx = mul_div_i64(p.x, self.x_num, self.x_den);
        let sy = mul_div_i64(p.y, self.y_num, self.y_den);
        Position { x: sx + self.x_off, y: sy + self.y_off }
    }
}

/// A viewport: owns the affine transform shared by every primitive that draws
/// through it, recomputed only when the projection changes.
#[derive(Clone, Copy, Debug, PartialEq, Eq, Structural)]
pub struct Viewport {
    pub projection: ViewportProjection,
    pub transform: ProjectionTransform,
}

impl Viewport {
    /// The held transform is the one the held projection denotes.
    pub open spec fn wf(&self) -> bool {
        !degenerate(self.projection) && self.transform == transform_of(self.projection)
            && self.transform.wf()
    }

    /// Creates a viewport for a projection, deriving its transform; fails on
    /// a degenerate projection rather than producing an undefined transform.
    /// The offsets must fit a fixed-point coordinate.
    pub fn new(projection: ViewportProjection) -> (r: Result<Viewport, CoreError>)
        requires
            -0x7fff_ffff_ffff_ffff <= projection.target.height,
            i64::MIN <= projection.target.y + projection.target.height <= i64::MAX,
        ensures
            match r {
                Result::Ok(v) => !degenerate(projection) && v.projection == projection && v.wf(),
                Result::Err(e) => e == CoreError::DegenerateViewport && degenerate(projection),
            },
    {
        if projection.source.width <= 0 || projection.source.height <= 0
            || projection.target.width == 0 || projection.target.height == 0 {
            return Err(CoreError::DegenerateViewport);
        }
        let transform = ProjectionTransform {
            x_num: projection.target.width,
            x_den: projection.source.width,
            x_off: projection.target.x,
            y_num: -projection.target.height,
            y_den: projection.source.height,
            y_off: projection.target.y + projection.target.height,
        };
        Ok(Viewport { projection, transform })
    }

    /// Replaces the projection and recomputes the transform. Fails on a
    /// degenerate projection, leaving the previous viewport fully usable.
    pub fn update(&mut self, projection: ViewportProjection) -> (r: Result<(), CoreError>)
        requires
            -0x7fff_ffff_ffff_ffff <= projection.target.height,
            i64::MIN <= projection.target.y + projection.target.height <= i64::MAX,
        ensures
            match r {
                Result::Ok(()) => !degenerate(projection) && final(self).projection == projection
                    && final(self).wf(),
                Result::Err(e) => e == CoreError::DegenerateViewport && degenerate(projection)
                    && *final(self) == *old(self),
            },
    {
        match Viewport::new(projection) {
            Ok(v) => {
                *self = v;
                Ok(())
            },
            Err(e) => Err(e),
        }
    }
}

} // verus!
