//! Host-side text layout math: where a shaped label is anchored on screen.
//!
//! Shaping itself is the host's business; this module computes the exact
//! anchor from the viewport transform, the screen resolution, the measured
//! extent of the shaped text, and the requested alignment.

use vstd::prelude::*;

verus! {

use crate::color::Rgba;
use crate::num::{mul_div_spec, mul_div_i64};
use crate::state::Position;
use crate::viewport::{ViewportProjection, ViewportTarget, ProjectionTransform, FX_ONE};

/// Horizontal anchoring of a text relative to its position.
#[derive(Clone, Copy, Debug, PartialEq, Eq, Structural)]
pub enum HAlignment {
    Left,
    Center,
    Right,
}

/// Vertical anchoring of a text relative to its position.
#[derive(Clone, Copy, Debug, PartialEq, Eq, Structural)]
pub enum VAlignment {
    Top,
    Center,
    Bottom,
}

/// Combined anchoring of a text.
#[derive(Clone, Copy, Debug, PartialEq, Eq, Structural)]
pub struct Alignment(pub HAlignment, pub VAlignment);

/// One label to draw: its text, its anchor position in logical coordinates,
/// and how it aligns around that anchor.
#[derive(Clone, Debug, PartialEq, Eq)]
pub struct LabelSpec {
    pub text: String,
    pub position: Position,
    pub alignment: Alignment,
}

/// Mathematical value of a [`LabelSpec`]: the same fields with the text as a
/// character sequence.
pub struct LabelModel {
    pub text: Seq<char>,
    pub position: Position,
    pub alignment: Alignment,
}

impl View for LabelSpec {
    type V = LabelModel;

    open spec fn view(&self) -> LabelModel {
        LabelModel { text: self.text@, position: self.position, alignment: self.alignment }
    }
}

/// Everything the text layer needs for one batch of labels.
#[derive(Debug)]
pub struct TextSpec {
    /// The viewport projection to render in.
    pub viewport_projection: ViewportProjection,
    /// The resolution of the screen, in pixels.
    pub screen_resolution: (u32, u32),
    /// The font size, in logical units.
    pub font_size: i64,
    /// The font family to shape with.
    pub font_family: String,
    /// The labels to render.
    pub texts: Vec<LabelSpec>,
    /// The color of every label.
    pub color: Rgba,
}

/// The font size scaled by the mean of the horizontal and vertical
/// screen-per-logical-unit ratios, as one exact rational:
/// `size * (sw / w + sh / h) / 2 == size * (sw * h + sh * w) / (2 * w * h)`.
pub open spec fn scaled_font_size_spec(size: int, sw: int, sh: int, w: int, h: int) -> int {
    size * (sw * h + sh * w) / (2 * w * h)
}

/// Scales a font size from logical units to screen pixels by the average of
/// the two axis ratios. The bounds keep the single 128-bit numerator exact.
pub fn scaled_font_size(size: i64, screen_resolution: (u32, u32), source_width: i64, source_height: i64) -> (r: i64)
    requires
        0 < source_width <= 0x7fff_ffff,
        0 < source_height <= 0x7fff_ffff,
        0 <= size <= 0x7fff_ffff,
        i64::MIN <= scaled_font_size_spec(
            size as int,
            screen_resolution.0 as int,
            screen_resolution.1 as int,
            source_width as int,
            source_height as int,
        ) <= i64::MAX,
    ensures
        r as int == scaled_font_size_spec(
            size as int,
            screen_resolution.0 as int,
            screen_resolution.1 as int,
            source_width as int,
            source_height as int,
        ),
{
    proof {
        let sz = size as int;
        let sw = screen_resolution.0 as int;
        let sh = screen_resolution.1 as int;
        let w = source_width as int;
        let h = source_height as int;
        assert(sw * h + sh * w <= 0x1_0000_0000_0000_0000_0000_0000 && 0 <= sw * h + sh * w
            && sz * (sw * h + sh * w) <= 0xffff_ffff_ffff_ffff_ffff_ffff_ffff_ffff && 0 <= sz * (sw
            * h + sh * w) && 0 < 2 * w * h <= 0xffff_ffff_ffff_ffff && 2 * w * h == 2 * (w
            * h)) by (nonlinear_arith)
            requires
                0 < w <= 0x7fff_ffff,
                0 < h <= 0x7fff_ffff,
                0 <= sz <= 0x7fff_ffff,
                0 <= sw <= 0xffff_ffff,
                0 <= sh <= 0xffff_ffff,
        ;
    }
    let num: u128 = (size as u128) * ((screen_resolution.0 as u128) * (source_height as u128)
        + (screen_resolution.1 as u128) * (source_width as u128));
    let den: u128 = 2 * (source_width as u128) * (source_height as u128);
    (num / den) as i64
}

/// The scale a shaped text draws at: the mean of the target rectangle's
/// width and height over the canonical span of two units — `(w + h) / 2 / 2`
/// — so a target filling the whole canonical square scales by one.
pub open spec fn text_scale_spec(target: ViewportTarget) -> int {
    (target.width + target.height) / 4
}

/// Computes the text scale factor of a target rectangle, in fixed point:
/// [`FX_ONE`] stands for a scale of one.
pub fn text_scale(target: ViewportTarget) -> (r: i64)
    ensures
        r as int == text_scale_spec(target),
{
    let sum: i128 = target.width as i128 + target.height as i128;
    if sum >= 0 {
        ((sum as u128) / 4) as i64
    } else {
        let q: u128 = (((-sum) as u128) + 3) / 4;
        proof {
            crate::num::lemma_neg_div((-sum) as int, 4);
        }
        (-(q as i128)) as i64
    }
}

/// Maps a render-space coordinate from the canonical span `[-1, 1]` onto the
/// screen span `[0, extent]`.
pub open spec fn canonical_to_screen(c: int, extent: int) -> int {
    mul_div_spec(c + FX_ONE as int, extent, 2 * FX_ONE as int)
}

/// The on-screen anchor of a logical position: project into render space,
/// then map onto the pixel grid, with the vertical axis counting down from
/// the top of the screen.
pub open spec fn screen_anchor_x(tr: ProjectionTransform, p: Position, sw: int) -> int {
    canonical_to_screen(tr.spec_apply_x(p.x as int), sw)
}

pub open spec fn screen_anchor_y(tr: ProjectionTransform, p: Position, sh: int) -> int {
    sh - canonical_to_screen(tr.spec_apply_y(p.y as int), sh)
}

/// Both screen anchors and their intermediates fit an `i64`.
pub open spec fn anchor_fits(tr: ProjectionTransform, p: Position, sw: int, sh: int) -> bool {
    &&& tr.apply_fits(p)
    &&& i64::MIN <= screen_anchor_x(tr, p, sw) <= i64::MAX
    &&& i64::MIN + sh <= screen_anchor_y(tr, p, sh)
    &&& screen_anchor_y(tr, p, sh) <= i64::MAX
    &&& i64::MIN <= mul_div_spec(
        tr.spec_apply_y(p.y as int) + FX_ONE as int,
        sh,
        2 * FX_ONE as int,
    ) <= i64::MAX
    &&& i64::MIN < tr.spec_apply_x(p.x as int) + FX_ONE as int <= i64::MAX
    &&& i64::MIN < tr.spec_apply_y(p.y as int) + FX_ONE as int <= i64::MAX
}

/// Computes the on-screen anchor of a logical position.
pub fn screen_anchor(tr: &ProjectionTransform, p: Position, screen_resolution: (u32, u32)) -> (r:
    Position)
    requires
        tr.wf(),
        anchor_fits(*tr, p, screen_resolution.0 as int, screen_resolution.1 as int),
    ensures
        r.x as int == screen_anchor_x(*tr, p, screen_resolution.0 as int),
        r.y as int == screen_anchor_y(*tr, p, screen_resolution.1 as int),
{
    let c = tr.apply(p);
    let x = mul_div_i64(c.x + FX_ONE, screen_resolution.0 as i64, 2 * FX_ONE);
    let y = mul_div_i64(c.y + FX_ONE, screen_resolution.1 as i64, 2 * FX_ONE);
    Position { x, y: screen_resolution.1 as i64 - y }
}

/// Shifts an anchor left by none, half, or all of the measured width, and up
/// by none, half, or all of the measured height, per the requested alignment.
/// The measured extent is in screen units, nonnegative, and small enough that
/// the shifted anchor still fits.
pub open spec fn aligned_x(alignment: Alignment, x: int, w: int) -> int {
    match alignment.0 {
        HAlignment::Left => x,
        HAlignment::Center => x - w / 2,
        HAlignment::Right => x - w,
    }
}

pub open spec fn aligned_y(alignment: Alignment, y: int, h: int) -> int {
    match alignment.1 {
        VAlignment::Top => y,
        VAlignment::Center => y - h / 2,
        VAlignment::Bottom => y - h,
    }
}

/// Aligns an element of measured extent `(w, h)` at the passed anchor.
pub fn get_aligned_position(alignment: Alignment, pos: Position, w: i64, h: i64) -> (r: Position)
    requires
        0 <= w,
        0 <= h,
        i64::MIN <= pos.x - w,
        i64::MIN <= pos.y - h,
    ensures
        r.x as int == aligned_x(alignment, pos.x as int, w as int),
        r.y as int == aligned_y(alignment, pos.y as int, h as int),
{
    let x = match alignment.0 {
        HAlignment::Left => pos.x,
        HAlignment::Center => pos.x - w / 2,
        HAlignment::Right => pos.x - w,
    };
    let y = match alignment.1 {
        VAlignment::Top => pos.y,
        VAlignment::Center => pos.y - h / 2,
        VAlignment::Bottom => pos.y - h,
    };
    Position { x, y }
}

/// Where a shaped label of measured screen extent `(w, h)` is placed: its
/// logical anchor projected onto the screen, then shifted per its alignment.
pub fn place_label(
    tr: &ProjectionTransform,
    position: Position,
    alignment: Alignment,
    screen_resolution: (u32, u32),
    w: i64,
    h: i64,
) -> (r: Position)
    requires
        tr.wf(),
        anchor_fits(*tr, position, screen_resolution.0 as int, screen_resolution.1 as int),
        0 <= w,
        0 <= h,
        i64::MIN <= screen_anchor_x(*tr, position, screen_resolution.0 as int) - w,
        i64::MIN <= screen_anchor_y(*tr, position, screen_resolution.1 as int) - h,
    ensures
        r.x as int == aligned_x(
            alignment,
            screen_anchor_x(*tr, position, screen_resolution.0 as int),
            w as int,
        ),
        r.y as int == aligned_y(
            alignment,
            screen_anchor_y(*tr, position, screen_resolution.1 as int),
            h as int,
        ),
{
    let anchor = screen_anchor(tr, position, screen_resolution);
    get_aligned_position(alignment, anchor, w, h)
}

} // verus!
