use naviz_core::state::Position;
use naviz_core::text::{
    Alignment, HAlignment, VAlignment, get_aligned_position, place_label, scaled_font_size,
    text_scale,
};
use naviz_core::viewport::{FX_ONE, Viewport, ViewportProjection, ViewportSource, ViewportTarget};

#[test]
fn font_size_scales_by_mean_axis_ratio() {
    // 10 * ((200 / 20) + (100 / 10)) / 2 == 100
    assert_eq!(scaled_font_size(10, (200, 100), 20, 10), 100);
    // 8 * ((300 / 100) + (100 / 20)) / 2 == 32
    assert_eq!(scaled_font_size(8, (300, 100), 100, 20), 32);
}

#[test]
fn text_scale_is_one_for_the_full_canonical_square() {
    assert_eq!(text_scale(ViewportTarget::default()), FX_ONE);
    let half = ViewportTarget { x: 0, y: 0, width: FX_ONE, height: FX_ONE };
    assert_eq!(text_scale(half), FX_ONE / 2);
}

#[test]
fn alignment_shifts_by_measured_extent() {
    let pos = Position { x: 100, y: 50 };
    let c = get_aligned_position(Alignment(HAlignment::Center, VAlignment::Center), pos, 20, 10);
    assert_eq!(c, Position { x: 90, y: 45 });
    let l = get_aligned_position(Alignment(HAlignment::Left, VAlignment::Top), pos, 20, 10);
    assert_eq!(l, Position { x: 100, y: 50 });
    let r = get_aligned_position(Alignment(HAlignment::Right, VAlignment::Bottom), pos, 20, 10);
    assert_eq!(r, Position { x: 80, y: 40 });
}

#[test]
fn centered_label_lands_centered_on_screen() {
    let v = Viewport::new(ViewportProjection {
        source: ViewportSource { width: 100, height: 100 },
        target: ViewportTarget::default(),
    })
    .unwrap();
    let placed = place_label(
        &v.transform,
        Position { x: 50, y: 50 },
        Alignment(HAlignment::Center, VAlignment::Center),
        (1000, 1000),
        10,
        10,
    );
    assert_eq!(placed, Position { x: 495, y: 495 });
}

#[test]
fn screen_anchor_counts_down_from_the_top() {
    let v = Viewport::new(ViewportProjection {
        source: ViewportSource { width: 100, height: 100 },
        target: ViewportTarget::default(),
    })
    .unwrap();
    let top_left = place_label(
        &v.transform,
        Position { x: 0, y: 0 },
        Alignment(HAlignment::Left, VAlignment::Top),
        (800, 600),
        0,
        0,
    );
    assert_eq!(top_left, Position { x: 0, y: 0 });
    let bottom_right = place_label(
        &v.transform,
        Position { x: 100, y: 100 },
        Alignment(HAlignment::Left, VAlignment::Top),
        (800, 600),
        0,
        0,
    );
    assert_eq!(bottom_right, Position { x: 800, y: 600 });
}
