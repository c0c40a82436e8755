use naviz_core::state::Position;
use naviz_core::viewport::{
    FX_ONE, Viewport, ViewportProjection, ViewportSource, ViewportTarget,
};
use naviz_core::CoreError;

fn projection(width: i64, height: i64) -> ViewportProjection {
    ViewportProjection {
        source: ViewportSource { width, height },
        target: ViewportTarget::default(),
    }
}

#[test]
fn source_center_maps_to_render_origin() {
    let v = Viewport::new(projection(100, 100)).unwrap();
    let p = v.transform.apply(Position { x: 50, y: 50 });
    assert_eq!(p, Position { x: 0, y: 0 });
}

#[test]
fn source_corners_map_to_canonical_corners() {
    let v = Viewport::new(projection(100, 100)).unwrap();
    assert_eq!(v.transform.apply(Position { x: 0, y: 0 }), Position { x: -FX_ONE, y: FX_ONE });
    assert_eq!(v.transform.apply(Position { x: 100, y: 100 }), Position {
        x: FX_ONE,
        y: -FX_ONE,
    });
    assert_eq!(v.transform.apply(Position { x: 100, y: 0 }), Position { x: FX_ONE, y: FX_ONE });
}

#[test]
fn default_target_fills_canonical_square() {
    let t = ViewportTarget::default();
    assert_eq!(t.x, -FX_ONE);
    assert_eq!(t.y, -FX_ONE);
    assert_eq!(t.width, 2 * FX_ONE);
    assert_eq!(t.height, 2 * FX_ONE);
}

#[test]
fn zero_area_target_is_degenerate() {
    let p = ViewportProjection {
        source: ViewportSource { width: 100, height: 100 },
        target: ViewportTarget { x: 0, y: 0, width: 0, height: 2 * FX_ONE },
    };
    assert_eq!(Viewport::new(p).err().unwrap(), CoreError::DegenerateViewport);
}

#[test]
fn empty_source_is_degenerate() {
    assert_eq!(Viewport::new(projection(0, 100)).err().unwrap(), CoreError::DegenerateViewport);
    assert_eq!(Viewport::new(projection(100, -3)).err().unwrap(), CoreError::DegenerateViewport);
}

#[test]
fn failed_update_keeps_previous_viewport() {
    let mut v = Viewport::new(projection(100, 100)).unwrap();
    let before = v;
    let r = v.update(projection(0, 50));
    assert_eq!(r.err().unwrap(), CoreError::DegenerateViewport);
    assert_eq!(v, before);
}

#[test]
fn update_replaces_transform() {
    let mut v = Viewport::new(projection(100, 100)).unwrap();
    v.update(projection(200, 100)).unwrap();
    let p = v.transform.apply(Position { x: 100, y: 50 });
    assert_eq!(p, Position { x: 0, y: 0 });
}

#[test]
fn offcenter_target_shifts_the_image() {
    let p = ViewportProjection {
        source: ViewportSource { width: 10, height: 10 },
        target: ViewportTarget { x: 0, y: 0, width: FX_ONE, height: FX_ONE },
    };
    let v = Viewport::new(p).unwrap();
    assert_eq!(v.transform.apply(Position { x: 0, y: 0 }), Position { x: 0, y: FX_ONE });
    assert_eq!(v.transform.apply(Position { x: 10, y: 10 }), Position { x: FX_ONE, y: 0 });
}

/// The fixed-point transform agrees with the floating-point composition of
/// the two orthographic projections, computed the way a GPU host builds it.
#[test]
fn transform_matches_float_orthographic_composition() {
    let source = ViewportSource { width: 320, height: 180 };
    let target = ViewportTarget {
        x: -FX_ONE / 2,
        y: -FX_ONE / 4,
        width: FX_ONE,
        height: FX_ONE / 2,
    };
    let v = Viewport::new(ViewportProjection { source, target }).unwrap();

    let fx = FX_ONE as f32;
    let from_content =
        glam::Mat4::orthographic_rh(0.0, source.width as f32, source.height as f32, 0.0, -1.0, 1.0);
    let to_viewport = glam::Mat4::orthographic_rh(
        target.x as f32 / fx,
        (target.x + target.width) as f32 / fx,
        target.y as f32 / fx,
        (target.y + target.height) as f32 / fx,
        -1.0,
        1.0,
    )
    .inverse();
    let mat = to_viewport * from_content;

    for (x, y) in [(0i64, 0i64), (320, 180), (160, 90), (13, 77)] {
        let exact = v.transform.apply(Position { x, y });
        let float = mat.transform_point3(glam::Vec3::new(x as f32, y as f32, 0.0));
        assert!((exact.x as f32 / fx - float.x).abs() < 1e-4);
        assert!((exact.y as f32 / fx - float.y).abs() < 1e-4);
    }
}
