use naviz_core::atoms::{Atoms, Buffer, CircleSpec, DrawLayer, get_specs};
use naviz_core::color::Rgba;
use naviz_core::config::{Config, LabelStyle, LineStyle};
use naviz_core::state::{AtomSnapshot, AtomState, Position, State};
use naviz_core::text::{HAlignment, VAlignment};
use naviz_core::viewport::{ViewportProjection, ViewportSource, ViewportTarget};
use naviz_core::CoreError;

fn test_config() -> Config {
    Config {
        background: Rgba { r: 0, g: 0, b: 0, a: 255 },
        atom_size: 2,
        atom_color: Rgba { r: 200, g: 200, b: 200, a: 255 },
        shuttle: LineStyle {
            color: Rgba { r: 0, g: 255, b: 0, a: 255 },
            width: 1,
            segment_length: 8,
            duty: 500,
        },
        label: LabelStyle {
            color: Rgba { r: 255, g: 255, b: 255, a: 255 },
            size: 3,
            family: "monospace".to_string(),
        },
    }
}

fn atom(x: i64, y: i64, shuttle: bool, label: &str) -> AtomSnapshot {
    AtomSnapshot {
        id: 1,
        atom: AtomState {
            position: Position { x, y },
            size: 4,
            color: Rgba { r: 9, g: 8, b: 7, a: 255 },
            shuttle,
            label: label.to_string(),
        },
    }
}

fn projection(width: i64, height: i64) -> ViewportProjection {
    ViewportProjection {
        source: ViewportSource { width, height },
        target: ViewportTarget::default(),
    }
}

#[test]
fn shuttle_atom_yields_exactly_two_guide_lines() {
    let state = State {
        atoms: vec![atom(3, 4, true, "q0")],
        background: Rgba { r: 0, g: 0, b: 0, a: 255 },
    };
    let (_, lines, _) = get_specs(&test_config(), &state, projection(20, 10));
    assert_eq!(lines.len(), 2);
    assert_eq!(lines[0].start, Position { x: 3, y: 0 });
    assert_eq!(lines[0].end, Position { x: 3, y: 10 });
    assert_eq!(lines[1].start, Position { x: 0, y: 4 });
    assert_eq!(lines[1].end, Position { x: 20, y: 4 });
    for line in &lines {
        assert_eq!(line.color, Rgba { r: 0, g: 255, b: 0, a: 255 });
        assert_eq!(line.width, 1);
        assert_eq!(line.segment_length, 8);
        assert_eq!(line.duty, 500);
    }
}

#[test]
fn non_shuttle_atom_yields_no_guide_lines() {
    let state = State {
        atoms: vec![atom(3, 4, false, "q0")],
        background: Rgba { r: 0, g: 0, b: 0, a: 255 },
    };
    let (circles, lines, labels) = get_specs(&test_config(), &state, projection(20, 10));
    assert_eq!(lines.len(), 0);
    assert_eq!(circles.len(), 1);
    assert_eq!(labels.len(), 1);
}

#[test]
fn derived_circles_and_labels_match_the_snapshot() {
    let state = State {
        atoms: vec![atom(3, 4, false, "q0"), atom(7, 8, true, "q1")],
        background: Rgba { r: 0, g: 0, b: 0, a: 255 },
    };
    let (circles, _, labels) = get_specs(&test_config(), &state, projection(20, 10));
    assert_eq!(circles.len(), 2);
    assert_eq!(circles[0].center, Position { x: 3, y: 4 });
    assert_eq!(circles[0].radius, 4);
    assert_eq!(circles[0].color, Rgba { r: 9, g: 8, b: 7, a: 255 });
    assert_eq!(circles[0].radius_inner, 0);
    assert_eq!(labels[1].text, "q1");
    assert_eq!(labels[1].position, Position { x: 7, y: 8 });
    assert!(matches!(labels[1].alignment.0, HAlignment::Center));
    assert!(matches!(labels[1].alignment.1, VAlignment::Center));
}

#[test]
fn buffer_grows_only_beyond_capacity_and_reports_it() {
    let two = vec![
        CircleSpec {
            center: Position { x: 0, y: 0 },
            radius: 1,
            color: Rgba { r: 0, g: 0, b: 0, a: 0 },
            radius_inner: 0,
        };
        2
    ];
    let mut b = Buffer::new(&two, 8).unwrap();
    assert_eq!(b.capacity, 2);
    let one = vec![two[0]];
    assert_eq!(b.write(&one).unwrap(), false);
    assert_eq!(b.capacity, 2);
    assert_eq!(b.data.len(), 1);
    let three = vec![two[0]; 3];
    assert_eq!(b.write(&three).unwrap(), true);
    assert_eq!(b.capacity, 3);
}

#[test]
fn buffer_beyond_limit_fails_without_change() {
    let one = vec![CircleSpec {
        center: Position { x: 0, y: 0 },
        radius: 1,
        color: Rgba { r: 0, g: 0, b: 0, a: 0 },
        radius_inner: 0,
    }];
    let mut b = Buffer::new(&one, 2).unwrap();
    let before = b.clone();
    let four = vec![one[0]; 4];
    assert_eq!(b.write(&four).err().unwrap(), CoreError::BufferCapacityExceeded);
    assert_eq!(b, before);
}

#[test]
fn partial_update_after_full_update_produces_identical_buffers() {
    let config = test_config();
    let state = State {
        atoms: vec![atom(3, 4, true, "q0"), atom(7, 8, false, "q1")],
        background: Rgba { r: 0, g: 0, b: 0, a: 255 },
    };
    let vp = projection(20, 10);
    let mut a = Atoms::new(&config, &state, vp, (640, 480), 64).unwrap();
    assert_eq!(a.atoms.capacity, 2);
    assert_eq!(a.shuttles.capacity, 2);
    assert_eq!(a.labels.capacity, 2);
    a.update_full(&config, &state, vp).unwrap();
    let circles = a.atoms.data.clone();
    let lines = a.shuttles.data.clone();
    let labels = a.labels.data.clone();
    let viewport = a.viewport;
    let resized = a.update(&config, &state).unwrap();
    assert!(!resized);
    assert_eq!(a.atoms.data, circles);
    assert_eq!(a.shuttles.data, lines);
    assert_eq!(a.labels.data, labels);
    assert_eq!(a.viewport, viewport);
}

#[test]
fn full_update_replaces_the_viewport() {
    let config = test_config();
    let state = State { atoms: vec![], background: Rgba { r: 0, g: 0, b: 0, a: 255 } };
    let mut a = Atoms::new(&config, &state, projection(20, 10), (640, 480), 64).unwrap();
    a.update_full(&config, &state, projection(40, 10)).unwrap();
    assert_eq!(a.viewport.projection.source.width, 40);
}

#[test]
fn degenerate_projection_fails_update_full_atomically() {
    let config = test_config();
    let state = State { atoms: vec![], background: Rgba { r: 0, g: 0, b: 0, a: 255 } };
    let mut a = Atoms::new(&config, &state, projection(20, 10), (640, 480), 64).unwrap();
    let before = a.viewport;
    let r = a.update_full(&config, &state, projection(0, 10));
    assert_eq!(r.err().unwrap(), CoreError::DegenerateViewport);
    assert_eq!(a.viewport, before);
}

#[test]
fn update_beyond_limit_surfaces_capacity_error() {
    let config = test_config();
    let empty = State { atoms: vec![], background: Rgba { r: 0, g: 0, b: 0, a: 255 } };
    let mut a = Atoms::new(&config, &empty, projection(20, 10), (640, 480), 1).unwrap();
    let two = State {
        atoms: vec![atom(1, 1, false, "a"), atom(2, 2, false, "b")],
        background: Rgba { r: 0, g: 0, b: 0, a: 255 },
    };
    assert_eq!(a.update(&config, &two).err().unwrap(), CoreError::BufferCapacityExceeded);
}

#[test]
fn draw_order_is_lines_bodies_labels() {
    let config = test_config();
    let state = State { atoms: vec![], background: Rgba { r: 0, g: 0, b: 0, a: 255 } };
    let a = Atoms::new(&config, &state, projection(20, 10), (640, 480), 64).unwrap();
    let order = a.draw_order();
    assert_eq!(order, vec![DrawLayer::GuideLines, DrawLayer::AtomBodies, DrawLayer::Labels]);
}
