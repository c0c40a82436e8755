use naviz_core::adapter::AnimatorAdapter;
use naviz_core::atoms::Atoms;
use naviz_core::color::Rgba;
use naviz_core::config::{AtomDef, Config, LabelStyle, LineStyle, MachineConfig};
use naviz_core::instructions::{Instruction, InstructionAction};
use naviz_core::state::{Position, State};
use naviz_core::viewport::{ViewportProjection, ViewportSource, ViewportTarget};

fn test_config() -> Config {
    Config {
        background: Rgba { r: 1, g: 2, b: 3, a: 255 },
        atom_size: 2,
        atom_color: Rgba { r: 200, g: 200, b: 200, a: 255 },
        shuttle: LineStyle {
            color: Rgba { r: 0, g: 255, b: 0, a: 255 },
            width: 1,
            segment_length: 8,
            duty: 500,
        },
        label: LabelStyle {
            color: Rgba { r: 255, g: 255, b: 255, a: 255 },
            size: 3,
            family: "monospace".to_string(),
        },
    }
}

fn machine() -> MachineConfig {
    MachineConfig {
        atoms: vec![AtomDef { id: 1, position: Position { x: 0, y: 0 }, label: "q0".to_string() }],
    }
}

fn move_instr(start: u64, duration: i64, x: i64, y: i64) -> Instruction {
    Instruction {
        atom: 1,
        start,
        duration,
        action: InstructionAction::SetPosition(Position { x, y }),
    }
}

fn projection() -> ViewportProjection {
    ViewportProjection {
        source: ViewportSource { width: 100, height: 100 },
        target: ViewportTarget::default(),
    }
}

#[test]
fn nothing_to_get_until_all_inputs_are_set() {
    let mut a = AnimatorAdapter::new();
    assert!(!a.all_inputs_set());
    assert!(a.get().is_none());
    a.set_machine_config(machine()).unwrap();
    a.set_visual_config(test_config()).unwrap();
    assert!(!a.all_inputs_set());
    assert!(a.get().is_none());
    a.set_instructions(vec![move_instr(0, 100, 10, 10)]).unwrap();
    assert!(a.all_inputs_set());
    assert!(a.get().is_some());
}

#[test]
fn full_update_demand_stays_until_performed() {
    let mut a = AnimatorAdapter::new();
    a.set_machine_config(machine()).unwrap();
    a.set_visual_config(test_config()).unwrap();
    a.set_instructions(vec![move_instr(0, 100, 10, 10)]).unwrap();
    assert!(a.get().unwrap().update_full);
    // a frame that failed its full update asks again next frame
    assert!(a.get().unwrap().update_full);
    a.full_update_performed();
    assert!(!a.get().unwrap().update_full);
    a.set_instructions(vec![move_instr(0, 100, 20, 20)]).unwrap();
    assert!(a.get().unwrap().update_full);
}

#[test]
fn snapshot_follows_the_playback_cursor() {
    let mut a = AnimatorAdapter::new();
    a.set_machine_config(machine()).unwrap();
    a.set_visual_config(test_config()).unwrap();
    a.set_instructions(vec![move_instr(0, 100, 10, 10)]).unwrap();
    a.playback.resume();
    a.playback.tick(50);
    let st = a.get().unwrap();
    assert_eq!(st.state.atoms[0].atom.position, Position { x: 5, y: 5 });
    assert_eq!(st.background, Rgba { r: 1, g: 2, b: 3, a: 255 });
    assert_eq!(st.background(), Rgba { r: 1, g: 2, b: 3, a: 255 });
}

#[test]
fn failed_rebuild_keeps_previous_timeline() {
    let mut a = AnimatorAdapter::new();
    a.set_machine_config(machine()).unwrap();
    a.set_visual_config(test_config()).unwrap();
    a.set_instructions(vec![move_instr(0, 100, 10, 10)]).unwrap();
    let overlapping = vec![move_instr(0, 10, 1, 1), move_instr(5, 10, 2, 2)];
    assert!(a.set_instructions(overlapping).is_err());
    let st = a.get().unwrap();
    assert_eq!(st.state.atoms[0].atom.position, Position { x: 0, y: 0 });
}

#[test]
fn animator_state_drives_the_atoms_component() {
    let mut a = AnimatorAdapter::new();
    a.set_machine_config(machine()).unwrap();
    a.set_visual_config(test_config()).unwrap();
    a.set_instructions(vec![move_instr(0, 100, 10, 10)]).unwrap();

    let empty = State { atoms: vec![], background: Rgba { r: 0, g: 0, b: 0, a: 255 } };
    let mut atoms = Atoms::new(&test_config(), &empty, projection(), (640, 480), 64).unwrap();

    let frame = a.get().unwrap();
    assert!(frame.update_full);
    frame.update(&mut atoms, projection()).unwrap();
    a.full_update_performed();
    assert_eq!(atoms.atoms.data.len(), 1);

    a.playback.seek(50);
    let frame = a.get().unwrap();
    assert!(!frame.update_full);
    frame.update(&mut atoms, projection()).unwrap();
    assert_eq!(atoms.atoms.data[0].center, Position { x: 5, y: 5 });
}

#[test]
fn viewport_resize_demands_a_full_update() {
    let mut a = AnimatorAdapter::new();
    a.set_machine_config(machine()).unwrap();
    a.set_visual_config(test_config()).unwrap();
    a.set_instructions(vec![move_instr(0, 100, 10, 10)]).unwrap();
    a.full_update_performed();
    assert!(!a.get().unwrap().update_full);
    a.viewport_resized();
    assert!(a.get().unwrap().update_full);
    a.full_update_performed();
    assert!(!a.get().unwrap().update_full);
}

#[test]
fn fresh_animator_for_export_matches_inputs() {
    let mut a = AnimatorAdapter::new();
    assert!(a.animator().is_none());
    a.set_machine_config(machine()).unwrap();
    a.set_visual_config(test_config()).unwrap();
    a.set_instructions(vec![move_instr(0, 100, 10, 10)]).unwrap();
    let tl = a.animator().unwrap();
    assert_eq!(tl.duration(), 100);
    assert_eq!(tl.state(50).atoms[0].atom.position, Position { x: 5, y: 5 });
}
