use naviz_core::color::Rgba;
use naviz_core::config::{AtomDef, Config, LabelStyle, LineStyle, MachineConfig};
use naviz_core::instructions::{Instruction, InstructionAction};
use naviz_core::state::Position;
use naviz_core::timeline::Timeline;
use naviz_core::CoreError;

fn test_config() -> Config {
    Config {
        background: Rgba { r: 10, g: 20, b: 30, a: 255 },
        atom_size: 2,
        atom_color: Rgba { r: 200, g: 200, b: 200, a: 255 },
        shuttle: LineStyle {
            color: Rgba { r: 0, g: 255, b: 0, a: 255 },
            width: 1,
            segment_length: 8,
            duty: 500,
        },
        label: LabelStyle {
            color: Rgba { r: 255, g: 255, b: 255, a: 255 },
            size: 3,
            family: "monospace".to_string(),
        },
    }
}

fn one_atom_machine() -> MachineConfig {
    MachineConfig {
        atoms: vec![AtomDef { id: 7, position: Position { x: 0, y: 0 }, label: "q0".to_string() }],
    }
}

fn move_instruction(atom: u64, start: u64, duration: i64, x: i64, y: i64) -> Instruction {
    Instruction { atom, start, duration, action: InstructionAction::SetPosition(Position { x, y }) }
}

#[test]
fn empty_timeline_has_zero_duration_and_empty_states() {
    let machine = MachineConfig { atoms: vec![] };
    let tl = Timeline::new(&machine, &test_config(), &vec![]).unwrap();
    assert_eq!(tl.duration(), 0);
    let st = tl.state(0);
    assert_eq!(st.atoms.len(), 0);
    let st = tl.state(123456);
    assert_eq!(st.atoms.len(), 0);
    assert_eq!(st.background, Rgba { r: 10, g: 20, b: 30, a: 255 });
}

#[test]
fn linear_move_midpoint() {
    let instrs = vec![move_instruction(7, 0, 1000, 10, 10)];
    let tl = Timeline::new(&one_atom_machine(), &test_config(), &instrs).unwrap();
    assert_eq!(tl.duration(), 1000);
    let st = tl.state(500);
    assert_eq!(st.atoms[0].atom.position, Position { x: 5, y: 5 });
    let st = tl.state(250);
    assert_eq!(st.atoms[0].atom.position, Position { x: 2, y: 2 });
    let st = tl.state(1000);
    assert_eq!(st.atoms[0].atom.position, Position { x: 10, y: 10 });
}

#[test]
fn overlapping_position_instructions_rejected() {
    let instrs = vec![move_instruction(7, 0, 2, 10, 10), move_instruction(7, 0, 2, 20, 20)];
    let r = Timeline::new(&one_atom_machine(), &test_config(), &instrs);
    assert_eq!(r.err().unwrap(), CoreError::OverlappingInstruction);
}

#[test]
fn partially_overlapping_windows_rejected_in_any_order() {
    let instrs = vec![move_instruction(7, 5, 10, 20, 20), move_instruction(7, 0, 10, 10, 10)];
    let r = Timeline::new(&one_atom_machine(), &test_config(), &instrs);
    assert_eq!(r.err().unwrap(), CoreError::OverlappingInstruction);
}

#[test]
fn touching_windows_are_not_overlapping() {
    let instrs = vec![move_instruction(7, 0, 10, 10, 10), move_instruction(7, 10, 10, 0, 0)];
    let tl = Timeline::new(&one_atom_machine(), &test_config(), &instrs).unwrap();
    assert_eq!(tl.duration(), 20);
    assert_eq!(tl.state(10).atoms[0].atom.position, Position { x: 10, y: 10 });
    assert_eq!(tl.state(15).atoms[0].atom.position, Position { x: 5, y: 5 });
}

#[test]
fn overlap_on_distinct_properties_is_allowed() {
    let instrs = vec![
        move_instruction(7, 0, 10, 10, 10),
        Instruction { atom: 7, start: 0, duration: 10, action: InstructionAction::SetSize(12) },
    ];
    assert!(Timeline::new(&one_atom_machine(), &test_config(), &instrs).is_ok());
}

#[test]
fn negative_duration_rejected() {
    let instrs = vec![move_instruction(7, 0, -1, 10, 10)];
    let r = Timeline::new(&one_atom_machine(), &test_config(), &instrs);
    assert_eq!(r.err().unwrap(), CoreError::InvalidDuration);
}

#[test]
fn unknown_atom_rejected() {
    let instrs = vec![move_instruction(8, 0, 1, 10, 10)];
    let r = Timeline::new(&one_atom_machine(), &test_config(), &instrs);
    assert_eq!(r.err().unwrap(), CoreError::UnknownAtomReference);
}

#[test]
fn bad_duration_reported_before_unknown_atom() {
    let instrs = vec![move_instruction(8, 0, -5, 10, 10)];
    let r = Timeline::new(&one_atom_machine(), &test_config(), &instrs);
    assert_eq!(r.err().unwrap(), CoreError::InvalidDuration);
}

#[test]
fn window_end_beyond_tick_range_is_malformed() {
    let instrs = vec![move_instruction(7, u64::MAX - 5, i64::MAX, 1, 1)];
    let r = Timeline::new(&one_atom_machine(), &test_config(), &instrs);
    assert_eq!(r.err().unwrap(), CoreError::InvalidDuration);
}

#[test]
fn state_at_start_and_end_match_initial_and_final_values() {
    let instrs = vec![
        move_instruction(7, 5, 10, 10, 10),
        Instruction { atom: 7, start: 20, duration: 0, action: InstructionAction::SetSize(9) },
        Instruction {
            atom: 7,
            start: 30,
            duration: 0,
            action: InstructionAction::SetLabel("q0'".to_string()),
        },
    ];
    let tl = Timeline::new(&one_atom_machine(), &test_config(), &instrs).unwrap();
    let start = tl.state(0);
    assert_eq!(start.atoms[0].atom.position, Position { x: 0, y: 0 });
    assert_eq!(start.atoms[0].atom.size, 2);
    assert_eq!(start.atoms[0].atom.label, "q0");
    assert!(!start.atoms[0].atom.shuttle);
    let end = tl.state(tl.duration());
    assert_eq!(end.atoms[0].atom.position, Position { x: 10, y: 10 });
    assert_eq!(end.atoms[0].atom.size, 9);
    assert_eq!(end.atoms[0].atom.label, "q0'");
}

#[test]
fn state_is_deterministic_for_equal_times() {
    let instrs = vec![move_instruction(7, 0, 1000, 10, 10)];
    let tl = Timeline::new(&one_atom_machine(), &test_config(), &instrs).unwrap();
    let a = tl.state(333);
    let b = tl.state(333);
    assert_eq!(a, b);
}

#[test]
fn out_of_range_time_is_clamped() {
    let instrs = vec![move_instruction(7, 0, 1000, 10, 10)];
    let tl = Timeline::new(&one_atom_machine(), &test_config(), &instrs).unwrap();
    assert_eq!(tl.state(u64::MAX), tl.state(1000));
}

#[test]
fn interpolated_value_approaches_window_end() {
    let instrs = vec![move_instruction(7, 0, 1000, 1000, 0)];
    let tl = Timeline::new(&one_atom_machine(), &test_config(), &instrs).unwrap();
    let mut last_gap: i64 = 1001;
    for t in [600, 900, 990, 999] {
        let x = tl.state(t).atoms[0].atom.position.x;
        let gap = (1000 - x).abs();
        assert!(gap <= 1000 - t as i64 + 1);
        assert!(gap <= last_gap);
        last_gap = gap;
    }
    assert_eq!(tl.state(1000).atoms[0].atom.position.x, 1000);
}

#[test]
fn zero_duration_move_steps_instantly() {
    let instrs = vec![move_instruction(7, 10, 0, 10, 10)];
    let tl = Timeline::new(&one_atom_machine(), &test_config(), &instrs).unwrap();
    assert_eq!(tl.state(9).atoms[0].atom.position, Position { x: 0, y: 0 });
    assert_eq!(tl.state(10).atoms[0].atom.position, Position { x: 10, y: 10 });
    assert_eq!(tl.duration(), 10);
}

#[test]
fn two_steps_at_same_tick_conflict() {
    let instrs = vec![move_instruction(7, 10, 0, 10, 10), move_instruction(7, 10, 0, 20, 20)];
    let r = Timeline::new(&one_atom_machine(), &test_config(), &instrs);
    assert_eq!(r.err().unwrap(), CoreError::OverlappingInstruction);
}

#[test]
fn color_fade_interpolates_componentwise() {
    let instrs = vec![Instruction {
        atom: 7,
        start: 0,
        duration: 1000,
        action: InstructionAction::SetColor {
            color: Rgba { r: 100, g: 50, b: 200, a: 255 },
            fade: true,
        },
    }];
    let mut config = test_config();
    config.atom_color = Rgba { r: 0, g: 0, b: 0, a: 0 };
    let tl = Timeline::new(&one_atom_machine(), &config, &instrs).unwrap();
    assert_eq!(tl.state(500).atoms[0].atom.color, Rgba { r: 50, g: 25, b: 100, a: 127 });
}

#[test]
fn color_without_fade_steps_at_start() {
    let instrs = vec![Instruction {
        atom: 7,
        start: 100,
        duration: 1000,
        action: InstructionAction::SetColor {
            color: Rgba { r: 100, g: 50, b: 200, a: 255 },
            fade: false,
        },
    }];
    let tl = Timeline::new(&one_atom_machine(), &test_config(), &instrs).unwrap();
    assert_eq!(tl.state(99).atoms[0].atom.color, Rgba { r: 200, g: 200, b: 200, a: 255 });
    assert_eq!(tl.state(100).atoms[0].atom.color, Rgba { r: 100, g: 50, b: 200, a: 255 });
    assert_eq!(tl.state(500).atoms[0].atom.color, Rgba { r: 100, g: 50, b: 200, a: 255 });
}

#[test]
fn shuttle_flag_steps_and_holds() {
    let instrs = vec![
        Instruction { atom: 7, start: 5, duration: 0, action: InstructionAction::SetShuttle(true) },
        Instruction {
            atom: 7,
            start: 9,
            duration: 0,
            action: InstructionAction::SetShuttle(false),
        },
    ];
    let tl = Timeline::new(&one_atom_machine(), &test_config(), &instrs).unwrap();
    assert!(!tl.state(4).atoms[0].atom.shuttle);
    assert!(tl.state(5).atoms[0].atom.shuttle);
    assert!(tl.state(8).atoms[0].atom.shuttle);
    assert!(!tl.state(9).atoms[0].atom.shuttle);
    assert!(!tl.state(100).atoms[0].atom.shuttle);
}

#[test]
fn instructions_sorted_regardless_of_input_order() {
    let instrs = vec![move_instruction(7, 100, 10, 20, 20), move_instruction(7, 0, 10, 10, 10)];
    let tl = Timeline::new(&one_atom_machine(), &test_config(), &instrs).unwrap();
    assert_eq!(tl.state(50).atoms[0].atom.position, Position { x: 10, y: 10 });
    assert_eq!(tl.state(105).atoms[0].atom.position, Position { x: 15, y: 15 });
}

#[test]
fn atoms_evolve_independently() {
    let machine = MachineConfig {
        atoms: vec![
            AtomDef { id: 1, position: Position { x: 0, y: 0 }, label: "a".to_string() },
            AtomDef { id: 2, position: Position { x: 100, y: 100 }, label: "b".to_string() },
        ],
    };
    let instrs = vec![move_instruction(1, 0, 100, 50, 0)];
    let tl = Timeline::new(&machine, &test_config(), &instrs).unwrap();
    let st = tl.state(50);
    assert_eq!(st.atoms[0].id, 1);
    assert_eq!(st.atoms[0].atom.position, Position { x: 25, y: 0 });
    assert_eq!(st.atoms[1].id, 2);
    assert_eq!(st.atoms[1].atom.position, Position { x: 100, y: 100 });
}
