use naviz_core::menu::{
    ExportMenu, FileFilter, FileType, InitOptions, MenuConfig, MenuEvent,
};

#[test]
fn file_types_have_names_and_extensions() {
    assert_eq!(FileType::Instructions.name(), "NAViz instructions");
    assert_eq!(FileType::Machine.name(), "NAViz machine");
    assert_eq!(FileType::Style.name(), "NAViz style");
    assert_eq!(FileType::Instructions.extension(), "naviz");
    assert_eq!(FileType::Machine.extension(), "namachine");
    assert_eq!(FileType::Style.extension(), "nastyle");
}

#[test]
fn export_menu_emits_each_request_once() {
    let mut m = ExportMenu::new();
    assert_eq!(m.process_events(), None);
    m.request((1920, 1080), 30);
    assert_eq!(
        m.process_events(),
        Some(MenuEvent::ExportVideo { resolution: (1920, 1080), fps: 30 })
    );
    assert_eq!(m.process_events(), None);
}

#[test]
fn newer_export_request_replaces_older() {
    let mut m = ExportMenu::new();
    m.request((640, 480), 24);
    m.request((1280, 720), 60);
    assert_eq!(
        m.process_events(),
        Some(MenuEvent::ExportVideo { resolution: (1280, 720), fps: 60 })
    );
}

#[test]
fn menu_config_and_init_options_carry_plain_values() {
    let config = MenuConfig { export: true };
    assert!(config.export);
    let init = InitOptions {
        machine: Some("mach".to_string()),
        style: None,
        input: Some(vec![1, 2, 3]),
    };
    assert_eq!(init.machine.as_deref(), Some("mach"));
    assert!(init.style.is_none());
    assert_eq!(init.input.unwrap(), vec![1, 2, 3]);
}
