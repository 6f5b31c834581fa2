use hemu_gui::runtime_state::{bios_size_accepted, project_mount_ids_exec, video_mode_name, RuntimeState};

#[test]
fn mounts_read_back() {
    let mut s = RuntimeState::new();
    assert!(s.get_mount("Cartridge").is_none());
    s.set_mount("Cartridge".to_string(), "/roms/a.nes".to_string());
    s.set_mount("BIOS".to_string(), "/bios.bin".to_string());
    s.set_mount("Cartridge".to_string(), "/roms/b.nes".to_string());
    assert_eq!(s.get_mount("Cartridge").map(|p| p.as_str()), Some("/roms/b.nes"));
    assert_eq!(s.get_mount("BIOS").map(|p| p.as_str()), Some("/bios.bin"));
    assert_eq!(s.mount_entries().len(), 2);
    s.clear_mounts();
    assert!(s.get_mount("BIOS").is_none());
}

#[test]
fn project_file_name() {
    let mut s = RuntimeState::new();
    assert_eq!(s.get_project_filename(), None);
    s.set_project_path("/home/u/games/mario.hemu".to_string());
    assert_eq!(s.get_project_filename().as_deref(), Some("mario.hemu"));
    s.set_project_path("projects/pc.hemu/".to_string());
    assert_eq!(s.get_project_filename().as_deref(), Some("pc.hemu"));
    s.set_project_path("projects/..".to_string());
    assert_eq!(s.get_project_filename(), None);
    s.set_project_path("/".to_string());
    assert_eq!(s.get_project_filename(), None);
    s.set_project_path("a/b/.".to_string());
    assert_eq!(s.get_project_filename().as_deref(), Some("b"));
    s.clear_project_path();
    assert_eq!(s.get_project_filename(), None);
}

#[test]
fn project_records_only_the_systems_mounts() {
    let mut s = RuntimeState::new();
    s.set_mount("Cartridge".to_string(), "c.bin".to_string());
    s.set_mount("FloppyA".to_string(), "a.img".to_string());
    s.set_mount("BIOS".to_string(), "b.rom".to_string());
    let nes = s.project_mounts("nes");
    assert_eq!(nes, vec![("Cartridge".to_string(), "c.bin".to_string())]);
    let pc = s.project_mounts("pc");
    assert_eq!(
        pc,
        vec![("FloppyA".to_string(), "a.img".to_string()), ("BIOS".to_string(), "b.rom".to_string())]
    );
    assert!(s.project_mounts("chip8").is_empty());
}

#[test]
fn mount_ids_per_system() {
    assert_eq!(project_mount_ids_exec("pc"), vec!["BIOS", "FloppyA", "FloppyB", "HardDrive"]);
    assert_eq!(project_mount_ids_exec("atari5200"), vec!["BIOS", "Cartridge"]);
    assert_eq!(project_mount_ids_exec("megadrive"), vec!["Cartridge"]);
    assert!(project_mount_ids_exec("ps1").is_empty());
}

#[test]
fn video_modes() {
    assert_eq!(video_mode_name("VGA (Software)"), "VGA");
    assert_eq!(video_mode_name("EGA card"), "EGA");
    assert_eq!(video_mode_name("SVGA"), "VGA");
    assert_eq!(video_mode_name("CGA"), "CGA");
    assert_eq!(video_mode_name("Hercules"), "CGA");
}

#[test]
fn input_override_round_trip() {
    let mut s = RuntimeState::new();
    assert!(s.input_override().is_none());
    s.set_input_override(Some(hemu_gui::settings::InputConfig::default()));
    assert!(s.input_override().is_some());
    s.set_input_override(None);
    assert!(s.input_override().is_none());
}

#[test]
fn bios_sizes() {
    assert!(bios_size_accepted(8192, Some(8192)));
    assert!(!bios_size_accepted(4096, Some(8192)));
    assert!(bios_size_accepted(12, None));
}
