use hemu_gui::system_adapter::{NesConfig, PcConfig, SystemConfig, SystemDebugInfo};

#[test]
fn debug_info_fields_keep_order() {
    let mut info = SystemDebugInfo::new("NES".to_string());
    info.add_field("PC".to_string(), "$8000".to_string());
    info.add_field("A".to_string(), "$01".to_string());
    assert_eq!(info.system_type, "NES");
    assert_eq!(info.fields[0], ("PC".to_string(), "$8000".to_string()));
    assert_eq!(info.fields[1].0, "A");
}

#[test]
fn system_config_names() {
    assert_eq!(SystemConfig::NES(NesConfig::default()).system_name(), "NES");
    assert_eq!(SystemConfig::PC(PcConfig::default()).system_name(), "PC");
}
