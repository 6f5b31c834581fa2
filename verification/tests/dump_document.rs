use hemu_gui::dump_document::{
    debug_dump_lines, DebugSnapshot, DumpInstruction, DumpRegion, DumpRegister, ScreenshotOutcome,
};

const RULE: &str = "===============================================";

#[test]
fn dump_without_debugger() {
    let lines = debug_dump_lines("2024-01-02 03:04:05", 42, &ScreenshotOutcome::NoFrame, &None);
    assert_eq!(
        lines,
        vec![
            RULE,
            "       HEMULATOR DEBUG DUMP",
            RULE,
            "",
            "Timestamp: 2024-01-02 03:04:05",
            "Cycle Count: 42",
            "Screenshot: No frame buffer available",
            "",
            "Debug interface not available for this system.",
            RULE,
            "       END OF DEBUG DUMP",
            RULE,
        ]
    );
}

#[test]
fn dump_screenshot_lines() {
    let saved = debug_dump_lines("t", 0, &ScreenshotOutcome::Saved("a/b.png".to_string()), &None);
    assert_eq!(saved[6], "Screenshot: a/b.png");
    let failed = debug_dump_lines("t", 0, &ScreenshotOutcome::Failed("disk full".to_string()), &None);
    assert_eq!(failed[6], "Screenshot: Failed to save (disk full) ");
}

#[test]
fn dump_with_debugger() {
    let snapshot = DebugSnapshot {
        pc: 0x8000,
        registers: vec![DumpRegister { name: "A".to_string(), value: 0x1F, width: 8 }],
        flags: vec![("Z".to_string(), true), ("C".to_string(), false)],
        instructions: vec![
            DumpInstruction {
                address: 0x7FFE,
                bytes: vec![0xEA],
                mnemonic: "NOP".to_string(),
                comment: None,
            },
            DumpInstruction {
                address: 0x8000,
                bytes: vec![0xA9, 0x01],
                mnemonic: "LDA #$01".to_string(),
                comment: Some("load".to_string()),
            },
        ],
        regions: vec![
            DumpRegion {
                name: "RAM".to_string(),
                start: 0,
                end: 2,
                size: 3,
                description: "Work RAM".to_string(),
                readable: true,
                writable: true,
                data: Some(vec![0x41, 0x00, 0x7F]),
            },
            DumpRegion {
                name: "IO".to_string(),
                start: 0x2000,
                end: 0x2007,
                size: 8,
                description: "Ports".to_string(),
                readable: false,
                writable: true,
                data: None,
            },
            DumpRegion {
                name: "ROM".to_string(),
                start: 0x8000,
                end: 0xFFFF,
                size: 32768,
                description: "Cartridge".to_string(),
                readable: true,
                writable: false,
                data: None,
            },
        ],
    };
    let lines = debug_dump_lines("t", 7, &ScreenshotOutcome::NoFrame, &Some(snapshot));
    let expected = vec![
        RULE.to_string(),
        "       HEMULATOR DEBUG DUMP".to_string(),
        RULE.to_string(),
        String::new(),
        "Timestamp: t".to_string(),
        "Cycle Count: 7".to_string(),
        "Screenshot: No frame buffer available".to_string(),
        String::new(),
        RULE.to_string(),
        "       CPU STATE".to_string(),
        RULE.to_string(),
        String::new(),
        "Program Counter: $8000".to_string(),
        String::new(),
        "Registers:".to_string(),
        "  A = $1F".to_string(),
        String::new(),
        "Flags:".to_string(),
        "  Z = 1".to_string(),
        "  C = 0".to_string(),
        String::new(),
        RULE.to_string(),
        "       DISASSEMBLY (\u{b1}100 instructions from PC)".to_string(),
        RULE.to_string(),
        String::new(),
        format!("  7FFE  {:12}  NOP", "EA"),
        format!("\u{25B6} 8000  {:12}  LDA #$01 ; load", "A9 01"),
        String::new(),
        RULE.to_string(),
        "       MEMORY REGIONS".to_string(),
        RULE.to_string(),
        String::new(),
        "--- RAM ($0000-$0002, 3 bytes) ---".to_string(),
        "Description: Work RAM".to_string(),
        "Access: R/W".to_string(),
        String::new(),
        "0000:  41 00 7F                                          |A..|".to_string(),
        String::new(),
        "--- IO ($2000-$2007, 8 bytes) ---".to_string(),
        "Description: Ports".to_string(),
        "Access: W".to_string(),
        String::new(),
        "(Not readable)".to_string(),
        String::new(),
        "--- ROM ($8000-$FFFF, 32768 bytes) ---".to_string(),
        "Description: Cartridge".to_string(),
        "Access: R".to_string(),
        String::new(),
        "(Memory read failed)".to_string(),
        String::new(),
        RULE.to_string(),
        "       END OF DEBUG DUMP".to_string(),
        RULE.to_string(),
    ];
    assert_eq!(lines, expected);
}
