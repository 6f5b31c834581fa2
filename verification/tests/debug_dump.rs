use hemu_gui::debug_dump::{
    access_label, disassembly_line, flag_line, hex_dump_line, memory_dump_lines, region_heading,
    register_line,
};

#[test]
fn short_dump_line_is_padded() {
    assert_eq!(
        hex_dump_line(0x1000, b"ABC"),
        "1000:  41 42 43                                          |ABC|"
    );
}

#[test]
fn full_dump_line() {
    let bytes: Vec<u8> = (0x30..0x40).collect();
    assert_eq!(
        hex_dump_line(0x12345, &bytes),
        "12345:  30 31 32 33 34 35 36 37  38 39 3A 3B 3C 3D 3E 3F  |0123456789:;<=>?|"
    );
}

#[test]
fn unprintable_bytes_show_as_dots() {
    let line = hex_dump_line(0, &[0x00, 0x1F, 0x20, 0x7E, 0x7F, 0xFF]);
    assert!(line.ends_with(" |.. ~..|"));
}

#[test]
fn memory_dump_has_a_line_per_sixteen_bytes() {
    let data: Vec<u8> = (0..20).collect();
    let lines = memory_dump_lines(0x10, &data);
    assert_eq!(lines.len(), 2);
    assert!(lines[0].starts_with("0010:  00 01"));
    assert!(lines[1].starts_with("0020:  10 11 12 13 "));
    assert!(memory_dump_lines(0, &[]).is_empty());
    assert_eq!(memory_dump_lines(0, &[0u8; 32]).len(), 2);
}

#[test]
fn access_labels() {
    assert_eq!(access_label(true, true), "R/W");
    assert_eq!(access_label(true, false), "R");
    assert_eq!(access_label(false, true), "W");
    assert_eq!(access_label(false, false), "-");
}

#[test]
fn disassembly_lines() {
    assert_eq!(
        disassembly_line(true, 0x8000, &[0xA9, 0x01], "LDA #$01", Some("load")),
        "\u{25B6} 8000  A9 01         LDA #$01 ; load"
    );
    assert_eq!(disassembly_line(false, 0x12, &[0xEA], "NOP", None), "  0012  EA            NOP");
    let long = disassembly_line(false, 0, &[1, 2, 3, 4, 5], "X", None);
    assert_eq!(long, "  0000  01 02 03 04 05  X");
}

#[test]
fn register_and_flag_lines() {
    assert_eq!(register_line("A", 0x1F, 8), "  A = $1F");
    assert_eq!(register_line("PC", 0x1F, 16), "  PC = $001F");
    assert_eq!(register_line("X", 0x1234, 8), "  X = $1234");
    assert_eq!(flag_line("Z", true), "  Z = 1");
    assert_eq!(flag_line("C", false), "  C = 0");
}

#[test]
fn region_headings() {
    assert_eq!(region_heading("RAM", 0, 0x7FF, 2048), "--- RAM ($0000-$07FF, 2048 bytes) ---");
}

#[test]
fn ascii_column_lines_up() {
    let full = hex_dump_line(0x1000, &[0x41; 16]);
    let short = hex_dump_line(0x1010, &[0x42; 3]);
    assert_eq!(full.find('|'), short.find('|'));
}
