use hemu_gui::debug_overlay::{
    create_atari2600_debug_overlay, create_n64_debug_overlay, create_pc_debug_overlay,
    create_snes_debug_overlay,
};
use hemu_gui::ui_render::draw_text_lines;

fn picture(width: usize, height: usize, lines: &[&str]) -> Vec<u32> {
    let mut buffer = vec![0xC0000000; width * height];
    draw_text_lines(&mut buffer, width, height, lines, 10, 10, 9, 0xFFFFFFFF);
    buffer
}

#[test]
fn n64_overlay_lines() {
    let got = create_n64_debug_overlay(
        400, 200, "zelda.z64", "32.0", 0x80001000, "F3DEX2", 12, 0x1F, "320x240", "59.9", "Software",
    );
    let want = picture(
        400,
        200,
        &[
            "DEBUG INFO - N64",
            "",
            "ROM: zelda.z64",
            "Size: 32.0 MB",
            "FPS: 59.9",
            "Video: Software",
            "",
            "PC: 0x0000000080001000",
            "RSP: F3DEX2 microcode",
            "VTX: 12 vertices loaded",
            "RDP: status=0x0000001F",
            "FB: 320x240",
            "",
            "Press F10 to close",
        ],
    );
    assert_eq!(got, want);
}

#[test]
fn atari_overlay_lines() {
    let got = create_atari2600_debug_overlay(300, 120, 4096, "F8", 1, 262, "60.0", "Software");
    let want = picture(
        300,
        120,
        &[
            "DEBUG INFO - Atari 2600",
            "",
            "ROM Size: 4096 bytes",
            "Banking: F8 (cur 1)",
            "Scanline: 262",
            "FPS: 60.0",
            "Video: Software",
            "",
            "Press F10 to close",
        ],
    );
    assert_eq!(got, want);
}

#[test]
fn snes_overlay_lines() {
    let got = create_snes_debug_overlay(400, 200, 2 * 1024 * 1024 + 512, true, 0x8000, 0x7E, true, "60.1", "OpenGL");
    let want = picture(
        400,
        200,
        &[
            "DEBUG INFO - SNES",
            "",
            "ROM: 2048 KB",
            "Header: SMC (512 bytes)",
            "FPS: 60.1",
            "Video: OpenGL",
            "",
            "PC: 0x7E:8000",
            "Mode: Emulation (6502)",
            "",
            "WARNING: Minimal PPU",
            "Most games will not display correctly",
            "",
            "Press F10 to close",
        ],
    );
    assert_eq!(got, want);
    let native = create_snes_debug_overlay(400, 200, 1000, false, 0x12, 0x0, false, "0.0", "");
    let want_native = picture(
        400,
        200,
        &[
            "DEBUG INFO - SNES",
            "",
            "ROM: 0 KB",
            "Header: None",
            "FPS: 0.0",
            "Video: ",
            "",
            "PC: 0x00:0012",
            "Mode: Native (65C816)",
            "",
            "WARNING: Minimal PPU",
            "Most games will not display correctly",
            "",
            "Press F10 to close",
        ],
    );
    assert_eq!(native, want_native);
}

#[test]
fn pc_overlay_decodes_flags() {
    let got = create_pc_debug_overlay(
        400, 200, 0xF000, 0xFFF0, 1, 2, 3, 4, 0xFFFE, 0, 0x10, 0x20, 0x0245, 1234, "18.2", "Software",
    );
    let want = picture(
        400,
        200,
        &[
            "DEBUG INFO - PC",
            "",
            "CS:IP: F000:FFF0",
            "AX: 0001  BX: 0002",
            "CX: 0003  DX: 0004",
            "SP: FFFE  BP: 0000",
            "SI: 0010  DI: 0020",
            "FLAGS: 0245",
            "Flags: C P - Z - - I - -",
            "",
            "Cycles: 1234",
            "FPS: 18.2",
            "Video: Software",
            "",
            "Press F10 to close",
        ],
    );
    assert_eq!(got, want);
}
