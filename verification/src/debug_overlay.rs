//! The debug information overlays of the N64, Atari 2600, SNES and PC systems:
//! a list of text lines drawn in white from (10, 10), nine pixels apart, over a
//! semi-transparent dark background. Frame rates and sizes that the machine holds
//! as floating-point values arrive already written as text.
use vstd::prelude::*;
use vstd::string::*;

use crate::debug_dump::{append_hex_padded, hex_padded};
use crate::text::{append_decimal_u64, decimal};
use crate::ui_render::{
    draw_lines_spec, draw_text_lines, filled, new_buffer, overlay_size_ok, str_views, FONT_HEIGHT,
};

verus! {

/// `prefix`, `middle` and `suffix` one after the other.
fn joined(prefix: &str, middle: &str, suffix: &str) -> (s: String)
    ensures
        s@ == prefix@ + middle@ + suffix@,
{
    let mut s = String::from_str(prefix);
    s.append(middle);
    s.append(suffix);
    s
}

/// `prefix`, `n` in decimal and `suffix`.
fn decimal_line(prefix: &str, n: u64, suffix: &str) -> (s: String)
    ensures
        s@ == prefix@ + decimal(n as nat) + suffix@,
{
    let mut s = String::from_str(prefix);
    append_decimal_u64(&mut s, n);
    s.append(suffix);
    s
}

/// `prefix` and `n` in hexadecimal, zero-padded to `width` digits.
fn hex_line(prefix: &str, n: u64, width: usize) -> (s: String)
    ensures
        s@ == prefix@ + hex_padded(n as nat, width as int),
{
    let mut s = String::from_str(prefix);
    append_hex_padded(&mut s, n, width);
    s
}

/// The overlay picture of `lines`.
pub open spec fn debug_overlay_picture(width: int, height: int, lines: Seq<Seq<char>>) -> Seq<
    u32,
> {
    draw_lines_spec(filled(width * height, 0xC0000000), width, height, lines, 10, 10, 9, 0xFFFFFFFF, 0)
}

/// Draw `lines` as a debug overlay.
fn debug_overlay(width: usize, height: usize, lines: &[&str]) -> (buffer: Vec<u32>)
    requires
        overlay_size_ok(width as int, height as int),
        lines@.len() <= 20,
    ensures
        buffer@ == debug_overlay_picture(width as int, height as int, str_views(lines@)),
{
    let mut buffer = new_buffer(width * height, 0xC0000000);
    draw_text_lines(buffer.as_mut_slice(), width, height, lines, 10, 10, FONT_HEIGHT + 1, 0xFFFFFFFF);
    buffer
}

/// The lines of the N64 overlay.
pub open spec fn n64_lines(
    rom_name: Seq<char>,
    rom_size_mb: Seq<char>,
    pc: u64,
    rsp_microcode: Seq<char>,
    rsp_vertex_count: usize,
    rdp_status: u32,
    framebuffer_resolution: Seq<char>,
    fps: Seq<char>,
    video_backend: Seq<char>,
) -> Seq<Seq<char>> {
    seq![
        "DEBUG INFO - N64"@,
        ""@,
        "ROM: "@ + rom_name,
        "Size: "@ + rom_size_mb + " MB"@,
        "FPS: "@ + fps,
        "Video: "@ + video_backend,
        ""@,
        "PC: 0x"@ + hex_padded(pc as nat, 16),
        "RSP: "@ + rsp_microcode + " microcode"@,
        "VTX: "@ + decimal(rsp_vertex_count as nat) + " vertices loaded"@,
        "RDP: status=0x"@ + hex_padded(rdp_status as nat, 8),
        "FB: "@ + framebuffer_resolution,
        ""@,
        "Press F10 to close"@,
    ]
}

/// Create a debug info overlay for N64. `rom_size_mb` and `fps` are the ROM size
/// in megabytes and the frame rate, written with one decimal.
#[allow(clippy::too_many_arguments)]
pub fn create_n64_debug_overlay(
    width: usize,
    height: usize,
    rom_name: &str,
    rom_size_mb: &str,
    pc: u64,
    rsp_microcode: &str,
    rsp_vertex_count: usize,
    rdp_status: u32,
    framebuffer_resolution: &str,
    fps: &str,
    video_backend: &str,
) -> (buffer: Vec<u32>)
    requires
        overlay_size_ok(width as int, height as int),
    ensures
        buffer@ == debug_overlay_picture(
            width as int,
            height as int,
            n64_lines(
                rom_name@,
                rom_size_mb@,
                pc,
                rsp_microcode@,
                rsp_vertex_count,
                rdp_status,
                framebuffer_resolution@,
                fps@,
                video_backend@,
            ),
        ),
{
    let rom_line = joined("ROM: ", rom_name, "");
    let size_line = joined("Size: ", rom_size_mb, " MB");
    let fps_line = joined("FPS: ", fps, "");
    let video_line = joined("Video: ", video_backend, "");
    let pc_line = hex_line("PC: 0x", pc, 16);
    let rsp_line = joined("RSP: ", rsp_microcode, " microcode");
    let vtx_line = decimal_line("VTX: ", rsp_vertex_count as u64, " vertices loaded");
    let rdp_line = hex_line("RDP: status=0x", rdp_status as u64, 8);
    let fb_line = joined("FB: ", framebuffer_resolution, "");
    let lines: [&str; 14] = [
        "DEBUG INFO - N64",
        "",
        rom_line.as_str(),
        size_line.as_str(),
        fps_line.as_str(),
        video_line.as_str(),
        "",
        pc_line.as_str(),
        rsp_line.as_str(),
        vtx_line.as_str(),
        rdp_line.as_str(),
        fb_line.as_str(),
        "",
        "Press F10 to close",
    ];
    proof {
        reveal_strlit("");
        assert(""@ + rom_name@ =~= rom_name@);
        assert("ROM: "@ + rom_name@ + ""@ =~= "ROM: "@ + rom_name@);
        assert("FPS: "@ + fps@ + ""@ =~= "FPS: "@ + fps@);
        assert("Video: "@ + video_backend@ + ""@ =~= "Video: "@ + video_backend@);
        assert("FB: "@ + framebuffer_resolution@ + ""@ =~= "FB: "@ + framebuffer_resolution@);
    }
    assert(str_views(lines@) =~= n64_lines(
        rom_name@,
        rom_size_mb@,
        pc,
        rsp_microcode@,
        rsp_vertex_count,
        rdp_status,
        framebuffer_resolution@,
        fps@,
        video_backend@,
    ));
    debug_overlay(width, height, &lines)
}

/// The lines of the Atari 2600 overlay.
pub open spec fn atari2600_lines(
    rom_size: usize,
    banking_scheme: Seq<char>,
    current_bank: usize,
    scanline: u64,
    fps: Seq<char>,
    video_backend: Seq<char>,
) -> Seq<Seq<char>> {
    seq![
        "DEBUG INFO - Atari 2600"@,
        ""@,
        "ROM Size: "@ + decimal(rom_size as nat) + " bytes"@,
        "Banking: "@ + banking_scheme + " (cur "@ + decimal(current_bank as nat) + ")"@,
        "Scanline: "@ + decimal(scanline as nat),
        "FPS: "@ + fps,
        "Video: "@ + video_backend,
        ""@,
        "Press F10 to close"@,
    ]
}

/// Create a debug info overlay for Atari 2600. `fps` is the frame rate written
/// with one decimal.
#[allow(clippy::too_many_arguments)]
pub fn create_atari2600_debug_overlay(
    width: usize,
    height: usize,
    rom_size: usize,
    banking_scheme: &str,
    current_bank: usize,
    scanline: u64,
    fps: &str,
    video_backend: &str,
) -> (buffer: Vec<u32>)
    requires
        overlay_size_ok(width as int, height as int),
    ensures
        buffer@ == debug_overlay_picture(
            width as int,
            height as int,
            atari2600_lines(rom_size, banking_scheme@, current_bank, scanline, fps@, video_backend@),
        ),
{
    let size_line = decimal_line("ROM Size: ", rom_size as u64, " bytes");
    let mut bank_line = joined("Banking: ", banking_scheme, " (cur ");
    append_decimal_u64(&mut bank_line, current_bank as u64);
    bank_line.append(")");
    let scan_line = decimal_line("Scanline: ", scanline, "");
    let fps_line = joined("FPS: ", fps, "");
    let video_line = joined("Video: ", video_backend, "");
    let lines: [&str; 9] = [
        "DEBUG INFO - Atari 2600",
        "",
        size_line.as_str(),
        bank_line.as_str(),
        scan_line.as_str(),
        fps_line.as_str(),
        video_line.as_str(),
        "",
        "Press F10 to close",
    ];
    proof {
        reveal_strlit("");
        assert("Scanline: "@ + decimal(scanline as nat) + ""@ =~= "Scanline: "@ + decimal(
            scanline as nat,
        ));
        assert("FPS: "@ + fps@ + ""@ =~= "FPS: "@ + fps@);
        assert("Video: "@ + video_backend@ + ""@ =~= "Video: "@ + video_backend@);
    }
    assert(str_views(lines@) =~= atari2600_lines(
        rom_size,
        banking_scheme@,
        current_bank,
        scanline,
        fps@,
        video_backend@,
    ));
    debug_overlay(width, height, &lines)
}

/// The lines of the SNES overlay.
pub open spec fn snes_lines(
    rom_size: usize,
    has_smc_header: bool,
    pc: u16,
    pbr: u8,
    emulation_mode: bool,
    fps: Seq<char>,
    video_backend: Seq<char>,
) -> Seq<Seq<char>> {
    seq![
        "DEBUG INFO - SNES"@,
        ""@,
        "ROM: "@ + decimal((rom_size / 1024) as nat) + " KB"@,
        if has_smc_header {
            "Header: SMC (512 bytes)"@
        } else {
            "Header: None"@
        },
        "FPS: "@ + fps,
        "Video: "@ + video_backend,
        ""@,
        "PC: 0x"@ + hex_padded(pbr as nat, 2) + ":"@ + hex_padded(pc as nat, 4),
        if emulation_mode {
            "Mode: Emulation (6502)"@
        } else {
            "Mode: Native (65C816)"@
        },
        ""@,
        "WARNING: Minimal PPU"@,
        "Most games will not display correctly"@,
        ""@,
        "Press F10 to close"@,
    ]
}

/// Create a debug info overlay for SNES. `fps` is the frame rate written with one
/// decimal.
#[allow(clippy::too_many_arguments)]
pub fn create_snes_debug_overlay(
    width: usize,
    height: usize,
    rom_size: usize,
    has_smc_header: bool,
    pc: u16,
    pbr: u8,
    emulation_mode: bool,
    fps: &str,
    video_backend: &str,
) -> (buffer: Vec<u32>)
    requires
        overlay_size_ok(width as int, height as int),
    ensures
        buffer@ == debug_overlay_picture(
            width as int,
            height as int,
            snes_lines(rom_size, has_smc_header, pc, pbr, emulation_mode, fps@, video_backend@),
        ),
{
    let rom_kb = rom_size / 1024;
    let size_line = decimal_line("ROM: ", rom_kb as u64, " KB");
    let header_line = if has_smc_header {
        "Header: SMC (512 bytes)"
    } else {
        "Header: None"
    };
    let fps_line = joined("FPS: ", fps, "");
    let video_line = joined("Video: ", video_backend, "");
    let mut pc_line = hex_line("PC: 0x", pbr as u64, 2);
    pc_line.append(":");
    append_hex_padded(&mut pc_line, pc as u64, 4);
    let mode_line = if emulation_mode {
        "Mode: Emulation (6502)"
    } else {
        "Mode: Native (65C816)"
    };
    let lines: [&str; 14] = [
        "DEBUG INFO - SNES",
        "",
        size_line.as_str(),
        header_line,
        fps_line.as_str(),
        video_line.as_str(),
        "",
        pc_line.as_str(),
        mode_line,
        "",
        "WARNING: Minimal PPU",
        "Most games will not display correctly",
        "",
        "Press F10 to close",
    ];
    proof {
        reveal_strlit("");
        assert("FPS: "@ + fps@ + ""@ =~= "FPS: "@ + fps@);
        assert("Video: "@ + video_backend@ + ""@ =~= "Video: "@ + video_backend@);
    }
    assert(str_views(lines@) =~= snes_lines(
        rom_size,
        has_smc_header,
        pc,
        pbr,
        emulation_mode,
        fps@,
        video_backend@,
    ));
    debug_overlay(width, height, &lines)
}

/// `c` where bit `mask` of `flags` is set, '-' where it is clear.
pub open spec fn flag_letter(flags: u16, mask: u16, c: char) -> char {
    if flags & mask != 0 {
        c
    } else {
        '-'
    }
}

/// The decoded x86 flags: carry, parity, auxiliary, zero, sign, trap, interrupt,
/// direction and overflow, each its letter or '-', separated by spaces.
pub open spec fn x86_flags_line(flags: u16) -> Seq<char> {
    "Flags:"@ + seq![
        ' ',
        flag_letter(flags, 0x0001, 'C'),
        ' ',
        flag_letter(flags, 0x0004, 'P'),
        ' ',
        flag_letter(flags, 0x0010, 'A'),
        ' ',
        flag_letter(flags, 0x0040, 'Z'),
        ' ',
        flag_letter(flags, 0x0080, 'S'),
        ' ',
        flag_letter(flags, 0x0100, 'T'),
        ' ',
        flag_letter(flags, 0x0200, 'I'),
        ' ',
        flag_letter(flags, 0x0400, 'D'),
        ' ',
        flag_letter(flags, 0x0800, 'O'),
    ]
}

/// Two 16-bit registers side by side: "N1: XXXX  N2: XXXX".
pub open spec fn register_pair(n1: Seq<char>, v1: u16, n2: Seq<char>, v2: u16) -> Seq<char> {
    n1 + hex_padded(v1 as nat, 4) + "  "@ + n2 + hex_padded(v2 as nat, 4)
}

/// The registers of the PC overlay.
pub struct PcRegisters {
    pub cs: u16,
    pub ip: u16,
    pub ax: u16,
    pub bx: u16,
    pub cx: u16,
    pub dx: u16,
    pub sp: u16,
    pub bp: u16,
    pub si: u16,
    pub di: u16,
    pub flags: u16,
}

/// The lines of the PC overlay.
pub open spec fn pc_lines(
    r: PcRegisters,
    cycles: u64,
    fps: Seq<char>,
    video_backend: Seq<char>,
) -> Seq<Seq<char>> {
    seq![
        "DEBUG INFO - PC"@,
        ""@,
        "CS:IP: "@ + hex_padded(r.cs as nat, 4) + ":"@ + hex_padded(r.ip as nat, 4),
        register_pair("AX: "@, r.ax, "BX: "@, r.bx),
        register_pair("CX: "@, r.cx, "DX: "@, r.dx),
        register_pair("SP: "@, r.sp, "BP: "@, r.bp),
        register_pair("SI: "@, r.si, "DI: "@, r.di),
        "FLAGS: "@ + hex_padded(r.flags as nat, 4),
        x86_flags_line(r.flags),
        ""@,
        "Cycles: "@ + decimal(cycles as nat),
        "FPS: "@ + fps,
        "Video: "@ + video_backend,
        ""@,
        "Press F10 to close"@,
    ]
}

/// "N1: XXXX  N2: XXXX" for two registers.
fn pair_line(n1: &str, v1: u16, n2: &str, v2: u16) -> (s: String)
    ensures
        s@ == register_pair(n1@, v1, n2@, v2),
{
    let mut s = hex_line(n1, v1 as u64, 4);
    s.append("  ");
    s.append(n2);
    append_hex_padded(&mut s, v2 as u64, 4);
    assert(s@ =~= register_pair(n1@, v1, n2@, v2));
    s
}

/// The letter of a flag bit, or '-'.
fn flag_letter_exec(flags: u16, mask: u16, c: char) -> (r: char)
    ensures
        r == flag_letter(flags, mask, c),
{
    if flags & mask != 0 {
        c
    } else {
        '-'
    }
}

/// Create a debug info overlay for PC. `fps` is the frame rate written with one
/// decimal.
#[allow(clippy::too_many_arguments)]
pub fn create_pc_debug_overlay(
    width: usize,
    height: usize,
    cs: u16,
    ip: u16,
    ax: u16,
    bx: u16,
    cx: u16,
    dx: u16,
    sp: u16,
    bp: u16,
    si: u16,
    di: u16,
    flags: u16,
    cycles: u64,
    fps: &str,
    video_backend: &str,
) -> (buffer: Vec<u32>)
    requires
        overlay_size_ok(width as int, height as int),
    ensures
        buffer@ == debug_overlay_picture(
            width as int,
            height as int,
            pc_lines(
                (PcRegisters { cs, ip, ax, bx, cx, dx, sp, bp, si, di, flags }),
                cycles,
                fps@,
                video_backend@,
            ),
        ),
{
    let ghost regs = PcRegisters { cs, ip, ax, bx, cx, dx, sp, bp, si, di, flags };
    let mut cs_ip_line = hex_line("CS:IP: ", cs as u64, 4);
    cs_ip_line.append(":");
    append_hex_padded(&mut cs_ip_line, ip as u64, 4);
    let ax_bx_line = pair_line("AX: ", ax, "BX: ", bx);
    let cx_dx_line = pair_line("CX: ", cx, "DX: ", dx);
    let sp_bp_line = pair_line("SP: ", sp, "BP: ", bp);
    let si_di_line = pair_line("SI: ", si, "DI: ", di);
    let flags_line = hex_line("FLAGS: ", flags as u64, 4);
    let mut decoded = String::from_str("Flags:");
    decoded.push(' ');
    decoded.push(flag_letter_exec(flags, 0x0001, 'C'));
    decoded.push(' ');
    decoded.push(flag_letter_exec(flags, 0x0004, 'P'));
    decoded.push(' ');
    decoded.push(flag_letter_exec(flags, 0x0010, 'A'));
    decoded.push(' ');
    decoded.push(flag_letter_exec(flags, 0x0040, 'Z'));
    decoded.push(' ');
    decoded.push(flag_letter_exec(flags, 0x0080, 'S'));
    decoded.push(' ');
    decoded.push(flag_letter_exec(flags, 0x0100, 'T'));
    decoded.push(' ');
    decoded.push(flag_letter_exec(flags, 0x0200, 'I'));
    decoded.push(' ');
    decoded.push(flag_letter_exec(flags, 0x0400, 'D'));
    decoded.push(' ');
    decoded.push(flag_letter_exec(flags, 0x0800, 'O'));
    assert(decoded@ =~= x86_flags_line(flags));
    let cycles_line = decimal_line("Cycles: ", cycles, "");
    let fps_line = joined("FPS: ", fps, "");
    let video_line = joined("Video: ", video_backend, "");
    let lines: [&str; 15] = [
        "DEBUG INFO - PC",
        "",
        cs_ip_line.as_str(),
        ax_bx_line.as_str(),
        cx_dx_line.as_str(),
        sp_bp_line.as_str(),
        si_di_line.as_str(),
        flags_line.as_str(),
        decoded.as_str(),
        "",
        cycles_line.as_str(),
        fps_line.as_str(),
        video_line.as_str(),
        "",
        "Press F10 to close",
    ];
    proof {
        reveal_strlit("");
        assert("Cycles: "@ + decimal(cycles as nat) + ""@ =~= "Cycles: "@ + decimal(
            cycles as nat,
        ));
        assert("FPS: "@ + fps@ + ""@ =~= "FPS: "@ + fps@);
        assert("Video: "@ + video_backend@ + ""@ =~= "Video: "@ + video_backend@);
    }
    assert(str_views(lines@) =~= pc_lines(regs, cycles, fps@, video_backend@));
    debug_overlay(width, height, &lines)
}

} // verus!
