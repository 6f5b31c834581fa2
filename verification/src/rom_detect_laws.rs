//! What ROM detection promises, stated over the bytes of the image and the letters
//! of the extension: each signature leads to its system, in the order of priority
//! that detection checks them, and each extension of the supported-formats list
//! leads to the system named for it.
use vstd::prelude::*;

use crate::rom_detect::{
    copier_header_len, has_game_boy_logo, has_ines_header, has_n64_magic, has_sms_signature,
    ines_magic, is_pow2, is_snes_image_size, mz_magic, occurs_at, psx_exe_magic, rejection_reason,
    spec_detect_rom_type, spec_detect_with_extension, spec_is_ps1_bios, spec_is_ps1_disc_image,
    tmr_sega, classify_extension, ExtensionClass, SystemType,
};
use crate::text::ascii_lower_code;

verus! {

/// `d` opens with the bytes `p`.
pub open spec fn opens_with(d: Seq<u8>, p: Seq<u8>) -> bool {
    &&& p.len() <= d.len()
    &&& forall|i: int| 0 <= i < p.len() ==> d[i] == p[i]
}

/// The first byte of `d` is none of those that open an iNES, N64, PlayStation
/// executable or DOS executable image ('N', 0x80, 0x40, 0x37, 'P', 'M').
pub open spec fn no_leading_signature(d: Seq<u8>) -> bool {
    d.len() > 0 ==> d[0] != 0x4E && d[0] != 0x80 && d[0] != 0x40 && d[0] != 0x37 && d[0] != 0x50
        && d[0] != 0x4D
}

/// The Game Boy logo bytes CE ED 66 66 are not at 0x104.
pub open spec fn no_game_boy_logo(d: Seq<u8>) -> bool {
    d.len() >= 0x150 ==> !(d[0x104] == 0xCE && d[0x105] == 0xED && d[0x106] == 0x66 && d[0x107]
        == 0x66)
}

proof fn lemma_opens_with_occurs(d: Seq<u8>, p: Seq<u8>)
    requires
        opens_with(d, p),
    ensures
        occurs_at(d, 0, p),
{
    assert(d.subrange(0, p.len() as int) =~= p);
}

proof fn lemma_leading_byte_excludes(d: Seq<u8>)
    requires
        d.len() > 0,
        no_leading_signature(d),
    ensures
        !has_ines_header(d),
        !has_n64_magic(d),
        !occurs_at(d, 0, psx_exe_magic()),
        !occurs_at(d, 0, mz_magic()),
{
    if occurs_at(d, 0, ines_magic()) {
        assert(d.subrange(0, 4)[0] == ines_magic()[0]);
    }
    if occurs_at(d, 0, psx_exe_magic()) {
        assert(d.subrange(0, 8)[0] == psx_exe_magic()[0]);
    }
    if occurs_at(d, 0, mz_magic()) {
        assert(d.subrange(0, 2)[0] == mz_magic()[0]);
    }
}

/// An image of at least 16 bytes that opens with "NES" and 0x1A is an NES ROM.
pub proof fn lemma_detect_ines(d: Seq<u8>)
    requires
        d.len() >= 16,
        opens_with(d, seq![0x4Eu8, 0x45, 0x53, 0x1A]),
    ensures
        spec_detect_rom_type(d) == Some(SystemType::NES),
{
    lemma_opens_with_occurs(d, seq![0x4Eu8, 0x45, 0x53, 0x1A]);
    assert(seq![0x4Eu8, 0x45, 0x53, 0x1A] =~= ines_magic());
}

/// An image that opens with the N64 magic number, in any of its three byte orders
/// (80 37 12 40, 40 12 37 80, 37 80 40 12), is an N64 ROM.
pub proof fn lemma_detect_n64(d: Seq<u8>)
    requires
        opens_with(d, seq![0x80u8, 0x37, 0x12, 0x40]) || opens_with(d, seq![0x40u8, 0x12, 0x37, 0x80])
            || opens_with(d, seq![0x37u8, 0x80, 0x40, 0x12]),
    ensures
        spec_detect_rom_type(d) == Some(SystemType::N64),
{
    if occurs_at(d, 0, ines_magic()) {
        assert(d.subrange(0, 4)[0] == ines_magic()[0]);
    }
}

/// An image of at least 0x150 bytes with the Nintendo logo bytes CE ED 66 66 at
/// 0x104 is a Game Boy ROM, unless an earlier signature opens it.
pub proof fn lemma_detect_game_boy(d: Seq<u8>)
    requires
        d.len() >= 0x150,
        d[0x104] == 0xCE && d[0x105] == 0xED && d[0x106] == 0x66 && d[0x107] == 0x66,
        no_leading_signature(d),
    ensures
        spec_detect_rom_type(d) == Some(SystemType::GameBoy),
{
    lemma_leading_byte_excludes(d);
}

/// An image of at least 32KB with "TMR SEGA" at 0x7FF0 (0x81F0 behind a 512-byte
/// copier header) is a Master System ROM, unless an earlier signature is found.
pub proof fn lemma_detect_sms_signature(d: Seq<u8>)
    requires
        d.len() >= 0x8000,
        ({
            let o = (if d.len() % 1024 == 512 { 512int } else { 0int }) + 0x7FF0;
            &&& o + 8 <= d.len()
            &&& d[o] == 0x54 && d[o + 1] == 0x4D && d[o + 2] == 0x52 && d[o + 3] == 0x20
            &&& d[o + 4] == 0x53 && d[o + 5] == 0x45 && d[o + 6] == 0x47 && d[o + 7] == 0x41
        }),
        no_leading_signature(d),
        no_game_boy_logo(d),
    ensures
        spec_detect_rom_type(d) == Some(SystemType::SMS),
{
    lemma_leading_byte_excludes(d);
    let o = copier_header_len(d.len() as int) + 0x7FF0;
    assert(d.subrange(o, o + 8) =~= tmr_sega());
}

/// A 48KB image is a Master System ROM, unless an earlier signature is found.
pub proof fn lemma_detect_48k(d: Seq<u8>)
    requires
        d.len() == 49152,
        no_leading_signature(d),
        no_game_boy_logo(d),
    ensures
        spec_detect_rom_type(d) == Some(SystemType::SMS),
{
    lemma_leading_byte_excludes(d);
}

/// A power of two from 32KB to 4MB, behind an optional 512-byte copier header, is
/// a SNES image, unless an earlier signature is found.
pub proof fn lemma_detect_snes_size(d: Seq<u8>)
    requires
        ({
            let rom = d.len() - (if d.len() % 1024 == 512 { 512int } else { 0int });
            rom == 0x8000 || rom == 0x10000 || rom == 0x20000 || rom == 0x40000 || rom == 0x80000
                || rom == 0x100000 || rom == 0x200000 || rom == 0x400000
        }),
        no_leading_signature(d),
        no_game_boy_logo(d),
        !has_sms_signature(d),
    ensures
        spec_detect_rom_type(d) == Some(SystemType::SNES),
{
    lemma_leading_byte_excludes(d);
    lemma_pow2_sizes();
}

/// An image that opens with "PS-X EXE" is a PlayStation executable, unless it has
/// a Game Boy logo or a Master System signature, is 48KB, or has a SNES image size.
pub proof fn lemma_detect_psx_exe(d: Seq<u8>)
    requires
        opens_with(d, seq![0x50u8, 0x53, 0x2D, 0x58, 0x20, 0x45, 0x58, 0x45]),
        !has_game_boy_logo(d),
        !has_sms_signature(d),
        d.len() != 49152,
        !is_snes_image_size(d.len() as int),
    ensures
        spec_detect_rom_type(d) == Some(SystemType::PS1),
{
    let m = seq![0x50u8, 0x53, 0x2D, 0x58, 0x20, 0x45, 0x58, 0x45];
    lemma_opens_with_occurs(d, m);
    assert(m =~= psx_exe_magic());
    if occurs_at(d, 0, ines_magic()) {
        assert(d.subrange(0, 4)[0] == ines_magic()[0]);
    }
}

/// An image that opens with "MZ" is a DOS executable, unless an earlier signature
/// or size decides, or it is a PlayStation BIOS or disc image.
pub proof fn lemma_detect_mz(d: Seq<u8>)
    requires
        opens_with(d, seq![0x4Du8, 0x5A]),
        !has_game_boy_logo(d),
        !has_sms_signature(d),
        d.len() != 49152,
        !is_snes_image_size(d.len() as int),
        !spec_is_ps1_bios(d),
        !spec_is_ps1_disc_image(d),
    ensures
        spec_detect_rom_type(d) == Some(SystemType::PC),
{
    lemma_opens_with_occurs(d, seq![0x4Du8, 0x5A]);
    assert(seq![0x4Du8, 0x5A] =~= mz_magic());
    if occurs_at(d, 0, ines_magic()) {
        assert(d.subrange(0, 4)[0] == ines_magic()[0]);
    }
    if occurs_at(d, 0, psx_exe_magic()) {
        assert(d.subrange(0, 8)[0] == psx_exe_magic()[0]);
    }
}

/// An image of 2K, 4K, 8K, 12K or 16K is an Atari 2600 cartridge, unless a
/// signature opens it or it carries the Game Boy logo.
pub proof fn lemma_detect_atari2600(d: Seq<u8>)
    requires
        d.len() == 2048 || d.len() == 4096 || d.len() == 8192 || d.len() == 12288 || d.len()
            == 16384,
        no_leading_signature(d),
        no_game_boy_logo(d),
    ensures
        spec_detect_rom_type(d) == Some(SystemType::Atari2600),
{
    lemma_leading_byte_excludes(d);
}

/// Any other image from 16 bytes to 0xFF00 bytes is taken for a DOS .COM program
/// (32K, and 32K behind a copier header, being SNES sizes).
pub proof fn lemma_detect_small_program(d: Seq<u8>)
    requires
        16 <= d.len() <= 0xFF00,
        !(d.len() == 2048 || d.len() == 4096 || d.len() == 8192 || d.len() == 12288 || d.len()
            == 16384 || d.len() == 32768 || d.len() == 33280 || d.len() == 49152),
        no_leading_signature(d),
        no_game_boy_logo(d),
        !has_sms_signature(d),
        !spec_is_ps1_disc_image(d),
    ensures
        spec_detect_rom_type(d) == Some(SystemType::PC),
{
    lemma_leading_byte_excludes(d);
    if is_snes_image_size(d.len() as int) {
        let rom = d.len() - copier_header_len(d.len() as int);
        assert(rom == 0x8000) by {
            assert(0x8000 <= rom <= 0xFF00);
            if rom != 0x8000 {
                assert(rom % 2 == 0 && is_pow2((rom / 2) as nat));
                assert(0x4000 <= rom / 2 < 0x8000);
                lemma_pow2_between((rom / 2) as nat, 0x4000);
            }
        }
        assert(copier_header_len(d.len() as int) == 0 || d.len() == 0x8200);
        assert(d.len() % 1024 == 512 ==> d.len() == 0x8200);
        assert(false);
    }
}

/// The SNES image sizes (and 16K) are powers of two.
proof fn lemma_pow2_sizes()
    ensures
        is_pow2(0x4000),
        is_pow2(0x8000),
        is_pow2(0x10000),
        is_pow2(0x20000),
        is_pow2(0x40000),
        is_pow2(0x80000),
        is_pow2(0x100000),
        is_pow2(0x200000),
        is_pow2(0x400000),
{
    reveal_with_fuel(is_pow2, 24);
}

/// A power of two at least `lo` (itself a power of two) is `lo` or at least twice it.
proof fn lemma_pow2_between(n: nat, lo: nat)
    requires
        is_pow2(n),
        lo == 0x4000,
        lo <= n < 2 * lo,
    ensures
        n == lo,
    decreases n,
{
    lemma_pow2_sizes();
    lemma_pow2_halves(n, 0x4000);
}

proof fn lemma_pow2_halves(n: nat, m: nat)
    requires
        is_pow2(n),
        is_pow2(m),
        m <= n < 2 * m,
    ensures
        n == m,
    decreases n,
{
    if n > 1 && m > 1 {
        lemma_pow2_halves(n / 2, m / 2);
    } else if m <= 1 {
        assert(m == 1);
        assert(n == 1);
    } else {
        assert(n == 1);
    }
}

/// An image under 16 bytes that no N64, PlayStation executable or DOS executable
/// magic opens is not recognised.
pub proof fn lemma_detect_too_small(d: Seq<u8>)
    requires
        d.len() < 16,
        no_leading_signature(d),
    ensures
        spec_detect_rom_type(d) is None,
        rejection_reason(d.len() as int) == "File too small to be a valid ROM"@,
{
    if d.len() > 0 {
        lemma_leading_byte_excludes(d);
    }
    if d.len() == 0 {
        assert(!has_n64_magic(d));
    }
}

/// `e` spells the word `w` (lowercase letters and digits), each letter in either
/// ASCII case.
pub open spec fn spells(e: Seq<char>, w: Seq<char>) -> bool {
    &&& e.len() == w.len()
    &&& forall|i: int|
        0 <= i < e.len() ==> (#[trigger] e[i] == w[i] || ('a' <= w[i] <= 'z' && e[i] as u32 + 32
            == w[i] as u32))
}

proof fn lemma_spelled_lower(e: Seq<char>, w: Seq<char>)
    requires
        spells(e, w),
        forall|i: int| 0 <= i < w.len() ==> ('a' <= #[trigger] w[i] <= 'z' || '0' <= w[i] <= '9'),
    ensures
        forall|i: int| 0 <= i < e.len() ==> ascii_lower_code(#[trigger] e[i]) == w[i] as u32 as int,
{
    assert forall|i: int| 0 <= i < e.len() implies ascii_lower_code(#[trigger] e[i]) == w[i] as u32 as int by {
        assert('a' <= w[i] <= 'z' || '0' <= w[i] <= '9');
    }
    if e.len() > 0 {
        assert(ascii_lower_code(e[0]) == w[0] as u32 as int);
    }
    if e.len() > 1 {
        assert(ascii_lower_code(e[1]) == w[1] as u32 as int);
    }
    if e.len() > 2 {
        assert(ascii_lower_code(e[2]) == w[2] as u32 as int);
    }
    if e.len() > 3 {
        assert(ascii_lower_code(e[3]) == w[3] as u32 as int);
    }
    if e.len() > 4 {
        assert(ascii_lower_code(e[4]) == w[4] as u32 as int);
    }
}

proof fn lemma_class_ch8(e: Seq<char>)
    requires
        spells(e, seq!['c', 'h', '8']),
    ensures
        classify_extension(e) == ExtensionClass::Chip8,
{
    lemma_spelled_lower(e, seq!['c', 'h', '8']);
    assert(ascii_lower_code(e[0]) == seq!['c', 'h', '8'][0] as u32 as int);
    assert(ascii_lower_code(e[1]) == seq!['c', 'h', '8'][1] as u32 as int);
    assert(ascii_lower_code(e[2]) == seq!['c', 'h', '8'][2] as u32 as int);
}

proof fn lemma_class_c8(e: Seq<char>)
    requires
        spells(e, seq!['c', '8']),
    ensures
        classify_extension(e) == ExtensionClass::Chip8,
{
    lemma_spelled_lower(e, seq!['c', '8']);
    assert(ascii_lower_code(e[0]) == seq!['c', '8'][0] as u32 as int);
    assert(ascii_lower_code(e[1]) == seq!['c', '8'][1] as u32 as int);
}

proof fn lemma_class_gba(e: Seq<char>)
    requires
        spells(e, seq!['g', 'b', 'a']),
    ensures
        classify_extension(e) == ExtensionClass::Gba,
{
    lemma_spelled_lower(e, seq!['g', 'b', 'a']);
    assert(ascii_lower_code(e[0]) == seq!['g', 'b', 'a'][0] as u32 as int);
    assert(ascii_lower_code(e[1]) == seq!['g', 'b', 'a'][1] as u32 as int);
    assert(ascii_lower_code(e[2]) == seq!['g', 'b', 'a'][2] as u32 as int);
}

proof fn lemma_class_agb(e: Seq<char>)
    requires
        spells(e, seq!['a', 'g', 'b']),
    ensures
        classify_extension(e) == ExtensionClass::Gba,
{
    lemma_spelled_lower(e, seq!['a', 'g', 'b']);
    assert(ascii_lower_code(e[0]) == seq!['a', 'g', 'b'][0] as u32 as int);
    assert(ascii_lower_code(e[1]) == seq!['a', 'g', 'b'][1] as u32 as int);
    assert(ascii_lower_code(e[2]) == seq!['a', 'g', 'b'][2] as u32 as int);
}

proof fn lemma_class_sms(e: Seq<char>)
    requires
        spells(e, seq!['s', 'm', 's']),
    ensures
        classify_extension(e) == ExtensionClass::Sms,
{
    lemma_spelled_lower(e, seq!['s', 'm', 's']);
    assert(ascii_lower_code(e[0]) == seq!['s', 'm', 's'][0] as u32 as int);
    assert(ascii_lower_code(e[1]) == seq!['s', 'm', 's'][1] as u32 as int);
    assert(ascii_lower_code(e[2]) == seq!['s', 'm', 's'][2] as u32 as int);
}

proof fn lemma_class_col(e: Seq<char>)
    requires
        spells(e, seq!['c', 'o', 'l']),
    ensures
        classify_extension(e) == ExtensionClass::ColecoVision,
{
    lemma_spelled_lower(e, seq!['c', 'o', 'l']);
    assert(ascii_lower_code(e[0]) == seq!['c', 'o', 'l'][0] as u32 as int);
    assert(ascii_lower_code(e[1]) == seq!['c', 'o', 'l'][1] as u32 as int);
    assert(ascii_lower_code(e[2]) == seq!['c', 'o', 'l'][2] as u32 as int);
}

proof fn lemma_class_sg(e: Seq<char>)
    requires
        spells(e, seq!['s', 'g']),
    ensures
        classify_extension(e) == ExtensionClass::Sg1000,
{
    lemma_spelled_lower(e, seq!['s', 'g']);
    assert(ascii_lower_code(e[0]) == seq!['s', 'g'][0] as u32 as int);
    assert(ascii_lower_code(e[1]) == seq!['s', 'g'][1] as u32 as int);
}

proof fn lemma_class_sc(e: Seq<char>)
    requires
        spells(e, seq!['s', 'c']),
    ensures
        classify_extension(e) == ExtensionClass::Sg1000,
{
    lemma_spelled_lower(e, seq!['s', 'c']);
    assert(ascii_lower_code(e[0]) == seq!['s', 'c'][0] as u32 as int);
    assert(ascii_lower_code(e[1]) == seq!['s', 'c'][1] as u32 as int);
}

proof fn lemma_class_smc(e: Seq<char>)
    requires
        spells(e, seq!['s', 'm', 'c']),
    ensures
        classify_extension(e) == ExtensionClass::Snes,
{
    lemma_spelled_lower(e, seq!['s', 'm', 'c']);
    assert(ascii_lower_code(e[0]) == seq!['s', 'm', 'c'][0] as u32 as int);
    assert(ascii_lower_code(e[1]) == seq!['s', 'm', 'c'][1] as u32 as int);
    assert(ascii_lower_code(e[2]) == seq!['s', 'm', 'c'][2] as u32 as int);
}

proof fn lemma_class_sfc(e: Seq<char>)
    requires
        spells(e, seq!['s', 'f', 'c']),
    ensures
        classify_extension(e) == ExtensionClass::Snes,
{
    lemma_spelled_lower(e, seq!['s', 'f', 'c']);
    assert(ascii_lower_code(e[0]) == seq!['s', 'f', 'c'][0] as u32 as int);
    assert(ascii_lower_code(e[1]) == seq!['s', 'f', 'c'][1] as u32 as int);
    assert(ascii_lower_code(e[2]) == seq!['s', 'f', 'c'][2] as u32 as int);
}

proof fn lemma_class_z64(e: Seq<char>)
    requires
        spells(e, seq!['z', '6', '4']),
    ensures
        classify_extension(e) == ExtensionClass::N64,
{
    lemma_spelled_lower(e, seq!['z', '6', '4']);
    assert(ascii_lower_code(e[0]) == seq!['z', '6', '4'][0] as u32 as int);
    assert(ascii_lower_code(e[1]) == seq!['z', '6', '4'][1] as u32 as int);
    assert(ascii_lower_code(e[2]) == seq!['z', '6', '4'][2] as u32 as int);
}

proof fn lemma_class_n64(e: Seq<char>)
    requires
        spells(e, seq!['n', '6', '4']),
    ensures
        classify_extension(e) == ExtensionClass::N64,
{
    lemma_spelled_lower(e, seq!['n', '6', '4']);
    assert(ascii_lower_code(e[0]) == seq!['n', '6', '4'][0] as u32 as int);
    assert(ascii_lower_code(e[1]) == seq!['n', '6', '4'][1] as u32 as int);
    assert(ascii_lower_code(e[2]) == seq!['n', '6', '4'][2] as u32 as int);
}

proof fn lemma_class_v64(e: Seq<char>)
    requires
        spells(e, seq!['v', '6', '4']),
    ensures
        classify_extension(e) == ExtensionClass::N64,
{
    lemma_spelled_lower(e, seq!['v', '6', '4']);
    assert(ascii_lower_code(e[0]) == seq!['v', '6', '4'][0] as u32 as int);
    assert(ascii_lower_code(e[1]) == seq!['v', '6', '4'][1] as u32 as int);
    assert(ascii_lower_code(e[2]) == seq!['v', '6', '4'][2] as u32 as int);
}

proof fn lemma_class_com(e: Seq<char>)
    requires
        spells(e, seq!['c', 'o', 'm']),
    ensures
        classify_extension(e) == ExtensionClass::Com,
{
    lemma_spelled_lower(e, seq!['c', 'o', 'm']);
    assert(ascii_lower_code(e[0]) == seq!['c', 'o', 'm'][0] as u32 as int);
    assert(ascii_lower_code(e[1]) == seq!['c', 'o', 'm'][1] as u32 as int);
    assert(ascii_lower_code(e[2]) == seq!['c', 'o', 'm'][2] as u32 as int);
}

proof fn lemma_class_exe(e: Seq<char>)
    requires
        spells(e, seq!['e', 'x', 'e']),
    ensures
        classify_extension(e) == ExtensionClass::Exe,
{
    lemma_spelled_lower(e, seq!['e', 'x', 'e']);
    assert(ascii_lower_code(e[0]) == seq!['e', 'x', 'e'][0] as u32 as int);
    assert(ascii_lower_code(e[1]) == seq!['e', 'x', 'e'][1] as u32 as int);
    assert(ascii_lower_code(e[2]) == seq!['e', 'x', 'e'][2] as u32 as int);
}

proof fn lemma_class_psexe(e: Seq<char>)
    requires
        spells(e, seq!['p', 's', 'e', 'x', 'e']),
    ensures
        classify_extension(e) == ExtensionClass::Ps1,
{
    lemma_spelled_lower(e, seq!['p', 's', 'e', 'x', 'e']);
    assert(ascii_lower_code(e[0]) == seq!['p', 's', 'e', 'x', 'e'][0] as u32 as int);
    assert(ascii_lower_code(e[1]) == seq!['p', 's', 'e', 'x', 'e'][1] as u32 as int);
    assert(ascii_lower_code(e[2]) == seq!['p', 's', 'e', 'x', 'e'][2] as u32 as int);
    assert(ascii_lower_code(e[3]) == seq!['p', 's', 'e', 'x', 'e'][3] as u32 as int);
    assert(ascii_lower_code(e[4]) == seq!['p', 's', 'e', 'x', 'e'][4] as u32 as int);
}

proof fn lemma_class_psx(e: Seq<char>)
    requires
        spells(e, seq!['p', 's', 'x']),
    ensures
        classify_extension(e) == ExtensionClass::Ps1,
{
    lemma_spelled_lower(e, seq!['p', 's', 'x']);
    assert(ascii_lower_code(e[0]) == seq!['p', 's', 'x'][0] as u32 as int);
    assert(ascii_lower_code(e[1]) == seq!['p', 's', 'x'][1] as u32 as int);
    assert(ascii_lower_code(e[2]) == seq!['p', 's', 'x'][2] as u32 as int);
}

proof fn lemma_class_cue(e: Seq<char>)
    requires
        spells(e, seq!['c', 'u', 'e']),
    ensures
        classify_extension(e) == ExtensionClass::Ps1,
{
    lemma_spelled_lower(e, seq!['c', 'u', 'e']);
    assert(ascii_lower_code(e[0]) == seq!['c', 'u', 'e'][0] as u32 as int);
    assert(ascii_lower_code(e[1]) == seq!['c', 'u', 'e'][1] as u32 as int);
    assert(ascii_lower_code(e[2]) == seq!['c', 'u', 'e'][2] as u32 as int);
}

proof fn lemma_class_nes(e: Seq<char>)
    requires
        spells(e, seq!['n', 'e', 's']),
    ensures
        classify_extension(e) == ExtensionClass::Nes,
{
    lemma_spelled_lower(e, seq!['n', 'e', 's']);
    assert(ascii_lower_code(e[0]) == seq!['n', 'e', 's'][0] as u32 as int);
    assert(ascii_lower_code(e[1]) == seq!['n', 'e', 's'][1] as u32 as int);
    assert(ascii_lower_code(e[2]) == seq!['n', 'e', 's'][2] as u32 as int);
}

proof fn lemma_class_gb(e: Seq<char>)
    requires
        spells(e, seq!['g', 'b']),
    ensures
        classify_extension(e) == ExtensionClass::GameBoy,
{
    lemma_spelled_lower(e, seq!['g', 'b']);
    assert(ascii_lower_code(e[0]) == seq!['g', 'b'][0] as u32 as int);
    assert(ascii_lower_code(e[1]) == seq!['g', 'b'][1] as u32 as int);
}

proof fn lemma_class_gbc(e: Seq<char>)
    requires
        spells(e, seq!['g', 'b', 'c']),
    ensures
        classify_extension(e) == ExtensionClass::GameBoy,
{
    lemma_spelled_lower(e, seq!['g', 'b', 'c']);
    assert(ascii_lower_code(e[0]) == seq!['g', 'b', 'c'][0] as u32 as int);
    assert(ascii_lower_code(e[1]) == seq!['g', 'b', 'c'][1] as u32 as int);
    assert(ascii_lower_code(e[2]) == seq!['g', 'b', 'c'][2] as u32 as int);
}

proof fn lemma_class_a26(e: Seq<char>)
    requires
        spells(e, seq!['a', '2', '6']),
    ensures
        classify_extension(e) == ExtensionClass::Atari2600,
{
    lemma_spelled_lower(e, seq!['a', '2', '6']);
    assert(ascii_lower_code(e[0]) == seq!['a', '2', '6'][0] as u32 as int);
    assert(ascii_lower_code(e[1]) == seq!['a', '2', '6'][1] as u32 as int);
    assert(ascii_lower_code(e[2]) == seq!['a', '2', '6'][2] as u32 as int);
}

/// The extensions that name one system lead to it, whatever the data and the
/// preferred system: .ch8/.c8 CHIP-8, .gba/.agb GBA, .sms Master System, .col
/// ColecoVision, .sg/.sc SG-1000, in any ASCII case.
pub proof fn lemma_extension_consoles(d: Seq<u8>, e: Seq<char>, pref: Option<SystemType>)
    ensures
        spells(e, seq!['c', 'h', '8']) || spells(e, seq!['c', '8']) ==> spec_detect_with_extension(d, Some(e), pref) == Some(SystemType::Chip8),
        spells(e, seq!['g', 'b', 'a']) || spells(e, seq!['a', 'g', 'b']) ==> spec_detect_with_extension(d, Some(e), pref) == Some(SystemType::GBA),
        spells(e, seq!['s', 'm', 's']) ==> spec_detect_with_extension(d, Some(e), pref) == Some(SystemType::SMS),
        spells(e, seq!['c', 'o', 'l']) ==> spec_detect_with_extension(d, Some(e), pref) == Some(SystemType::ColecoVision),
        spells(e, seq!['s', 'g']) || spells(e, seq!['s', 'c']) ==> spec_detect_with_extension(d, Some(e), pref) == Some(SystemType::SG1000),
{
    if spells(e, seq!['c', 'h', '8']) {
        lemma_class_ch8(e);
    }
    if spells(e, seq!['c', '8']) {
        lemma_class_c8(e);
    }
    if spells(e, seq!['g', 'b', 'a']) {
        lemma_class_gba(e);
    }
    if spells(e, seq!['a', 'g', 'b']) {
        lemma_class_agb(e);
    }
    if spells(e, seq!['s', 'm', 's']) {
        lemma_class_sms(e);
    }
    if spells(e, seq!['c', 'o', 'l']) {
        lemma_class_col(e);
    }
    if spells(e, seq!['s', 'g']) {
        lemma_class_sg(e);
    }
    if spells(e, seq!['s', 'c']) {
        lemma_class_sc(e);
    }
}

/// .smc/.sfc lead to the SNES and .z64/.n64/.v64 to the N64, whatever the data and
/// the preferred system, in any ASCII case.
pub proof fn lemma_extension_cartridges(d: Seq<u8>, e: Seq<char>, pref: Option<SystemType>)
    ensures
        spells(e, seq!['s', 'm', 'c']) || spells(e, seq!['s', 'f', 'c']) ==> spec_detect_with_extension(d, Some(e), pref) == Some(SystemType::SNES),
        spells(e, seq!['z', '6', '4']) || spells(e, seq!['n', '6', '4']) || spells(e, seq!['v', '6', '4']) ==> spec_detect_with_extension(d, Some(e), pref) == Some(SystemType::N64),
{
    if spells(e, seq!['s', 'm', 'c']) {
        lemma_class_smc(e);
    }
    if spells(e, seq!['s', 'f', 'c']) {
        lemma_class_sfc(e);
    }
    if spells(e, seq!['z', '6', '4']) {
        lemma_class_z64(e);
    }
    if spells(e, seq!['n', '6', '4']) {
        lemma_class_n64(e);
    }
    if spells(e, seq!['v', '6', '4']) {
        lemma_class_v64(e);
    }
}

/// .com leads to a DOS program; .exe to a PlayStation executable where the data
/// opens with "PS-X EXE" and to a DOS program otherwise; .psexe/.psx/.cue to the
/// PlayStation; whatever the preferred system, in any ASCII case.
pub proof fn lemma_extension_programs(d: Seq<u8>, e: Seq<char>, pref: Option<SystemType>)
    ensures
        spells(e, seq!['c', 'o', 'm']) ==> spec_detect_with_extension(d, Some(e), pref) == Some(SystemType::PC),
        spells(e, seq!['e', 'x', 'e']) ==> spec_detect_with_extension(d, Some(e), pref) == Some(
            if opens_with(d, seq![0x50u8, 0x53, 0x2D, 0x58, 0x20, 0x45, 0x58, 0x45]) {
                SystemType::PS1
            } else {
                SystemType::PC
            },
        ),
        spells(e, seq!['p', 's', 'e', 'x', 'e']) || spells(e, seq!['p', 's', 'x']) || spells(e, seq!['c', 'u', 'e']) ==> spec_detect_with_extension(d, Some(e), pref) == Some(SystemType::PS1),
{
    if spells(e, seq!['c', 'o', 'm']) {
        lemma_class_com(e);
    }
    if spells(e, seq!['e', 'x', 'e']) {
        lemma_class_exe(e);
    }
    if spells(e, seq!['p', 's', 'e', 'x', 'e']) {
        lemma_class_psexe(e);
    }
    if spells(e, seq!['p', 's', 'x']) {
        lemma_class_psx(e);
    }
    if spells(e, seq!['c', 'u', 'e']) {
        lemma_class_cue(e);
    }
    let m = seq![0x50u8, 0x53, 0x2D, 0x58, 0x20, 0x45, 0x58, 0x45];
    assert(m =~= psx_exe_magic());
    if opens_with(d, m) {
        lemma_opens_with_occurs(d, m);
    } else if occurs_at(d, 0, m) {
        assert(forall|i: int| 0 <= i < 8 ==> d[i] == #[trigger] d.subrange(0, 8)[i]);
    }
}

/// .nes, .gb/.gbc and .a26 lead to their system where the data passes its check
/// (the iNES magic, the Game Boy logo bytes, an Atari 2600 cartridge size), and to
/// content detection otherwise, whatever the preferred system, in any ASCII case.
pub proof fn lemma_extension_checked(d: Seq<u8>, e: Seq<char>, pref: Option<SystemType>)
    ensures
        spells(e, seq!['n', 'e', 's']) ==> spec_detect_with_extension(d, Some(e), pref) == if d.len() >= 16 && opens_with(
            d,
            seq![0x4Eu8, 0x45, 0x53, 0x1A],
        ) {
            Some(SystemType::NES)
        } else {
            spec_detect_rom_type(d)
        },
        spells(e, seq!['g', 'b']) || spells(e, seq!['g', 'b', 'c']) ==> spec_detect_with_extension(d, Some(e), pref) == if d.len() >= 0x150 && d[0x104]
            == 0xCE && d[0x105] == 0xED && d[0x106] == 0x66 && d[0x107] == 0x66 {
            Some(SystemType::GameBoy)
        } else {
            spec_detect_rom_type(d)
        },
        spells(e, seq!['a', '2', '6']) ==> spec_detect_with_extension(d, Some(e), pref) == if d.len() == 2048 || d.len()
            == 4096 || d.len() == 8192 || d.len() == 12288 || d.len() == 16384 || d.len() == 32768 {
            Some(SystemType::Atari2600)
        } else {
            spec_detect_rom_type(d)
        },
{
    if spells(e, seq!['n', 'e', 's']) {
        lemma_class_nes(e);
    }
    if spells(e, seq!['g', 'b']) {
        lemma_class_gb(e);
    }
    if spells(e, seq!['g', 'b', 'c']) {
        lemma_class_gbc(e);
    }
    if spells(e, seq!['a', '2', '6']) {
        lemma_class_a26(e);
    }
    let m = seq![0x4Eu8, 0x45, 0x53, 0x1A];
    assert(m =~= ines_magic());
    if d.len() >= 16 && opens_with(d, m) {
        lemma_opens_with_occurs(d, m);
    } else if occurs_at(d, 0, m) {
        assert(forall|i: int| 0 <= i < 4 ==> d[i] == #[trigger] d.subrange(0, 4)[i]);
    }
}

proof fn lemma_class_bin(e: Seq<char>)
    requires
        spells(e, seq!['b', 'i', 'n']),
    ensures
        classify_extension(e) == ExtensionClass::Binary,
{
    lemma_spelled_lower(e, seq!['b', 'i', 'n']);
    assert(ascii_lower_code(e[0]) == seq!['b', 'i', 'n'][0] as u32 as int);
    assert(ascii_lower_code(e[1]) == seq!['b', 'i', 'n'][1] as u32 as int);
    assert(ascii_lower_code(e[2]) == seq!['b', 'i', 'n'][2] as u32 as int);
}

proof fn lemma_class_iso(e: Seq<char>)
    requires
        spells(e, seq!['i', 's', 'o']),
    ensures
        classify_extension(e) == ExtensionClass::Binary,
{
    lemma_spelled_lower(e, seq!['i', 's', 'o']);
    assert(ascii_lower_code(e[0]) == seq!['i', 's', 'o'][0] as u32 as int);
    assert(ascii_lower_code(e[1]) == seq!['i', 's', 'o'][1] as u32 as int);
    assert(ascii_lower_code(e[2]) == seq!['i', 's', 'o'][2] as u32 as int);
}

proof fn lemma_class_img(e: Seq<char>)
    requires
        spells(e, seq!['i', 'm', 'g']),
    ensures
        classify_extension(e) == ExtensionClass::DiskImage,
{
    lemma_spelled_lower(e, seq!['i', 'm', 'g']);
    assert(ascii_lower_code(e[0]) == seq!['i', 'm', 'g'][0] as u32 as int);
    assert(ascii_lower_code(e[1]) == seq!['i', 'm', 'g'][1] as u32 as int);
    assert(ascii_lower_code(e[2]) == seq!['i', 'm', 'g'][2] as u32 as int);
}

proof fn lemma_class_ima(e: Seq<char>)
    requires
        spells(e, seq!['i', 'm', 'a']),
    ensures
        classify_extension(e) == ExtensionClass::DiskImage,
{
    lemma_spelled_lower(e, seq!['i', 'm', 'a']);
    assert(ascii_lower_code(e[0]) == seq!['i', 'm', 'a'][0] as u32 as int);
    assert(ascii_lower_code(e[1]) == seq!['i', 'm', 'a'][1] as u32 as int);
    assert(ascii_lower_code(e[2]) == seq!['i', 'm', 'a'][2] as u32 as int);
}

/// The raw checks behind a preferred system for a binary image: an Atari 2600
/// cartridge size, the Game Boy logo bytes, a SNES image size, the N64 magic.
pub open spec fn passes_check_of(d: Seq<u8>, p: SystemType) -> bool {
    match p {
        SystemType::Atari2600 => d.len() == 2048 || d.len() == 4096 || d.len() == 8192 || d.len()
            == 12288 || d.len() == 16384 || d.len() == 32768,
        SystemType::GameBoy => d.len() >= 0x150 && d[0x104] == 0xCE && d[0x105] == 0xED && d[0x106]
            == 0x66 && d[0x107] == 0x66,
        SystemType::SNES => is_snes_image_size(d.len() as int),
        SystemType::N64 => opens_with(d, seq![0x80u8, 0x37, 0x12, 0x40]) || opens_with(
            d,
            seq![0x40u8, 0x12, 0x37, 0x80],
        ) || opens_with(d, seq![0x37u8, 0x80, 0x40, 0x12]),
        _ => false,
    }
}

/// .bin and .iso (in any ASCII case): a PlayStation BIOS or disc image is a
/// PlayStation image; otherwise the preferred system where the image passes its
/// check; otherwise an Atari 2600 cartridge where the size is one; otherwise
/// content detection decides.
pub proof fn lemma_extension_binary(d: Seq<u8>, e: Seq<char>, pref: Option<SystemType>)
    requires
        spells(e, seq!['b', 'i', 'n']) || spells(e, seq!['i', 's', 'o']),
    ensures
        spec_detect_with_extension(d, Some(e), pref) == if spec_is_ps1_bios(d)
            || spec_is_ps1_disc_image(d) {
            Some(SystemType::PS1)
        } else if pref matches Some(p) && passes_check_of(d, p) {
            pref
        } else if d.len() == 2048 || d.len() == 4096 || d.len() == 8192 || d.len() == 12288
            || d.len() == 16384 || d.len() == 32768 {
            Some(SystemType::Atari2600)
        } else {
            spec_detect_rom_type(d)
        },
{
    if spells(e, seq!['b', 'i', 'n']) {
        lemma_class_bin(e);
    } else {
        lemma_class_iso(e);
    }
    if pref matches Some(SystemType::N64) {
        lemma_n64_magic_raw(d);
    }
}

/// .img and .ima (in any ASCII case): a PlayStation BIOS or disc image is a
/// PlayStation image; a floppy image size (360K, 720K, 1.2M, 1.44M, 2.88M) or an
/// image of 1MB or more is a PC disk; otherwise as for .bin.
pub proof fn lemma_extension_disk_image(d: Seq<u8>, e: Seq<char>, pref: Option<SystemType>)
    requires
        spells(e, seq!['i', 'm', 'g']) || spells(e, seq!['i', 'm', 'a']),
    ensures
        spec_detect_with_extension(d, Some(e), pref) == if spec_is_ps1_bios(d)
            || spec_is_ps1_disc_image(d) {
            Some(SystemType::PS1)
        } else if d.len() == 368_640 || d.len() == 737_280 || d.len() == 1_228_800 || d.len()
            == 1_474_560 || d.len() == 2_949_120 || d.len() >= 1024 * 1024 {
            Some(SystemType::PC)
        } else if pref matches Some(p) && passes_check_of(d, p) {
            pref
        } else if d.len() == 2048 || d.len() == 4096 || d.len() == 8192 || d.len() == 12288
            || d.len() == 16384 || d.len() == 32768 {
            Some(SystemType::Atari2600)
        } else {
            spec_detect_rom_type(d)
        },
{
    if spells(e, seq!['i', 'm', 'g']) {
        lemma_class_img(e);
    } else {
        lemma_class_ima(e);
    }
    if pref matches Some(SystemType::N64) {
        lemma_n64_magic_raw(d);
    }
}

proof fn lemma_n64_magic_raw(d: Seq<u8>)
    ensures
        has_n64_magic(d) == (opens_with(d, seq![0x80u8, 0x37, 0x12, 0x40]) || opens_with(
            d,
            seq![0x40u8, 0x12, 0x37, 0x80],
        ) || opens_with(d, seq![0x37u8, 0x80, 0x40, 0x12])),
{
}

/// An extension that is no supported one (here: longer than any of them, or
/// empty) leaves the choice to the preferred system: NES, Game Boy and N64 where
/// the image carries their header (the iNES magic, the logo bytes, the N64 magic),
/// any other preferred system as it is; without a preference, or where the header
/// is missing, content detection decides.
pub proof fn lemma_extension_unknown(d: Seq<u8>, e: Seq<char>, pref: Option<SystemType>)
    requires
        e.len() == 0 || e.len() > 5,
    ensures
        spec_detect_with_extension(d, Some(e), pref) == match pref {
            None => spec_detect_rom_type(d),
            Some(SystemType::NES) => if d.len() >= 16 && opens_with(d, seq![0x4Eu8, 0x45, 0x53, 0x1A]) {
                Some(SystemType::NES)
            } else {
                spec_detect_rom_type(d)
            },
            Some(SystemType::GameBoy) => if d.len() >= 0x150 && d[0x104] == 0xCE && d[0x105] == 0xED
                && d[0x106] == 0x66 && d[0x107] == 0x66 {
                Some(SystemType::GameBoy)
            } else {
                spec_detect_rom_type(d)
            },
            Some(SystemType::N64) => if opens_with(d, seq![0x80u8, 0x37, 0x12, 0x40]) || opens_with(
                d,
                seq![0x40u8, 0x12, 0x37, 0x80],
            ) || opens_with(d, seq![0x37u8, 0x80, 0x40, 0x12]) {
                Some(SystemType::N64)
            } else {
                spec_detect_rom_type(d)
            },
            Some(p) => Some(p),
        },
{
    assert(classify_extension(e) == ExtensionClass::Other);
    lemma_n64_magic_raw(d);
    let m = seq![0x4Eu8, 0x45, 0x53, 0x1A];
    assert(m =~= ines_magic());
    if d.len() >= 16 && opens_with(d, m) {
        lemma_opens_with_occurs(d, m);
    } else if occurs_at(d, 0, m) {
        assert(forall|i: int| 0 <= i < 4 ==> d[i] == #[trigger] d.subrange(0, 4)[i]);
    }
}

} // verus!
