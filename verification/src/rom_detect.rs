//! ROM detection and system selection
//!
//! A ROM image is classified first by its file extension (where one is given
//! and decisive), then by the preferred system for ambiguous extensions, and
//! finally by its content: magic numbers, headers and sizes.
use vstd::prelude::*;
use vstd::string::*;

use crate::text::{ascii_lower_code, chars_of, ext_is, ext_is_exec};

verus! {

/// Standard floppy disk image sizes in bytes.
///
/// - 360 KB  (5.25", double-density)
/// - 720 KB  (3.5", double-density)
/// - 1.2 MB  (5.25", high-density)
/// - 1.44 MB (3.5", high-density) – most common
/// - 2.88 MB (3.5", extended density)
pub const FLOPPY_IMAGE_SIZES: [usize; 5] = [368_640, 737_280, 1_228_800, 1_474_560, 2_949_120];

/// The systems that a ROM image can be detected as.
#[derive(Debug, Clone, Copy, PartialEq, Eq, Structural)]
#[allow(clippy::upper_case_acronyms)]
pub enum SystemType {
    NES,
    GameBoy,
    GBA,
    Atari2600,
    PC,
    SNES,
    N64,
    SMS,
    Chip8,
    ColecoVision,
    SG1000,
    PS1,
}

/// Why a ROM image was refused.
#[derive(Debug)]
pub struct UnsupportedRomError {
    pub reason: String,
}

impl UnsupportedRomError {
    /// The human-readable message: "Unsupported ROM: " followed by the reason.
    pub fn message(&self) -> (s: String)
        ensures
            s@ == "Unsupported ROM: "@ + self.reason@,
    {
        let mut s = String::from_str("Unsupported ROM: ");
        s.append(self.reason.as_str());
        s
    }
}

// ---------------------------------------------------------------------------
// The byte patterns that identify formats
// ---------------------------------------------------------------------------

/// "NES" followed by 0x1A: the iNES header magic.
pub open spec fn ines_magic() -> Seq<u8> {
    seq![0x4Eu8, 0x45, 0x53, 0x1A]
}

/// "TMR SEGA": the Sega Master System header signature.
pub open spec fn tmr_sega() -> Seq<u8> {
    seq![0x54u8, 0x4D, 0x52, 0x20, 0x53, 0x45, 0x47, 0x41]
}

/// "PS-X EXE": the PlayStation executable magic.
pub open spec fn psx_exe_magic() -> Seq<u8> {
    seq![0x50u8, 0x53, 0x2D, 0x58, 0x20, 0x45, 0x58, 0x45]
}

/// "MZ": the DOS executable magic.
pub open spec fn mz_magic() -> Seq<u8> {
    seq![0x4Du8, 0x5A]
}

/// "Sony Computer Entertainment"
pub open spec fn sony_computer_entertainment() -> Seq<u8> {
    seq![
        0x53u8, 0x6F, 0x6E, 0x79, 0x20, 0x43, 0x6F, 0x6D, 0x70, 0x75, 0x74, 0x65, 0x72, 0x20,
        0x45, 0x6E, 0x74, 0x65, 0x72, 0x74, 0x61, 0x69, 0x6E, 0x6D, 0x65, 0x6E, 0x74,
    ]
}

/// "PlayStation"
pub open spec fn playstation_mixed() -> Seq<u8> {
    seq![0x50u8, 0x6C, 0x61, 0x79, 0x53, 0x74, 0x61, 0x74, 0x69, 0x6F, 0x6E]
}

/// "PLAYSTATION"
pub open spec fn playstation_upper() -> Seq<u8> {
    seq![0x50u8, 0x4C, 0x41, 0x59, 0x53, 0x54, 0x41, 0x54, 0x49, 0x4F, 0x4E]
}

/// "PS-X Realtime Kernel"
pub open spec fn psx_realtime_kernel() -> Seq<u8> {
    seq![
        0x50u8, 0x53, 0x2D, 0x58, 0x20, 0x52, 0x65, 0x61, 0x6C, 0x74, 0x69, 0x6D, 0x65, 0x20,
        0x4B, 0x65, 0x72, 0x6E, 0x65, 0x6C,
    ]
}

/// "System ROM Version"
pub open spec fn system_rom_version() -> Seq<u8> {
    seq![
        0x53u8, 0x79, 0x73, 0x74, 0x65, 0x6D, 0x20, 0x52, 0x4F, 0x4D, 0x20, 0x56, 0x65, 0x72,
        0x73, 0x69, 0x6F, 0x6E,
    ]
}

/// "Sony Com"
pub open spec fn sony_com() -> Seq<u8> {
    seq![0x53u8, 0x6F, 0x6E, 0x79, 0x20, 0x43, 0x6F, 0x6D]
}

/// The CD-ROM sync pattern that opens every raw 2352-byte sector.
pub open spec fn cd_sync() -> Seq<u8> {
    seq![0x00u8, 0xFF, 0xFF, 0xFF, 0xFF, 0xFF, 0xFF, 0xFF, 0xFF, 0xFF, 0xFF, 0x00]
}

// ---------------------------------------------------------------------------
// The model of detection
// ---------------------------------------------------------------------------

/// `pat` occurs in `d` starting at offset `off`.
pub open spec fn occurs_at(d: Seq<u8>, off: int, pat: Seq<u8>) -> bool {
    &&& 0 <= off
    &&& off + pat.len() <= d.len()
    &&& d.subrange(off, off + pat.len()) == pat
}

/// `pat` occurs somewhere in `d` (some window of `d` equals `pat`).
pub open spec fn occurs_in(d: Seq<u8>, pat: Seq<u8>) -> bool {
    exists|i: int| occurs_at(d, i, pat)
}

/// The ROM sizes of Atari 2600 cartridges: 2K, 4K, 8K, 12K, 16K and 32K.
pub open spec fn is_atari2600_size(n: int) -> bool {
    n == 2048 || n == 4096 || n == 8192 || n == 12288 || n == 16384 || n == 32768
}

/// `n` is one of `FLOPPY_IMAGE_SIZES`.
pub open spec fn is_floppy_image_size(n: int) -> bool {
    n == 368_640 || n == 737_280 || n == 1_228_800 || n == 1_474_560 || n == 2_949_120
}

/// `n` is a power of two.
pub open spec fn is_pow2(n: nat) -> bool
    decreases n,
{
    if n <= 1 {
        n == 1
    } else {
        n % 2 == 0 && is_pow2(n / 2)
    }
}

/// Length of the copier header in front of an image of `n` bytes:
/// 512 bytes where `n` is 512 more than a multiple of 1024, else none.
pub open spec fn copier_header_len(n: int) -> int {
    if n % 1024 == 512 {
        512
    } else {
        0
    }
}

/// The image (without its copier header) is a power of two between 32KB and 4MB.
pub open spec fn is_snes_image_size(n: int) -> bool {
    let rom = n - copier_header_len(n);
    &&& 0x8000 <= rom <= 0x400000
    &&& is_pow2(rom as nat)
}

/// At least 16 bytes, starting with the iNES magic.
pub open spec fn has_ines_header(d: Seq<u8>) -> bool {
    d.len() >= 16 && occurs_at(d, 0, ines_magic())
}

/// One of the three byte orders of the N64 magic number opens the image.
pub open spec fn has_n64_magic(d: Seq<u8>) -> bool {
    &&& d.len() >= 4
    &&& {
        ||| (d[0] == 0x80 && d[1] == 0x37 && d[2] == 0x12 && d[3] == 0x40)
        ||| (d[0] == 0x40 && d[1] == 0x12 && d[2] == 0x37 && d[3] == 0x80)
        ||| (d[0] == 0x37 && d[1] == 0x80 && d[2] == 0x40 && d[3] == 0x12)
    }
}

/// A header of at least 0x150 bytes whose Nintendo logo starts CE ED 66 66 at 0x104.
pub open spec fn has_game_boy_logo(d: Seq<u8>) -> bool {
    &&& d.len() >= 0x150
    &&& d[0x104] == 0xCE && d[0x105] == 0xED && d[0x106] == 0x66 && d[0x107] == 0x66
}

/// "TMR SEGA" at 0x7FF0 (after any copier header) in an image of at least 32KB.
pub open spec fn has_sms_signature(d: Seq<u8>) -> bool {
    d.len() >= 0x8000 && occurs_at(d, copier_header_len(d.len() as int) + 0x7FF0, tmr_sega())
}

/// A 512KB image that holds one of the known PlayStation BIOS strings.
pub open spec fn spec_is_ps1_bios(d: Seq<u8>) -> bool {
    &&& d.len() == 512 * 1024
    &&& {
        ||| occurs_in(d, sony_computer_entertainment())
        ||| occurs_in(d, playstation_mixed())
        ||| occurs_in(d, psx_realtime_kernel())
        ||| occurs_in(d, system_rom_version())
    }
}

/// A raw CD image of at least 16 sectors that opens with the CD sync pattern, whose
/// size is a multiple of 2352 or of 2336, and which either names the PlayStation
/// (or "Sony Com") within its first 20 sectors or is larger than 1MB.
pub open spec fn spec_is_ps1_disc_image(d: Seq<u8>) -> bool {
    let area = d.take(if d.len() < 2352 * 20 { d.len() as int } else { 2352int * 20 });
    &&& d.len() >= 2352 * 16
    &&& occurs_at(d, 0, cd_sync())
    &&& (d.len() % 2352 == 0 || d.len() % 2336 == 0)
    &&& {
        ||| occurs_in(area, playstation_mixed())
        ||| occurs_in(area, playstation_upper())
        ||| occurs_in(area, sony_com())
        ||| d.len() > 1024 * 1024
    }
}

/// The system that content-based detection finds for `d`, if any.
pub open spec fn spec_detect_rom_type(d: Seq<u8>) -> Option<SystemType> {
    let n = d.len() as int;
    if has_ines_header(d) {
        Some(SystemType::NES)
    } else if has_n64_magic(d) {
        Some(SystemType::N64)
    } else if has_game_boy_logo(d) {
        Some(SystemType::GameBoy)
    } else if has_sms_signature(d) {
        Some(SystemType::SMS)
    } else if n == 49152 {
        Some(SystemType::SMS)
    } else if is_snes_image_size(n) {
        Some(SystemType::SNES)
    } else if occurs_at(d, 0, psx_exe_magic()) {
        Some(SystemType::PS1)
    } else if spec_is_ps1_bios(d) {
        Some(SystemType::PS1)
    } else if spec_is_ps1_disc_image(d) {
        Some(SystemType::PS1)
    } else if occurs_at(d, 0, mz_magic()) {
        Some(SystemType::PC)
    } else if is_atari2600_size(n) {
        Some(SystemType::Atari2600)
    } else if 16 <= n <= 0xFF00 {
        Some(SystemType::PC)
    } else {
        None
    }
}

/// The list of supported formats that closes the rejection messages.
pub open spec fn supported_formats() -> Seq<char> {
    "Supported formats: iNES (.nes), Game Boy (.gb/.gbc), GBA (.gba), Atari 2600 (.a26/.bin), DOS (.com/.exe), SNES (.smc/.sfc), N64 (.z64/.n64/.v64), SMS (.sms), CHIP-8 (.ch8/.c8), ColecoVision (.col), SG-1000 (.sg/.sc), PS1 (.exe/.psexe/.cue/.bin/.iso)"@
}

/// The reason given when an image of `n` bytes is not recognised.
pub open spec fn rejection_reason(n: int) -> Seq<char> {
    if n < 16 {
        "File too small to be a valid ROM"@
    } else if n % 1024 == 0 {
        "Unrecognized ROM format. "@ + supported_formats()
    } else {
        "Unknown ROM format. "@ + supported_formats()
    }
}

/// The groups of file extensions that detection tells apart
/// (matched without regard to ASCII case).
#[derive(Debug, Clone, Copy, PartialEq, Eq, Structural)]
pub enum ExtensionClass {
    /// .ch8, .c8
    Chip8,
    /// .nes
    Nes,
    /// .gb, .gbc
    GameBoy,
    /// .gba, .agb
    Gba,
    /// .sms
    Sms,
    /// .col
    ColecoVision,
    /// .sg, .sc
    Sg1000,
    /// .a26
    Atari2600,
    /// .bin, .iso
    Binary,
    /// .img, .ima
    DiskImage,
    /// .smc, .sfc
    Snes,
    /// .z64, .n64, .v64
    N64,
    /// .com
    Com,
    /// .exe
    Exe,
    /// .psexe, .psx, .cue
    Ps1,
    /// anything else
    Other,
}

/// The class of extension `e`.
pub open spec fn classify_extension(e: Seq<char>) -> ExtensionClass {
    if ext_is(e, seq!['c', 'h', '8']) || ext_is(e, seq!['c', '8']) {
        ExtensionClass::Chip8
    } else if ext_is(e, seq!['n', 'e', 's']) {
        ExtensionClass::Nes
    } else if ext_is(e, seq!['g', 'b']) || ext_is(e, seq!['g', 'b', 'c']) {
        ExtensionClass::GameBoy
    } else if ext_is(e, seq!['g', 'b', 'a']) || ext_is(e, seq!['a', 'g', 'b']) {
        ExtensionClass::Gba
    } else if ext_is(e, seq!['s', 'm', 's']) {
        ExtensionClass::Sms
    } else if ext_is(e, seq!['c', 'o', 'l']) {
        ExtensionClass::ColecoVision
    } else if ext_is(e, seq!['s', 'g']) || ext_is(e, seq!['s', 'c']) {
        ExtensionClass::Sg1000
    } else if ext_is(e, seq!['a', '2', '6']) {
        ExtensionClass::Atari2600
    } else if ext_is(e, seq!['b', 'i', 'n']) || ext_is(e, seq!['i', 's', 'o']) {
        ExtensionClass::Binary
    } else if ext_is(e, seq!['i', 'm', 'g']) || ext_is(e, seq!['i', 'm', 'a']) {
        ExtensionClass::DiskImage
    } else if ext_is(e, seq!['s', 'm', 'c']) || ext_is(e, seq!['s', 'f', 'c']) {
        ExtensionClass::Snes
    } else if ext_is(e, seq!['z', '6', '4']) || ext_is(e, seq!['n', '6', '4']) || ext_is(
        e,
        seq!['v', '6', '4'],
    ) {
        ExtensionClass::N64
    } else if ext_is(e, seq!['c', 'o', 'm']) {
        ExtensionClass::Com
    } else if ext_is(e, seq!['e', 'x', 'e']) {
        ExtensionClass::Exe
    } else if ext_is(e, seq!['p', 's', 'e', 'x', 'e']) || ext_is(e, seq!['p', 's', 'x']) || ext_is(
        e,
        seq!['c', 'u', 'e'],
    ) {
        ExtensionClass::Ps1
    } else {
        ExtensionClass::Other
    }
}

/// For a binary image (.bin, .iso, .img, .ima) that is not a PlayStation image:
/// the preferred system where the image passes that system's check.
pub open spec fn preferred_for_binary(d: Seq<u8>, pref: Option<SystemType>) -> Option<SystemType> {
    match pref {
        Some(SystemType::Atari2600) => if is_atari2600_size(d.len() as int) {
            Some(SystemType::Atari2600)
        } else {
            None
        },
        Some(SystemType::GameBoy) => if has_game_boy_logo(d) {
            Some(SystemType::GameBoy)
        } else {
            None
        },
        Some(SystemType::SNES) => if is_snes_image_size(d.len() as int) {
            Some(SystemType::SNES)
        } else {
            None
        },
        Some(SystemType::N64) => if has_n64_magic(d) {
            Some(SystemType::N64)
        } else {
            None
        },
        _ => None,
    }
}

/// For an unknown extension: the preferred system, checked by its header
/// where it has one (NES, Game Boy, N64), trusted otherwise.
pub open spec fn preferred_for_unknown(d: Seq<u8>, p: SystemType) -> Option<SystemType> {
    match p {
        SystemType::NES => if has_ines_header(d) {
            Some(SystemType::NES)
        } else {
            None
        },
        SystemType::GameBoy => if has_game_boy_logo(d) {
            Some(SystemType::GameBoy)
        } else {
            None
        },
        SystemType::N64 => if has_n64_magic(d) {
            Some(SystemType::N64)
        } else {
            None
        },
        _ => Some(p),
    }
}

/// What the extension class (with the preferred system) decides for `d`;
/// `None` leaves the decision to content-based detection.
pub open spec fn extension_decision(
    d: Seq<u8>,
    class: ExtensionClass,
    pref: Option<SystemType>,
) -> Option<SystemType> {
    let n = d.len() as int;
    match class {
        ExtensionClass::Chip8 => Some(SystemType::Chip8),
        ExtensionClass::Nes => if has_ines_header(d) {
            Some(SystemType::NES)
        } else {
            None
        },
        ExtensionClass::GameBoy => if has_game_boy_logo(d) {
            Some(SystemType::GameBoy)
        } else {
            None
        },
        ExtensionClass::Gba => Some(SystemType::GBA),
        ExtensionClass::Sms => Some(SystemType::SMS),
        ExtensionClass::ColecoVision => Some(SystemType::ColecoVision),
        ExtensionClass::Sg1000 => Some(SystemType::SG1000),
        ExtensionClass::Atari2600 => if is_atari2600_size(n) {
            Some(SystemType::Atari2600)
        } else {
            None
        },
        ExtensionClass::Binary | ExtensionClass::DiskImage => {
            if spec_is_ps1_bios(d) || spec_is_ps1_disc_image(d) {
                Some(SystemType::PS1)
            } else if class == ExtensionClass::DiskImage && (is_floppy_image_size(n) || n
                >= 1024 * 1024) {
                Some(SystemType::PC)
            } else if preferred_for_binary(d, pref) is Some {
                preferred_for_binary(d, pref)
            } else if is_atari2600_size(n) {
                Some(SystemType::Atari2600)
            } else {
                None
            }
        },
        ExtensionClass::Snes => Some(SystemType::SNES),
        ExtensionClass::N64 => Some(SystemType::N64),
        ExtensionClass::Com => Some(SystemType::PC),
        ExtensionClass::Exe => if occurs_at(d, 0, psx_exe_magic()) {
            Some(SystemType::PS1)
        } else {
            Some(SystemType::PC)
        },
        ExtensionClass::Ps1 => Some(SystemType::PS1),
        ExtensionClass::Other => match pref {
            Some(p) => preferred_for_unknown(d, p),
            None => None,
        },
    }
}

/// The system that detection with an extension hint and a preferred system finds.
pub open spec fn spec_detect_with_extension(
    d: Seq<u8>,
    ext: Option<Seq<char>>,
    pref: Option<SystemType>,
) -> Option<SystemType> {
    match ext {
        Some(e) => match extension_decision(d, classify_extension(e), pref) {
            Some(t) => Some(t),
            None => spec_detect_rom_type(d),
        },
        None => spec_detect_rom_type(d),
    }
}

// ---------------------------------------------------------------------------
// Byte-level helpers
// ---------------------------------------------------------------------------

/// Does `pat` occur in `d` at offset `off`?
fn occurs_at_exec(d: &[u8], off: usize, pat: &[u8]) -> (b: bool)
    ensures
        b == occurs_at(d@, off as int, pat@),
{
    if off > d.len() || d.len() - off < pat.len() {
        return false;
    }
    let mut k: usize = 0;
    while k < pat.len()
        invariant
            k <= pat.len(),
            off + pat.len() <= d.len(),
            forall|j: int| 0 <= j < k ==> d@[off + j] == pat@[j],
        decreases pat.len() - k,
    {
        if d[off + k] != pat[k] {
            assert(d@.subrange(off as int, off + pat.len())[k as int] != pat@[k as int]);
            return false;
        }
        k += 1;
    }
    assert(d@.subrange(off as int, off + pat.len()) =~= pat@);
    true
}

/// Does `pat` occur within the first `limit` bytes of `d`?
fn occurs_in_prefix(d: &[u8], limit: usize, pat: &[u8]) -> (b: bool)
    requires
        limit <= d.len(),
    ensures
        b == occurs_in(d@.take(limit as int), pat@),
{
    let ghost area = d@.take(limit as int);
    if pat.len() > limit {
        assert forall|i: int| !occurs_at(area, i, pat@) by {}
        return false;
    }
    let last = limit - pat.len();
    let mut i: usize = 0;
    loop
        invariant
            i <= last,
            last == limit - pat.len(),
            limit <= d.len(),
            area == d@.take(limit as int),
            forall|j: int| 0 <= j < i ==> !occurs_at(area, j, pat@),
        ensures
            forall|j: int| 0 <= j <= last ==> !occurs_at(area, j, pat@),
        decreases last - i,
    {
        assert(area.subrange(i as int, i + pat.len()) =~= d@.subrange(i as int, i + pat.len()));
        if occurs_at_exec(d, i, pat) {
            assert(occurs_at(area, i as int, pat@));
            return true;
        }
        if i == last {
            break;
        }
        i += 1;
    }
    assert forall|j: int| !occurs_at(area, j, pat@) by {
        if 0 <= j && j + pat@.len() <= area.len() {
            assert(j <= last);
        }
    }
    false
}

/// Is `n` a power of two?
fn is_power_of_two(n: usize) -> (b: bool)
    ensures
        b == is_pow2(n as nat),
{
    let mut m = n;
    while m > 1 && m % 2 == 0
        invariant
            is_pow2(m as nat) == is_pow2(n as nat),
        decreases m,
    {
        m = m / 2;
    }
    m == 1
}

fn is_atari2600_size_exec(n: usize) -> (b: bool)
    ensures
        b == is_atari2600_size(n as int),
{
    n == 2048 || n == 4096 || n == 8192 || n == 12288 || n == 16384 || n == 32768
}

fn copier_header_len_exec(n: usize) -> (h: usize)
    ensures
        h == copier_header_len(n as int),
{
    if n % 1024 == 512 {
        512
    } else {
        0
    }
}

fn is_snes_image_size_exec(n: usize) -> (b: bool)
    ensures
        b == is_snes_image_size(n as int),
{
    let rom = n - copier_header_len_exec(n);
    rom >= 0x8000 && rom <= 0x400000 && is_power_of_two(rom)
}

fn has_ines_header_exec(d: &[u8]) -> (b: bool)
    ensures
        b == has_ines_header(d@),
{
    let magic: [u8; 4] = [0x4E, 0x45, 0x53, 0x1A];
    assert(magic@ =~= ines_magic());
    d.len() >= 16 && occurs_at_exec(d, 0, &magic)
}

fn has_n64_magic_exec(d: &[u8]) -> (b: bool)
    ensures
        b == has_n64_magic(d@),
{
    if d.len() < 4 {
        return false;
    }
    (d[0] == 0x80 && d[1] == 0x37 && d[2] == 0x12 && d[3] == 0x40) || (d[0] == 0x40 && d[1]
        == 0x12 && d[2] == 0x37 && d[3] == 0x80) || (d[0] == 0x37 && d[1] == 0x80 && d[2] == 0x40
        && d[3] == 0x12)
}

fn has_game_boy_logo_exec(d: &[u8]) -> (b: bool)
    ensures
        b == has_game_boy_logo(d@),
{
    d.len() >= 0x150 && d[0x104] == 0xCE && d[0x105] == 0xED && d[0x106] == 0x66 && d[0x107]
        == 0x66
}

fn has_sms_signature_exec(d: &[u8]) -> (b: bool)
    ensures
        b == has_sms_signature(d@),
{
    if d.len() < 0x8000 {
        return false;
    }
    let sig: [u8; 8] = [0x54, 0x4D, 0x52, 0x20, 0x53, 0x45, 0x47, 0x41];
    assert(sig@ =~= tmr_sega());
    occurs_at_exec(d, copier_header_len_exec(d.len()) + 0x7FF0, &sig)
}

fn starts_with_psx_exe(d: &[u8]) -> (b: bool)
    ensures
        b == occurs_at(d@, 0, psx_exe_magic()),
{
    let magic: [u8; 8] = [0x50, 0x53, 0x2D, 0x58, 0x20, 0x45, 0x58, 0x45];
    assert(magic@ =~= psx_exe_magic());
    occurs_at_exec(d, 0, &magic)
}

fn starts_with_mz(d: &[u8]) -> (b: bool)
    ensures
        b == occurs_at(d@, 0, mz_magic()),
{
    let magic: [u8; 2] = [0x4D, 0x5A];
    assert(magic@ =~= mz_magic());
    occurs_at_exec(d, 0, &magic)
}

/// Check if data is a PS1 BIOS ROM.
/// PS1 BIOS files are exactly 512KB and contain known Sony strings.
fn is_ps1_bios(data: &[u8]) -> (b: bool)
    ensures
        b == spec_is_ps1_bios(data@),
{
    if data.len() != 512 * 1024 {
        return false;
    }
    let n = data.len();
    assert(data@.take(n as int) =~= data@);
    let sce: [u8; 27] = [
        0x53, 0x6F, 0x6E, 0x79, 0x20, 0x43, 0x6F, 0x6D, 0x70, 0x75, 0x74, 0x65, 0x72, 0x20,
        0x45, 0x6E, 0x74, 0x65, 0x72, 0x74, 0x61, 0x69, 0x6E, 0x6D, 0x65, 0x6E, 0x74,
    ];
    assert(sce@ =~= sony_computer_entertainment());
    if occurs_in_prefix(data, n, &sce) {
        return true;
    }
    let ps: [u8; 11] = [0x50, 0x6C, 0x61, 0x79, 0x53, 0x74, 0x61, 0x74, 0x69, 0x6F, 0x6E];
    assert(ps@ =~= playstation_mixed());
    if occurs_in_prefix(data, n, &ps) {
        return true;
    }
    let kernel: [u8; 20] = [
        0x50, 0x53, 0x2D, 0x58, 0x20, 0x52, 0x65, 0x61, 0x6C, 0x74, 0x69, 0x6D, 0x65, 0x20,
        0x4B, 0x65, 0x72, 0x6E, 0x65, 0x6C,
    ];
    assert(kernel@ =~= psx_realtime_kernel());
    if occurs_in_prefix(data, n, &kernel) {
        return true;
    }
    let version: [u8; 18] = [
        0x53, 0x79, 0x73, 0x74, 0x65, 0x6D, 0x20, 0x52, 0x4F, 0x4D, 0x20, 0x56, 0x65, 0x72,
        0x73, 0x69, 0x6F, 0x6E,
    ];
    assert(version@ =~= system_rom_version());
    occurs_in_prefix(data, n, &version)
}

/// Check if data is a PS1 disc image (BIN/CUE raw format).
/// PS1 disc BIN files use 2352-byte sectors starting with a CD sync pattern.
fn is_ps1_disc_image(data: &[u8]) -> (b: bool)
    ensures
        b == spec_is_ps1_disc_image(data@),
{
    let n = data.len();
    if n < 2352 * 16 {
        return false;
    }
    let sync: [u8; 12] = [0x00, 0xFF, 0xFF, 0xFF, 0xFF, 0xFF, 0xFF, 0xFF, 0xFF, 0xFF, 0xFF, 0x00];
    assert(sync@ =~= cd_sync());
    if !occurs_at_exec(data, 0, &sync) {
        return false;
    }
    if !(n % 2352 == 0 || n % 2336 == 0) {
        return false;
    }
    let limit = if n < 2352 * 20 {
        n
    } else {
        2352 * 20
    };
    let ps: [u8; 11] = [0x50, 0x6C, 0x61, 0x79, 0x53, 0x74, 0x61, 0x74, 0x69, 0x6F, 0x6E];
    assert(ps@ =~= playstation_mixed());
    let ps_upper: [u8; 11] = [0x50, 0x4C, 0x41, 0x59, 0x53, 0x54, 0x41, 0x54, 0x49, 0x4F, 0x4E];
    assert(ps_upper@ =~= playstation_upper());
    let sony: [u8; 8] = [0x53, 0x6F, 0x6E, 0x79, 0x20, 0x43, 0x6F, 0x6D];
    assert(sony@ =~= sony_com());
    if occurs_in_prefix(data, limit, &ps) || occurs_in_prefix(data, limit, &ps_upper)
        || occurs_in_prefix(data, limit, &sony) {
        return true;
    }
    n > 1024 * 1024
}

/// Public check if data appears to be a PS1 BIOS.
pub fn is_ps1_bios_file(data: &[u8]) -> (b: bool)
    ensures
        b == spec_is_ps1_bios(data@),
{
    is_ps1_bios(data)
}

fn reject(n: usize) -> (e: UnsupportedRomError)
    ensures
        e.reason@ == rejection_reason(n as int),
{
    if n < 16 {
        UnsupportedRomError { reason: String::from_str("File too small to be a valid ROM") }
    } else if n % 1024 == 0 {
        let mut reason = String::from_str("Unrecognized ROM format. ");
        reason.append(
            "Supported formats: iNES (.nes), Game Boy (.gb/.gbc), GBA (.gba), Atari 2600 (.a26/.bin), DOS (.com/.exe), SNES (.smc/.sfc), N64 (.z64/.n64/.v64), SMS (.sms), CHIP-8 (.ch8/.c8), ColecoVision (.col), SG-1000 (.sg/.sc), PS1 (.exe/.psexe/.cue/.bin/.iso)",
        );
        UnsupportedRomError { reason }
    } else {
        let mut reason = String::from_str("Unknown ROM format. ");
        reason.append(
            "Supported formats: iNES (.nes), Game Boy (.gb/.gbc), GBA (.gba), Atari 2600 (.a26/.bin), DOS (.com/.exe), SNES (.smc/.sfc), N64 (.z64/.n64/.v64), SMS (.sms), CHIP-8 (.ch8/.c8), ColecoVision (.col), SG-1000 (.sg/.sc), PS1 (.exe/.psexe/.cue/.bin/.iso)",
        );
        UnsupportedRomError { reason }
    }
}

/// Content-based detection: magic numbers and headers first, then sizes.
pub fn detect_rom_type(data: &[u8]) -> (r: Result<SystemType, UnsupportedRomError>)
    ensures
        match r {
            Ok(t) => spec_detect_rom_type(data@) == Some(t),
            Err(e) => spec_detect_rom_type(data@) is None && e.reason@ == rejection_reason(
                data@.len() as int,
            ),
        },
{
    let n = data.len();
    if has_ines_header_exec(data) {
        return Ok(SystemType::NES);
    }
    if has_n64_magic_exec(data) {
        return Ok(SystemType::N64);
    }
    if has_game_boy_logo_exec(data) {
        return Ok(SystemType::GameBoy);
    }
    if has_sms_signature_exec(data) {
        return Ok(SystemType::SMS);
    }
    if n == 49152 {
        return Ok(SystemType::SMS);
    }
    if is_snes_image_size_exec(n) {
        return Ok(SystemType::SNES);
    }
    if starts_with_psx_exe(data) {
        return Ok(SystemType::PS1);
    }
    if is_ps1_bios(data) {
        return Ok(SystemType::PS1);
    }
    if is_ps1_disc_image(data) {
        return Ok(SystemType::PS1);
    }
    if starts_with_mz(data) {
        return Ok(SystemType::PC);
    }
    if is_atari2600_size_exec(n) {
        return Ok(SystemType::Atari2600);
    }
    if n <= 0xFF00 && n >= 16 {
        return Ok(SystemType::PC);
    }
    Err(reject(n))
}

/// The class of an extension given as characters.
fn classify_extension_exec(e: &Vec<char>) -> (c: ExtensionClass)
    ensures
        c == classify_extension(e@),
{
    if ext_is_exec(e, &['c', 'h', '8']) || ext_is_exec(e, &['c', '8']) {
        ExtensionClass::Chip8
    } else if ext_is_exec(e, &['n', 'e', 's']) {
        ExtensionClass::Nes
    } else if ext_is_exec(e, &['g', 'b']) || ext_is_exec(e, &['g', 'b', 'c']) {
        ExtensionClass::GameBoy
    } else if ext_is_exec(e, &['g', 'b', 'a']) || ext_is_exec(e, &['a', 'g', 'b']) {
        ExtensionClass::Gba
    } else if ext_is_exec(e, &['s', 'm', 's']) {
        ExtensionClass::Sms
    } else if ext_is_exec(e, &['c', 'o', 'l']) {
        ExtensionClass::ColecoVision
    } else if ext_is_exec(e, &['s', 'g']) || ext_is_exec(e, &['s', 'c']) {
        ExtensionClass::Sg1000
    } else if ext_is_exec(e, &['a', '2', '6']) {
        ExtensionClass::Atari2600
    } else if ext_is_exec(e, &['b', 'i', 'n']) || ext_is_exec(e, &['i', 's', 'o']) {
        ExtensionClass::Binary
    } else if ext_is_exec(e, &['i', 'm', 'g']) || ext_is_exec(e, &['i', 'm', 'a']) {
        ExtensionClass::DiskImage
    } else if ext_is_exec(e, &['s', 'm', 'c']) || ext_is_exec(e, &['s', 'f', 'c']) {
        ExtensionClass::Snes
    } else if ext_is_exec(e, &['z', '6', '4']) || ext_is_exec(e, &['n', '6', '4']) || ext_is_exec(
        e,
        &['v', '6', '4'],
    ) {
        ExtensionClass::N64
    } else if ext_is_exec(e, &['c', 'o', 'm']) {
        ExtensionClass::Com
    } else if ext_is_exec(e, &['e', 'x', 'e']) {
        ExtensionClass::Exe
    } else if ext_is_exec(e, &['p', 's', 'e', 'x', 'e']) || ext_is_exec(e, &['p', 's', 'x'])
        || ext_is_exec(e, &['c', 'u', 'e']) {
        ExtensionClass::Ps1
    } else {
        ExtensionClass::Other
    }
}

fn preferred_for_binary_exec(data: &[u8], pref: Option<SystemType>) -> (r: Option<SystemType>)
    ensures
        r == preferred_for_binary(data@, pref),
{
    match pref {
        Some(SystemType::Atari2600) => if is_atari2600_size_exec(data.len()) {
            Some(SystemType::Atari2600)
        } else {
            None
        },
        Some(SystemType::GameBoy) => if has_game_boy_logo_exec(data) {
            Some(SystemType::GameBoy)
        } else {
            None
        },
        Some(SystemType::SNES) => if is_snes_image_size_exec(data.len()) {
            Some(SystemType::SNES)
        } else {
            None
        },
        Some(SystemType::N64) => if has_n64_magic_exec(data) {
            Some(SystemType::N64)
        } else {
            None
        },
        _ => None,
    }
}

fn preferred_for_unknown_exec(data: &[u8], p: SystemType) -> (r: Option<SystemType>)
    ensures
        r == preferred_for_unknown(data@, p),
{
    match p {
        SystemType::NES => if has_ines_header_exec(data) {
            Some(SystemType::NES)
        } else {
            None
        },
        SystemType::GameBoy => if has_game_boy_logo_exec(data) {
            Some(SystemType::GameBoy)
        } else {
            None
        },
        SystemType::N64 => if has_n64_magic_exec(data) {
            Some(SystemType::N64)
        } else {
            None
        },
        _ => Some(p),
    }
}

fn extension_decision_exec(
    data: &[u8],
    class: ExtensionClass,
    preferred_system: Option<SystemType>,
) -> (r: Option<SystemType>)
    ensures
        r == extension_decision(data@, class, preferred_system),
{
    let n = data.len();
    match class {
        ExtensionClass::Chip8 => Some(SystemType::Chip8),
        ExtensionClass::Nes => if has_ines_header_exec(data) {
            Some(SystemType::NES)
        } else {
            None
        },
        ExtensionClass::GameBoy => if has_game_boy_logo_exec(data) {
            Some(SystemType::GameBoy)
        } else {
            None
        },
        ExtensionClass::Gba => Some(SystemType::GBA),
        ExtensionClass::Sms => Some(SystemType::SMS),
        ExtensionClass::ColecoVision => Some(SystemType::ColecoVision),
        ExtensionClass::Sg1000 => Some(SystemType::SG1000),
        ExtensionClass::Atari2600 => if is_atari2600_size_exec(n) {
            Some(SystemType::Atari2600)
        } else {
            None
        },
        ExtensionClass::Binary | ExtensionClass::DiskImage => {
            if is_ps1_bios(data) {
                return Some(SystemType::PS1);
            }
            if is_ps1_disc_image(data) {
                return Some(SystemType::PS1);
            }
            let is_disk_image = match class {
                ExtensionClass::DiskImage => true,
                _ => false,
            };
            if is_disk_image {
                if n == FLOPPY_IMAGE_SIZES[0] || n == FLOPPY_IMAGE_SIZES[1] || n
                    == FLOPPY_IMAGE_SIZES[2] || n == FLOPPY_IMAGE_SIZES[3] || n
                    == FLOPPY_IMAGE_SIZES[4] {
                    return Some(SystemType::PC);
                }
                if n >= 1024 * 1024 {
                    return Some(SystemType::PC);
                }
            }
            let preferred = preferred_for_binary_exec(data, preferred_system);
            if preferred.is_some() {
                return preferred;
            }
            if is_atari2600_size_exec(n) {
                return Some(SystemType::Atari2600);
            }
            None
        },
        ExtensionClass::Snes => Some(SystemType::SNES),
        ExtensionClass::N64 => Some(SystemType::N64),
        ExtensionClass::Com => Some(SystemType::PC),
        ExtensionClass::Exe => if starts_with_psx_exe(data) {
            Some(SystemType::PS1)
        } else {
            Some(SystemType::PC)
        },
        ExtensionClass::Ps1 => Some(SystemType::PS1),
        ExtensionClass::Other => match preferred_system {
            Some(p) => preferred_for_unknown_exec(data, p),
            None => None,
        },
    }
}

/// Detect ROM type with file extension hint and optional preferred system.
/// This function first checks the file extension for unambiguous cases (like .ch8 for CHIP-8),
/// then uses the preferred system for ambiguous extensions (like .bin),
/// and finally falls back to content-based detection.
/// Extensions are compared without regard to ASCII case.
pub fn detect_rom_type_with_extension(
    data: &[u8],
    extension: Option<&str>,
    preferred_system: Option<SystemType>,
) -> (r: Result<SystemType, UnsupportedRomError>)
    ensures
        ({
            let ext = match extension {
                Some(e) => Some(e@),
                None => None,
            };
            match r {
                Ok(t) => spec_detect_with_extension(data@, ext, preferred_system) == Some(t),
                Err(e) => spec_detect_with_extension(data@, ext, preferred_system) is None
                    && e.reason@ == rejection_reason(data@.len() as int),
            }
        }),
{
    if let Some(ext) = extension {
        let chars = chars_of(ext);
        let class = classify_extension_exec(&chars);
        if let Some(t) = extension_decision_exec(data, class, preferred_system) {
            return Ok(t);
        }
    }
    detect_rom_type(data)
}

/// Extensions are matched without regard to ASCII case: two extensions that agree
/// once ASCII-lowercased lead to the same detection, for any data and preference.
pub proof fn lemma_extension_case_insensitive(
    d: Seq<u8>,
    e1: Seq<char>,
    e2: Seq<char>,
    pref: Option<SystemType>,
)
    requires
        e1.len() == e2.len(),
        forall|i: int| 0 <= i < e1.len() ==> ascii_lower_code(#[trigger] e1[i]) == ascii_lower_code(e2[i]),
    ensures
        spec_detect_with_extension(d, Some(e1), pref) == spec_detect_with_extension(d, Some(e2), pref),
{
    assert forall|pat: Seq<char>| ext_is(e1, pat) == ext_is(e2, pat) by {
        if ext_is(e1, pat) {
            assert forall|i: int| 0 <= i < e2.len() implies ascii_lower_code(#[trigger] e2[i])
                == pat[i] as u32 as int by {
                assert(ascii_lower_code(e1[i]) == pat[i] as u32 as int);
            }
        }
        if ext_is(e2, pat) {
            assert forall|i: int| 0 <= i < e1.len() implies ascii_lower_code(#[trigger] e1[i])
                == pat[i] as u32 as int by {
                assert(ascii_lower_code(e2[i]) == pat[i] as u32 as int);
            }
        }
    }
    assert(classify_extension(e1) == classify_extension(e2));
}

} // verus!
