//! Save states: up to five slots per game, each holding the emulator state as
//! base64 text together with the hash of the ROM it was saved with.
//!
//! A slot is stored with the hash of the ROM that was loaded; loading it back
//! requires the same ROM hash, so a state is never restored into another game.
//! Reading and writing the per-game file is done around this model.
use std::collections::HashMap;

use base64::Engine;
use sha2::Digest;

use vstd::prelude::*;
use vstd::string::*;

use crate::text::{append_decimal, decimal, opt_view, str_eq};

verus! {

broadcast use vstd::std_specs::hash::group_hash_axioms;

/// Maximum number of save slots per game
pub const MAX_SAVE_SLOTS: u8 = 5;

#[verifier::external_type_specification]
#[verifier::external_body]
pub struct ExDecodeError(base64::DecodeError);

/// The character of a 6-bit value in the standard base64 alphabet
/// (A-Z, a-z, 0-9, '+', '/').
pub open spec fn base64_char(v: int) -> char {
    if v < 26 {
        (65 + v) as char
    } else if v < 52 {
        (97 + v - 26) as char
    } else if v < 62 {
        (48 + v - 52) as char
    } else if v == 62 {
        '+'
    } else {
        '/'
    }
}

/// The standard base64 encoding (RFC 4648 alphabet, with padding) of `data`: each
/// group of three bytes becomes four characters of six bits each, and a last
/// group of one or two bytes is padded with '='.
pub open spec fn base64_standard_encoding(data: Seq<u8>) -> Seq<char>
    decreases data.len(),
{
    if data.len() == 0 {
        Seq::empty()
    } else {
        let b0 = data[0] as int;
        let b1 = if data.len() > 1 {
            data[1] as int
        } else {
            0
        };
        let b2 = if data.len() > 2 {
            data[2] as int
        } else {
            0
        };
        let c0 = base64_char(b0 / 4);
        let c1 = base64_char((b0 % 4) * 16 + b1 / 16);
        let c2 = base64_char((b1 % 16) * 4 + b2 / 64);
        let c3 = base64_char(b2 % 64);
        if data.len() == 1 {
            seq![c0, c1, '=', '=']
        } else if data.len() == 2 {
            seq![c0, c1, c2, '=']
        } else {
            seq![c0, c1, c2, c3] + base64_standard_encoding(data.skip(3))
        }
    }
}

/// The bytes that standard base64 decoding gives for `text`: the bytes whose
/// standard encoding `text` is, where there are such bytes (decoding accepts only
/// the padded, canonical text that encoding writes).
pub open spec fn base64_standard_decoding(text: Seq<char>) -> Option<Seq<u8>> {
    if exists|d: Seq<u8>| base64_standard_encoding(d) == text {
        Some(choose|d: Seq<u8>| base64_standard_encoding(d) == text)
    } else {
        None
    }
}

proof fn lemma_base64_char_injective(u: int, v: int)
    requires
        0 <= u < 64,
        0 <= v < 64,
        base64_char(u) == base64_char(v),
    ensures
        u == v,
        base64_char(u) != '=',
{
    assert((base64_char(u) as u32) == (if u < 26 {
        65 + u
    } else if u < 52 {
        97 + u - 26
    } else if u < 62 {
        48 + u - 52
    } else if u == 62 {
        43
    } else {
        47
    }));
    assert((base64_char(v) as u32) == (if v < 26 {
        65 + v
    } else if v < 52 {
        97 + v - 26
    } else if v < 62 {
        48 + v - 52
    } else if v == 62 {
        43
    } else {
        47
    }));
}

proof fn lemma_groups_determine_bytes(a0: int, a1: int, a2: int, b0: int, b1: int, b2: int)
    requires
        0 <= a0 < 256,
        0 <= a1 < 256,
        0 <= a2 < 256,
        0 <= b0 < 256,
        0 <= b1 < 256,
        0 <= b2 < 256,
        a0 / 4 == b0 / 4,
        (a0 % 4) * 16 + a1 / 16 == (b0 % 4) * 16 + b1 / 16,
        (a1 % 16) * 4 + a2 / 64 == (b1 % 16) * 4 + b2 / 64,
        a2 % 64 == b2 % 64,
    ensures
        a0 == b0,
        a1 == b1,
        a2 == b2,
{
}

proof fn lemma_base64_shape(d: Seq<u8>)
    ensures
        d.len() == 0 <==> base64_standard_encoding(d).len() == 0,
        d.len() > 0 ==> base64_standard_encoding(d).len() >= 4,
        d.len() == 1 ==> base64_standard_encoding(d).len() == 4 && base64_standard_encoding(d)[2]
            == '=',
        d.len() == 2 ==> base64_standard_encoding(d).len() == 4 && base64_standard_encoding(d)[3]
            == '=' && base64_standard_encoding(d)[2] != '=',
        d.len() >= 3 ==> base64_standard_encoding(d)[2] != '=' && base64_standard_encoding(d)[3]
            != '=',
    decreases d.len(),
{
    if d.len() >= 2 {
        let b1 = d[1] as int;
        let b2 = if d.len() > 2 {
            d[2] as int
        } else {
            0
        };
        lemma_base64_char_injective((b1 % 16) * 4 + b2 / 64, (b1 % 16) * 4 + b2 / 64);
        lemma_base64_char_injective(b2 % 64, b2 % 64);
    }
    if d.len() >= 3 {
        lemma_base64_shape(d.skip(3));
    }
}

/// Standard base64 encoding is one-to-one: different bytes never give the same
/// text.
pub proof fn lemma_base64_injective(d1: Seq<u8>, d2: Seq<u8>)
    requires
        base64_standard_encoding(d1) == base64_standard_encoding(d2),
    ensures
        d1 == d2,
    decreases d1.len(),
{
    let e = base64_standard_encoding(d1);
    lemma_base64_shape(d1);
    lemma_base64_shape(d2);
    if d1.len() == 0 {
        assert(d2.len() == 0);
        assert(d1 =~= d2);
    } else {
        let a0 = d1[0] as int;
        let a1 = if d1.len() > 1 {
            d1[1] as int
        } else {
            0
        };
        let a2 = if d1.len() > 2 {
            d1[2] as int
        } else {
            0
        };
        let b0 = d2[0] as int;
        let b1 = if d2.len() > 1 {
            d2[1] as int
        } else {
            0
        };
        let b2 = if d2.len() > 2 {
            d2[2] as int
        } else {
            0
        };
        // The lengths agree: the place of the padding tells one, two or more bytes.
        assert(d1.len() == 1 <==> d2.len() == 1);
        assert(d1.len() == 2 <==> d2.len() == 2);
        assert(e[0] == base64_char(a0 / 4) && e[0] == base64_char(b0 / 4));
        lemma_base64_char_injective(a0 / 4, b0 / 4);
        assert(e[1] == base64_char((a0 % 4) * 16 + a1 / 16) && e[1] == base64_char((b0 % 4) * 16 + b1 / 16));
        lemma_base64_char_injective((a0 % 4) * 16 + a1 / 16, (b0 % 4) * 16 + b1 / 16);
        if d1.len() >= 2 {
            assert(e[2] == base64_char((a1 % 16) * 4 + a2 / 64) && e[2] == base64_char((b1 % 16) * 4 + b2 / 64));
            lemma_base64_char_injective((a1 % 16) * 4 + a2 / 64, (b1 % 16) * 4 + b2 / 64);
        }
        if d1.len() >= 3 {
            assert(e[3] == base64_char(a2 % 64) && e[3] == base64_char(b2 % 64));
            lemma_base64_char_injective(a2 % 64, b2 % 64);
            lemma_groups_determine_bytes(a0, a1, a2, b0, b1, b2);
            let r1 = d1.skip(3);
            let r2 = d2.skip(3);
            assert(base64_standard_encoding(r1) =~= e.skip(4));
            assert(base64_standard_encoding(r2) =~= e.skip(4));
            lemma_base64_injective(r1, r2);
            assert(d1 =~= d2) by {
                assert forall|i: int| 0 <= i < d1.len() implies d1[i] == d2[i] by {
                    if i >= 3 {
                        assert(d1[i] == r1[i - 3]);
                        assert(d2[i] == r2[i - 3]);
                    }
                }
            }
        } else {
            lemma_groups_determine_bytes(a0, a1, 0, b0, b1, 0);
            assert(d1 =~= d2);
        }
    }
}

/// Decoding the standard encoding of `data` gives `data` back.
pub proof fn lemma_base64_round_trip(data: Seq<u8>)
    ensures
        base64_standard_decoding(base64_standard_encoding(data)) == Some(data),
{
    let text = base64_standard_encoding(data);
    assert(exists|d: Seq<u8>| base64_standard_encoding(d) == text);
    let c = choose|d: Seq<u8>| base64_standard_encoding(d) == text;
    lemma_base64_injective(c, data);
}

/// The SHA-256 digest of `data`.
pub uninterp spec fn sha256(data: Seq<u8>) -> Seq<u8>;

/// Calls `base64::Engine::encode` on the `STANDARD` engine. Claimed: the result is
/// the standard encoding of `data`, as `base64_standard_encoding` spells it out.
/// The engine panics only when the encoded length overflows a usize, which the
/// precondition rules out.
#[verifier::external_body]
fn base64_encode(data: &[u8]) -> (s: String)
    requires
        data@.len() / 3 * 4 + 4 <= usize::MAX,
    ensures
        s@ == base64_standard_encoding(data@),
{
    base64::engine::general_purpose::STANDARD.encode(data)
}

/// Calls `base64::Engine::decode` on the `STANDARD` engine, whose configuration
/// requires canonical padding and zero trailing bits. Claimed: it returns the bytes
/// whose standard encoding `text` is, and fails exactly when `text` is the
/// standard encoding of no bytes. Nothing is claimed of which `DecodeError` a
/// failure carries.
#[verifier::external_body]
fn base64_decode(text: &str) -> (r: Result<Vec<u8>, base64::DecodeError>)
    ensures
        match r {
            Ok(v) => base64_standard_encoding(v@) == text@,
            Err(_) => base64_standard_decoding(text@) is None,
        },
{
    base64::engine::general_purpose::STANDARD.decode(text)
}

/// Formats a `base64::DecodeError` with its `Display` impl. Nothing is claimed of
/// the text.
#[verifier::external_body]
fn decode_error_text(e: &base64::DecodeError) -> (s: String) {
    format!("{}", e)
}

/// Calls `sha2::Digest::digest` for `Sha256`. Claimed: the result is the SHA-256
/// digest of `data`, 32 bytes long.
#[verifier::external_body]
fn sha256_digest(data: &[u8]) -> (d: Vec<u8>)
    ensures
        d@ == sha256(data@),
        d@.len() == 32,
{
    sha2::Sha256::digest(data).to_vec()
}

/// The lowercase hexadecimal digit for `n` (0 to 15).
pub open spec fn hex_digit(n: int) -> char {
    if n < 10 {
        (48 + n) as char
    } else {
        (87 + n) as char
    }
}

/// Two lowercase hexadecimal digits per byte, most significant first.
pub open spec fn hex_lower(bytes: Seq<u8>) -> Seq<char>
    decreases bytes.len(),
{
    if bytes.len() == 0 {
        Seq::empty()
    } else {
        hex_lower(bytes.drop_last()) + seq![
            hex_digit(bytes.last() as int / 16),
            hex_digit(bytes.last() as int % 16),
        ]
    }
}

fn hex_digit_str(n: u8) -> (s: &'static str)
    requires
        n < 16,
    ensures
        s@ == seq![hex_digit(n as int)],
{
    proof {
        reveal_strlit("0");
        reveal_strlit("1");
        reveal_strlit("2");
        reveal_strlit("3");
        reveal_strlit("4");
        reveal_strlit("5");
        reveal_strlit("6");
        reveal_strlit("7");
        reveal_strlit("8");
        reveal_strlit("9");
        reveal_strlit("a");
        reveal_strlit("b");
        reveal_strlit("c");
        reveal_strlit("d");
        reveal_strlit("e");
        reveal_strlit("f");
        assert(hex_digit(0) == '0' && hex_digit(1) == '1' && hex_digit(2) == '2' && hex_digit(3)
            == '3' && hex_digit(4) == '4' && hex_digit(5) == '5' && hex_digit(6) == '6'
            && hex_digit(7) == '7' && hex_digit(8) == '8' && hex_digit(9) == '9' && hex_digit(10)
            == 'a' && hex_digit(11) == 'b' && hex_digit(12) == 'c' && hex_digit(13) == 'd'
            && hex_digit(14) == 'e' && hex_digit(15) == 'f');
    }
    match n {
        0 => "0",
        1 => "1",
        2 => "2",
        3 => "3",
        4 => "4",
        5 => "5",
        6 => "6",
        7 => "7",
        8 => "8",
        9 => "9",
        10 => "a",
        11 => "b",
        12 => "c",
        13 => "d",
        14 => "e",
        _ => "f",
    }
}

/// Lowercase hexadecimal text of `bytes`.
fn hex_lower_exec(bytes: &Vec<u8>) -> (s: String)
    ensures
        s@ == hex_lower(bytes@),
{
    let mut s = String::new();
    let mut i: usize = 0;
    while i < bytes.len()
        invariant
            i <= bytes@.len(),
            s@ == hex_lower(bytes@.take(i as int)),
        decreases bytes.len() - i,
    {
        let b = bytes[i];
        s.append(hex_digit_str(b / 16));
        s.append(hex_digit_str(b % 16));
        proof {
            let t = bytes@.take(i + 1);
            assert(t.drop_last() =~= bytes@.take(i as int));
            assert(t.last() == b);
        }
        assert(s@ =~= hex_lower(bytes@.take(i + 1)));
        i += 1;
    }
    assert(bytes@.take(bytes@.len() as int) =~= bytes@);
    s
}

/// One saved state.
#[derive(Debug, Clone)]
pub struct SaveSlot {
    /// Base64 encoded save state data
    pub data: String,
    pub timestamp: u64,
    /// Hash of the ROM this state was saved with
    pub rom_hash: Option<String>,
}

/// What a save slot holds.
pub struct SaveSlotView {
    pub data: Seq<char>,
    pub timestamp: u64,
    pub rom_hash: Option<Seq<char>>,
}

impl View for SaveSlot {
    type V = SaveSlotView;

    open spec fn view(&self) -> SaveSlotView {
        SaveSlotView { data: self.data@, timestamp: self.timestamp, rom_hash: opt_view(self.rom_hash) }
    }
}

/// The save slots of one game.
#[derive(Debug)]
pub struct GameSaves {
    /// Slots 1-5
    pub slots: HashMap<u8, SaveSlot>,
}

/// The slots of a game by number.
pub open spec fn slots_view(m: Map<u8, SaveSlot>) -> Map<u8, SaveSlotView> {
    m.map_values(|s: SaveSlot| s@)
}

/// Slot numbers run from 1 to `MAX_SAVE_SLOTS`.
pub open spec fn is_valid_slot(slot: u8) -> bool {
    1 <= slot <= MAX_SAVE_SLOTS
}

/// Why a save or load was refused.
#[derive(Debug)]
pub enum SaveStateError {
    /// The slot number is not between 1 and `MAX_SAVE_SLOTS`.
    InvalidSlot,
    /// Nothing is saved in the slot.
    EmptySlot(u8),
    /// The state was saved with another ROM.
    RomHashMismatch,
    /// The stored data is not valid base64.
    InvalidData(base64::DecodeError),
}

/// What loading a slot gives.
pub enum LoadOutcome {
    InvalidSlot,
    EmptySlot,
    RomHashMismatch,
    InvalidData,
    Loaded(Seq<u8>),
}

/// What loading slot `slot` of `slots` with ROM hash `hash` gives.
pub open spec fn spec_load(slots: Map<u8, SaveSlotView>, slot: u8, hash: Seq<char>) -> LoadOutcome {
    if !is_valid_slot(slot) {
        LoadOutcome::InvalidSlot
    } else if !slots.contains_key(slot) {
        LoadOutcome::EmptySlot
    } else if slots[slot].rom_hash matches Some(h) && h != hash {
        LoadOutcome::RomHashMismatch
    } else {
        match base64_standard_decoding(slots[slot].data) {
            Some(bytes) => LoadOutcome::Loaded(bytes),
            None => LoadOutcome::InvalidData,
        }
    }
}

impl SaveStateError {
    /// The message that explains the error.
    pub fn message(&self) -> (s: String)
        ensures
            match *self {
                SaveStateError::InvalidSlot => s@ == "Slot must be between 1 and 5"@,
                SaveStateError::EmptySlot(n) => s@ == "No save data in slot "@ + decimal(n as nat),
                SaveStateError::RomHashMismatch => s@
                    == "ROM hash mismatch: save state was created with a different ROM"@,
                SaveStateError::InvalidData(_) => true,
            },
    {
        match self {
            SaveStateError::InvalidSlot => String::from_str("Slot must be between 1 and 5"),
            SaveStateError::EmptySlot(n) => {
                let mut s = String::from_str("No save data in slot ");
                append_decimal(&mut s, *n as usize);
                s
            },
            SaveStateError::RomHashMismatch => String::from_str(
                "ROM hash mismatch: save state was created with a different ROM",
            ),
            SaveStateError::InvalidData(e) => decode_error_text(e),
        }
    }
}

impl Default for GameSaves {
    /// No slot saved.
    fn default() -> (g: Self)
        ensures
            g.slots@ == Map::<u8, SaveSlot>::empty(),
    {
        GameSaves { slots: HashMap::new() }
    }
}

/// `base` with the path `part` pushed onto it, as `PathBuf::push` does on Unix:
/// an absolute `part` replaces `base`; otherwise a '/' separates them unless
/// `base` is empty or already ends with one.
pub open spec fn path_push(base: Seq<char>, part: Seq<char>) -> Seq<char> {
    if part.len() > 0 && part[0] == '/' {
        part
    } else if base.len() == 0 || base.last() == '/' {
        base + part
    } else {
        base.push('/') + part
    }
}

/// Push `part` onto the path `base`.
fn push_path(base: &mut String, part: &str)
    ensures
        final(base)@ == path_push(old(base)@, part@),
{
    let chars = crate::text::chars_of(part);
    if chars.len() > 0 && chars[0] == '/' {
        *base = String::from_str(part);
        return;
    }
    let bchars = crate::text::chars_of(base.as_str());
    if bchars.len() == 0 || bchars[bchars.len() - 1] == '/' {
        base.append(part);
    } else {
        base.push('/');
        base.append(part);
    }
}

impl GameSaves {
    /// The path of a game's save file: `states.json` in the directory named by the
    /// ROM hash, inside the saves directory.
    pub fn game_save_path(saves_dir: &str, rom_hash: &str) -> (path: String)
        ensures
            path@ == path_push(path_push(saves_dir@, rom_hash@), "states.json"@),
    {
        let mut path = String::from_str(saves_dir);
        push_path(&mut path, rom_hash);
        push_path(&mut path, "states.json");
        path
    }

    /// SHA256 hash of ROM data, as 64 lowercase hexadecimal digits.
    pub fn rom_hash(rom_data: &[u8]) -> (h: String)
        ensures
            h@ == hex_lower(sha256(rom_data@)),
    {
        let digest = sha256_digest(rom_data);
        hex_lower_exec(&digest)
    }

    /// Is `slot` a slot number (1 to `MAX_SAVE_SLOTS`)?
    pub fn is_valid_slot(slot: u8) -> (b: bool)
        ensures
            b == is_valid_slot(slot),
    {
        1 <= slot && slot <= MAX_SAVE_SLOTS
    }

    /// Save state data to a specific slot (1-MAX_SAVE_SLOTS) at time `timestamp`
    /// (seconds since the Unix epoch): the data is stored base64-encoded with the
    /// ROM hash, replacing what the slot held; other slots are kept.
    pub fn save_slot(&mut self, slot: u8, data: &[u8], rom_hash: &str, timestamp: u64) -> (r:
        Result<(), SaveStateError>)
        requires
            data@.len() / 3 * 4 + 4 <= usize::MAX,
        ensures
            is_valid_slot(slot) ==> r is Ok && slots_view(final(self).slots@) == slots_view(
                old(self).slots@,
            ).insert(
                slot,
                SaveSlotView {
                    data: base64_standard_encoding(data@),
                    timestamp,
                    rom_hash: Some(rom_hash@),
                },
            ),
            !is_valid_slot(slot) ==> (r matches Err(SaveStateError::InvalidSlot)),
            !is_valid_slot(slot) ==> final(self).slots == old(self).slots,
    {
        if !Self::is_valid_slot(slot) {
            return Err(SaveStateError::InvalidSlot);
        }
        let encoded = base64_encode(data);
        let entry = SaveSlot { data: encoded, timestamp, rom_hash: Some(rom_hash.to_owned()) };
        self.slots.insert(slot, entry);
        assert(slots_view(self.slots@) =~= slots_view(old(self).slots@).insert(
            slot,
            SaveSlotView {
                data: base64_standard_encoding(data@),
                timestamp,
                rom_hash: Some(rom_hash@),
            },
        ));
        Ok(())
    }

    /// Load state data from a specific slot (1-MAX_SAVE_SLOTS)
    /// Verifies that the ROM hash matches if present in the save slot
    pub fn load_slot(&self, slot: u8, current_rom_hash: &str) -> (r: Result<
        Vec<u8>,
        SaveStateError,
    >)
        ensures
            match spec_load(slots_view(self.slots@), slot, current_rom_hash@) {
                LoadOutcome::InvalidSlot => r matches Err(SaveStateError::InvalidSlot),
                LoadOutcome::EmptySlot => r matches Err(SaveStateError::EmptySlot(n)) && n == slot,
                LoadOutcome::RomHashMismatch => r matches Err(SaveStateError::RomHashMismatch),
                LoadOutcome::InvalidData => r matches Err(SaveStateError::InvalidData(_)),
                LoadOutcome::Loaded(bytes) => r matches Ok(v) && v@ == bytes,
            },
    {
        if !Self::is_valid_slot(slot) {
            return Err(SaveStateError::InvalidSlot);
        }
        match self.slots.get(&slot) {
            Some(save_slot) => {
                assert(slots_view(self.slots@)[slot] == save_slot@);
                // Verify ROM hash if present in save slot
                if let Some(saved_hash) = &save_slot.rom_hash {
                    if !str_eq(saved_hash.as_str(), current_rom_hash) {
                        return Err(SaveStateError::RomHashMismatch);
                    }
                }
                match base64_decode(save_slot.data.as_str()) {
                    Ok(decoded) => {
                        proof {
                            lemma_base64_round_trip(decoded@);
                        }
                        Ok(decoded)
                    },
                    Err(e) => Err(SaveStateError::InvalidData(e)),
                }
            },
            None => Err(SaveStateError::EmptySlot(slot)),
        }
    }

    /// Check if a slot has data
    pub fn has_slot(&self, slot: u8) -> (b: bool)
        ensures
            b == self.slots@.contains_key(slot),
    {
        self.slots.contains_key(&slot)
    }
}

/// A state loaded from a slot is the data saved there: where slot `slot` holds the
/// encoding of `data` with ROM hash `hash`, loading it with `hash` gives `data`.
pub proof fn lemma_load_returns_saved(
    slots: Map<u8, SaveSlotView>,
    slot: u8,
    data: Seq<u8>,
    hash: Seq<char>,
)
    requires
        is_valid_slot(slot),
        slots.contains_key(slot),
        slots[slot].rom_hash == Some(hash),
        slots[slot].data == base64_standard_encoding(data),
    ensures
        spec_load(slots, slot, hash) == LoadOutcome::Loaded(data),
{
    lemma_base64_round_trip(data);
}

/// A state saved with one ROM is refused when loaded with another ROM's hash.
pub proof fn lemma_other_rom_refused(
    slots: Map<u8, SaveSlotView>,
    slot: u8,
    saved_hash: Seq<char>,
    hash: Seq<char>,
)
    requires
        is_valid_slot(slot),
        slots.contains_key(slot),
        slots[slot].rom_hash == Some(saved_hash),
        saved_hash != hash,
    ensures
        spec_load(slots, slot, hash) == LoadOutcome::RomHashMismatch,
{
}

/// Saving into a slot leaves every other slot as it was.
pub proof fn lemma_save_keeps_other_slots(
    slots: Map<u8, SaveSlotView>,
    slot: u8,
    entry: SaveSlotView,
    other: u8,
    hash: Seq<char>,
)
    requires
        other != slot,
    ensures
        spec_load(slots.insert(slot, entry), other, hash) == spec_load(slots, other, hash),
{
    assert(slots.insert(slot, entry).contains_key(other) == slots.contains_key(other));
}

} // verus!
