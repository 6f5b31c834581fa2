//! Controller state from the keyboard.
//!
//! A player's `KeyMapping` names a key for each button; the window backend resolves
//! each name to a key code (or to nothing, for an unknown or empty name) and reports
//! which keys are held. From those plain values the functions here compute the
//! button bits that each emulated system expects.
//!
//! Buttons are numbered in mapping order: A(0), B(1), Select(2), Start(3), Up(4),
//! Down(5), Left(6), Right(7), X(8), Y(9), L(10), R(11).
use vstd::prelude::*;

verus! {

/// A key code of the window backend.
pub type KeyCode = u32;

/// The first button whose mapped key is `key`, searching from button `j`.
pub open spec fn first_button_from(mapped: Seq<Option<KeyCode>>, key: KeyCode, j: int) -> Option<
    int,
>
    decreases mapped.len() - j,
{
    if j < 0 || j >= mapped.len() {
        None
    } else if mapped[j] == Some(key) {
        Some(j)
    } else {
        first_button_from(mapped, key, j + 1)
    }
}

/// The button that `key` is mapped to: the first in mapping order.
pub open spec fn button_of(mapped: Seq<Option<KeyCode>>, key: KeyCode) -> Option<int> {
    first_button_from(mapped, key, 0)
}

proof fn lemma_first_button_bounds(mapped: Seq<Option<KeyCode>>, key: KeyCode, j: int, i: int)
    requires
        0 <= j <= i < mapped.len(),
        mapped[i] == Some(key),
    ensures
        first_button_from(mapped, key, j) matches Some(b) && j <= b <= i && mapped[b] == Some(key),
    decreases i - j,
{
    if mapped[j] != Some(key) {
        lemma_first_button_bounds(mapped, key, j + 1, i);
    }
}

/// Map a key to the button it is mapped to (0..=11), if any
pub fn key_mapping_to_button(key: KeyCode, mapped: &[Option<KeyCode>; 12]) -> (r: Option<u8>)
    ensures
        r == match button_of(mapped@, key) {
            Some(b) => Some(b as u8),
            None => None,
        },
        r matches Some(b) ==> b < 12,
{
    let mut j: usize = 0;
    while j < 12
        invariant
            j <= 12,
            first_button_from(mapped@, key, 0) == first_button_from(mapped@, key, j as int),
        decreases 12 - j,
    {
        if mapped[j] == Some(key) {
            return Some(j as u8);
        }
        j += 1;
    }
    None
}

/// The button whose bit a held key in slot `i` sets: the (first) button that the
/// slot's key is mapped to, where the slot has a key and it is held.
pub open spec fn held_button(mapped: Seq<Option<KeyCode>>, down: Seq<bool>, i: int) -> Option<int> {
    match mapped[i] {
        Some(k) => if down[i] {
            button_of(mapped, k)
        } else {
            None
        },
        None => None,
    }
}

/// The state of an 8-button pad from the first `n` button slots.
pub open spec fn pad_state(mapped: Seq<Option<KeyCode>>, down: Seq<bool>, n: int) -> u8
    decreases n,
{
    if n <= 0 {
        0u8
    } else {
        let prev = pad_state(mapped, down, n - 1);
        match held_button(mapped, down, n - 1) {
            Some(b) => prev | (1u8 << (b as u8)),
            None => prev,
        }
    }
}

/// Get controller state for a player (8-bit for NES/GB/Atari).
///
/// `mapped[i]` is the key mapped to button `i` (None where the name resolves to no
/// key); `down[i]` tells whether that key is held. Each held key of buttons 0..8
/// sets the bit of the (first) button it is mapped to.
pub fn get_controller_state(mapped: &[Option<KeyCode>; 12], down: &[bool; 12]) -> (state: u8)
    ensures
        state == pad_state(mapped@, down@, 8),
{
    let mut state: u8 = 0;
    let mut i: usize = 0;
    while i < 8
        invariant
            i <= 8,
            state == pad_state(mapped@, down@, i as int),
        decreases 8 - i,
    {
        if let Some(k) = mapped[i] {
            if down[i] {
                proof {
                    lemma_first_button_bounds(mapped@, k, 0, i as int);
                }
                if let Some(bit) = key_mapping_to_button(k, mapped) {
                    state = state | (1u8 << bit);
                }
            }
        }
        i += 1;
    }
    state
}

/// The SNES bit position of each button: A(7), B(15), Select(13), Start(12), Up(11),
/// Down(10), Left(9), Right(8), X(6), Y(14), L(5), R(4).
pub open spec fn snes_bit_of(button: int) -> u16 {
    if button == 0 {
        7
    } else if button == 1 {
        15
    } else if button == 2 {
        13
    } else if button == 3 {
        12
    } else if button == 4 {
        11
    } else if button == 5 {
        10
    } else if button == 6 {
        9
    } else if button == 7 {
        8
    } else if button == 8 {
        6
    } else if button == 9 {
        14
    } else if button == 10 {
        5
    } else {
        4
    }
}

/// The state of a SNES pad from the first `n` button slots.
pub open spec fn snes_state(mapped: Seq<Option<KeyCode>>, down: Seq<bool>, n: int) -> u16
    decreases n,
{
    if n <= 0 {
        0u16
    } else {
        let prev = snes_state(mapped, down, n - 1);
        match held_button(mapped, down, n - 1) {
            Some(b) => prev | (1u16 << snes_bit_of(b)),
            None => prev,
        }
    }
}

/// The low four bits of a SNES pad state are always clear: every button's bit lies
/// between 4 and 15.
pub proof fn lemma_snes_low_bits_clear(mapped: Seq<Option<KeyCode>>, down: Seq<bool>, n: int)
    ensures
        snes_state(mapped, down, n) & 0x000F == 0,
    decreases n,
{
    if n > 0 {
        lemma_snes_low_bits_clear(mapped, down, n - 1);
        let prev = snes_state(mapped, down, n - 1);
        match held_button(mapped, down, n - 1) {
            Some(b) => {
                let k = snes_bit_of(b);
                assert(4 <= k <= 15);
                assert((prev | (1u16 << k)) & 0x000F == 0) by (bit_vector)
                    requires
                        prev & 0x000F == 0,
                        4 <= k <= 15,
                ;
            },
            None => {},
        }
    } else {
        assert(0u16 & 0x000F == 0) by (bit_vector);
    }
}

fn snes_bit_exec(button: u8) -> (bit: u16)
    requires
        button < 12,
    ensures
        bit == snes_bit_of(button as int),
{
    match button {
        0 => 7,
        1 => 15,
        2 => 13,
        3 => 12,
        4 => 11,
        5 => 10,
        6 => 9,
        7 => 8,
        8 => 6,
        9 => 14,
        10 => 5,
        _ => 4,
    }
}

/// Get SNES controller state (16-bit).
///
/// SNES controllers have 12 buttons laid out as a 16-bit value:
/// Bit positions: B Y Select Start Up Down Left Right A X L R 0 0 0 0
/// Each held key of the twelve button slots sets the SNES bit of the (first)
/// button it is mapped to; bits 3-0 stay clear.
pub fn get_snes_controller_state(mapped: &[Option<KeyCode>; 12], down: &[bool; 12]) -> (state:
    u16)
    ensures
        state == snes_state(mapped@, down@, 12),
        state & 0x000F == 0,
{
    proof {
        lemma_snes_low_bits_clear(mapped@, down@, 12);
    }
    let mut state: u16 = 0;
    let mut i: usize = 0;
    while i < 12
        invariant
            i <= 12,
            state == snes_state(mapped@, down@, i as int),
        decreases 12 - i,
    {
        if let Some(k) = mapped[i] {
            if down[i] {
                proof {
                    lemma_first_button_bounds(mapped@, k, 0, i as int);
                }
                if let Some(button_id) = key_mapping_to_button(k, mapped) {
                    let snes_bit = snes_bit_exec(button_id);
                    state = state | (1u16 << snes_bit);
                }
            }
        }
        i += 1;
    }
    state
}

/// The state of a pad whose input `i` sets bit `bits[i]`, from the first `n` inputs.
pub open spec fn held_mask(down: Seq<bool>, bits: Seq<u16>, n: int) -> u16
    decreases n,
{
    if n <= 0 {
        0u16
    } else {
        if down[n - 1] {
            held_mask(down, bits, n - 1) | (1u16 << bits[n - 1])
        } else {
            held_mask(down, bits, n - 1)
        }
    }
}

/// The CHIP-8 key for each keyboard key, in the order
/// 1 2 3 4 / Q W E R / A S D F / Z X C V.
pub open spec fn chip8_keys() -> Seq<u16> {
    seq![0x1u16, 0x2, 0x3, 0xC, 0x4, 0x5, 0x6, 0xD, 0x7, 0x8, 0x9, 0xE, 0xA, 0x0, 0xB, 0xF]
}

/// Get CHIP-8 controller state (16-bit for the 16-key hexadecimal keypad).
///
/// The keypad
///   1 2 3 C
///   4 5 6 D
///   7 8 9 E
///   A 0 B F
/// is mapped to the QWERTY keys
///   1 2 3 4
///   Q W E R
///   A S D F
///   Z X C V
/// `down[i]` tells whether the i-th of those keyboard keys (row by row) is held;
/// bit N of the result is CHIP-8 key N.
pub fn get_chip8_controller_state(down: &[bool; 16]) -> (state: u16)
    ensures
        state == held_mask(down@, chip8_keys(), 16),
{
    let keys: [u16; 16] = [0x1, 0x2, 0x3, 0xC, 0x4, 0x5, 0x6, 0xD, 0x7, 0x8, 0x9, 0xE, 0xA, 0x0, 0xB, 0xF];
    assert(keys@ =~= chip8_keys());
    let mut state: u16 = 0;
    let mut i: usize = 0;
    while i < 16
        invariant
            i <= 16,
            keys@ == chip8_keys(),
            state == held_mask(down@, chip8_keys(), i as int),
        decreases 16 - i,
    {
        if down[i] {
            state = state | (1u16 << keys[i]);
        }
        i += 1;
    }
    state
}

/// Bits 0 to 7, in order.
pub open spec fn low_byte_bits() -> Seq<u16> {
    seq![0u16, 1, 2, 3, 4, 5, 6, 7]
}

/// Get Game & Watch controller state using .mgw button encoding (8-bit).
///
/// `down[i]` tells whether the i-th of Left, Up, Right, Down, Z (A), X (B),
/// T (TIME), G (GAME) is held; it sets bit i.
pub fn get_gw_controller_state(down: &[bool; 8]) -> (state: u16)
    ensures
        state == held_mask(down@, low_byte_bits(), 8),
{
    let mut state: u16 = 0;
    let mut i: u16 = 0;
    while i < 8
        invariant
            i <= 8,
            state == held_mask(down@, low_byte_bits(), i as int),
        decreases 8 - i,
    {
        assert(low_byte_bits()[i as int] == i);
        if down[i as usize] {
            state = state | (1u16 << i);
        }
        i += 1;
    }
    state
}

/// The ColecoVision pad's inputs, bit by bit, from the held buttons of a mapping
/// (A, B, Select, Start, Up, Down, Left, Right): fire button A (bit 0) is the key
/// in the Select slot, fire button B (bit 1) the key in the Start slot (Left Shift
/// and Enter for player 1, Right Shift and P for player 2 by default), bits 2 and
/// 3 stay clear, and the joystick directions take bits 4 to 7.
pub open spec fn colecovision_inputs(held: Seq<bool>) -> Seq<bool> {
    seq![held[2], held[3], false, false, held[4], held[5], held[6], held[7]]
}

/// Get ColecoVision controller state (8-bit).
///
/// ColecoVision controller layout: joystick in bits 4-7, fire button A in bit 0,
/// fire button B in bit 1 (Select and Start, bits 2 and 3, are not driven). The
/// player's Select and Start keys (Left Shift and Enter for player 1) serve as
/// fire buttons A and B; the numeric keypad is read separately.
///
/// `held[i]` tells whether button `i` of the mapping (A, B, Select, Start, Up, Down,
/// Left, Right) has a key that is held.
pub fn get_colecovision_controller_state(held: &[bool; 8]) -> (state: u8)
    ensures
        state as u16 == held_mask(colecovision_inputs(held@), low_byte_bits(), 8),
{
    let inputs: [bool; 8] = [held[2], held[3], false, false, held[4], held[5], held[6], held[7]];
    assert(inputs@ =~= colecovision_inputs(held@));
    let wide = get_gw_controller_state(&inputs);
    assert(wide < 256) by {
        lemma_low_mask_fits(inputs@, 8);
    }
    wide as u8
}

proof fn lemma_low_mask_fits(down: Seq<bool>, n: int)
    requires
        0 <= n <= 8,
    ensures
        held_mask(down, low_byte_bits(), n) < 256,
    decreases n,
{
    if n > 0 {
        lemma_low_mask_fits(down, n - 1);
        let prev = held_mask(down, low_byte_bits(), n - 1);
        let k = low_byte_bits()[n - 1];
        assert(k < 8);
        assert(prev < 256 && k < 8 ==> (prev | (1u16 << k)) < 256) by (bit_vector);
    }
}

} // verus!
