//! What the SNES pad state promises, stated over the held keys: the twelve buttons
//! sit at the bits of the SNES layout B Y Select Start Up Down Left Right A X L R,
//! from bit 15 down to bit 4, and a button's bit is set exactly when a held key
//! stands for that button.
use vstd::prelude::*;

use crate::controller::{
    chip8_keys, colecovision_inputs, first_button_from, held_button, held_mask, low_byte_bits,
    pad_state, snes_bit_of, snes_state, KeyCode,
};

verus! {

proof fn lemma_first_button_in_range(mapped: Seq<Option<KeyCode>>, key: KeyCode, j: int)
    ensures
        first_button_from(mapped, key, j) matches Some(b) ==> 0 <= j <= b < mapped.len(),
    decreases mapped.len() - j,
{
    if 0 <= j < mapped.len() && mapped[j] != Some(key) {
        lemma_first_button_in_range(mapped, key, j + 1);
    }
}

proof fn lemma_held_button_in_range(mapped: Seq<Option<KeyCode>>, down: Seq<bool>, i: int)
    requires
        0 <= i < mapped.len(),
    ensures
        held_button(mapped, down, i) matches Some(b) ==> 0 <= b < mapped.len(),
{
    match mapped[i] {
        Some(k) => lemma_first_button_in_range(mapped, k, 0),
        None => {},
    }
}

/// Slot `i` holds a key whose button has its SNES bit at `p`.
pub open spec fn slot_sets_bit(mapped: Seq<Option<KeyCode>>, down: Seq<bool>, i: int, p: u16) -> bool {
    match held_button(mapped, down, i) {
        Some(b) => snes_bit_of(b) == p,
        None => false,
    }
}

proof fn lemma_set_bit(x: u16, k: u16, p: u16)
    by (bit_vector)
    requires
        k < 16,
        p < 16,
    ensures
        ((x | (1u16 << k)) & (1u16 << p) != 0) == ((x & (1u16 << p) != 0) || k == p),
        0u16 & (1u16 << p) == 0,
{
}

/// Bit `p` of the state from the first `n` slots is set exactly when one of those
/// slots holds a key whose button has its SNES bit at `p`.
proof fn lemma_snes_bits(mapped: Seq<Option<KeyCode>>, down: Seq<bool>, n: int, p: u16)
    requires
        0 <= n <= mapped.len(),
        p < 16,
    ensures
        (snes_state(mapped, down, n) & (1u16 << p) != 0) <==> exists|i: int|
            0 <= i < n && #[trigger] slot_sets_bit(mapped, down, i, p),
    decreases n,
{
    if n <= 0 {
        lemma_set_bit(0, 0, p);
    } else {
        lemma_snes_bits(mapped, down, n - 1, p);
        let prev = snes_state(mapped, down, n - 1);
        match held_button(mapped, down, n - 1) {
            Some(b) => {
                lemma_set_bit(prev, snes_bit_of(b), p);
                assert(snes_state(mapped, down, n) == prev | (1u16 << snes_bit_of(b)));
                assert(slot_sets_bit(mapped, down, n - 1, p) == (snes_bit_of(b) == p));
            },
            None => {
                assert(snes_state(mapped, down, n) == prev);
                assert(!slot_sets_bit(mapped, down, n - 1, p));
            },
        }
        if exists|i: int|
            0 <= i < n && #[trigger] slot_sets_bit(mapped, down, i, p) {
            let w = choose|i: int|
                0 <= i < n && #[trigger] slot_sets_bit(mapped, down, i, p);
            if w < n - 1 {
                assert(slot_sets_bit(mapped, down, w, p));
            }
        }
        if exists|i: int|
            0 <= i < n - 1 && #[trigger] slot_sets_bit(mapped, down, i, p) {
            let w = choose|i: int|
                0 <= i < n - 1 && #[trigger] slot_sets_bit(mapped, down, i, p);
            assert(0 <= w < n);
        }
    }
}

/// The SNES layout: button `b` (A, B, Select, Start, Up, Down, Left, Right, X, Y,
/// L, R) has bit 7, 15, 13, 12, 11, 10, 9, 8, 6, 14, 5, 4, and its bit is set
/// exactly when some held key of the twelve slots stands for button `b`.
pub proof fn lemma_snes_layout(mapped: Seq<Option<KeyCode>>, down: Seq<bool>, b: int)
    requires
        mapped.len() == 12,
        0 <= b < 12,
    ensures
        ({
            let bit = seq![7u16, 15, 13, 12, 11, 10, 9, 8, 6, 14, 5, 4][b];
            (snes_state(mapped, down, 12) & (1u16 << bit) != 0) <==> exists|i: int|
                0 <= i < 12 && #[trigger] held_button(mapped, down, i) == Some(b)
        }),
{
    let bit = seq![7u16, 15, 13, 12, 11, 10, 9, 8, 6, 14, 5, 4][b];
    lemma_snes_bits(mapped, down, 12, bit);
    assert forall|i: int| 0 <= i < 12 implies #[trigger] slot_sets_bit(mapped, down, i, bit) == (
    held_button(mapped, down, i) == Some(b)) by {
        lemma_held_button_in_range(mapped, down, i);
    }
    if exists|i: int| 0 <= i < 12 && #[trigger] held_button(mapped, down, i) == Some(b) {
        let w = choose|i: int| 0 <= i < 12 && #[trigger] held_button(mapped, down, i) == Some(b);
        assert(slot_sets_bit(mapped, down, w, bit));
    }
    if exists|i: int|
        0 <= i < 12 && #[trigger] slot_sets_bit(mapped, down, i, bit) {
        let w = choose|i: int|
            0 <= i < 12 && #[trigger] slot_sets_bit(mapped, down, i, bit);
        assert(held_button(mapped, down, w) == Some(b));
    }
}

/// Input `i` is held and drives bit `p`.
pub open spec fn input_sets_bit(down: Seq<bool>, bits: Seq<u16>, i: int, p: u16) -> bool {
    down[i] && bits[i] == p
}

/// Bit `p` of a pad built from the first `n` inputs is set exactly when one of
/// those inputs is held and drives bit `p`.
proof fn lemma_held_mask_bits(down: Seq<bool>, bits: Seq<u16>, n: int, p: u16)
    requires
        0 <= n <= bits.len(),
        n <= down.len(),
        forall|i: int| 0 <= i < n ==> #[trigger] bits[i] < 16,
        p < 16,
    ensures
        (held_mask(down, bits, n) & (1u16 << p) != 0) <==> exists|i: int|
            0 <= i < n && #[trigger] input_sets_bit(down, bits, i, p),
    decreases n,
{
    if n <= 0 {
        lemma_set_bit(0, 0, p);
    } else {
        lemma_held_mask_bits(down, bits, n - 1, p);
        let prev = held_mask(down, bits, n - 1);
        if down[n - 1] {
            assert(bits[n - 1] < 16);
            lemma_set_bit(prev, bits[n - 1], p);
            assert(held_mask(down, bits, n) == prev | (1u16 << bits[n - 1]));
            assert(input_sets_bit(down, bits, n - 1, p) == (bits[n - 1] == p));
        } else {
            assert(held_mask(down, bits, n) == prev);
            assert(!input_sets_bit(down, bits, n - 1, p));
        }
        if exists|i: int| 0 <= i < n && #[trigger] input_sets_bit(down, bits, i, p) {
            let w = choose|i: int| 0 <= i < n && #[trigger] input_sets_bit(down, bits, i, p);
            if w < n - 1 {
                assert(input_sets_bit(down, bits, w, p));
            }
        }
        if exists|i: int| 0 <= i < n - 1 && #[trigger] input_sets_bit(down, bits, i, p) {
            let w = choose|i: int| 0 <= i < n - 1 && #[trigger] input_sets_bit(down, bits, i, p);
            assert(0 <= w < n);
        }
    }
}

/// Where the inputs drive different bits, bit `bits[i]` follows input `i` alone.
proof fn lemma_held_mask_single(down: Seq<bool>, bits: Seq<u16>, n: int, i: int)
    requires
        0 <= i < n <= bits.len(),
        n <= down.len(),
        forall|j: int| 0 <= j < n ==> #[trigger] bits[j] < 16,
        forall|j: int| 0 <= j < n && j != i ==> #[trigger] bits[j] != bits[i],
    ensures
        (held_mask(down, bits, n) & (1u16 << bits[i]) != 0) == down[i],
{
    lemma_held_mask_bits(down, bits, n, bits[i]);
    if down[i] {
        assert(input_sets_bit(down, bits, i, bits[i]));
    }
    if exists|j: int| 0 <= j < n && #[trigger] input_sets_bit(down, bits, j, bits[i]) {
        let w = choose|j: int| 0 <= j < n && #[trigger] input_sets_bit(down, bits, j, bits[i]);
        assert(w == i);
    }
}

/// The CHIP-8 keypad: the keyboard keys 1 2 3 4 / Q W E R / A S D F / Z X C V,
/// taken row by row, drive the CHIP-8 keys 1 2 3 C / 4 5 6 D / 7 8 9 E / A 0 B F:
/// bit `k` of the state is set exactly when the keyboard key for CHIP-8 key `k`
/// is held.
pub proof fn lemma_chip8_layout(down: Seq<bool>, i: int)
    requires
        down.len() == 16,
        0 <= i < 16,
    ensures
        (held_mask(down, chip8_keys(), 16) & (1u16 << seq![0x1u16, 0x2, 0x3, 0xC, 0x4, 0x5, 0x6, 0xD, 0x7, 0x8, 0x9, 0xE, 0xA, 0x0, 0xB, 0xF][i]) != 0) == down[i],
{
    let t = seq![0x1u16, 0x2, 0x3, 0xC, 0x4, 0x5, 0x6, 0xD, 0x7, 0x8, 0x9, 0xE, 0xA, 0x0, 0xB, 0xF];
    assert(chip8_keys() =~= t);
    assert forall|j: int| 0 <= j < 16 implies #[trigger] t[j] < 16 by {}
    assert forall|j: int| 0 <= j < 16 && j != i implies #[trigger] t[j] != t[i] by {}
    lemma_held_mask_single(down, t, 16, i);
}

/// The Game & Watch buttons Left, Up, Right, Down, A, B, TIME, GAME drive bits 0
/// to 7 in that order.
pub proof fn lemma_game_and_watch_layout(down: Seq<bool>, i: int)
    requires
        down.len() == 8,
        0 <= i < 8,
    ensures
        (held_mask(down, low_byte_bits(), 8) & (1u16 << (i as u16)) != 0) == down[i],
        held_mask(down, low_byte_bits(), 8) & 0xFF00 == 0,
{
    let t = low_byte_bits();
    assert forall|j: int| 0 <= j < 8 implies #[trigger] t[j] < 16 && t[j] == j by {}
    assert forall|j: int| 0 <= j < 8 && j != i implies #[trigger] t[j] != t[i] by {}
    lemma_held_mask_single(down, t, 8, i);
    lemma_low_mask_high_clear(down, 8);
}

proof fn lemma_low_mask_high_clear(down: Seq<bool>, n: int)
    requires
        0 <= n <= 8,
        n <= down.len(),
    ensures
        held_mask(down, low_byte_bits(), n) & 0xFF00 == 0,
    decreases n,
{
    if n > 0 {
        lemma_low_mask_high_clear(down, n - 1);
        let prev = held_mask(down, low_byte_bits(), n - 1);
        let k = low_byte_bits()[n - 1];
        assert(k < 8);
        assert(prev & 0xFF00 == 0 && k < 8 ==> (prev | (1u16 << k)) & 0xFF00 == 0) by (bit_vector);
    } else {
        assert(0u16 & 0xFF00 == 0) by (bit_vector);
    }
}

/// The ColecoVision pad: fire button A (bit 0) follows the Select button's key,
/// fire button B (bit 1) the Start button's key, bits 2 and 3 stay clear, and Up,
/// Down, Left, Right drive bits 4 to 7.
pub proof fn lemma_colecovision_layout(held: Seq<bool>)
    requires
        held.len() == 8,
    ensures
        ({
            let s = held_mask(colecovision_inputs(held), low_byte_bits(), 8);
            &&& (s & 0x01 != 0) == held[2]
            &&& (s & 0x02 != 0) == held[3]
            &&& s & 0x0C == 0
            &&& (s & 0x10 != 0) == held[4]
            &&& (s & 0x20 != 0) == held[5]
            &&& (s & 0x40 != 0) == held[6]
            &&& (s & 0x80 != 0) == held[7]
            &&& s & 0xFF00 == 0
        }),
{
    let inputs = colecovision_inputs(held);
    let s = held_mask(inputs, low_byte_bits(), 8);
    lemma_game_and_watch_layout(inputs, 0);
    lemma_game_and_watch_layout(inputs, 1);
    lemma_game_and_watch_layout(inputs, 2);
    lemma_game_and_watch_layout(inputs, 3);
    lemma_game_and_watch_layout(inputs, 4);
    lemma_game_and_watch_layout(inputs, 5);
    lemma_game_and_watch_layout(inputs, 6);
    lemma_game_and_watch_layout(inputs, 7);
    assert(s & 0x0C == 0) by (bit_vector)
        requires
            s & (1u16 << 2u16) == 0,
            s & (1u16 << 3u16) == 0,
    ;
    assert((s & 0x01 != 0) == (s & (1u16 << 0u16) != 0)) by (bit_vector);
    assert((s & 0x02 != 0) == (s & (1u16 << 1u16) != 0)) by (bit_vector);
    assert((s & 0x10 != 0) == (s & (1u16 << 4u16) != 0)) by (bit_vector);
    assert((s & 0x20 != 0) == (s & (1u16 << 5u16) != 0)) by (bit_vector);
    assert((s & 0x40 != 0) == (s & (1u16 << 6u16) != 0)) by (bit_vector);
    assert((s & 0x80 != 0) == (s & (1u16 << 7u16) != 0)) by (bit_vector);
}

proof fn lemma_first_button_at_most(mapped: Seq<Option<KeyCode>>, key: KeyCode, j: int, i: int)
    requires
        0 <= j <= i < mapped.len(),
        mapped[i] == Some(key),
    ensures
        first_button_from(mapped, key, j) matches Some(b) && j <= b <= i,
    decreases i - j,
{
    if mapped[j] != Some(key) {
        lemma_first_button_at_most(mapped, key, j + 1, i);
    }
}

/// Slot `i` holds a key whose button is `b`.
pub open spec fn slot_holds_button(mapped: Seq<Option<KeyCode>>, down: Seq<bool>, i: int, b: int) -> bool {
    held_button(mapped, down, i) == Some(b)
}

proof fn lemma_set_bit8(x: u8, k: u8, p: u8)
    by (bit_vector)
    requires
        k < 8,
        p < 8,
    ensures
        ((x | (1u8 << k)) & (1u8 << p) != 0) == ((x & (1u8 << p) != 0) || k == p),
        0u8 & (1u8 << p) == 0,
{
}

proof fn lemma_pad_bits(mapped: Seq<Option<KeyCode>>, down: Seq<bool>, n: int, b: int)
    requires
        0 <= n <= 8,
        mapped.len() == 12,
        0 <= b < 8,
    ensures
        (pad_state(mapped, down, n) & (1u8 << (b as u8)) != 0) <==> exists|i: int|
            0 <= i < n && #[trigger] slot_holds_button(mapped, down, i, b),
    decreases n,
{
    if n <= 0 {
        lemma_set_bit8(0, 0, b as u8);
    } else {
        lemma_pad_bits(mapped, down, n - 1, b);
        let prev = pad_state(mapped, down, n - 1);
        match held_button(mapped, down, n - 1) {
            Some(c) => {
                let k = mapped[n - 1]->0;
                lemma_first_button_at_most(mapped, k, 0, n - 1);
                assert(0 <= c < 8);
                lemma_set_bit8(prev, c as u8, b as u8);
                assert(pad_state(mapped, down, n) == prev | (1u8 << (c as u8)));
                assert(slot_holds_button(mapped, down, n - 1, b) == (c == b));
            },
            None => {
                assert(pad_state(mapped, down, n) == prev);
                assert(!slot_holds_button(mapped, down, n - 1, b));
            },
        }
        if exists|i: int| 0 <= i < n && #[trigger] slot_holds_button(mapped, down, i, b) {
            let w = choose|i: int| 0 <= i < n && #[trigger] slot_holds_button(mapped, down, i, b);
            if w < n - 1 {
                assert(slot_holds_button(mapped, down, w, b));
            }
        }
        if exists|i: int| 0 <= i < n - 1 && #[trigger] slot_holds_button(mapped, down, i, b) {
            let w = choose|i: int| 0 <= i < n - 1 && #[trigger] slot_holds_button(mapped, down, i, b);
            assert(0 <= w < n);
        }
    }
}

/// The 8-bit pad (NES, Game Boy, Atari): button `b` of the mapping order A, B,
/// Select, Start, Up, Down, Left, Right has bit `b`, set exactly when a held key
/// of the first eight slots stands for button `b`.
pub proof fn lemma_pad_layout(mapped: Seq<Option<KeyCode>>, down: Seq<bool>, b: int)
    requires
        mapped.len() == 12,
        0 <= b < 8,
    ensures
        (pad_state(mapped, down, 8) & (1u8 << (b as u8)) != 0) <==> exists|i: int|
            0 <= i < 8 && #[trigger] held_button(mapped, down, i) == Some(b),
{
    lemma_pad_bits(mapped, down, 8, b);
    if exists|i: int| 0 <= i < 8 && #[trigger] held_button(mapped, down, i) == Some(b) {
        let w = choose|i: int| 0 <= i < 8 && #[trigger] held_button(mapped, down, i) == Some(b);
        assert(slot_holds_button(mapped, down, w, b));
    }
}

} // verus!
