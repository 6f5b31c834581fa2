//! What the controller formats promise, stated with the bit masks of the frontend
//! pad (A 0x01, B 0x02, Select 0x04, Start 0x08, Up 0x10, Down 0x20, Left 0x40,
//! Right 0x80): which frontend button drives each bit of each system's pad word,
//! and whether the system reads a pressed button as 1 or as 0. Each law holds of
//! every result that meets the contract of its conversion.
use vstd::prelude::*;

use crate::pad_remap::{bit16, bit8, gameboy_source, gba_source, megadrive_source, sms_source};

verus! {

proof fn lemma_state_masks(state: u8)
    by (bit_vector)
    ensures
        (state & 0x01 != 0) == ((state >> 0u8) & 1 == 1),
        (state & 0x02 != 0) == ((state >> 1u8) & 1 == 1),
        (state & 0x04 != 0) == ((state >> 2u8) & 1 == 1),
        (state & 0x08 != 0) == ((state >> 3u8) & 1 == 1),
        (state & 0x10 != 0) == ((state >> 4u8) & 1 == 1),
        (state & 0x20 != 0) == ((state >> 5u8) & 1 == 1),
        (state & 0x40 != 0) == ((state >> 6u8) & 1 == 1),
        (state & 0x80 != 0) == ((state >> 7u8) & 1 == 1),
{
}

proof fn lemma_masks8(r: u8)
    by (bit_vector)
    ensures
        (r & 0x01 != 0) == ((r >> 0u8) & 1 == 1),
        (r & 0x02 != 0) == ((r >> 1u8) & 1 == 1),
        (r & 0x04 != 0) == ((r >> 2u8) & 1 == 1),
        (r & 0x08 != 0) == ((r >> 3u8) & 1 == 1),
        (r & 0x10 != 0) == ((r >> 4u8) & 1 == 1),
        (r & 0x20 != 0) == ((r >> 5u8) & 1 == 1),
        (r & 0x40 != 0) == ((r >> 6u8) & 1 == 1),
        (r & 0x80 != 0) == ((r >> 7u8) & 1 == 1),
{
}

proof fn lemma_masks16(r: u16)
    by (bit_vector)
    ensures
        (r & 0x0001 != 0) == ((r >> 0u16) & 1 == 1),
        (r & 0x0002 != 0) == ((r >> 1u16) & 1 == 1),
        (r & 0x0004 != 0) == ((r >> 2u16) & 1 == 1),
        (r & 0x0008 != 0) == ((r >> 3u16) & 1 == 1),
        (r & 0x0010 != 0) == ((r >> 4u16) & 1 == 1),
        (r & 0x0020 != 0) == ((r >> 5u16) & 1 == 1),
        (r & 0x0040 != 0) == ((r >> 6u16) & 1 == 1),
        (r & 0x0080 != 0) == ((r >> 7u16) & 1 == 1),
        ((r >> 8u16) & 1 == 1 && (r >> 9u16) & 1 == 1 && (r >> 10u16) & 1 == 1 && (r >> 11u16) & 1
            == 1 && (r >> 12u16) & 1 == 1 && (r >> 13u16) & 1 == 1 && (r >> 14u16) & 1 == 1 && (r
            >> 15u16) & 1 == 1) ==> r & 0xFF00 == 0xFF00,
        (!((r >> 8u16) & 1 == 1) && !((r >> 9u16) & 1 == 1) && !((r >> 10u16) & 1 == 1) && !((r
            >> 11u16) & 1 == 1) && !((r >> 12u16) & 1 == 1) && !((r >> 13u16) & 1 == 1) && !((r
            >> 14u16) & 1 == 1) && !((r >> 15u16) & 1 == 1)) ==> r & 0xFF00 == 0,
{
}

proof fn lemma_masks6(r: u8)
    by (bit_vector)
    ensures
        ((r >> 6u8) & 1 == 1 && (r >> 7u8) & 1 == 1) ==> r & 0xC0 == 0xC0,
{
}

/// The Mega Drive 3-button pad: bits Up, Down, Left, Right, B, C, A, Start from
/// bit 0, each 0 while its button (C being Select) is held; the high byte stays set.
pub proof fn lemma_megadrive_layout(state: u8, r: u16)
    requires
        forall|i: u16|
            i < 16 ==> #[trigger] bit16(r, i) == (i >= 8 || !bit8(state, megadrive_source(i as int))),
    ensures
        (r & 0x0001 == 0) == (state & 0x10 != 0),  // Up
        (r & 0x0002 == 0) == (state & 0x20 != 0),  // Down
        (r & 0x0004 == 0) == (state & 0x40 != 0),  // Left
        (r & 0x0008 == 0) == (state & 0x80 != 0),  // Right
        (r & 0x0010 == 0) == (state & 0x02 != 0),  // B
        (r & 0x0020 == 0) == (state & 0x04 != 0),  // C from Select
        (r & 0x0040 == 0) == (state & 0x01 != 0),  // A
        (r & 0x0080 == 0) == (state & 0x08 != 0),  // Start
        r & 0xFF00 == 0xFF00,
{
    lemma_state_masks(state);
    lemma_masks16(r);
    assert(bit16(r, 8) && bit16(r, 9) && bit16(r, 10) && bit16(r, 11));
    assert(bit16(r, 12) && bit16(r, 13) && bit16(r, 14) && bit16(r, 15));
    assert(bit16(r, 0) == !bit8(state, 4) && bit16(r, 1) == !bit8(state, 5));
    assert(bit16(r, 2) == !bit8(state, 6) && bit16(r, 3) == !bit8(state, 7));
    assert(bit16(r, 4) == !bit8(state, 1) && bit16(r, 5) == !bit8(state, 2));
    assert(bit16(r, 6) == !bit8(state, 0) && bit16(r, 7) == !bit8(state, 3));
}

/// The Game Boy joypad byte: bits Right, Left, Up, Down, A, B, Select, Start from
/// bit 0, each 0 while its button is held.
pub proof fn lemma_gameboy_layout(state: u8, r: u8)
    requires
        forall|i: u8| i < 8 ==> #[trigger] bit8(r, i) == !bit8(state, gameboy_source(i as int)),
    ensures
        (r & 0x01 == 0) == (state & 0x80 != 0),  // Right
        (r & 0x02 == 0) == (state & 0x40 != 0),  // Left
        (r & 0x04 == 0) == (state & 0x10 != 0),  // Up
        (r & 0x08 == 0) == (state & 0x20 != 0),  // Down
        (r & 0x10 == 0) == (state & 0x01 != 0),  // A
        (r & 0x20 == 0) == (state & 0x02 != 0),  // B
        (r & 0x40 == 0) == (state & 0x04 != 0),  // Select
        (r & 0x80 == 0) == (state & 0x08 != 0),  // Start
{
    lemma_state_masks(state);
    lemma_masks8(r);
    assert(bit8(r, 0) == !bit8(state, 7) && bit8(r, 1) == !bit8(state, 6));
    assert(bit8(r, 2) == !bit8(state, 4) && bit8(r, 3) == !bit8(state, 5));
    assert(bit8(r, 4) == !bit8(state, 0) && bit8(r, 5) == !bit8(state, 1));
    assert(bit8(r, 6) == !bit8(state, 2) && bit8(r, 7) == !bit8(state, 3));
}

/// The GBA KEYINPUT value: bits A, B, Select, Start, Right, Left, Up, Down from
/// bit 0, each 1 while its button is held; L, R and the bits above stay clear.
pub proof fn lemma_gba_layout(state: u8, r: u16)
    requires
        forall|i: u16|
            i < 16 ==> #[trigger] bit16(r, i) == (i < 8 && bit8(state, gba_source(i as int))),
    ensures
        (r & 0x0001 != 0) == (state & 0x01 != 0),  // A
        (r & 0x0002 != 0) == (state & 0x02 != 0),  // B
        (r & 0x0004 != 0) == (state & 0x04 != 0),  // Select
        (r & 0x0008 != 0) == (state & 0x08 != 0),  // Start
        (r & 0x0010 != 0) == (state & 0x80 != 0),  // Right
        (r & 0x0020 != 0) == (state & 0x40 != 0),  // Left
        (r & 0x0040 != 0) == (state & 0x10 != 0),  // Up
        (r & 0x0080 != 0) == (state & 0x20 != 0),  // Down
        r & 0xFF00 == 0,
{
    lemma_state_masks(state);
    lemma_masks16(r);
    assert(!bit16(r, 8) && !bit16(r, 9) && !bit16(r, 10) && !bit16(r, 11));
    assert(!bit16(r, 12) && !bit16(r, 13) && !bit16(r, 14) && !bit16(r, 15));
    assert(bit16(r, 0) == bit8(state, 0) && bit16(r, 1) == bit8(state, 1));
    assert(bit16(r, 2) == bit8(state, 2) && bit16(r, 3) == bit8(state, 3));
    assert(bit16(r, 4) == bit8(state, 7) && bit16(r, 5) == bit8(state, 6));
    assert(bit16(r, 6) == bit8(state, 4) && bit16(r, 7) == bit8(state, 5));
}

/// The Master System port byte: bits Up, Down, Left, Right, Button 1, Button 2
/// from bit 0, each 0 while its button (B for Button 1, A for Button 2) is held;
/// bits 6 and 7 stay set.
pub proof fn lemma_sms_layout(state: u8, r: u8)
    requires
        forall|i: u8|
            i < 8 ==> #[trigger] bit8(r, i) == (i >= 6 || !bit8(state, sms_source(i as int))),
    ensures
        (r & 0x01 == 0) == (state & 0x10 != 0),  // Up
        (r & 0x02 == 0) == (state & 0x20 != 0),  // Down
        (r & 0x04 == 0) == (state & 0x40 != 0),  // Left
        (r & 0x08 == 0) == (state & 0x80 != 0),  // Right
        (r & 0x10 == 0) == (state & 0x02 != 0),  // Button 1 from B
        (r & 0x20 == 0) == (state & 0x01 != 0),  // Button 2 from A
        r & 0xC0 == 0xC0,
{
    lemma_state_masks(state);
    lemma_masks8(r);
    lemma_masks6(r);
    assert(bit8(r, 6) && bit8(r, 7));
    assert(bit8(r, 0) == !bit8(state, 4) && bit8(r, 1) == !bit8(state, 5));
    assert(bit8(r, 2) == !bit8(state, 6) && bit8(r, 3) == !bit8(state, 7));
    assert(bit8(r, 4) == !bit8(state, 1) && bit8(r, 5) == !bit8(state, 0));
}

} // verus!
