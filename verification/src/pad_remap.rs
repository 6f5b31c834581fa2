//! Converting the frontend's 8-bit pad state to the controller formats of the
//! emulated systems.
//!
//! The frontend state is active-high, one bit per button: A(0), B(1), Select(2),
//! Start(3), Up(4), Down(5), Left(6), Right(7). Each system wants its own bit
//! order, and some want active-low bits (0 = pressed).
use vstd::prelude::*;

verus! {

/// Is bit `i` of `x` set?
pub open spec fn bit8(x: u8, i: u8) -> bool {
    (x >> i) & 1 == 1
}

/// Is bit `i` of `x` set?
pub open spec fn bit16(x: u16, i: u16) -> bool {
    (x >> i) & 1 == 1
}

/// The frontend button behind Game Boy joypad bit `i`:
/// Right, Left, Up, Down, A, B, Select, Start.
pub open spec fn gameboy_source(i: int) -> u8 {
    if i == 0 {
        7
    } else if i == 1 {
        6
    } else if i == 2 {
        4
    } else if i == 3 {
        5
    } else if i == 4 {
        0
    } else if i == 5 {
        1
    } else if i == 6 {
        2
    } else {
        3
    }
}

/// The frontend button behind GBA KEYINPUT bit `i` (for `i < 8`):
/// A, B, Select, Start, Right, Left, Up, Down.
pub open spec fn gba_source(i: int) -> u8 {
    if i == 4 {
        7
    } else if i == 5 {
        6
    } else if i == 6 {
        4
    } else if i == 7 {
        5
    } else {
        i as u8
    }
}

/// The frontend button behind Master System port bit `i` (for `i < 6`):
/// Up, Down, Left, Right, Button 1 (B), Button 2 (A).
pub open spec fn sms_source(i: int) -> u8 {
    if i == 0 {
        4
    } else if i == 1 {
        5
    } else if i == 2 {
        6
    } else if i == 3 {
        7
    } else if i == 4 {
        1
    } else {
        0
    }
}

/// The frontend button behind Mega Drive pad bit `i` (for `i < 8`):
/// Up, Down, Left, Right, B, C (Select), A, Start.
pub open spec fn megadrive_source(i: int) -> u8 {
    if i == 0 {
        4
    } else if i == 1 {
        5
    } else if i == 2 {
        6
    } else if i == 3 {
        7
    } else if i == 4 {
        1
    } else if i == 5 {
        2
    } else if i == 6 {
        0
    } else {
        3
    }
}

proof fn lemma_gameboy_bits(state: u8, r: u8)
    by (bit_vector)
    requires
        r == !(((state & 0x80) >> 7) | ((state & 0x40) >> 5) | ((state & 0x10) >> 2) | ((state
            & 0x20) >> 2) | ((state & 0x01) << 4) | ((state & 0x02) << 4) | ((state & 0x04) << 4)
            | ((state & 0x08) << 4)),
    ensures
        ((r >> 0u8) & 1 == 1) == !((state >> 7u8) & 1 == 1),
        ((r >> 1u8) & 1 == 1) == !((state >> 6u8) & 1 == 1),
        ((r >> 2u8) & 1 == 1) == !((state >> 4u8) & 1 == 1),
        ((r >> 3u8) & 1 == 1) == !((state >> 5u8) & 1 == 1),
        ((r >> 4u8) & 1 == 1) == !((state >> 0u8) & 1 == 1),
        ((r >> 5u8) & 1 == 1) == !((state >> 1u8) & 1 == 1),
        ((r >> 6u8) & 1 == 1) == !((state >> 2u8) & 1 == 1),
        ((r >> 7u8) & 1 == 1) == !((state >> 3u8) & 1 == 1),
{
}

/// The Game Boy joypad byte for a frontend pad state: bit `i` comes from button
/// `gameboy_source(i)`, inverted (the Game Boy reads 0 as pressed).
pub fn gameboy_pad(state: u8) -> (r: u8)
    ensures
        forall|i: u8| i < 8 ==> #[trigger] bit8(r, i) == !bit8(state, gameboy_source(i as int)),
{
    let gb_state: u8 = ((state & 0x80) >> 7) | ((state & 0x40) >> 5) | ((state & 0x10) >> 2) | ((
    state & 0x20) >> 2) | ((state & 0x01) << 4) | ((state & 0x02) << 4) | ((state & 0x04) << 4) | ((
    state & 0x08) << 4);
    let r: u8 = !gb_state;
    proof {
        lemma_gameboy_bits(state, r);
        assert forall|i: u8| i < 8 implies #[trigger] bit8(r, i) == !bit8(
            state,
            gameboy_source(i as int),
        ) by {
            if i == 0 {
            } else if i == 1 {
            } else if i == 2 {
            } else if i == 3 {
            } else if i == 4 {
            } else if i == 5 {
            } else if i == 6 {
            } else {
                assert(i == 7);
            }
        }
    }
    r
}

proof fn lemma_gba_bits(state: u8, r: u16)
    by (bit_vector)
    requires
        r == (state as u16 & 0x0F) | (((state >> 7u8) & 1) as u16) << 4u16 | (((state >> 6u8) & 1)
            as u16) << 5u16 | (((state >> 4u8) & 1) as u16) << 6u16 | (((state >> 5u8) & 1) as u16)
            << 7u16,
    ensures
        ((r >> 0u16) & 1 == 1) == ((state >> 0u8) & 1 == 1),
        ((r >> 1u16) & 1 == 1) == ((state >> 1u8) & 1 == 1),
        ((r >> 2u16) & 1 == 1) == ((state >> 2u8) & 1 == 1),
        ((r >> 3u16) & 1 == 1) == ((state >> 3u8) & 1 == 1),
        ((r >> 4u16) & 1 == 1) == ((state >> 7u8) & 1 == 1),
        ((r >> 5u16) & 1 == 1) == ((state >> 6u8) & 1 == 1),
        ((r >> 6u16) & 1 == 1) == ((state >> 4u8) & 1 == 1),
        ((r >> 7u16) & 1 == 1) == ((state >> 5u8) & 1 == 1),
        r >> 8u16 == 0,
{
}

proof fn lemma_high_bits_clear(r: u16, i: u16)
    by (bit_vector)
    requires
        r >> 8u16 == 0,
        8 <= i < 16,
    ensures
        !((r >> i) & 1 == 1),
{
}

/// The GBA KEYINPUT value for a frontend pad state: bit `i` (for `i < 8`) is set
/// when button `gba_source(i)` is pressed; L, R and the bits above them stay clear.
pub fn gba_pad(state: u8) -> (r: u16)
    ensures
        forall|i: u16|
            i < 16 ==> #[trigger] bit16(r, i) == (i < 8 && bit8(state, gba_source(i as int))),
{
    let r: u16 = (state as u16 & 0x0F) | (((state >> 7) & 1) as u16) << 4 | (((state >> 6) & 1)
        as u16) << 5 | (((state >> 4) & 1) as u16) << 6 | (((state >> 5) & 1) as u16) << 7;
    proof {
        lemma_gba_bits(state, r);
        assert forall|i: u16| i < 16 implies #[trigger] bit16(r, i) == (i < 8 && bit8(
            state,
            gba_source(i as int),
        )) by {
            if i >= 8 {
                lemma_high_bits_clear(r, i);
            } else if i == 0 {
            } else if i == 1 {
            } else if i == 2 {
            } else if i == 3 {
            } else if i == 4 {
            } else if i == 5 {
            } else if i == 6 {
            } else {
                assert(i == 7);
            }
        }
    }
    r
}

/// The N64 buttons that the frontend pad drives (Select has no N64 button; Z, L,
/// R and the C buttons have no frontend key).
#[derive(Debug, Clone, Copy, PartialEq, Eq, Structural)]
pub struct N64Buttons {
    pub a: bool,
    pub b: bool,
    pub start: bool,
    pub d_up: bool,
    pub d_down: bool,
    pub d_left: bool,
    pub d_right: bool,
}

proof fn lemma_mask_is_bit(state: u8)
    by (bit_vector)
    ensures
        (state & 0x01 != 0) == ((state >> 0u8) & 1 == 1),
        (state & 0x02 != 0) == ((state >> 1u8) & 1 == 1),
        (state & 0x04 != 0) == ((state >> 2u8) & 1 == 1),
        (state & 0x08 != 0) == ((state >> 3u8) & 1 == 1),
        (state & 0x10 != 0) == ((state >> 4u8) & 1 == 1),
        (state & 0x20 != 0) == ((state >> 5u8) & 1 == 1),
        (state & 0x40 != 0) == ((state >> 6u8) & 1 == 1),
        (state & 0x80 != 0) == ((state >> 7u8) & 1 == 1),
{
}

/// The N64 buttons pressed in a frontend pad state (active-high).
pub fn n64_buttons(state: u8) -> (r: N64Buttons)
    ensures
        r.a == bit8(state, 0),
        r.b == bit8(state, 1),
        r.start == bit8(state, 3),
        r.d_up == bit8(state, 4),
        r.d_down == bit8(state, 5),
        r.d_left == bit8(state, 6),
        r.d_right == bit8(state, 7),
{
    proof {
        lemma_mask_is_bit(state);
    }
    N64Buttons {
        a: (state & 0x01) != 0,
        b: (state & 0x02) != 0,
        start: (state & 0x08) != 0,
        d_up: (state & 0x10) != 0,
        d_down: (state & 0x20) != 0,
        d_left: (state & 0x40) != 0,
        d_right: (state & 0x80) != 0,
    }
}

proof fn lemma_clear_bit8(x: u8, k: u8, i: u8)
    by (bit_vector)
    requires
        k < 8,
        i < 8,
    ensures
        (((x & !(1u8 << k)) >> i) & 1 == 1) == (i != k && (x >> i) & 1 == 1),
{
}

proof fn lemma_clear_bit16(x: u16, k: u16, i: u16)
    by (bit_vector)
    requires
        k < 16,
        i < 16,
    ensures
        (((x & !(1u16 << k)) >> i) & 1 == 1) == (i != k && (x >> i) & 1 == 1),
{
}

proof fn lemma_all_set8(i: u8)
    by (bit_vector)
    requires
        i < 8,
    ensures
        (0xFFu8 >> i) & 1 == 1,
{
}

proof fn lemma_all_set16(i: u16)
    by (bit_vector)
    requires
        i < 16,
    ensures
        (0xFFFFu16 >> i) & 1 == 1,
{
}

/// The Master System port byte for a frontend pad state: bit `i` (for `i < 6`) is
/// cleared when button `sms_source(i)` is pressed; bits 6 and 7 stay set.
pub fn sms_pad(state: u8) -> (r: u8)
    ensures
        forall|i: u8|
            i < 8 ==> #[trigger] bit8(r, i) == (i >= 6 || !bit8(state, sms_source(i as int))),
{
    proof {
        lemma_mask_is_bit(state);
    }
    let mut r: u8 = 0xFF;
    proof {
        assert forall|i: u8| i < 8 implies bit8(r, i) by {
            lemma_all_set8(i);
        }
    }
    let sources: [u8; 6] = [4, 5, 6, 7, 1, 0];
    let mut k: u8 = 0;
    while k < 6
        invariant
            k <= 6,
            sources@ == seq![4u8, 5u8, 6u8, 7u8, 1u8, 0u8],
            forall|i: u8|
                i < 8 ==> #[trigger] bit8(r, i) == (i >= k || !bit8(state, sms_source(i as int))),
        decreases 6 - k,
    {
        let src = sources[k as usize];
        assert(src == sms_source(k as int));
        if (state >> src) & 1 == 1 {
            let old_r = r;
            r = r & !(1u8 << k);
            proof {
                assert forall|i: u8| i < 8 implies #[trigger] bit8(r, i) == (i != k && bit8(
                    old_r,
                    i,
                )) by {
                    lemma_clear_bit8(old_r, k, i);
                }
            }
        }
        k += 1;
    }
    r
}

/// The Mega Drive 3-button pad word for a frontend pad state: bit `i` (for
/// `i < 8`) is cleared when button `megadrive_source(i)` is pressed; the high byte
/// stays set.
pub fn megadrive_pad(state: u8) -> (r: u16)
    ensures
        forall|i: u16|
            i < 16 ==> #[trigger] bit16(r, i) == (i >= 8 || !bit8(
                state,
                megadrive_source(i as int),
            )),
{
    let mut r: u16 = 0xFFFF;
    proof {
        assert forall|i: u16| i < 16 implies bit16(r, i) by {
            lemma_all_set16(i);
        }
    }
    let sources: [u8; 8] = [4, 5, 6, 7, 1, 2, 0, 3];
    let mut k: u16 = 0;
    while k < 8
        invariant
            k <= 8,
            sources@ == seq![4u8, 5u8, 6u8, 7u8, 1u8, 2u8, 0u8, 3u8],
            forall|i: u16|
                i < 16 ==> #[trigger] bit16(r, i) == (i >= k || !bit8(
                    state,
                    megadrive_source(i as int),
                )),
        decreases 8 - k,
    {
        let src = sources[k as usize];
        assert(src == megadrive_source(k as int));
        if (state >> src) & 1 == 1 {
            let old_r = r;
            r = r & !(1u16 << k);
            proof {
                assert forall|i: u16| i < 16 implies #[trigger] bit16(r, i) == (i != k && bit16(
                    old_r,
                    i,
                )) by {
                    lemma_clear_bit16(old_r, k, i);
                }
            }
        }
        k += 1;
    }
    r
}

/// Each joypad bit of the Game Boy, the GBA, the Master System and the Mega Drive
/// is driven by a different frontend button, so no button drives two bits.
pub proof fn lemma_sources_distinct(i: int, j: int)
    requires
        0 <= i < j < 8,
    ensures
        gameboy_source(i) != gameboy_source(j),
        gba_source(i) != gba_source(j),
        j < 6 ==> sms_source(i) != sms_source(j),
        megadrive_source(i) != megadrive_source(j),
        gameboy_source(i) < 8 && gba_source(i) < 8 && megadrive_source(i) < 8 && sms_source(i) < 8,
{
}

} // verus!
