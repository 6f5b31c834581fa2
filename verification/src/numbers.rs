//! Unsigned integers written in text, as command-line values give them.
//!
//! The accepted form is that of Rust's unsigned integer parsing: an optional '+',
//! then one or more digits of the radix (letters in either case for digits above
//! 9), with a value that fits the target type.
use vstd::prelude::*;

use crate::debug_dump::{hex_digit, hex_digits};
use crate::text::{chars_of, decimal, digit_char};

verus! {

/// The value of `c` as a digit of `radix` (at most 36), if it is one.
pub open spec fn digit_value(c: char, radix: nat) -> Option<nat> {
    let code = c as u32 as int;
    let v = if 48 <= code <= 57 {
        code - 48
    } else if 97 <= code <= 122 {
        code - 97 + 10
    } else if 65 <= code <= 90 {
        code - 65 + 10
    } else {
        99
    };
    if v < radix {
        Some(v as nat)
    } else {
        None
    }
}

/// Every character of `s` is a digit of `radix`.
pub open spec fn all_digits(s: Seq<char>, radix: nat) -> bool {
    forall|i: int| 0 <= i < s.len() ==> (#[trigger] digit_value(s[i], radix)) is Some
}

/// The value of the digit string `s` in `radix` (most significant digit first).
pub open spec fn digits_value(s: Seq<char>, radix: nat) -> nat
    decreases s.len(),
{
    if s.len() == 0 {
        0
    } else {
        digits_value(s.drop_last(), radix) * radix + digit_value(s.last(), radix).unwrap_or(0)
    }
}

/// The value that `s` denotes in `radix` if it is an optional '+' and one or more
/// digits and the value is at most `max`.
pub open spec fn parse_unsigned(s: Seq<char>, radix: nat, max: nat) -> Option<nat> {
    let ds = if s.len() > 0 && s[0] == '+' {
        s.drop_first()
    } else {
        s
    };
    if ds.len() == 0 || !all_digits(ds, radix) || digits_value(ds, radix) > max {
        None
    } else {
        Some(digits_value(ds, radix))
    }
}

/// An address: hexadecimal after a "0x" or "0X" prefix, decimal otherwise; it must fit in a u32.
pub open spec fn parse_address(s: Seq<char>) -> Option<nat> {
    if s.len() >= 2 && s[0] == '0' && (s[1] == 'x' || s[1] == 'X') {
        parse_unsigned(s.skip(2), 16, u32::MAX as nat)
    } else {
        parse_unsigned(s, 10, u32::MAX as nat)
    }
}

proof fn lemma_prefix_value_grows(s: Seq<char>, radix: nat, m: int)
    requires
        radix >= 1,
        0 <= m <= s.len(),
    ensures
        digits_value(s.take(m), radix) <= digits_value(s, radix),
    decreases s.len() - m,
{
    if m < s.len() {
        lemma_prefix_value_grows(s, radix, m + 1);
        let t = s.take(m + 1);
        assert(t.drop_last() =~= s.take(m));
        let a = digits_value(s.take(m), radix);
        assert(a <= a * radix) by (nonlinear_arith)
            requires
                radix >= 1,
        ;
    } else {
        assert(s.take(m) =~= s);
    }
}

fn digit_of(c: char, radix: u64) -> (d: Option<u64>)
    requires
        2 <= radix <= 36,
    ensures
        d == match digit_value(c, radix as nat) {
            Some(v) => Some(v as u64),
            None => None,
        },
{
    let code = c as u32;
    let v: u64 = if code >= 48 && code <= 57 {
        (code - 48) as u64
    } else if code >= 97 && code <= 122 {
        (code - 97 + 10) as u64
    } else if code >= 65 && code <= 90 {
        (code - 65 + 10) as u64
    } else {
        99
    };
    if v < radix {
        Some(v)
    } else {
        None
    }
}

/// Parse the characters of `s` from index `start` on as an unsigned number of `radix`.
fn parse_unsigned_from(s: &Vec<char>, start: usize, radix: u64, max: u64) -> (r: Option<u64>)
    requires
        start <= s@.len(),
        2 <= radix <= 36,
        max >= 36,
    ensures
        r == match parse_unsigned(s@.skip(start as int), radix as nat, max as nat) {
            Some(v) => Some(v as u64),
            None => None,
        },
{
    let ghost rest = s@.skip(start as int);
    let mut k = start;
    if k < s.len() && s[k] == '+' {
        k = k + 1;
    }
    let ghost ds = s@.skip(k as int);
    assert(ds =~= if rest.len() > 0 && rest[0] == '+' {
        rest.drop_first()
    } else {
        rest
    });
    if k == s.len() {
        return None;
    }
    let begin = k;
    let mut v: u64 = 0;
    assert(ds.take(0) =~= Seq::<char>::empty());
    while k < s.len()
        invariant
            begin <= k <= s@.len(),
            ds == s@.skip(begin as int),
            rest == s@.skip(start as int),
            ds == if rest.len() > 0 && rest[0] == '+' {
                rest.drop_first()
            } else {
                rest
            },
            ds.len() > 0,
            2 <= radix <= 36,
            max >= 36,
            v <= max,
            v == digits_value(ds.take(k - begin), radix as nat),
            all_digits(ds.take(k - begin), radix as nat),
        decreases s.len() - k,
    {
        let d = match digit_of(s[k], radix) {
            Some(d) => d,
            None => {
                assert(ds[k - begin] == s@[k as int]);
                assert(!all_digits(ds, radix as nat));
                return None;
            },
        };
        let ghost t = ds.take(k - begin + 1);
        assert(t.drop_last() =~= ds.take(k - begin));
        assert(t.last() == s@[k as int]);
        if v > (max - d) / radix {
            assert(v * radix + d > max) by (nonlinear_arith)
                requires
                    v > ((max - d) as u64) / radix,
                    radix >= 2,
                    d <= max,
            ;
            proof {
                if all_digits(ds, radix as nat) {
                    lemma_prefix_value_grows(ds, radix as nat, k - begin + 1);
                    assert(digits_value(t, radix as nat) == v * radix + d);
                }
            }
            return None;
        }
        assert(v * radix + d <= max) by (nonlinear_arith)
            requires
                v <= ((max - d) as u64) / radix,
                radix >= 2,
                d <= max,
        ;
        v = v * radix + d;
        k = k + 1;
        assert forall|i: int| 0 <= i < t.len() implies (#[trigger] digit_value(t[i], radix as nat)) is Some by {
            if i < t.len() - 1 {
                assert(t[i] == ds.take(k - 1 - begin)[i]);
            }
        }
    }
    assert(ds.take(k - begin) =~= ds);
    Some(v)
}

/// Parse `s` as a decimal or "0x"/"0X"-prefixed hexadecimal u32.
pub fn parse_address_exec(s: &str) -> (r: Option<u32>)
    ensures
        r == match parse_address(s@) {
            Some(v) => Some(v as u32),
            None => None,
        },
{
    let chars = chars_of(s);
    let r = if chars.len() >= 2 && chars[0] == '0' && (chars[1] == 'x' || chars[1] == 'X') {
        parse_unsigned_from(&chars, 2, 16, 0xFFFF_FFFF)
    } else {
        assert(chars@.skip(0) =~= chars@);
        parse_unsigned_from(&chars, 0, 10, 0xFFFF_FFFF)
    };
    match r {
        Some(v) => Some(v as u32),
        None => None,
    }
}

/// Parse `s` as a decimal u64.
pub fn parse_u64_exec(s: &str) -> (r: Option<u64>)
    ensures
        r == match parse_unsigned(s@, 10, u64::MAX as nat) {
            Some(v) => Some(v as u64),
            None => None,
        },
{
    let chars = chars_of(s);
    assert(chars@.skip(0) =~= chars@);
    parse_unsigned_from(&chars, 0, 10, 0xFFFF_FFFF_FFFF_FFFF)
}

/// Parse `s` as a decimal usize.
pub fn parse_usize_exec(s: &str) -> (r: Option<usize>)
    ensures
        r == match parse_unsigned(s@, 10, usize::MAX as nat) {
            Some(v) => Some(v as usize),
            None => None,
        },
{
    let chars = chars_of(s);
    assert(chars@.skip(0) =~= chars@);
    let r = parse_unsigned_from(&chars, 0, 10, usize::MAX as u64);
    match r {
        Some(v) => Some(v as usize),
        None => None,
    }
}

proof fn lemma_push_value(s: Seq<char>, c: char, radix: nat)
    ensures
        digits_value(s.push(c), radix) == digits_value(s, radix) * radix + digit_value(
            c,
            radix,
        ).unwrap_or(0),
{
    assert(s.push(c).drop_last() =~= s);
}

proof fn lemma_push_all_digits(s: Seq<char>, c: char, radix: nat)
    requires
        all_digits(s, radix),
        digit_value(c, radix) is Some,
    ensures
        all_digits(s.push(c), radix),
{
    assert forall|i: int| 0 <= i < s.push(c).len() implies (#[trigger] digit_value(
        s.push(c)[i],
        radix,
    )) is Some by {
        if i < s.len() {
            assert(s.push(c)[i] == s[i]);
        }
    }
}

/// The hex digits that the dump writes read back as the number: every character
/// is a hex digit and together they denote `n`.
pub proof fn lemma_hex_digits_value(n: nat)
    ensures
        all_digits(hex_digits(n), 16),
        digits_value(hex_digits(n), 16) == n,
        hex_digits(n).len() >= 1,
    decreases n,
{
    let d = (n % 16) as int;
    assert(digit_value(hex_digit(d), 16) == Some(d as nat)) by {
        if d < 10 {
            assert((hex_digit(d) as u32) == 48 + d);
        } else {
            assert((hex_digit(d) as u32) == 65 + d - 10);
        }
    }
    if n < 16 {
        assert(hex_digits(n) =~= Seq::<char>::empty().push(hex_digit(d)));
        lemma_push_value(Seq::<char>::empty(), hex_digit(d), 16);
        lemma_push_all_digits(Seq::<char>::empty(), hex_digit(d), 16);
    } else {
        lemma_hex_digits_value(n / 16);
        lemma_push_value(hex_digits(n / 16), hex_digit(d), 16);
        lemma_push_all_digits(hex_digits(n / 16), hex_digit(d), 16);
    }
}

/// The decimal digits that the library writes read back as the number.
pub proof fn lemma_decimal_value(n: nat)
    ensures
        all_digits(decimal(n), 10),
        digits_value(decimal(n), 10) == n,
        decimal(n).len() >= 1,
    decreases n,
{
    let d = (n % 10) as int;
    assert(digit_value(digit_char(d), 10) == Some(d as nat));
    if n < 10 {
        assert(decimal(n) =~= Seq::<char>::empty().push(digit_char(d)));
        lemma_push_value(Seq::<char>::empty(), digit_char(d), 10);
        lemma_push_all_digits(Seq::<char>::empty(), digit_char(d), 10);
    } else {
        lemma_decimal_value(n / 10);
        lemma_push_value(decimal(n / 10), digit_char(d), 10);
        lemma_push_all_digits(decimal(n / 10), digit_char(d), 10);
    }
}

/// An address written as "0x" and its hex digits parses back to the address.
pub proof fn lemma_address_roundtrip(n: nat)
    requires
        n <= u32::MAX,
    ensures
        parse_address(seq!['0', 'x'] + hex_digits(n)) == Some(n),
{
    lemma_hex_digits_value(n);
    let s = seq!['0', 'x'] + hex_digits(n);
    assert(s.skip(2) =~= hex_digits(n));
    assert(hex_digits(n)[0] != '+') by {
        assert(digit_value(hex_digits(n)[0], 16) is Some);
    }
}

/// A number written in decimal parses back to the number, for any bound that it
/// does not exceed.
pub proof fn lemma_decimal_roundtrip(n: nat, max: nat)
    requires
        n <= max,
    ensures
        parse_unsigned(decimal(n), 10, max) == Some(n),
{
    lemma_decimal_value(n);
    assert(decimal(n)[0] != '+') by {
        assert(digit_value(decimal(n)[0], 10) is Some);
    }
}

} // verus!
