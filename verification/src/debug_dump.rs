//! Text of the debug dump: hex numbers, memory dump lines, disassembly lines and
//! the register and flag listing.
//!
//! Numbers are written in upper-case hexadecimal, zero-padded to a minimum width
//! (as `{:0N$X}` does), and the memory dump shows 16 bytes per line with an ASCII
//! column.
use vstd::prelude::*;
use vstd::string::*;

use crate::text::{append_decimal, append_repeat, decimal, repeat};

verus! {

/// The upper-case hex digit for `d` (0 to 15).
pub open spec fn hex_digit(d: int) -> char {
    if d < 10 {
        (('0' as u32) + d) as char
    } else {
        (('A' as u32) + d - 10) as char
    }
}

/// The hexadecimal representation of `n`, without leading zeros ("0" for zero).
pub open spec fn hex_digits(n: nat) -> Seq<char>
    decreases n,
{
    if n < 16 {
        seq![hex_digit(n as int)]
    } else {
        hex_digits(n / 16).push(hex_digit((n % 16) as int))
    }
}

/// The hexadecimal representation of `n`, zero-padded to at least `width` digits.
pub open spec fn hex_padded(n: nat, width: int) -> Seq<char> {
    repeat('0', width - hex_digits(n).len()) + hex_digits(n)
}

fn hex_digit_exec(d: u64) -> (c: char)
    requires
        d < 16,
    ensures
        c == hex_digit(d as int),
{
    if d == 0 {
        '0'
    } else if d == 1 {
        '1'
    } else if d == 2 {
        '2'
    } else if d == 3 {
        '3'
    } else if d == 4 {
        '4'
    } else if d == 5 {
        '5'
    } else if d == 6 {
        '6'
    } else if d == 7 {
        '7'
    } else if d == 8 {
        '8'
    } else if d == 9 {
        '9'
    } else if d == 10 {
        'A'
    } else if d == 11 {
        'B'
    } else if d == 12 {
        'C'
    } else if d == 13 {
        'D'
    } else if d == 14 {
        'E'
    } else {
        'F'
    }
}

/// Append the hexadecimal digits of `n` to `s`.
fn append_hex_digits(s: &mut String, n: u64)
    ensures
        final(s)@ == old(s)@ + hex_digits(n as nat),
    decreases n,
{
    if n >= 16 {
        append_hex_digits(s, n / 16);
    }
    s.push(hex_digit_exec(n % 16));
    assert(s@ =~= old(s)@ + hex_digits(n as nat));
}

/// Append `n` in hexadecimal, zero-padded to at least `width` digits.
pub fn append_hex_padded(s: &mut String, n: u64, width: usize)
    ensures
        final(s)@ == old(s)@ + hex_padded(n as nat, width as int),
{
    let mut digits = String::new();
    append_hex_digits(&mut digits, n);
    let len = digits.as_str().unicode_len();
    assert(digits@ =~= hex_digits(n as nat));
    if len < width {
        append_repeat(s, '0', width - len);
    } else {
        assert(repeat('0', width - hex_digits(n as nat).len()) =~= Seq::<char>::empty());
    }
    s.append(digits.as_str());
    assert(s@ =~= old(s)@ + hex_padded(n as nat, width as int));
}

/// The character shown for `b` in the ASCII column: printable ASCII as itself,
/// anything else as '.'.
pub open spec fn printable(b: u8) -> char {
    if 32 <= b < 127 {
        b as char
    } else {
        '.'
    }
}

/// The hex cell of byte `i` (of 16) in a dump line: two digits and a space, or
/// three spaces past the end of the chunk; one more space after the eighth.
pub open spec fn byte_cell(chunk: Seq<u8>, i: int) -> Seq<char> {
    let cell = if i < chunk.len() {
        hex_padded(chunk[i] as nat, 2).push(' ')
    } else {
        seq![' ', ' ', ' ']
    };
    if i == 7 {
        cell.push(' ')
    } else {
        cell
    }
}

/// The first `n` hex cells of a dump line.
pub open spec fn byte_cells(chunk: Seq<u8>, n: int) -> Seq<char>
    decreases n,
{
    if n <= 0 {
        Seq::empty()
    } else {
        byte_cells(chunk, n - 1) + byte_cell(chunk, n - 1)
    }
}

/// The ASCII column of a dump line.
pub open spec fn ascii_column(chunk: Seq<u8>) -> Seq<char> {
    Seq::new(chunk.len(), |i: int| printable(chunk[i]))
}

/// One line of the memory dump: the address, the 16 hex cells and the ASCII
/// column between bars.
pub open spec fn hex_dump_line_spec(addr: u32, chunk: Seq<u8>) -> Seq<char> {
    hex_padded(addr as nat, 4) + seq![':', ' ', ' '] + byte_cells(chunk, 16) + seq![' ', '|']
        + ascii_column(chunk) + seq!['|']
}

/// The memory dump line for the (at most 16) bytes `chunk` at address `addr`.
pub fn hex_dump_line(addr: u32, chunk: &[u8]) -> (line: String)
    requires
        chunk@.len() <= 16,
    ensures
        line@ == hex_dump_line_spec(addr, chunk@),
{
    let mut s = String::new();
    append_hex_padded(&mut s, addr as u64, 4);
    s.push(':');
    s.push(' ');
    s.push(' ');
    let ghost head = s@;
    let mut i: usize = 0;
    while i < 16
        invariant
            i <= 16,
            chunk@.len() <= 16,
            s@ == head + byte_cells(chunk@, i as int),
        decreases 16 - i,
    {
        let ghost before = s@;
        if i < chunk.len() {
            append_hex_padded(&mut s, chunk[i] as u64, 2);
            s.push(' ');
        } else {
            s.push(' ');
            s.push(' ');
            s.push(' ');
        }
        if i == 7 {
            s.push(' ');
        }
        assert(s@ =~= before + byte_cell(chunk@, i as int));
        i += 1;
        assert(s@ =~= head + byte_cells(chunk@, i as int));
    }
    s.push(' ');
    s.push('|');
    let ghost mid = s@;
    let mut j: usize = 0;
    while j < chunk.len()
        invariant
            j <= chunk@.len(),
            s@ == mid + ascii_column(chunk@).take(j as int),
        decreases chunk@.len() - j,
    {
        let b = chunk[j];
        let c: char = if b >= 32 && b < 127 {
            b as char
        } else {
            '.'
        };
        s.push(c);
        j += 1;
        assert(s@ =~= mid + ascii_column(chunk@).take(j as int));
    }
    s.push('|');
    assert(ascii_column(chunk@).take(chunk@.len() as int) =~= ascii_column(chunk@));
    assert(s@ =~= hex_dump_line_spec(addr, chunk@));
    s
}

/// The number of dump lines for `n` bytes: one per started group of 16.
pub open spec fn dump_line_count(n: int) -> int {
    (n + 15) / 16
}

/// The bytes shown on dump line `k`.
pub open spec fn dump_chunk(data: Seq<u8>, k: int) -> Seq<u8> {
    data.subrange(16 * k, if 16 * k + 16 <= data.len() {
        16 * k + 16
    } else {
        data.len() as int
    })
}

/// The memory dump of `data` read from address `start`, 16 bytes per line.
///
/// The address of the last line must fit in 32 bits.
pub fn memory_dump_lines(start: u32, data: &[u8]) -> (lines: Vec<String>)
    requires
        data@.len() == 0 || start + 16 * ((data@.len() - 1) / 16) <= u32::MAX,
    ensures
        lines@.len() == dump_line_count(data@.len() as int),
        forall|k: int|
            0 <= k < lines@.len() ==> #[trigger] lines@[k]@ == hex_dump_line_spec(
                (start + 16 * k) as u32,
                dump_chunk(data@, k),
            ),
{
    let mut lines: Vec<String> = Vec::new();
    let mut offset: usize = 0;
    while offset < data.len()
        invariant
            offset == (if 16 * lines@.len() < data@.len() {
                16 * lines@.len() as int
            } else {
                data@.len() as int
            }),
            lines@.len() == 0 || 16 * (lines@.len() - 1) < data@.len(),
            data@.len() == 0 || start + 16 * ((data@.len() - 1) / 16) <= u32::MAX,
            forall|k: int|
                0 <= k < lines@.len() ==> #[trigger] lines@[k]@ == hex_dump_line_spec(
                    (start + 16 * k) as u32,
                    dump_chunk(data@, k),
                ),
        decreases data@.len() - offset,
    {
        let end = if data.len() - offset >= 16 {
            offset + 16
        } else {
            data.len()
        };
        let chunk = slice_range(data, offset, end);
        let ghost k = lines@.len() as int;
        assert(chunk@ =~= dump_chunk(data@, k));
        assert(16 * k <= 16 * ((data@.len() - 1) / 16)) by (nonlinear_arith)
            requires
                16 * k < data@.len(),
        ;
        let addr: u32 = start + offset as u32;
        let line = hex_dump_line(addr, chunk);
        lines.push(line);
        offset = end;
    }
    lines
}

/// The bytes `data[from..to]`.
fn slice_range(data: &[u8], from: usize, to: usize) -> (r: &[u8])
    requires
        from <= to <= data@.len(),
    ensures
        r@ == data@.subrange(from as int, to as int),
{
    vstd::slice::slice_subrange(data, from, to)
}

/// How a memory region may be accessed: "R/W", "R", "W" or "-".
pub open spec fn access_text(readable: bool, writable: bool) -> Seq<char> {
    if readable && writable {
        seq!['R', '/', 'W']
    } else if readable {
        seq!['R']
    } else if writable {
        seq!['W']
    } else {
        seq!['-']
    }
}

/// How a memory region may be accessed: "R/W", "R", "W" or "-".
pub fn access_label(readable: bool, writable: bool) -> (r: &'static str)
    ensures
        r@ == access_text(readable, writable),
{
    proof {
        reveal_strlit("R/W");
        reveal_strlit("R");
        reveal_strlit("W");
        reveal_strlit("-");
    }
    if readable && writable {
        "R/W"
    } else if readable {
        "R"
    } else if writable {
        "W"
    } else {
        "-"
    }
}

/// The bytes of an instruction as two-digit hex numbers separated by spaces.
pub open spec fn joined_hex(bytes: Seq<u8>) -> Seq<char>
    decreases bytes.len(),
{
    if bytes.len() == 0 {
        Seq::empty()
    } else if bytes.len() == 1 {
        hex_padded(bytes[0] as nat, 2)
    } else {
        joined_hex(bytes.drop_last()).push(' ') + hex_padded(bytes.last() as nat, 2)
    }
}

/// `s` padded with spaces on the right to at least `width` characters.
pub open spec fn pad_right(s: Seq<char>, width: int) -> Seq<char> {
    s + repeat(' ', width - s.len())
}

/// One disassembly line: a marker ('▶' at the program counter), the address, the
/// instruction bytes in a 12-wide column, the mnemonic and the comment after " ; ".
pub open spec fn disassembly_line_spec(
    at_pc: bool,
    address: u32,
    bytes: Seq<u8>,
    mnemonic: Seq<char>,
    comment: Option<Seq<char>>,
) -> Seq<char> {
    seq![
        if at_pc {
            '\u{25B6}'
        } else {
            ' '
        },
        ' ',
    ] + hex_padded(address as nat, 4) + seq![' ', ' '] + pad_right(joined_hex(bytes), 12) + seq![
        ' ',
        ' ',
    ] + mnemonic + match comment {
        Some(c) => seq![' ', ';', ' '] + c,
        None => Seq::empty(),
    }
}

/// The disassembly line of the instruction at `address`.
#[verifier::spinoff_prover]
#[verifier::rlimit(40)]
pub fn disassembly_line(
    at_pc: bool,
    address: u32,
    bytes: &[u8],
    mnemonic: &str,
    comment: Option<&str>,
) -> (line: String)
    ensures
        line@ == disassembly_line_spec(
            at_pc,
            address,
            bytes@,
            mnemonic@,
            match comment {
                Some(c) => Some(c@),
                None => None,
            },
        ),
{
    let mut s = String::new();
    s.push(if at_pc {
        '\u{25B6}'
    } else {
        ' '
    });
    s.push(' ');
    append_hex_padded(&mut s, address as u64, 4);
    s.push(' ');
    s.push(' ');
    let ghost head = s@;
    let mut hex = String::new();
    let mut i: usize = 0;
    while i < bytes.len()
        invariant
            i <= bytes@.len(),
            hex@ == joined_hex(bytes@.take(i as int)),
        decreases bytes@.len() - i,
    {
        let ghost before = hex@;
        if i > 0 {
            hex.push(' ');
        }
        append_hex_padded(&mut hex, bytes[i] as u64, 2);
        proof {
            let t = bytes@.take(i + 1);
            assert(t.drop_last() =~= bytes@.take(i as int));
            assert(t.last() == bytes@[i as int]);
            if i == 0 {
                assert(before =~= Seq::<char>::empty());
            }
        }
        i += 1;
        assert(hex@ =~= joined_hex(bytes@.take(i as int)));
    }
    assert(bytes@.take(bytes@.len() as int) =~= bytes@);
    let hex_len = hex.as_str().unicode_len();
    s.append(hex.as_str());
    if hex_len < 12 {
        append_repeat(&mut s, ' ', 12 - hex_len);
    } else {
        assert(repeat(' ', 12 - hex@.len()) =~= Seq::<char>::empty());
    }
    s.push(' ');
    s.push(' ');
    s.append(mnemonic);
    match comment {
        Some(c) => {
            s.push(' ');
            s.push(';');
            s.push(' ');
            s.append(c);
        },
        None => {},
    }
    let ghost cv = match comment {
        Some(c) => Some(c@),
        None => None::<Seq<char>>,
    };
    assert(s@ =~= disassembly_line_spec(at_pc, address, bytes@, mnemonic@, cv));
    s
}

/// A register line: its name and its value in hex, zero-padded to one digit per
/// four bits of the register.
pub open spec fn register_line_spec(name: Seq<char>, value: u64, width_bits: u32) -> Seq<char> {
    seq![' ', ' '] + name + seq![' ', '=', ' ', '$'] + hex_padded(value as nat, (width_bits / 4) as int)
}

/// The dump line of a register.
pub fn register_line(name: &str, value: u64, width_bits: u32) -> (line: String)
    ensures
        line@ == register_line_spec(name@, value, width_bits),
{
    let mut s = String::new();
    s.push(' ');
    s.push(' ');
    s.append(name);
    s.push(' ');
    s.push('=');
    s.push(' ');
    s.push('$');
    append_hex_padded(&mut s, value, (width_bits / 4) as usize);
    assert(s@ =~= register_line_spec(name@, value, width_bits));
    s
}

/// A flag line: its name and 1 or 0.
pub open spec fn flag_line_spec(name: Seq<char>, set: bool) -> Seq<char> {
    seq![' ', ' '] + name + seq![' ', '=', ' ', if set {
        '1'
    } else {
        '0'
    }]
}

/// The dump line of a flag.
pub fn flag_line(name: &str, set: bool) -> (line: String)
    ensures
        line@ == flag_line_spec(name@, set),
{
    let mut s = String::new();
    s.push(' ');
    s.push(' ');
    s.append(name);
    s.push(' ');
    s.push('=');
    s.push(' ');
    s.push(if set {
        '1'
    } else {
        '0'
    });
    assert(s@ =~= flag_line_spec(name@, set));
    s
}

/// The heading of a memory region: its name, its bounds and its size.
pub open spec fn region_heading_spec(name: Seq<char>, start: u32, end: u32, size: u64) -> Seq<
    char,
> {
    seq!['-', '-', '-', ' '] + name + seq![' ', '(', '$'] + hex_padded(start as nat, 4) + seq![
        '-',
        '$',
    ] + hex_padded(end as nat, 4) + seq![',', ' '] + decimal(size as nat) + seq![
        ' ',
        'b',
        'y',
        't',
        'e',
        's',
        ')',
        ' ',
        '-',
        '-',
        '-',
    ]
}

/// The heading line of a memory region in the dump.
pub fn region_heading(name: &str, start: u32, end: u32, size: usize) -> (line: String)
    ensures
        line@ == region_heading_spec(name@, start, end, size as u64),
{
    let mut s = String::new();
    s.push('-');
    s.push('-');
    s.push('-');
    s.push(' ');
    s.append(name);
    s.push(' ');
    s.push('(');
    s.push('$');
    append_hex_padded(&mut s, start as u64, 4);
    s.push('-');
    s.push('$');
    append_hex_padded(&mut s, end as u64, 4);
    s.push(',');
    s.push(' ');
    append_decimal(&mut s, size);
    let tail = " bytes) ---";
    proof {
        reveal_strlit(" bytes) ---");
    }
    s.append(tail);
    assert(s@ =~= region_heading_spec(name@, start, end, size as u64));
    s
}

proof fn lemma_byte_cells_len(chunk: Seq<u8>, n: int)
    requires
        0 <= n <= 16,
        chunk.len() <= 16,
    ensures
        byte_cells(chunk, n).len() == 3 * n + (if n > 7 {
            1int
        } else {
            0
        }),
    decreases n,
{
    if n > 0 {
        lemma_byte_cells_len(chunk, n - 1);
        if n - 1 < chunk.len() {
            lemma_hex_padded_len(chunk[n - 1] as nat, 2);
            assert(hex_digits(chunk[n - 1] as nat).len() <= 2) by {
                lemma_hex_digits_short(chunk[n - 1] as nat);
            }
        }
    }
}

proof fn lemma_hex_digits_short(n: nat)
    requires
        n < 256,
    ensures
        hex_digits(n).len() <= 2,
{
    if n >= 16 {
        assert(hex_digits(n / 16).len() == 1);
    }
}

/// A hex number takes its digits, padded with zeros to the width.
pub proof fn lemma_hex_padded_len(n: nat, width: int)
    ensures
        hex_padded(n, width).len() == if hex_digits(n).len() < width {
            width
        } else {
            hex_digits(n).len() as int
        },
{
}

/// Every line of the memory dump has its hex cells in a 49-character column,
/// however many bytes it shows, so the ASCII column lines up from line to line.
pub proof fn lemma_dump_columns_aligned(chunk: Seq<u8>)
    requires
        chunk.len() <= 16,
    ensures
        byte_cells(chunk, 16).len() == 49,
        ascii_column(chunk).len() == chunk.len(),
{
    lemma_byte_cells_len(chunk, 16);
}

} // verus!
