//! Status bar at the bottom of the window: a flat background, the state
//! indicators on the left, the status message in the middle and the runtime
//! statistics on the right.
use vstd::prelude::*;
use vstd::string::*;

use crate::debug_dump::{append_hex_padded, hex_padded};
use crate::text::{append_decimal_u64, decimal, sat_sub};
use crate::ui_render::{draw_text, draw_text_spec, lemma_draw_text_local};

verus! {

/// Height of the status bar in pixels.
pub const STATUS_BAR_HEIGHT: usize = 20;

/// The number of hex digits shown for an instruction pointer: 4 for 16-bit, 6 for
/// 24-bit and 8 for 32-bit addresses.
pub open spec fn ip_digits(ip: u32) -> int {
    if ip > 0xFFFFFF {
        8
    } else if ip > 0xFFFF {
        6
    } else {
        4
    }
}

/// The instruction pointer as shown: '$' and its hex digits.
pub open spec fn ip_text_spec(ip: u32) -> Seq<char> {
    seq!['$'] + hex_padded(ip as nat, ip_digits(ip))
}

/// The instruction pointer as the status bar shows it.
pub fn ip_text(ip: u32) -> (s: String)
    ensures
        s@ == ip_text_spec(ip),
{
    let digits: usize = if ip > 0xFFFFFF {
        8
    } else if ip > 0xFFFF {
        6
    } else {
        4
    };
    let mut s = String::new();
    s.push('$');
    append_hex_padded(&mut s, ip as u64, digits);
    assert(s@ =~= ip_text_spec(ip));
    s
}

/// The cycle count as shown: whole millions with 'M', whole thousands with 'K',
/// else the count itself.
pub open spec fn cycles_text_spec(cycles: u64) -> Seq<char> {
    if cycles >= 1_000_000 {
        decimal((cycles / 1_000_000) as nat).push('M')
    } else if cycles >= 1_000 {
        decimal((cycles / 1_000) as nat).push('K')
    } else {
        decimal(cycles as nat)
    }
}

/// The cycle count as the status bar shows it.
pub fn cycles_text(cycles: u64) -> (s: String)
    ensures
        s@ == cycles_text_spec(cycles),
{
    let mut s = String::new();
    if cycles >= 1_000_000 {
        append_decimal_u64(&mut s, cycles / 1_000_000);
        s.push('M');
    } else if cycles >= 1_000 {
        append_decimal_u64(&mut s, cycles / 1_000);
        s.push('K');
    } else {
        append_decimal_u64(&mut s, cycles);
    }
    s
}

/// The parts joined with `sep` between each two.
pub open spec fn joined(parts: Seq<Seq<char>>, sep: Seq<char>) -> Seq<char>
    decreases parts.len(),
{
    if parts.len() == 0 {
        Seq::empty()
    } else if parts.len() == 1 {
        parts[0]
    } else {
        joined(parts.drop_last(), sep) + sep + parts.last()
    }
}

/// Join the parts with `sep` between each two.
pub fn join_parts(parts: &[String], sep: &str) -> (s: String)
    ensures
        s@ == joined(parts@.map_values(|p: String| p@), sep@),
{
    let ghost views = parts@.map_values(|p: String| p@);
    let mut s = String::new();
    let mut i: usize = 0;
    while i < parts.len()
        invariant
            i <= parts@.len(),
            views == parts@.map_values(|p: String| p@),
            s@ == joined(views.take(i as int), sep@),
        decreases parts@.len() - i,
    {
        if i > 0 {
            s.append(sep);
        }
        s.append(parts[i].as_str());
        proof {
            let t = views.take(i + 1);
            assert(t.drop_last() =~= views.take(i as int));
            assert(t.last() == parts@[i as int]@);
            if i == 0 {
                assert(views.take(0) =~= Seq::<Seq<char>>::empty());
            }
        }
        i += 1;
        assert(s@ =~= joined(views.take(i as int), sep@));
    }
    assert(views.take(parts@.len() as int) =~= views);
    s
}

/// The width in pixels that text takes: 8 per byte of its UTF-8 form.
pub open spec fn text_width(t: Seq<char>) -> int {
    8 * vstd::utf8::encode_utf8(t).len() as int
}

/// The status bar drawn at the bottom of the screen: nothing where the screen is
/// lower than the bar; else the background over the bottom 20 rows, the left
/// indicators from x = 8, the message centred, and the right-hand statistics
/// ending 8 pixels before the right edge.
pub open spec fn status_bar_spec(
    buf: Seq<u32>,
    width: int,
    height: int,
    left: Option<Seq<char>>,
    message: Seq<char>,
    right: Option<Seq<char>>,
) -> Seq<u32> {
    if height < 20 {
        buf
    } else {
        let y = height - 20;
        let b1 = Seq::new(
            buf.len(),
            |p: int|
                if y * width <= p < height * width {
                    0xFF1E1E2Eu32
                } else {
                    buf[p]
                },
        );
        let b2 = match left {
            Some(l) => draw_text_spec(b1, width, height, l, 8, y + 6, 0xFFFABD2F),
            None => b1,
        };
        let b3 = if message.len() > 0 {
            draw_text_spec(
                b2,
                width,
                height,
                message,
                sat_sub(width, text_width(message)) / 2,
                y + 6,
                0xFF8EC07C,
            )
        } else {
            b2
        };
        match right {
            Some(r) => draw_text_spec(
                b3,
                width,
                height,
                r,
                sat_sub(width, text_width(r) + 8),
                y + 6,
                0xFFABABAB,
            ),
            None => b3,
        }
    }
}

/// Screens and texts for which the bar can be drawn without arithmetic overflow
/// (a screen lower than the bar is left alone, whatever its size).
pub open spec fn status_bar_drawable(
    width: int,
    height: int,
    message: Seq<char>,
    right: Option<Seq<char>>,
) -> bool {
    height >= 20 ==> {
        &&& width * height <= usize::MAX
        &&& width <= usize::MAX - 8
        &&& height <= usize::MAX - 8
        &&& text_width(message) <= usize::MAX
        &&& match right {
            Some(r) => text_width(r) + 8 <= usize::MAX,
            None => true,
        }
    }
}

/// Render the status bar at the bottom of the buffer and return its height (0
/// where the screen is too low for it). `left` is the state indicator text, if
/// any; `right_parts` are the runtime statistics, shown joined by " · ".
pub fn render_status_bar(
    buffer: &mut [u32],
    width: usize,
    height: usize,
    left: Option<&str>,
    message: &str,
    right_parts: &[String],
) -> (h: usize)
    requires
        status_bar_drawable(
            width as int,
            height as int,
            message@,
            if right_parts@.len() > 0 {
                Some(joined(right_parts@.map_values(|p: String| p@), " \u{b7} "@))
            } else {
                None
            },
        ),
    ensures
        h == if height < 20 {
            0usize
        } else {
            20usize
        },
        final(buffer)@ == status_bar_spec(
            old(buffer)@,
            width as int,
            height as int,
            match left {
                Some(l) => Some(l@),
                None => None,
            },
            message@,
            if right_parts@.len() > 0 {
                Some(joined(right_parts@.map_values(|p: String| p@), " \u{b7} "@))
            } else {
                None
            },
        ),
{
    if height < STATUS_BAR_HEIGHT {
        return 0;
    }
    let bar_y = height - STATUS_BAR_HEIGHT;
    let ghost b0 = buffer@;
    assert(bar_y * width <= width * height) by (nonlinear_arith)
        requires
            bar_y <= height,
    ;
    assert(height * width == width * height) by (nonlinear_arith);
    let start: usize = bar_y * width;
    let end: usize = if width * height < buffer.len() {
        width * height
    } else {
        buffer.len()
    };
    let mut p: usize = start;
    while p < end
        invariant
            start <= p,
            p <= end || p == start,
            end <= b0.len(),
            start == bar_y * width,
            end == (if width * height < b0.len() {
                width * height
            } else {
                b0.len() as int
            }),
            buffer@.len() == b0.len(),
            forall|q: int|
                0 <= q < b0.len() ==> #[trigger] buffer@[q] == if start <= q < p {
                    0xFF1E1E2Eu32
                } else {
                    b0[q]
                },
        decreases end - p,
    {
        buffer[p] = 0xFF1E1E2E;
        p += 1;
    }
    let ghost y = bar_y as int;
    assert(buffer@ =~= Seq::new(
        b0.len(),
        |q: int|
            if y * width <= q < height * width {
                0xFF1E1E2Eu32
            } else {
                b0[q]
            },
    ));
    match left {
        Some(l) => {
            draw_text(buffer, width, height, l, 8, bar_y + 6, 0xFFFABD2F);
        },
        None => {},
    }
    if !message.is_empty() {
        let msg_width = message.len() * 8;
        let msg_x = if width >= msg_width {
            width - msg_width
        } else {
            0
        } / 2;
        draw_text(buffer, width, height, message, msg_x, bar_y + 6, 0xFF8EC07C);
    }
    if right_parts.len() > 0 {
        let right_text = join_parts(right_parts, " \u{b7} ");
        let right_width = right_text.as_str().len() * 8;
        let right_x = if width >= right_width + 8 {
            width - (right_width + 8)
        } else {
            0
        };
        draw_text(buffer, width, height, right_text.as_str(), right_x, bar_y + 6, 0xFFABABAB);
    }
    STATUS_BAR_HEIGHT
}

/// A screen lower than the bar is left as it is; otherwise the bar keeps the
/// buffer's length and changes no pixel above its 20 rows or past the screen.
pub proof fn lemma_status_bar_stays_in_bar(
    buf: Seq<u32>,
    width: int,
    height: int,
    left: Option<Seq<char>>,
    message: Seq<char>,
    right: Option<Seq<char>>,
    p: int,
)
    requires
        width >= 0,
        0 <= p < buf.len(),
    ensures
        height < 20 ==> status_bar_spec(buf, width, height, left, message, right) == buf,
        height >= 20 ==> status_bar_spec(buf, width, height, left, message, right).len()
            == buf.len(),
        height >= 20 && (p < (height - 20) * width || p >= height * width) ==> status_bar_spec(
            buf,
            width,
            height,
            left,
            message,
            right,
        )[p] == buf[p],
{
    if height >= 20 {
        let y = height - 20;
        let b1 = Seq::new(
            buf.len(),
            |q: int|
                if y * width <= q < height * width {
                    0xFF1E1E2Eu32
                } else {
                    buf[q]
                },
        );
        let b2 = match left {
            Some(l) => draw_text_spec(b1, width, height, l, 8, y + 6, 0xFFFABD2F),
            None => b1,
        };
        let mx = sat_sub(width, text_width(message)) / 2;
        let b3 = if message.len() > 0 {
            draw_text_spec(b2, width, height, message, mx, y + 6, 0xFF8EC07C)
        } else {
            b2
        };
        let rx = match right {
            Some(r) => sat_sub(width, text_width(r) + 8),
            None => 0,
        };
        if let Some(l) = left {
            lemma_draw_text_local(b1, width, height, l, 8, y + 6, 0xFFFABD2F, p);
        }
        if message.len() > 0 {
            lemma_draw_text_local(b2, width, height, message, mx, y + 6, 0xFF8EC07C, p);
        }
        if let Some(r) = right {
            lemma_draw_text_local(b3, width, height, r, rx, y + 6, 0xFFABABAB, p);
        }
        if width > 0 {
            if p < y * width {
                assert(p / width < y) by (nonlinear_arith)
                    requires
                        0 <= p < y * width,
                        width > 0,
                ;
            }
            if p >= height * width {
                assert(p / width >= height) by (nonlinear_arith)
                    requires
                        p >= height * width,
                        width > 0,
                ;
            }
        }
    }
}

} // verus!
