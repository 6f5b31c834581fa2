//! Screenshots: the pixel conversion for the PNG encoder and the file name.
//!
//! A screenshot is stored as `screenshots/<system>/YYYYMMDDHHMMSSRRR.png`, where
//! RRR is a random number from 000 to 999.
use vstd::prelude::*;
use vstd::string::*;

use crate::local_time::{local_now, local_time_valid, timestamp_of, timestamp_text, LocalTime};
use crate::text::{append_decimal, append_repeat, decimal, repeat};

verus! {

#[verifier::external_type_specification]
#[verifier::external_body]
pub struct ExEncodingError(png::EncodingError);

/// The red, green and blue bytes of a 0x00RRGGBB pixel.
pub open spec fn red(p: u32) -> u8 {
    ((p >> 16) & 0xFF) as u8
}

/// The green byte of a pixel.
pub open spec fn green(p: u32) -> u8 {
    ((p >> 8) & 0xFF) as u8
}

/// The blue byte of a pixel.
pub open spec fn blue(p: u32) -> u8 {
    (p & 0xFF) as u8
}

/// Byte `k` (0: red, 1: green, 2: blue) of a pixel.
pub open spec fn pixel_byte(p: u32, k: int) -> u8 {
    if k == 0 {
        red(p)
    } else if k == 1 {
        green(p)
    } else {
        blue(p)
    }
}

/// The RGB bytes of the pixels, three per pixel, in order.
pub open spec fn rgb_of(buffer: Seq<u32>) -> Seq<u8> {
    Seq::new(3 * buffer.len(), |i: int| pixel_byte(buffer[i / 3], i % 3))
}

/// The RGB bytes of the pixels, three per pixel, in order.
pub fn rgb_bytes(buffer: &[u32]) -> (rgb: Vec<u8>)
    requires
        3 * buffer@.len() <= usize::MAX,
    ensures
        rgb@ == rgb_of(buffer@),
        rgb@.len() == 3 * buffer@.len(),
        forall|i: int|
            0 <= i < buffer@.len() ==> {
                &&& #[trigger] rgb@[3 * i] == red(buffer@[i])
                &&& rgb@[3 * i + 1] == green(buffer@[i])
                &&& rgb@[3 * i + 2] == blue(buffer@[i])
            },
{
    let mut rgb: Vec<u8> = Vec::with_capacity(buffer.len() * 3);
    let mut k: usize = 0;
    while k < buffer.len()
        invariant
            k <= buffer@.len(),
            3 * buffer@.len() <= usize::MAX,
            rgb@.len() == 3 * k,
            forall|i: int|
                0 <= i < k ==> {
                    &&& #[trigger] rgb@[3 * i] == red(buffer@[i])
                    &&& rgb@[3 * i + 1] == green(buffer@[i])
                    &&& rgb@[3 * i + 2] == blue(buffer@[i])
                },
        decreases buffer@.len() - k,
    {
        let pixel = buffer[k];
        assert((pixel >> 16u32) & 0xFF <= 0xFF) by (bit_vector);
        assert((pixel >> 8u32) & 0xFF <= 0xFF) by (bit_vector);
        assert(pixel & 0xFF <= 0xFF) by (bit_vector);
        let ghost before = rgb@;
        let r = ((pixel >> 16) & 0xFF) as u8;
        let g = ((pixel >> 8) & 0xFF) as u8;
        let b = (pixel & 0xFF) as u8;
        rgb.push(r);
        rgb.push(g);
        rgb.push(b);
        assert forall|i: int| 0 <= i < k + 1 implies {
            &&& #[trigger] rgb@[3 * i] == red(buffer@[i])
            &&& rgb@[3 * i + 1] == green(buffer@[i])
            &&& rgb@[3 * i + 2] == blue(buffer@[i])
        } by {
            if i < k {
                assert(rgb@[3 * i] == before[3 * i]);
                assert(rgb@[3 * i + 1] == before[3 * i + 1]);
                assert(rgb@[3 * i + 2] == before[3 * i + 2]);
            }
        }
        k += 1;
    }
    assert forall|i: int| 0 <= i < rgb@.len() implies rgb@[i] == rgb_of(buffer@)[i] by {
        let q = i / 3;
        let r = i % 3;
        assert(i == 3 * q + r && 0 <= r < 3) by (nonlinear_arith)
            requires
                0 <= i,
                q == i / 3,
                r == i % 3,
        ;
        assert(0 <= q < buffer@.len()) by (nonlinear_arith)
            requires
                i == 3 * q + r,
                0 <= r < 3,
                i < 3 * buffer@.len(),
                0 <= i,
        ;
        assert(rgb@[3 * q] == red(buffer@[q]));
    }
    assert(rgb@ =~= rgb_of(buffer@));
    rgb
}

/// The PNG file (8-bit RGB, no palette) of an image of the given size with the
/// given RGB bytes, row by row.
pub uninterp spec fn png_rgb8(width: u32, height: u32, rgb: Seq<u8>) -> Seq<u8>;

/// Encodes an 8-bit RGB image with `png::Encoder` (colour type `Rgb`, bit depth
/// `Eight`) into memory: `write_header`, `write_image_data`, `finish`. Claimed: a
/// success gives the PNG file of the arguments; the encoder refuses exactly a
/// zero width or height and image data whose length is not three bytes per pixel
/// (writing into a `Vec` cannot fail). The encoder computes the row length and
/// the image size without overflow checks, hence the bounds.
#[verifier::external_body]
fn encode_png_rgb8(width: u32, height: u32, rgb: &[u8]) -> (r: Result<Vec<u8>, png::EncodingError>)
    requires
        3 * width + 1 <= usize::MAX,
        3 * width * height <= usize::MAX,
    ensures
        r matches Ok(v) ==> v@ == png_rgb8(width, height, rgb@),
        r is Ok <==> (width > 0 && height > 0 && rgb@.len() == 3 * width * height),
{
    let mut out: Vec<u8> = Vec::new();
    let mut encoder = png::Encoder::new(&mut out, width, height);
    encoder.set_color(png::ColorType::Rgb);
    encoder.set_depth(png::BitDepth::Eight);
    let mut writer = encoder.write_header()?;
    writer.write_image_data(rgb)?;
    writer.finish()?;
    Ok(out)
}

/// Why a screenshot could not be encoded.
#[derive(Debug)]
pub enum ScreenshotError {
    /// The PNG encoder refused the image.
    Encoding(png::EncodingError),
}

/// The PNG file of a frame of `width` by `height` pixels (0x00RRGGBB), as the
/// screenshot stores it. The sizes are given to the encoder as 32-bit numbers;
/// the encoder refuses an empty image and a buffer that is not the frame's size,
/// and encodes every other frame.
pub fn screenshot_png(buffer: &[u32], width: usize, height: usize) -> (r: Result<
    Vec<u8>,
    ScreenshotError,
>)
    requires
        3 * buffer@.len() <= usize::MAX,
        3 * (width as u32) + 1 <= usize::MAX,
        3 * (width as u32) * (height as u32) <= usize::MAX,
    ensures
        r matches Ok(v) ==> v@ == png_rgb8(width as u32, height as u32, rgb_of(buffer@)),
        r is Ok <==> (width as u32 > 0 && height as u32 > 0 && buffer@.len() == (width as u32) * (
        height as u32)),
{
    let rgb = rgb_bytes(buffer);
    #[verifier::truncate]
    let w = width as u32;
    #[verifier::truncate]
    let h = height as u32;
    assert(3 * w * h == 3 * (w * h)) by (nonlinear_arith);
    match encode_png_rgb8(w, h, rgb.as_slice()) {
        Ok(v) => Ok(v),
        Err(e) => Err(ScreenshotError::Encoding(e)),
    }
}

/// `n` in decimal, zero-padded to at least three digits (as `{:03}` writes it).
pub open spec fn three_digits(n: nat) -> Seq<char> {
    repeat('0', 3 - decimal(n).len()) + decimal(n)
}

/// The screenshot file name for a timestamp and a random number.
pub open spec fn screenshot_name(stamp: Seq<char>, random: u32) -> Seq<char> {
    stamp + three_digits(random as nat) + seq!['.', 'p', 'n', 'g']
}

/// The file name of a screenshot taken at `stamp` (YYYYMMDDHHMMSS) with the
/// random suffix `random`.
pub fn screenshot_file_name(stamp: &str, random: u32) -> (name: String)
    ensures
        name@ == screenshot_name(stamp@, random),
{
    let mut digits = String::new();
    append_decimal(&mut digits, random as usize);
    let len = digits.as_str().unicode_len();
    let mut s = String::from_str(stamp);
    if len < 3 {
        append_repeat(&mut s, '0', 3 - len);
    } else {
        assert(repeat('0', 3 - decimal(random as nat).len()) =~= Seq::<char>::empty());
    }
    s.append(digits.as_str());
    let ext = ".png";
    proof {
        reveal_strlit(".png");
    }
    s.append(ext);
    assert(s@ =~= screenshot_name(stamp@, random));
    s
}

/// `rand::random_range(0..bound)`: a random number below `bound` (rand panics on
/// an empty range, hence `bound > 0`).
#[verifier::external_body]
fn random_below(bound: u32) -> (r: u32)
    requires
        bound > 0,
    ensures
        r < bound,
{
    rand::random_range(0..bound)
}

/// A fresh screenshot file name: the timestamp of the local time and a random
/// number below 1000.
pub fn new_screenshot_file_name() -> (name: String)
    ensures
        exists|t: LocalTime, random: u32|
            local_time_valid(t) && random < 1000 && name@ == #[trigger] screenshot_name(
                timestamp_of(t),
                random,
            ),
{
    let now = local_now();
    let stamp = timestamp_text(&now);
    let random = random_below(1000);
    let name = screenshot_file_name(stamp.as_str(), random);
    assert(name@ == screenshot_name(timestamp_of(now), random));
    name
}

/// The random part of a screenshot name is always three digits that denote the
/// number, so every name is seven characters longer than its timestamp.
pub proof fn lemma_screenshot_name_shape(stamp: Seq<char>, random: u32)
    requires
        random < 1000,
    ensures
        three_digits(random as nat).len() == 3,
        screenshot_name(stamp, random).len() == stamp.len() + 7,
        crate::numbers::digits_value(three_digits(random as nat), 10) == random,
{
    let n = random as nat;
    crate::numbers::lemma_decimal_value(n);
    assert(decimal(n).len() <= 3) by {
        if n >= 10 {
            if n >= 100 {
                assert(decimal(n / 10 / 10).len() == 1);
                assert(decimal(n / 10).len() == 2);
            } else {
                assert(decimal(n / 10).len() == 1);
            }
        }
    }
    let z = repeat('0', 3 - decimal(n).len());
    lemma_leading_zeros_value(z, decimal(n));
}

proof fn lemma_leading_zeros_value(z: Seq<char>, s: Seq<char>)
    requires
        forall|i: int| 0 <= i < z.len() ==> z[i] == '0',
    ensures
        crate::numbers::digits_value(z + s, 10) == crate::numbers::digits_value(s, 10)
            + crate::numbers::digits_value(z, 10) * vstd::arithmetic::power::pow(10, s.len()),
        crate::numbers::digits_value(z, 10) == 0,
    decreases s.len(), z.len(),
{
    if s.len() == 0 {
        assert(z + s =~= z);
        lemma_zeros_value(z);
        vstd::arithmetic::power::lemma_pow0(10);
    } else {
        lemma_leading_zeros_value(z, s.drop_last());
        assert((z + s).drop_last() =~= z + s.drop_last());
        vstd::arithmetic::power::lemma_pow_adds(10, (s.len() - 1) as nat, 1);
        vstd::arithmetic::power::lemma_pow1(10);
    }
}

proof fn lemma_zeros_value(z: Seq<char>)
    requires
        forall|i: int| 0 <= i < z.len() ==> z[i] == '0',
    ensures
        crate::numbers::digits_value(z, 10) == 0,
    decreases z.len(),
{
    if z.len() > 0 {
        lemma_zeros_value(z.drop_last());
    }
}

} // verus!
