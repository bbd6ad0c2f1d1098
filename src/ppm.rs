use vstd::prelude::*;

verus! {

/// One pixel of an exported image: red, green and blue channels in `0..=255`.
pub type Rgb8 = (u8, u8, u8);

/// ASCII `0`.
pub const DIGIT_ZERO: u8 = 0x30;

/// ASCII space, between the values of a line.
pub const SPACE: u8 = 0x20;

/// ASCII line feed, at the end of each line.
pub const NEWLINE: u8 = 0x0a;

/// ASCII `P`, the first letter of the format's magic.
pub const LETTER_P: u8 = 0x50;

/// The format variant of the magic: `P3` is plain-text RGB.
pub const PLAIN_RGB_VARIANT: u32 = 3;

/// The largest channel value, written in the header.
pub const MAX_CHANNEL: u32 = 255;

/// The ASCII decimal digits of `n`, most significant first, without leading
/// zeros (`0` is written as one digit).
pub open spec fn decimal(n: nat) -> Seq<u8>
    decreases n,
{
    if n < 10 {
        seq![(DIGIT_ZERO + n) as u8]
    } else {
        decimal(n / 10) + seq![(DIGIT_ZERO + n % 10) as u8]
    }
}

/// The header of a plain-text PPM image: the magic `P3`, the width and the
/// height, and the largest channel value `255`, each line ending in `\n`.
pub open spec fn ppm_header(width: nat, height: nat) -> Seq<u8> {
    seq![LETTER_P] + decimal(PLAIN_RGB_VARIANT as nat) + seq![NEWLINE] + decimal(width) + seq![SPACE]
        + decimal(height) + seq![NEWLINE] + decimal(MAX_CHANNEL as nat) + seq![NEWLINE]
}

/// One pixel as a line of three decimal channels separated by spaces.
pub open spec fn ppm_pixel(p: Rgb8) -> Seq<u8> {
    decimal(p.0 as nat) + seq![SPACE] + decimal(p.1 as nat) + seq![SPACE] + decimal(p.2 as nat)
        + seq![NEWLINE]
}

/// The pixel lines of `pixels`, in order.
pub open spec fn ppm_pixels(pixels: Seq<Rgb8>) -> Seq<u8>
    decreases pixels.len(),
{
    if pixels.len() == 0 {
        Seq::empty()
    } else {
        ppm_pixels(pixels.drop_last()) + ppm_pixel(pixels.last())
    }
}

/// A whole plain-text PPM image.
pub open spec fn ppm_image(width: nat, height: nat, pixels: Seq<Rgb8>) -> Seq<u8> {
    ppm_header(width, height) + ppm_pixels(pixels)
}

/// Appends the decimal digits of `n` to `out`.
fn push_decimal(out: &mut Vec<u8>, n: u32)
    ensures
        final(out)@ == old(out)@ + decimal(n as nat),
    decreases n,
{
    if n >= 10 {
        push_decimal(out, n / 10);
    }
    out.push(DIGIT_ZERO + (n % 10) as u8);
    assert(final(out)@ =~= old(out)@ + decimal(n as nat));
}

/// Encodes an image of `width` by `height` pixels, given row by row, as
/// plain-text PPM. Returns `None` when `pixels` does not hold exactly
/// `width * height` pixels.
pub fn encode_ppm(width: u32, height: u32, pixels: &Vec<Rgb8>) -> (r: Option<Vec<u8>>)
    ensures
        r is Some <==> pixels@.len() == width * height,
        r matches Some(bytes) ==> bytes@ == ppm_image(width as nat, height as nat, pixels@),
{
    let (w, h) = (width as u64, height as u64);
    assert(w * h <= 0xffff_ffff * 0xffff_ffff) by (nonlinear_arith)
        requires
            w <= 0xffff_ffff,
            h <= 0xffff_ffff,
    ;
    if pixels.len() as u64 != w * h {
        return None;
    }
    let mut out: Vec<u8> = Vec::new();
    out.push(LETTER_P);
    push_decimal(&mut out, PLAIN_RGB_VARIANT);
    out.push(NEWLINE);
    push_decimal(&mut out, width);
    out.push(SPACE);
    push_decimal(&mut out, height);
    out.push(NEWLINE);
    push_decimal(&mut out, MAX_CHANNEL);
    out.push(NEWLINE);
    assert(out@ =~= ppm_header(width as nat, height as nat));
    let mut i: usize = 0;
    while i < pixels.len()
        invariant
            i <= pixels@.len(),
            out@ == ppm_header(width as nat, height as nat) + ppm_pixels(pixels@.subrange(0, i as int)),
        decreases pixels@.len() - i,
    {
        let p = pixels[i];
        let ghost before = out@;
        push_decimal(&mut out, p.0 as u32);
        out.push(SPACE);
        push_decimal(&mut out, p.1 as u32);
        out.push(SPACE);
        push_decimal(&mut out, p.2 as u32);
        out.push(NEWLINE);
        assert(out@ =~= before + ppm_pixel(p));
        assert(pixels@.subrange(0, i + 1).drop_last() =~= pixels@.subrange(0, i as int));
        i = i + 1;
    }
    assert(pixels@.subrange(0, pixels@.len() as int) =~= pixels@);
    Some(out)
}

} // verus!
