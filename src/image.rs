use vstd::prelude::*;

verus! {

/// The screen position of the pixel at `index` in row-major order from the
/// top-left corner: its column, and its row counted from the bottom.
pub fn pixel_position(index: u32, width: u32, height: u32) -> (r: (u32, u32))
    requires
        width > 0,
        index < width * height,
    ensures
        r.0 == index % width,
        r.1 == height - 1 - index / width,
{
    proof {
        assert(index / width < height) by (nonlinear_arith)
            requires
                width > 0,
                index < width * height,
        ;
    }
    (index % width, height - 1 - index / width)
}

pub open spec fn digit(d: nat) -> u8 {
    (48 + d) as u8
}

/// The decimal digits of `n`, most significant first, as ASCII.
pub open spec fn decimal(n: nat) -> Seq<u8>
    decreases n,
{
    if n < 10 {
        seq![digit(n)]
    } else {
        decimal(n / 10).push(digit(n % 10))
    }
}

pub open spec fn space() -> u8 {
    32
}

pub open spec fn newline() -> u8 {
    10
}

/// The header of a plain-text PPM image: the magic number `P3`, the width
/// and height, and the largest channel value, 255.
pub open spec fn ppm_header(width: nat, height: nat) -> Seq<u8> {
    seq![80u8, 51u8, newline()] + decimal(width) + seq![space()] + decimal(height) + seq![newline()]
        + decimal(255) + seq![newline()]
}

/// One pixel's line: its three channels in decimal, apart by spaces.
pub open spec fn ppm_pixel(p: (u8, u8, u8)) -> Seq<u8> {
    decimal(p.0 as nat) + seq![space()] + decimal(p.1 as nat) + seq![space()] + decimal(p.2 as nat)
        + seq![newline()]
}

/// The lines of the first `n` pixels.
pub open spec fn ppm_pixels(pixels: Seq<(u8, u8, u8)>, n: int) -> Seq<u8>
    decreases n,
{
    if n <= 0 {
        Seq::empty()
    } else {
        ppm_pixels(pixels, n - 1) + ppm_pixel(pixels[n - 1])
    }
}

/// Appends the decimal digits of `n`.
pub fn push_decimal(out: &mut Vec<u8>, n: u32)
    ensures
        final(out)@ == old(out)@ + decimal(n as nat),
    decreases n,
{
    if n >= 10 {
        push_decimal(out, n / 10);
    }
    out.push(48 + (n % 10) as u8);
    proof {
        assert(final(out)@ =~= old(out)@ + decimal(n as nat));
    }
}

/// The image as a plain-text PPM file: the header, then one line per pixel
/// in the order given.
pub fn encode_ppm(width: u32, height: u32, pixels: &Vec<(u8, u8, u8)>) -> (r: Vec<u8>)
    ensures
        r@ == ppm_header(width as nat, height as nat) + ppm_pixels(pixels@, pixels@.len() as int),
{
    let mut out: Vec<u8> = Vec::new();
    out.push(80);
    out.push(51);
    out.push(10);
    push_decimal(&mut out, width);
    out.push(32);
    push_decimal(&mut out, height);
    out.push(10);
    push_decimal(&mut out, 255);
    out.push(10);
    assert(out@ =~= ppm_header(width as nat, height as nat));
    let mut i: usize = 0;
    while i < pixels.len()
        invariant
            i <= pixels.len(),
            out@ == ppm_header(width as nat, height as nat) + ppm_pixels(pixels@, i as int),
        decreases pixels.len() - i,
    {
        let (r, g, b) = pixels[i];
        let ghost before = out@;
        push_decimal(&mut out, r as u32);
        out.push(32);
        push_decimal(&mut out, g as u32);
        out.push(32);
        push_decimal(&mut out, b as u32);
        out.push(10);
        assert(out@ =~= before + ppm_pixel(pixels@[i as int]));
        i = i + 1;
        assert(ppm_pixels(pixels@, i as int) == ppm_pixels(pixels@, i - 1) + ppm_pixel(
            pixels@[i - 1],
        ));
        assert(out@ =~= ppm_header(width as nat, height as nat) + ppm_pixels(pixels@, i as int));
    }
    out
}

} // verus!
