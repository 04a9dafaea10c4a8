//! Binary pixel-map framing: the bytes of a `P6` image file.
//!
//! The library produces the exact byte sequence — header with decimal
//! dimensions, then three bytes per pixel, row-major — and the caller
//! only has to write it out.

use vstd::prelude::*;

verus! {

/// The decimal digits of `n`, most significant first, as ASCII bytes.
pub open spec fn spec_decimal(n: nat) -> Seq<u8>
    decreases n,
{
    if n < 10 {
        seq![(48 + n) as u8]
    } else {
        spec_decimal(n / 10).push((48 + n % 10) as u8)
    }
}

/// Writes `n` in decimal ASCII.
pub fn decimal_bytes(n: u32) -> (v: Vec<u8>)
    ensures
        v@ == spec_decimal(n as nat),
    decreases n,
{
    if n < 10 {
        let mut v: Vec<u8> = Vec::new();
        v.push(48 + n as u8);
        proof {
            assert(v@ =~= spec_decimal(n as nat));
        }
        v
    } else {
        let mut v = decimal_bytes(n / 10);
        v.push(48 + (n % 10) as u8);
        proof {
            assert(v@ =~= spec_decimal(n as nat));
        }
        v
    }
}

/// The three bytes of one packed pixel: red, green, blue.
pub open spec fn spec_pixel_bytes(p: u32) -> Seq<u8> {
    seq![((p >> 16u32) & 0xff) as u8, ((p >> 8u32) & 0xff) as u8, (p & 0xff) as u8]
}

/// The bytes of the first `n` pixels of the buffer.
pub open spec fn spec_pixels_prefix(buf: Seq<u32>, n: int) -> Seq<u8>
    decreases n,
{
    if n <= 0 {
        Seq::empty()
    } else {
        spec_pixels_prefix(buf, n - 1) + spec_pixel_bytes(buf[n - 1])
    }
}

/// The header: `P6`, the dimensions, and the maximum channel value, each
/// line ending in a newline.
pub open spec fn spec_ppm_header(width: nat, height: nat) -> Seq<u8> {
    seq![80u8, 54u8, 10u8] + spec_decimal(width) + seq![32u8] + spec_decimal(height) + seq![
        10u8,
        50u8,
        53u8,
        53u8,
        10u8,
    ]
}

/// The whole file: header, then every pixel's bytes in buffer order.
pub open spec fn spec_ppm_bytes(buf: Seq<u32>, width: nat, height: nat) -> Seq<u8> {
    spec_ppm_header(width, height) + spec_pixels_prefix(buf, buf.len() as int)
}

/// Frames a framebuffer as the bytes of a binary pixel-map file.
pub fn ppm_bytes(buffer: &Vec<u32>, width: u32, height: u32) -> (out: Vec<u8>)
    ensures
        out@ == spec_ppm_bytes(buffer@, width as nat, height as nat),
{
    let mut out: Vec<u8> = Vec::new();
    out.push(80);
    out.push(54);
    out.push(10);
    let mut w = decimal_bytes(width);
    out.append(&mut w);
    out.push(32);
    let mut h = decimal_bytes(height);
    out.append(&mut h);
    out.push(10);
    out.push(50);
    out.push(53);
    out.push(53);
    out.push(10);
    proof {
        assert(out@ =~= spec_ppm_header(width as nat, height as nat));
    }
    let mut i: usize = 0;
    while i < buffer.len()
        invariant
            i <= buffer.len(),
            out@ == spec_ppm_header(width as nat, height as nat) + spec_pixels_prefix(
                buffer@,
                i as int,
            ),
        decreases buffer.len() - i,
    {
        let p: u32 = buffer[i];
        out.push(((p >> 16) & 0xff) as u8);
        out.push(((p >> 8) & 0xff) as u8);
        out.push((p & 0xff) as u8);
        i += 1;
        proof {
            assert(out@ =~= spec_ppm_header(width as nat, height as nat) + spec_pixels_prefix(
                buffer@,
                i as int,
            ));
        }
    }
    out
}

} // verus!
