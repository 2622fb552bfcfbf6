//! Conversion of 24-bit truecolor pixels to the display's RGB565 words.

use vstd::prelude::*;

verus! {

/// The RGB565 word of a pixel: the top 5 bits of red, the top 6 of green and
/// the top 5 of blue, red most significant.
pub open spec fn rgb565_word(red: u8, green: u8, blue: u8) -> u16 {
    ((red as u16 & 0xf8) << 8u16) | ((green as u16 & 0xfc) << 3u16) | (blue as u16 >> 3u16)
}

/// The two bytes sent for a pixel: its RGB565 word, low byte first.
pub open spec fn packed_of(red: u8, green: u8, blue: u8) -> Seq<u8> {
    seq![rgb565_word(red, green, blue) as u8, (rgb565_word(red, green, blue) >> 8u16) as u8]
}

/// Whether `out` holds, two bytes per pixel and in the same order, the packed
/// form of each whole red, green, blue triple of `rgb`.
pub open spec fn is_packed_stream(rgb: Seq<u8>, out: Seq<u8>) -> bool {
    &&& out.len() == 2 * (rgb.len() / 3)
    &&& forall|p: int|
        0 <= p < rgb.len() / 3 ==> #[trigger] out.subrange(2 * p, 2 * p + 2) == packed_of(
            rgb[3 * p],
            rgb[3 * p + 1],
            rgb[3 * p + 2],
        )
}

/// Packs one pixel. Each channel is cut to its width by dropping low bits.
pub fn pack(red: u8, green: u8, blue: u8) -> (r: [u8; 2])
    ensures
        r@ == packed_of(red, green, blue),
        r@[1] == (red & 0xf8) | (green >> 5u8),
        r@[0] == ((green & 0x1c) << 3u8) | (blue >> 3u8),
{
    let word: u16 = ((red as u16 & 0xf8) << 8u16) | ((green as u16 & 0xfc) << 3u16) | (blue as u16
        >> 3u16);
    let r = [word as u8, (word >> 8u16) as u8];
    assert(r@ =~= packed_of(red, green, blue));
    assert({
        let w = ((red as u16 & 0xf8) << 8u16) | ((green as u16 & 0xfc) << 3u16) | (blue as u16
            >> 3u16);
        &&& (w >> 8u16) as u8 == (red & 0xf8) | (green >> 5u8)
        &&& w as u8 == ((green & 0x1c) << 3u8) | (blue >> 3u8)
    }) by (bit_vector);
    r
}

/// Packs the pixel held in the first three bytes of `buffer` (red, green, blue).
pub fn rgb888_to_rgb565(buffer: &[u8]) -> (r: [u8; 2])
    requires
        buffer@.len() >= 3,
    ensures
        r@ == packed_of(buffer@[0], buffer@[1], buffer@[2]),
{
    pack(buffer[0], buffer[1], buffer[2])
}

/// Packs every pixel of a row-major red, green, blue buffer into one stream.
pub fn pack_pixels(rgb: &[u8]) -> (out: Vec<u8>)
    requires
        rgb@.len() % 3 == 0,
    ensures
        is_packed_stream(rgb@, out@),
{
    let len: usize = rgb.len();
    let n: usize = len / 3;
    let mut out: Vec<u8> = Vec::new();
    let mut p: usize = 0;
    while p < n
        invariant
            len == rgb@.len(),
            rgb@.len() % 3 == 0,
            n == rgb@.len() / 3,
            p <= n,
            out@.len() == 2 * p,
            forall|q: int|
                0 <= q < p ==> #[trigger] out@.subrange(2 * q, 2 * q + 2) == packed_of(
                    rgb@[3 * q],
                    rgb@[3 * q + 1],
                    rgb@[3 * q + 2],
                ),
        decreases n - p,
    {
        assert(3 * p + 3 <= len) by (nonlinear_arith)
            requires
                p < n,
                n == len / 3,
                len % 3 == 0,
        ;
        let px = pack(rgb[3 * p], rgb[3 * p + 1], rgb[3 * p + 2]);
        let ghost before = out@;
        out.push(px[0]);
        out.push(px[1]);
        assert forall|q: int| 0 <= q < p + 1 implies #[trigger] out@.subrange(2 * q, 2 * q + 2)
            == packed_of(rgb@[3 * q], rgb@[3 * q + 1], rgb@[3 * q + 2]) by {
            if q < p {
                assert(out@.subrange(2 * q, 2 * q + 2) =~= before.subrange(2 * q, 2 * q + 2));
            } else {
                assert(out@.subrange(2 * q, 2 * q + 2) =~= px@);
            }
        }
        p = p + 1;
    }
    out
}

/// Two packings of the same pixel are identical: the codec keeps no state
/// between calls.
pub proof fn lemma_pack_deterministic(red: u8, green: u8, blue: u8, a: [u8; 2], b: [u8; 2])
    requires
        a@ == packed_of(red, green, blue),
        b@ == packed_of(red, green, blue),
    ensures
        a == b,
{
    assert(a@ =~= b@);
    assert(a =~= b);
}

} // verus!
