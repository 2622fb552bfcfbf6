//! Six-byte command frames: an opcode tag, and for the bitmap command the
//! rectangle it addresses, packed as four 10-bit coordinates.

use crate::error::ProtocolError;
use vstd::prelude::*;

verus! {

/// An operation understood by the display firmware.
#[derive(Clone, Copy, Debug, PartialEq, Eq, Structural)]
pub enum Opcode {
    /// Fill the screen with the background colour.
    Clear,
    /// Switch the backlight off.
    ScreenOff,
    /// Switch the backlight on.
    ScreenOn,
    /// Select a rectangle; a pixel stream for it follows.
    DisplayBitmap,
}

/// The numeric tag that stands for `op` in the last byte of a frame.
pub open spec fn tag_of(op: Opcode) -> u8 {
    match op {
        Opcode::Clear => 102,
        Opcode::ScreenOff => 108,
        Opcode::ScreenOn => 109,
        Opcode::DisplayBitmap => 197,
    }
}

impl Opcode {
    /// The numeric tag of this opcode.
    pub fn tag(self) -> (r: u8)
        ensures
            r == tag_of(self),
    {
        match self {
            Opcode::Clear => 102,
            Opcode::ScreenOff => 108,
            Opcode::ScreenOn => 109,
            Opcode::DisplayBitmap => 197,
        }
    }
}

/// The largest coordinate a frame can carry: coordinates are 10 bits wide.
pub const MAX_COORD: u16 = 1023;

/// Whether `c` fits in the 10 bits a frame gives each coordinate.
pub open spec fn coord_in_range(c: u16) -> bool {
    c <= MAX_COORD
}

/// The 40-bit payload of a bitmap frame: the four coordinates, ten bits
/// each, most significant first.
pub open spec fn coord_word(x0: u16, y0: u16, x1: u16, y1: u16) -> u64 {
    (x0 as u64) << 30u64 | (y0 as u64) << 20u64 | (x1 as u64) << 10u64 | (y1 as u64)
}

/// A frame: the low 40 bits of `word`, most significant byte first, then `tag`.
pub open spec fn frame_of(word: u64, tag: u8) -> Seq<u8> {
    seq![
        (word >> 32u64) as u8,
        (word >> 24u64) as u8,
        (word >> 16u64) as u8,
        (word >> 8u64) as u8,
        word as u8,
        tag,
    ]
}

/// The 40-bit payload read back from the first five bytes of a frame.
pub open spec fn word_of_frame(f: Seq<u8>) -> u64 {
    (f[0] as u64) << 32u64 | (f[1] as u64) << 24u64 | (f[2] as u64) << 16u64 | (f[3] as u64)
        << 8u64 | (f[4] as u64)
}

/// The four 10-bit coordinates held in the payload of a frame.
pub open spec fn decode_coords(f: Seq<u8>) -> (u16, u16, u16, u16) {
    let w = word_of_frame(f);
    (
        ((w >> 30u64) & 0x3ff) as u16,
        ((w >> 20u64) & 0x3ff) as u16,
        ((w >> 10u64) & 0x3ff) as u16,
        (w & 0x3ff) as u16,
    )
}

/// Frame of a command without coordinates (any opcode but the bitmap one):
/// five zero bytes, then the tag.
pub fn encode_stateless(op: Opcode) -> (r: [u8; 6])
    requires
        op != Opcode::DisplayBitmap,
    ensures
        r@ == frame_of(0, tag_of(op)),
        forall|i: int| 0 <= i < 5 ==> r@[i] == 0,
        r@[5] == tag_of(op),
{
    let r = [0u8, 0u8, 0u8, 0u8, 0u8, op.tag()];
    assert(r@ =~= frame_of(0, tag_of(op))) by {
        assert((0u64 >> 32u64) as u8 == 0 && (0u64 >> 24u64) as u8 == 0 && (0u64 >> 16u64) as u8
            == 0 && (0u64 >> 8u64) as u8 == 0) by (bit_vector);
    }
    r
}

/// Frame of a command that addresses the rectangle from (`x0`, `y0`) to
/// (`x1`, `y1`) with the bitmap opcode. Coordinates beyond 10 bits are
/// refused rather than cut.
pub fn encode_stateful(op: Opcode, x0: u16, y0: u16, x1: u16, y1: u16) -> (r: Result<
    [u8; 6],
    ProtocolError,
>)
    requires
        op == Opcode::DisplayBitmap,
    ensures
        r is Err <==> !(coord_in_range(x0) && coord_in_range(y0) && coord_in_range(x1)
            && coord_in_range(y1)),
        r is Err ==> r == Err::<[u8; 6], ProtocolError>(ProtocolError::OutOfRange),
        r matches Ok(f) ==> {
            &&& f@ == frame_of(coord_word(x0, y0, x1, y1), tag_of(op))
            &&& f@[0] == x0 >> 2u16
            &&& f@[1] == ((x0 & 3) << 6u16) | (y0 >> 4u16)
            &&& f@[2] == ((y0 & 0xf) << 4u16) | (x1 >> 6u16)
            &&& f@[3] == ((x1 & 0x3f) << 2u16) | (y1 >> 8u16)
            &&& f@[4] == y1 & 0xff
            &&& f@[5] == tag_of(op)
        },
{
    if x0 > MAX_COORD || y0 > MAX_COORD || x1 > MAX_COORD || y1 > MAX_COORD {
        return Err(ProtocolError::OutOfRange);
    }
    let word: u64 = (x0 as u64) << 30u64 | (y0 as u64) << 20u64 | (x1 as u64) << 10u64 | (
    y1 as u64);
    let f = [
        (word >> 32u64) as u8,
        (word >> 24u64) as u8,
        (word >> 16u64) as u8,
        (word >> 8u64) as u8,
        word as u8,
        op.tag(),
    ];
    assert(f@ =~= frame_of(coord_word(x0, y0, x1, y1), tag_of(op)));
    proof {
        lemma_frame_bytes(x0, y0, x1, y1);
    }
    Ok(f)
}

/// Decoding the 40 payload bits of a bitmap frame gives back the four
/// coordinates it was built from, whenever each fits in 10 bits.
pub proof fn lemma_frame_round_trip(op: Opcode, x0: u16, y0: u16, x1: u16, y1: u16)
    requires
        coord_in_range(x0),
        coord_in_range(y0),
        coord_in_range(x1),
        coord_in_range(y1),
    ensures
        decode_coords(frame_of(coord_word(x0, y0, x1, y1), tag_of(op))) == (x0, y0, x1, y1),
{
    let w = coord_word(x0, y0, x1, y1);
    let f = frame_of(w, tag_of(op));
    let (b0, b1, b2, b3, b4) = (
        (w >> 32u64) as u8,
        (w >> 24u64) as u8,
        (w >> 16u64) as u8,
        (w >> 8u64) as u8,
        w as u8,
    );
    assert(f[0] == b0 && f[1] == b1 && f[2] == b2 && f[3] == b3 && f[4] == b4);
    assert({
        let w = (x0 as u64) << 30u64 | (y0 as u64) << 20u64 | (x1 as u64) << 10u64 | (y1 as u64);
        let v = ((w >> 32u64) as u8 as u64) << 32u64 | ((w >> 24u64) as u8 as u64) << 24u64 | ((w
            >> 16u64) as u8 as u64) << 16u64 | ((w >> 8u64) as u8 as u64) << 8u64 | (w as u8 as u64);
        &&& ((v >> 30u64) & 0x3ff) as u16 == x0
        &&& ((v >> 20u64) & 0x3ff) as u16 == y0
        &&& ((v >> 10u64) & 0x3ff) as u16 == x1
        &&& (v & 0x3ff) as u16 == y1
    }) by (bit_vector)
        requires
            x0 <= 1023,
            y0 <= 1023,
            x1 <= 1023,
            y1 <= 1023,
    ;
}

/// Two frames built from the same opcode and coordinates are identical:
/// the encoder keeps no state between calls.
pub proof fn lemma_encode_deterministic(
    op: Opcode,
    x0: u16,
    y0: u16,
    x1: u16,
    y1: u16,
    a: [u8; 6],
    b: [u8; 6],
)
    requires
        a@ == frame_of(coord_word(x0, y0, x1, y1), tag_of(op)),
        b@ == frame_of(coord_word(x0, y0, x1, y1), tag_of(op)),
    ensures
        a == b,
{
    assert(a@ =~= b@);
    assert(a =~= b);
}

/// Two frames built from the same stateless opcode are identical.
pub proof fn lemma_encode_stateless_deterministic(op: Opcode, a: [u8; 6], b: [u8; 6])
    requires
        a@ == frame_of(0, tag_of(op)),
        b@ == frame_of(0, tag_of(op)),
    ensures
        a == b,
{
    assert(a@ =~= b@);
    assert(a =~= b);
}

/// The bytes of a bitmap frame, one by one, as bit fields of the coordinates.
proof fn lemma_frame_bytes(x0: u16, y0: u16, x1: u16, y1: u16)
    requires
        x0 <= 1023,
        y0 <= 1023,
        x1 <= 1023,
        y1 <= 1023,
    ensures
        ({
            let w = coord_word(x0, y0, x1, y1);
            &&& (w >> 32u64) as u8 == x0 >> 2u16
            &&& (w >> 24u64) as u8 == ((x0 & 3) << 6u16) | (y0 >> 4u16)
            &&& (w >> 16u64) as u8 == ((y0 & 0xf) << 4u16) | (x1 >> 6u16)
            &&& (w >> 8u64) as u8 == ((x1 & 0x3f) << 2u16) | (y1 >> 8u16)
            &&& w as u8 == y1 & 0xff
        }),
{
    assert({
        let w = (x0 as u64) << 30u64 | (y0 as u64) << 20u64 | (x1 as u64) << 10u64 | (y1 as u64);
        &&& (w >> 32u64) as u8 == x0 >> 2u16
        &&& (w >> 24u64) as u8 == ((x0 & 3) << 6u16) | (y0 >> 4u16)
        &&& (w >> 16u64) as u8 == ((y0 & 0xf) << 4u16) | (x1 >> 6u16)
        &&& (w >> 8u64) as u8 == ((x1 & 0x3f) << 2u16) | (y1 >> 8u16)
        &&& w as u8 == y1 & 0xff
    }) by (bit_vector)
        requires
            x0 <= 1023,
            y0 <= 1023,
            x1 <= 1023,
            y1 <= 1023,
    ;
}

} // verus!
