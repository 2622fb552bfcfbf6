//! Rectangles of the display surface, the frame that selects one, and the
//! length of the pixel stream that must follow that frame.

use crate::command::{coord_in_range, coord_word, encode_stateful, frame_of, tag_of, MAX_COORD, Opcode};
use crate::error::ProtocolError;
use crate::pixel::{is_packed_stream, pack_pixels};
use vstd::prelude::*;

verus! {

/// Width of the display surface in pixels.
pub const DISPLAY_WIDTH: u16 = 320;

/// Height of the display surface in pixels.
pub const DISPLAY_HEIGHT: u16 = 480;

/// A region of the display, inclusive of both corners.
#[derive(Clone, Copy, Debug, PartialEq, Eq, Structural)]
pub struct Rect {
    pub start_x: u16,
    pub start_y: u16,
    pub end_x: u16,
    pub end_y: u16,
}

impl Rect {
    /// Every coordinate fits in 10 bits and no axis ends before it starts.
    pub open spec fn wf(self) -> bool {
        &&& coord_in_range(self.start_x)
        &&& coord_in_range(self.start_y)
        &&& coord_in_range(self.end_x)
        &&& coord_in_range(self.end_y)
        &&& self.start_x <= self.end_x
        &&& self.start_y <= self.end_y
    }

    /// Number of pixel columns.
    pub open spec fn spec_width(self) -> int {
        self.end_x - self.start_x + 1
    }

    /// Number of pixel rows.
    pub open spec fn spec_height(self) -> int {
        self.end_y - self.start_y + 1
    }

    /// Number of bytes of the pixel stream that fills the rectangle.
    pub open spec fn spec_stream_len(self) -> int {
        2 * self.spec_width() * self.spec_height()
    }

    /// The rectangle with the given corners, if it can be addressed.
    pub fn new(start_x: u16, start_y: u16, end_x: u16, end_y: u16) -> (r: Result<Rect, ProtocolError>)
        ensures
            !(coord_in_range(start_x) && coord_in_range(start_y) && coord_in_range(end_x)
                && coord_in_range(end_y)) ==> r == Err::<Rect, ProtocolError>(ProtocolError::OutOfRange),
            (coord_in_range(start_x) && coord_in_range(start_y) && coord_in_range(end_x)
                && coord_in_range(end_y)) ==> (r == Err::<Rect, ProtocolError>(ProtocolError::InvertedRect)
                <==> (start_x > end_x || start_y > end_y)),
            (coord_in_range(start_x) && coord_in_range(start_y) && coord_in_range(end_x)
                && coord_in_range(end_y) && start_x <= end_x && start_y <= end_y) ==> r == Ok::<
                Rect,
                ProtocolError,
            >((Rect { start_x, start_y, end_x, end_y })),
            r matches Ok(rect) ==> rect.wf() && rect == (Rect { start_x, start_y, end_x, end_y }),
    {
        if start_x > MAX_COORD || start_y > MAX_COORD || end_x > MAX_COORD || end_y > MAX_COORD {
            Err(ProtocolError::OutOfRange)
        } else if start_x > end_x || start_y > end_y {
            Err(ProtocolError::InvertedRect)
        } else {
            Ok(Rect { start_x, start_y, end_x, end_y })
        }
    }

    /// The whole display surface.
    pub fn full_screen() -> (r: Rect)
        ensures
            r.wf(),
            r == (Rect { start_x: 0, start_y: 0, end_x: 319, end_y: 479 }),
            r.spec_width() == DISPLAY_WIDTH,
            r.spec_height() == DISPLAY_HEIGHT,
    {
        Rect { start_x: 0, start_y: 0, end_x: DISPLAY_WIDTH - 1, end_y: DISPLAY_HEIGHT - 1 }
    }

    /// Number of pixel columns.
    pub fn width(&self) -> (r: u16)
        requires
            self.wf(),
        ensures
            r == self.spec_width(),
    {
        self.end_x - self.start_x + 1
    }

    /// Number of pixel rows.
    pub fn height(&self) -> (r: u16)
        requires
            self.wf(),
        ensures
            r == self.spec_height(),
    {
        self.end_y - self.start_y + 1
    }

    /// Number of bytes the pixel stream for this rectangle must hold.
    pub fn stream_len(&self) -> (r: usize)
        requires
            self.wf(),
        ensures
            r == self.spec_stream_len(),
    {
        let w = self.width() as usize;
        let h = self.height() as usize;
        assert(2 * w * h <= 2 * 1024 * 1024) by (nonlinear_arith)
            requires
                w <= 1024,
                h <= 1024,
        ;
        2 * w * h
    }

    /// Accepts a pixel stream of `len` bytes exactly when it fills the
    /// rectangle, two bytes per pixel.
    pub fn check_stream(&self, len: usize) -> (r: Result<(), ProtocolError>)
        requires
            self.wf(),
        ensures
            r is Ok <==> len == self.spec_stream_len(),
            r is Err ==> r == Err::<(), ProtocolError>(ProtocolError::ProtocolViolation),
    {
        if len == self.stream_len() {
            Ok(())
        } else {
            Err(ProtocolError::ProtocolViolation)
        }
    }

    /// The bitmap frame that selects this rectangle.
    pub fn command_frame(&self) -> (r: [u8; 6])
        requires
            self.wf(),
        ensures
            r@ == frame_of(
                coord_word(self.start_x, self.start_y, self.end_x, self.end_y),
                tag_of(Opcode::DisplayBitmap),
            ),
    {
        match encode_stateful(Opcode::DisplayBitmap, self.start_x, self.start_y, self.end_x, self.end_y) {
            Ok(f) => f,
            // unreachable: every coordinate of a well-formed rectangle fits
            Err(_) => [0u8; 6],
        }
    }

    /// The packed pixel stream for a row-major red, green, blue buffer that
    /// covers this rectangle; refused unless the buffer holds exactly one
    /// triple per pixel.
    pub fn pixel_stream(&self, rgb: &[u8]) -> (r: Result<Vec<u8>, ProtocolError>)
        requires
            self.wf(),
        ensures
            r is Ok <==> rgb@.len() == 3 * self.spec_width() * self.spec_height(),
            r is Err ==> r == Err::<Vec<u8>, ProtocolError>(ProtocolError::ProtocolViolation),
            r matches Ok(out) ==> is_packed_stream(rgb@, out@) && out@.len() == self.spec_stream_len(),
    {
        let w = self.width() as usize;
        let h = self.height() as usize;
        assert(3 * w * h <= 3 * 1024 * 1024) by (nonlinear_arith)
            requires
                w <= 1024,
                h <= 1024,
        ;
        if rgb.len() != 3 * w * h {
            return Err(ProtocolError::ProtocolViolation);
        }
        proof {
            vstd::arithmetic::div_mod::lemma_mod_multiples_basic(w * h, 3);
            vstd::arithmetic::mul::lemma_mul_is_associative(3, w as int, h as int);
            vstd::arithmetic::mul::lemma_mul_is_commutative(3, w * h);
        }
        let out = pack_pixels(rgb);
        proof {
            lemma_full_stream_accepted(*self, rgb@, out@);
        }
        Ok(out)
    }
}

/// Packing a buffer of one red, green, blue triple per pixel of a rectangle
/// yields a stream of exactly two bytes per pixel of it, the length that
/// `Rect::check_stream` accepts.
pub proof fn lemma_full_stream_accepted(rect: Rect, rgb: Seq<u8>, out: Seq<u8>)
    requires
        rect.wf(),
        rgb.len() == 3 * rect.spec_width() * rect.spec_height(),
        is_packed_stream(rgb, out),
    ensures
        out.len() == rect.spec_stream_len(),
{
    let p = rect.spec_width() * rect.spec_height();
    assert(rgb.len() == 3 * p) by (nonlinear_arith)
        requires
            rgb.len() == 3 * rect.spec_width() * rect.spec_height(),
            p == rect.spec_width() * rect.spec_height(),
    ;
    assert(rect.spec_stream_len() == 2 * p) by (nonlinear_arith)
        requires
            rect.spec_stream_len() == 2 * rect.spec_width() * rect.spec_height(),
            p == rect.spec_width() * rect.spec_height(),
    ;
}

} // verus!
