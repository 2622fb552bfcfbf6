use turing_display::command::{encode_stateful, encode_stateless, Opcode, MAX_COORD};
use turing_display::error::ProtocolError;

fn decode(f: &[u8; 6]) -> (u16, u16, u16, u16) {
    let mut w: u64 = 0;
    for b in &f[..5] {
        w = (w << 8) | (*b as u64);
    }
    (
        ((w >> 30) & 0x3ff) as u16,
        ((w >> 20) & 0x3ff) as u16,
        ((w >> 10) & 0x3ff) as u16,
        (w & 0x3ff) as u16,
    )
}

#[test]
fn opcode_tags() {
    assert_eq!(Opcode::Clear.tag(), 102);
    assert_eq!(Opcode::ScreenOff.tag(), 108);
    assert_eq!(Opcode::ScreenOn.tag(), 109);
    assert_eq!(Opcode::DisplayBitmap.tag(), 197);
}

#[test]
fn stateless_frames_hold_only_the_tag() {
    assert_eq!(encode_stateless(Opcode::Clear), [0, 0, 0, 0, 0, 102]);
    assert_eq!(encode_stateless(Opcode::ScreenOff), [0, 0, 0, 0, 0, 108]);
    assert_eq!(encode_stateless(Opcode::ScreenOn), [0, 0, 0, 0, 0, 109]);
}

#[test]
fn full_screen_bitmap_frame_golden() {
    let f = encode_stateful(Opcode::DisplayBitmap, 0, 0, 319, 479).unwrap();
    assert_eq!(f, [0x00, 0x00, 0x04, 0xFD, 0xDF, 0xC5]);
}

#[test]
fn bitmap_frame_all_ones() {
    let f = encode_stateful(Opcode::DisplayBitmap, 1023, 1023, 1023, 1023).unwrap();
    assert_eq!(f, [0xFF, 0xFF, 0xFF, 0xFF, 0xFF, 0xC5]);
}

#[test]
fn bitmap_frame_single_bits() {
    assert_eq!(
        encode_stateful(Opcode::DisplayBitmap, 1, 0, 0, 0).unwrap(),
        [0x00, 0x40, 0x00, 0x00, 0x00, 0xC5]
    );
    assert_eq!(
        encode_stateful(Opcode::DisplayBitmap, 0, 1, 0, 0).unwrap(),
        [0x00, 0x00, 0x10, 0x00, 0x00, 0xC5]
    );
    assert_eq!(
        encode_stateful(Opcode::DisplayBitmap, 0, 0, 1, 0).unwrap(),
        [0x00, 0x00, 0x00, 0x04, 0x00, 0xC5]
    );
    assert_eq!(
        encode_stateful(Opcode::DisplayBitmap, 0, 0, 0, 1).unwrap(),
        [0x00, 0x00, 0x00, 0x00, 0x01, 0xC5]
    );
    assert_eq!(
        encode_stateful(Opcode::DisplayBitmap, 512, 0, 0, 0).unwrap(),
        [0x80, 0x00, 0x00, 0x00, 0x00, 0xC5]
    );
}

#[test]
fn bitmap_frame_round_trip() {
    let samples: [u16; 7] = [0, 1, 2, 319, 479, 512, 1023];
    for &x0 in &samples {
        for &y0 in &samples {
            for &x1 in &samples {
                for &y1 in &samples {
                    let f = encode_stateful(Opcode::DisplayBitmap, x0, y0, x1, y1).unwrap();
                    assert_eq!(decode(&f), (x0, y0, x1, y1));
                    assert_eq!(f[5], 197);
                }
            }
        }
    }
}

#[test]
fn out_of_range_coordinate_is_refused() {
    let big = MAX_COORD + 1;
    assert_eq!(encode_stateful(Opcode::DisplayBitmap, big, 0, 0, 0), Err(ProtocolError::OutOfRange));
    assert_eq!(encode_stateful(Opcode::DisplayBitmap, 0, big, 0, 0), Err(ProtocolError::OutOfRange));
    assert_eq!(encode_stateful(Opcode::DisplayBitmap, 0, 0, big, 0), Err(ProtocolError::OutOfRange));
    assert_eq!(encode_stateful(Opcode::DisplayBitmap, 0, 0, 0, u16::MAX), Err(ProtocolError::OutOfRange));
}

#[test]
fn encoding_twice_gives_the_same_bytes() {
    assert_eq!(encode_stateless(Opcode::ScreenOn), encode_stateless(Opcode::ScreenOn));
    assert_eq!(
        encode_stateful(Opcode::DisplayBitmap, 10, 20, 300, 400),
        encode_stateful(Opcode::DisplayBitmap, 10, 20, 300, 400)
    );
}
