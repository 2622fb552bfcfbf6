use turing_display::command::{encode_stateful, Opcode};
use turing_display::error::ProtocolError;
use turing_display::rect::{Rect, DISPLAY_HEIGHT, DISPLAY_WIDTH};

#[test]
fn full_screen_dimensions() {
    let r = Rect::full_screen();
    assert_eq!(r.width(), DISPLAY_WIDTH);
    assert_eq!(r.height(), DISPLAY_HEIGHT);
    assert_eq!(r.stream_len(), 320 * 480 * 2);
    assert_eq!(r.command_frame(), [0x00, 0x00, 0x04, 0xFD, 0xDF, 0xC5]);
}

#[test]
fn rect_new_checks_range_and_order() {
    assert_eq!(Rect::new(0, 0, 1024, 10), Err(ProtocolError::OutOfRange));
    assert_eq!(Rect::new(5, 0, 4, 10), Err(ProtocolError::InvertedRect));
    assert_eq!(Rect::new(0, 11, 4, 10), Err(ProtocolError::InvertedRect));
    let r = Rect::new(2, 3, 2, 3).unwrap();
    assert_eq!(r.width(), 1);
    assert_eq!(r.height(), 1);
    assert_eq!(r.stream_len(), 2);
}

#[test]
fn command_frame_matches_encoder() {
    let r = Rect::new(10, 20, 300, 400).unwrap();
    assert_eq!(Ok(r.command_frame()), encode_stateful(Opcode::DisplayBitmap, 10, 20, 300, 400));
}

#[test]
fn stream_length_must_be_exact() {
    let r = Rect::new(0, 0, 2, 1).unwrap();
    assert_eq!(r.stream_len(), 12);
    assert_eq!(r.check_stream(12), Ok(()));
    assert_eq!(r.check_stream(11), Err(ProtocolError::ProtocolViolation));
    assert_eq!(r.check_stream(13), Err(ProtocolError::ProtocolViolation));
    assert_eq!(r.check_stream(0), Err(ProtocolError::ProtocolViolation));
}

#[test]
fn largest_rect_stream_length() {
    let r = Rect::new(0, 0, 1023, 1023).unwrap();
    assert_eq!(r.stream_len(), 2 * 1024 * 1024);
}

#[test]
fn pixel_stream_of_whole_buffer_is_accepted() {
    let r = Rect::new(0, 0, 1, 1).unwrap();
    let rgb = [255, 255, 255, 0, 0, 0, 255, 0, 0, 0, 0, 255];
    let out = r.pixel_stream(&rgb).unwrap();
    assert_eq!(out, vec![0xFF, 0xFF, 0x00, 0x00, 0x00, 0xF8, 0x1F, 0x00]);
    assert_eq!(r.check_stream(out.len()), Ok(()));
}

#[test]
fn pixel_stream_of_wrong_buffer_is_refused() {
    let r = Rect::new(0, 0, 1, 1).unwrap();
    assert_eq!(r.pixel_stream(&[0; 9]), Err(ProtocolError::ProtocolViolation));
    assert_eq!(r.pixel_stream(&[0; 15]), Err(ProtocolError::ProtocolViolation));
    assert_eq!(r.pixel_stream(&[0; 13]), Err(ProtocolError::ProtocolViolation));
}
