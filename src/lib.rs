//! Encoder for the command protocol of a small serial-attached bitmap
//! display, and the codec that turns truecolor pixels into the display's
//! 16-bit RGB565 words.

pub mod command;
pub mod device;
pub mod error;
pub mod pixel;
pub mod rect;
