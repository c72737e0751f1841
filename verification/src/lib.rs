use vstd::prelude::*;

pub mod context;
pub mod convert;
pub mod errors;
pub mod recorder;

verus! {

/// Fixed capture width in pixels.
pub const WIDTH: usize = 640;

/// Fixed capture height in pixels.
pub const HEIGHT: usize = 480;

/// Bytes per pixel in the RGB24 output format.
pub const CHANNELS: usize = 3;

/// Size in bytes of one RGB24 frame at the fixed capture resolution.
pub const BUFFER_SIZE: usize = WIDTH * HEIGHT * CHANNELS;

/// Target frame rate for recording, in frames per second.
pub const FRAME_RATE: u32 = 30;

} // verus!
