//! The bounded record-to-file pipeline: per-frame conversion and JPEG
//! encoding, the frame-pacing rule, and the loop-bound decision.
//!
//! The recorder runs synchronously on its caller's thread. The caller owns
//! the clock, the device stream and the output file; this module owns every
//! decision and every byte transformation between a captured frame and the
//! encoded bytes that are appended to the file.

use crate::context::zero_frame;
use crate::convert::rgb_overlay;
use crate::errors::CameraError;
use vstd::prelude::*;

verus! {

/// JPEG quality level used for every recorded frame.
pub const JPEG_QUALITY: u8 = 90;

/// Microseconds in one target frame interval at the fixed frame rate of
/// thirty frames per second.
pub const FRAME_INTERVAL_MICROS: u64 = 1_000_000 / crate::FRAME_RATE as u64;

/// What the JPEG encoder produces for a given image: the encoded bytes are
/// a function of the pixel data, the dimensions and the quality alone.
pub uninterp spec fn jpeg_frame_of(rgb: Seq<u8>, width: u16, height: u16, quality: u8) -> Seq<u8>;

/// Declares `jpeg_encoder::EncodingError`, the error type of the outside
/// JPEG encoder, so wrappers can return it; the library maps it to its own
/// error kind in verified code.
#[verifier::external_type_specification]
#[verifier::external_body]
pub struct ExEncodingError(jpeg_encoder::EncodingError);

/// Relies on `jpeg_encoder::Encoder::new` and `Encoder::encode`: encoding
/// RGB data that covers `width * height` pixels into a `Vec` writer
/// succeeds — `encode` fails only on data shorter than the dimensions
/// demand or on a zero dimension, both excluded here, and writing into a
/// `Vec` cannot fail — and yields one JFIF stream that begins with the
/// start-of-image marker `0xFF 0xD8` and is determined by the pixel data,
/// the dimensions and the quality.
#[verifier::external_body]
fn encode_jpeg_rgb(rgb: &Vec<u8>, width: u16, height: u16, quality: u8) -> (r: Result<
    Vec<u8>,
    jpeg_encoder::EncodingError,
>)
    requires
        width > 0,
        height > 0,
        rgb@.len() >= width as int * height as int * 3,
    ensures
        r is Ok,
        r->Ok_0@ == jpeg_frame_of(rgb@, width, height, quality),
        r->Ok_0@.len() >= 2 && r->Ok_0@[0] == 0xffu8 && r->Ok_0@[1] == 0xd8u8,
{
    let mut out: Vec<u8> = Vec::new();
    let encoder = jpeg_encoder::Encoder::new(&mut out, quality);
    match encoder.encode(rgb, width, height, jpeg_encoder::ColorType::Rgb) {
        Ok(()) => Ok(out),
        Err(e) => Err(e),
    }
}

/// One recording step after a frame was captured: converts the raw YUYV
/// bytes into a full-size RGB frame (unfilled pixels stay zero, exactly as
/// a partial capture leaves them) and encodes it as one JPEG image at the
/// fixed dimensions and quality. It succeeds on every input: the RGB frame
/// always covers the fixed dimensions, on which the encoder is total. The
/// `Result` stands for the recording step of the pipeline, whose failure
/// kind is `EncodingError`; with this encoder that arm is unreachable.
pub fn process_frame(yuyv: &[u8]) -> (r: Result<Vec<u8>, CameraError>)
    ensures
        r is Ok,
        r->Ok_0@ == jpeg_frame_of(
            rgb_overlay(yuyv@, zero_frame()),
            crate::WIDTH as u16,
            crate::HEIGHT as u16,
            JPEG_QUALITY,
        ),
        r->Ok_0@.len() >= 2 && r->Ok_0@[0] == 0xffu8 && r->Ok_0@[1] == 0xd8u8,
{
    let mut rgb = crate::convert::alloc_frame(crate::BUFFER_SIZE);
    crate::convert::yuyv422_to_rgb24(yuyv, &mut rgb);
    match encode_jpeg_rgb(&rgb, crate::WIDTH as u16, crate::HEIGHT as u16, JPEG_QUALITY) {
        Ok(bytes) => Ok(bytes),
        Err(_) => Err(CameraError::EncodingError),
    }
}

/// The frame-pacing rule: after a frame that took `elapsed_micros`, sleep
/// for the remainder of the target interval; a frame that ran over budget
/// gets no sleep at all, so late frames are emitted back-to-back and never
/// dropped. After the sleep, an under-budget iteration has spent exactly
/// one target interval.
pub fn pacing_delay_micros(elapsed_micros: u64) -> (r: u64)
    ensures
        elapsed_micros < FRAME_INTERVAL_MICROS ==> r == FRAME_INTERVAL_MICROS - elapsed_micros,
        elapsed_micros >= FRAME_INTERVAL_MICROS ==> r == 0,
        elapsed_micros + r == if elapsed_micros < FRAME_INTERVAL_MICROS {
            FRAME_INTERVAL_MICROS as int
        } else {
            elapsed_micros as int
        },
{
    if elapsed_micros < FRAME_INTERVAL_MICROS {
        FRAME_INTERVAL_MICROS - elapsed_micros
    } else {
        0
    }
}

/// A recorded file is the plain concatenation of the encoded frames, one
/// JPEG stream per frame, not a container format. As every encoded frame
/// begins with the start-of-image marker, a recording of at least one frame
/// does so too.
pub proof fn lemma_recording_starts_with_soi(frames: Seq<Seq<u8>>)
    requires
        frames.len() >= 1,
        forall|k: int|
            0 <= k < frames.len() ==> (#[trigger] frames[k]).len() >= 2 && frames[k][0] == 0xffu8
                && frames[k][1] == 0xd8u8,
    ensures
        frames.flatten().len() >= 2,
        frames.flatten()[0] == 0xffu8,
        frames.flatten()[1] == 0xd8u8,
{
    assert(frames.flatten() == frames.first() + frames.drop_first().flatten());
    assert(frames.first() == frames[0]);
}

/// The loop bound of a recording: another frame is pulled exactly while
/// the elapsed whole seconds are below the requested duration.
pub fn recording_should_continue(elapsed_secs: u64, duration_secs: u32) -> (r: bool)
    ensures
        r == (elapsed_secs < duration_secs as u64),
{
    elapsed_secs < duration_secs as u64
}

} // verus!
