//! Turns what a stream yields into frames for the display.

use vstd::prelude::*;
use crate::models::{display_bytes, CoordinatorError, Frame, RawFrame};

verus! {

/// Calls `image::ImageBuffer::from_raw` for BGRA pixels over a byte vector and
/// takes the vector back out with `into_raw`.
///
/// The image crate forms the number of bytes it needs in two steps, four
/// times the width and then times the height, each in `usize`. It accepts a
/// container when both products have a value and the second is no more than
/// the container's length. The vector that comes back is the one that went
/// in.
#[verifier::external_body]
fn pack_bgra(width: u32, height: u32, pixels: Vec<u8>) -> (r: Option<Vec<u8>>)
    ensures
        r is Some <==> (4 * (width as nat) <= usize::MAX as nat && display_bytes(width as nat, height as nat) <= pixels@.len()),
        r matches Some(kept) ==> kept == pixels,
{
    match image::ImageBuffer::<image::Bgra<u8>, Vec<u8>>::from_raw(width, height, pixels) {
        Some(buffer) => Some(buffer.into_raw()),
        None => None,
    }
}

/// Accepts a raw frame for the display if it is complete: its bytes cover
/// its dimensions, and a row of it can be counted in `usize`.
///
/// The frame keeps the dimensions and the bytes of the raw frame. A raw frame
/// that is not complete is refused as a failed capture.
pub fn convert_frame(raw: RawFrame) -> (r: Result<Frame, CoordinatorError>)
    ensures
        r is Ok <==> raw@.complete(),
        r matches Ok(frame) ==> frame@ == raw@ && frame.well_formed()
            && frame.width == raw.width && frame.height == raw.height
            && frame.pixels == raw.pixels,
        r matches Err(e) ==> e == CoordinatorError::FrameCaptureFailed,
{
    let width = raw.width;
    let height = raw.height;
    match pack_bgra(width, height, raw.pixels) {
        Some(pixels) => Ok(Frame { width, height, pixels }),
        None => Err(CoordinatorError::FrameCaptureFailed),
    }
}

} // verus!
