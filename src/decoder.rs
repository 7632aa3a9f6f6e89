use vstd::prelude::*;
use crate::envelope::{MlFrames, PipelineError};
use crate::frame::Frame;
use crate::resample::{resampled, resize_buffer, Filter};
use crate::setup::Setup;
use std::time::Instant;

verus! {

/// Pairs a freshly decoded full-resolution buffer with its Lanczos downsample at the reduced
/// resolution. Both frames carry the configured sizes and layout and the capture time.
pub fn decoded_frames(full: Vec<u8>, setup: &Setup, instant: Instant) -> (r: Result<
    MlFrames,
    PipelineError,
>)
    requires
        setup.valid(),
    ensures
        r == Err::<MlFrames, PipelineError>(PipelineError::BufferSize) <==> full@.len()
            != setup.full_len_spec(),
        r is Ok <==> full@.len() == setup.full_len_spec(),
        r matches Err(e) ==> e == PipelineError::BufferSize,
        r matches Ok(m) ==> {
            &&& m.fits(*setup)
            &&& m.instant == instant
            &&& m.high_res_frame.data@ == full@
            &&& m.high_res_frame.pixel_type == setup.ful_dec_pixel_type
            &&& m.low_res_frame.pixel_type == setup.small_dec_pixel_type
            &&& m.low_res_frame.data@ == resampled(
                full@,
                setup.full_dec_width as nat,
                setup.full_dec_height as nat,
                setup.small_dec_width as nat,
                setup.small_dec_height as nat,
                setup.ful_dec_pixel_type.channels(),
                Filter::Lanczos3,
            )
        },
{
    if full.len() != setup.full_len() {
        return Err(PipelineError::BufferSize);
    }
    let small = resize_buffer(
        full.as_slice(),
        setup.full_dec_width,
        setup.full_dec_height,
        setup.small_dec_width,
        setup.small_dec_height,
        setup.ful_dec_pixel_type,
        Filter::Lanczos3,
    );
    match small {
        None => Err(PipelineError::Resize),
        Some(data) => {
            let high_res_frame = Frame {
                width: setup.full_dec_width as i32,
                height: setup.full_dec_height as i32,
                pixel_type: setup.ful_dec_pixel_type,
                data: full,
            };
            let low_res_frame = Frame {
                width: setup.small_dec_width as i32,
                height: setup.small_dec_height as i32,
                pixel_type: setup.small_dec_pixel_type,
                data,
            };
            Ok(MlFrames { high_res_frame, low_res_frame, instant })
        },
    }
}

} // verus!
