use vstd::prelude::*;
use crate::frame::PixelType;

verus! {

/// Why a pipeline configuration is refused at startup.
#[derive(Clone, Copy, Debug, PartialEq, Eq, Structural)]
pub enum SetupError {
    /// A decode size is zero, exceeds `i32::MAX`, or its buffer does not fit in memory.
    InvalidDimensions,
    /// The full and reduced resolutions use different pixel layouts.
    MismatchedPixelTypes,
    /// A row of the full-resolution decode target is not a multiple of 4 bytes.
    PitchNotAligned,
}

/// Immutable configuration of the pipeline, built once at startup.
#[derive(Clone, Copy, Debug)]
pub struct Setup {
    pub camera_device: usize,
    pub capture_width: u32,
    pub capture_res_height: u32,
    pub full_dec_width: u32,
    pub full_dec_height: u32,
    pub ful_dec_pixel_type: PixelType,
    pub small_dec_width: u32,
    pub small_dec_height: u32,
    pub small_dec_pixel_type: PixelType,
    /// A new mask is computed when the frame counter is a multiple of this; 0 means every frame.
    pub mask_per_frame: u64,
    /// Scores above this are foreground.
    pub mask_threshold: u8,
}

pub open spec fn dim_ok(d: u32) -> bool {
    0 < d <= i32::MAX
}

impl Setup {
    pub open spec fn full_len_spec(&self) -> int {
        self.full_dec_width as int * self.full_dec_height as int * self.ful_dec_pixel_type.channels()
    }

    pub open spec fn small_mask_len_spec(&self) -> int {
        self.small_dec_width as int * self.small_dec_height as int * 4
    }

    pub open spec fn full_mask_len_spec(&self) -> int {
        self.full_dec_width as int * self.full_dec_height as int * 4
    }

    pub open spec fn dims_ok(&self) -> bool {
        &&& dim_ok(self.full_dec_width)
        &&& dim_ok(self.full_dec_height)
        &&& dim_ok(self.small_dec_width)
        &&& dim_ok(self.small_dec_height)
        &&& self.full_mask_len_spec() <= usize::MAX
        &&& self.small_mask_len_spec() <= usize::MAX
    }

    pub open spec fn pitch_aligned(&self) -> bool {
        (self.full_dec_width as int * self.ful_dec_pixel_type.channels()) % 4 == 0
    }

    /// A configuration the pipeline can run with.
    pub open spec fn valid(&self) -> bool {
        &&& self.dims_ok()
        &&& self.ful_dec_pixel_type == self.small_dec_pixel_type
        &&& self.pitch_aligned()
    }

    /// The configuration the pipeline runs with by default: the first camera, 1920x1080 MJPEG
    /// decoded to RGBA, 512x512 for inference, a fresh mask on every frame, threshold 235.
    pub fn standard() -> (r: Setup)
        ensures
            r.valid(),
            r.full_dec_width == 1920 && r.full_dec_height == 1080,
            r.small_dec_width == 512 && r.small_dec_height == 512,
            r.ful_dec_pixel_type == PixelType::U8x4,
            r.mask_per_frame == 0,
            r.mask_threshold == 235,
    {
        Setup {
            camera_device: 0,
            capture_width: 1920,
            capture_res_height: 1080,
            full_dec_width: 1920,
            full_dec_height: 1080,
            ful_dec_pixel_type: PixelType::U8x4,
            small_dec_width: 512,
            small_dec_height: 512,
            small_dec_pixel_type: PixelType::U8x4,
            mask_per_frame: 0,
            mask_threshold: 235,
        }
    }

    /// The startup check: refuses sizes, layouts and pitches the pipeline cannot run with.
    pub fn validate(&self) -> (r: Result<(), SetupError>)
        ensures
            r is Ok <==> self.valid(),
            r == Err::<(), SetupError>(SetupError::InvalidDimensions) <==> !self.dims_ok(),
            r == Err::<(), SetupError>(SetupError::MismatchedPixelTypes) <==> self.dims_ok()
                && self.ful_dec_pixel_type != self.small_dec_pixel_type,
            r == Err::<(), SetupError>(SetupError::PitchNotAligned) <==> self.dims_ok()
                && self.ful_dec_pixel_type == self.small_dec_pixel_type && !self.pitch_aligned(),
    {
        let max: u32 = i32::MAX as u32;
        if self.full_dec_width == 0 || self.full_dec_width > max || self.full_dec_height == 0
            || self.full_dec_height > max || self.small_dec_width == 0 || self.small_dec_width
            > max || self.small_dec_height == 0 || self.small_dec_height > max {
            return Err(SetupError::InvalidDimensions);
        }
        let full = (self.full_dec_width as usize).checked_mul(self.full_dec_height as usize);
        let small = (self.small_dec_width as usize).checked_mul(self.small_dec_height as usize);
        match (full, small) {
            (Some(f), Some(s)) => {
                if f.checked_mul(4).is_none() || s.checked_mul(4).is_none() {
                    return Err(SetupError::InvalidDimensions);
                }
            },
            _ => {
                proof {
                    let a = self.full_dec_width as int * self.full_dec_height as int;
                    let b = self.small_dec_width as int * self.small_dec_height as int;
                    assert(a * 4 >= a && b * 4 >= b);
                }
                return Err(SetupError::InvalidDimensions);
            },
        }
        if self.ful_dec_pixel_type != self.small_dec_pixel_type {
            return Err(SetupError::MismatchedPixelTypes);
        }
        let channels: usize = self.ful_dec_pixel_type.size();
        let pitch: u64 = self.full_dec_width as u64 * channels as u64;
        if pitch % 4 != 0 {
            return Err(SetupError::PitchNotAligned);
        }
        Ok(())
    }

    /// Bytes in the full-resolution decode target.
    pub fn full_len(&self) -> (r: usize)
        requires
            self.valid(),
        ensures
            r == self.full_len_spec(),
    {
        (self.full_dec_width as usize) * (self.full_dec_height as usize)
            * self.ful_dec_pixel_type.size()
    }
}

} // verus!
