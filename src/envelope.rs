use vstd::prelude::*;
use crate::composite::{blend, blend_of};
use crate::frame::{rgba_of, Frame, PixelType};
use crate::setup::Setup;
use std::time::Instant;

verus! {

/// The monotonic capture time that travels unchanged with each camera frame.
#[verifier::external_type_specification]
#[verifier::external_body]
pub struct ExInstant(Instant);

/// A failure that ends one stage's loop.
#[derive(Clone, Copy, Debug, PartialEq, Eq, Structural)]
pub enum PipelineError {
    /// A decoded buffer does not have the size the configuration gives it.
    BufferSize,
    /// The model's output does not hold one score per reduced-resolution pixel.
    InferenceShape,
    /// Resampling an image or a mask failed.
    Resize,
}

/// What the decode stage hands to mask inference: one capture at two resolutions.
pub struct MlFrames {
    pub high_res_frame: Frame,
    pub low_res_frame: Frame,
    pub instant: Instant,
}

impl MlFrames {
    /// Both frames well formed, at the sizes and layout of the configuration.
    pub open spec fn fits(&self, setup: Setup) -> bool {
        &&& self.high_res_frame.wf()
        &&& self.low_res_frame.wf()
        &&& self.high_res_frame.width == setup.full_dec_width as int
        &&& self.high_res_frame.height == setup.full_dec_height as int
        &&& self.low_res_frame.width == setup.small_dec_width as int
        &&& self.low_res_frame.height == setup.small_dec_height as int
    }
}

/// What mask inference hands to presentation: one capture, its mask at both resolutions.
pub struct RaylibFrames {
    pub high_res_frame: Frame,
    pub low_res_frame: Frame,
    pub ml_low_frame: Frame,
    pub ml_high_frame: Frame,
    pub instant: Instant,
}

impl RaylibFrames {
    /// The full-resolution frame and its mask are well formed and of one size.
    pub open spec fn paired(&self) -> bool {
        &&& self.high_res_frame.wf()
        &&& self.ml_high_frame.wf()
        &&& self.high_res_frame.width == self.ml_high_frame.width
        &&& self.high_res_frame.height == self.ml_high_frame.height
    }

    /// The full-resolution frame with the background keyed out by the full-resolution mask.
    pub fn composited(&self) -> (r: Vec<u8>)
        requires
            self.paired(),
        ensures
            r@ == blend_of(
                rgba_of(self.high_res_frame.data@, self.high_res_frame.pixel_type),
                rgba_of(self.ml_high_frame.data@, self.ml_high_frame.pixel_type),
            ),
            r@.len() == self.high_res_frame.pixels() * 4,
    {
        let image = self.high_res_frame.as_rgba();
        let mask = self.ml_high_frame.as_rgba();
        let r = blend(image.as_slice(), mask.as_slice());
        proof {
            let n = self.high_res_frame.pixels() as int;
            assert(image@.len() == 4 * n);
            assert((4 * n) / 4 == n);
        }
        r
    }
}

} // verus!
