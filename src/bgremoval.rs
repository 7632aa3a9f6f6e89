use vstd::prelude::*;
use crate::envelope::{MlFrames, PipelineError, RaylibFrames};
use crate::frame::{Frame, PixelType};
use crate::resample::{resampled, resize_buffer, Filter};
use crate::setup::Setup;

verus! {

/// Byte `c` (0 to 3) of the mask pixel for one score: transparent `(0,0,0,0)` above the
/// threshold (foreground), opaque green `(0,255,0,255)` otherwise (background).
pub open spec fn mask_byte(score: u8, threshold: u8, c: int) -> u8 {
    if score > threshold {
        0
    } else if c == 1 || c == 3 {
        255
    } else {
        0
    }
}

/// The RGBA mask for a sequence of per-pixel scores.
pub open spec fn mask_of(scores: Seq<u8>, threshold: u8) -> Seq<u8> {
    Seq::new(scores.len() * 4, |i: int| mask_byte(scores[i / 4], threshold, i % 4))
}

/// Pixel `q` of an RGBA buffer is exactly `(0,0,0,0)` or exactly `(0,255,0,255)`.
pub open spec fn is_binary_pixel(m: Seq<u8>, q: int) -> bool {
    ||| (m[4 * q] == 0 && m[4 * q + 1] == 0 && m[4 * q + 2] == 0 && m[4 * q + 3] == 0)
    ||| (m[4 * q] == 0 && m[4 * q + 1] == 255 && m[4 * q + 2] == 0 && m[4 * q + 3] == 255)
}

/// Turns per-pixel foreground scores into an RGBA mask, one 4-byte pixel per score.
pub fn binarize(scores: &[u8], threshold: u8) -> (r: Vec<u8>)
    requires
        scores@.len() * 4 <= usize::MAX,
    ensures
        r@ == mask_of(scores@, threshold),
        forall|q: int| 0 <= q < scores@.len() ==> #[trigger] is_binary_pixel(r@, q),
{
    let n: usize = scores.len();
    let mut mask: Vec<u8> = Vec::new();
    let mut p: usize = 0;
    while p < n
        invariant
            n == scores@.len(),
            n * 4 <= usize::MAX,
            p <= n,
            mask@.len() == 4 * p,
            forall|q: int, c: int|
                0 <= q < p && 0 <= c < 4 ==> #[trigger] mask@[4 * q + c] == mask_byte(
                    scores@[q],
                    threshold,
                    c,
                ),
        decreases n - p,
    {
        if scores[p] > threshold {
            mask.push(0);
            mask.push(0);
            mask.push(0);
            mask.push(0);
        } else {
            mask.push(0);
            mask.push(255);
            mask.push(0);
            mask.push(255);
        }
        p = p + 1;
    }
    assert forall|i: int| 0 <= i < 4 * n implies mask@[i] == mask_of(scores@, threshold)[i] by {
        let q = i / 4;
        let c = i % 4;
        assert(i == 4 * q + c);
        assert(mask@[4 * q + c] == mask_byte(scores@[q], threshold, c));
    }
    assert(mask@ =~= mask_of(scores@, threshold));
    assert forall|q: int| 0 <= q < n implies #[trigger] is_binary_pixel(mask@, q) by {
        assert(mask@[4 * q + 0] == mask_byte(scores@[q], threshold, 0));
        assert(mask@[4 * q + 1] == mask_byte(scores@[q], threshold, 1));
        assert(mask@[4 * q + 2] == mask_byte(scores@[q], threshold, 2));
        assert(mask@[4 * q + 3] == mask_byte(scores@[q], threshold, 3));
    }
    mask
}

pub open spec fn recompute_spec(mask_per_frame: u64, count: u64) -> bool {
    mask_per_frame == 0 || count % mask_per_frame == 0
}

/// Whether the frame with this counter value gets a fresh mask: every frame when the cadence
/// is 0, else each frame whose counter is a multiple of the cadence (the first one included).
pub fn should_recompute(mask_per_frame: u64, count: u64) -> (r: bool)
    ensures
        r == recompute_spec(mask_per_frame, count),
{
    mask_per_frame == 0 || count == 0 || count % mask_per_frame == 0
}

/// Upscales an RGBA mask with the box filter. A buffer that does not hold exactly
/// `src_width * src_height` RGBA pixels is refused.
pub fn resize_mask(
    src_width: u32,
    src_height: u32,
    src_data: &[u8],
    dst_width: u32,
    dst_height: u32,
) -> (r: Result<Vec<u8>, PipelineError>)
    ensures
        r is Ok <==> src_data@.len() == src_width as int * src_height as int * 4,
        r matches Ok(v) ==> v@ == resampled(
            src_data@,
            src_width as nat,
            src_height as nat,
            dst_width as nat,
            dst_height as nat,
            4,
            Filter::Box,
        ) && v@.len() == dst_width as int * dst_height as int * 4,
        r matches Err(e) ==> e == PipelineError::Resize,
{
    let len: usize = src_data.len();
    let need = match (src_width as usize).checked_mul(src_height as usize) {
        Some(pixels) => pixels.checked_mul(4),
        None => None,
    };
    let len_ok = match need {
        Some(need) => len == need,
        None => {
            proof {
                let a = src_width as int * src_height as int;
                assert(a * 4 >= a) by (nonlinear_arith)
                    requires
                        a >= 0,
                ;
            }
            false
        },
    };
    if !len_ok {
        return Err(PipelineError::Resize);
    }
    match resize_buffer(src_data, src_width, src_height, dst_width, dst_height, PixelType::U8x4, Filter::Box) {
        Some(v) => Ok(v),
        None => Err(PipelineError::Resize),
    }
}

/// Every 4-byte pixel of `m` is exactly `(0,0,0,0)` or exactly `(0,255,0,255)`.
pub open spec fn is_binary_mask(m: Seq<u8>) -> bool {
    forall|q: int| 0 <= q < m.len() / 4 ==> #[trigger] is_binary_pixel(m, q)
}

/// The mask inference stage between envelopes: its configuration, how many envelopes it has
/// handled, and the last reduced-resolution mask it computed.
pub struct MaskStage {
    pub setup: Setup,
    pub count: u64,
    pub mask: Vec<u8>,
}

impl MaskStage {
    /// A valid configuration, and a mask of the reduced size whenever the next envelope
    /// reuses it.
    pub open spec fn wf(&self) -> bool {
        &&& self.setup.valid()
        &&& recompute_spec(self.setup.mask_per_frame, self.count) || self.mask@.len()
            == self.setup.small_mask_len_spec()
        &&& is_binary_mask(self.mask@)
    }

    pub open spec fn scores_fit(&self, scores: Option<Vec<u8>>) -> bool {
        scores matches Some(s) && s@.len() == self.setup.small_dec_width as int
            * self.setup.small_dec_height as int
    }

    /// A stage that has handled no envelope yet.
    pub fn new(setup: Setup) -> (r: MaskStage)
        requires
            setup.valid(),
        ensures
            r.wf(),
            r.setup == setup,
            r.count == 0,
            r.mask@.len() == 0,
    {
        MaskStage { setup, count: 0, mask: Vec::new() }
    }

    /// Whether the next envelope needs the model's scores for its reduced-resolution frame.
    pub fn needs_inference(&self) -> (r: bool)
        ensures
            r == recompute_spec(self.setup.mask_per_frame, self.count),
    {
        should_recompute(self.setup.mask_per_frame, self.count)
    }

    /// Handles one envelope. When a fresh mask is due, `scores` must hold the model's output
    /// as one byte per reduced-resolution pixel; otherwise the last mask is reused and
    /// `scores` is ignored. The mask is then upscaled to full resolution and sent on with
    /// both frames and the capture time.
    pub fn step(&mut self, frames: MlFrames, scores: Option<Vec<u8>>) -> (r: Result<
        RaylibFrames,
        PipelineError,
    >)
        requires
            old(self).wf(),
            frames.fits(old(self).setup),
        ensures
            final(self).wf(),
            final(self).setup == old(self).setup,
            r == Err::<RaylibFrames, PipelineError>(PipelineError::InferenceShape) <==> recompute_spec(
                old(self).setup.mask_per_frame,
                old(self).count,
            ) && !old(self).scores_fit(scores),
            r == Err::<RaylibFrames, PipelineError>(PipelineError::InferenceShape) ==> final(self).count
                == old(self).count && final(self).mask@ == old(self).mask@,
            r != Err::<RaylibFrames, PipelineError>(PipelineError::InferenceShape) ==> {
                &&& final(self).count == (if old(self).count == u64::MAX {
                    0
                } else {
                    old(self).count + 1
                })
                &&& final(self).mask@ == (if recompute_spec(
                    old(self).setup.mask_per_frame,
                    old(self).count,
                ) {
                    mask_of(scores->Some_0@, old(self).setup.mask_threshold)
                } else {
                    old(self).mask@
                })
            },
            r is Ok <==> !(recompute_spec(old(self).setup.mask_per_frame, old(self).count)
                && !old(self).scores_fit(scores)),
            r matches Err(e) ==> e == PipelineError::InferenceShape,
            r matches Ok(out) ==> {
                &&& out.high_res_frame == frames.high_res_frame
                &&& out.low_res_frame == frames.low_res_frame
                &&& out.instant == frames.instant
                &&& out.paired()
                &&& out.ml_low_frame.wf()
                &&& out.ml_low_frame.width == frames.low_res_frame.width
                &&& out.ml_low_frame.height == frames.low_res_frame.height
                &&& out.ml_low_frame.pixel_type == PixelType::U8x4
                &&& out.ml_low_frame.data@ == final(self).mask@
                &&& is_binary_mask(out.ml_low_frame.data@)
                &&& out.ml_high_frame.pixel_type == PixelType::U8x4
                &&& out.ml_high_frame.data@ == resampled(
                    final(self).mask@,
                    old(self).setup.small_dec_width as nat,
                    old(self).setup.small_dec_height as nat,
                    old(self).setup.full_dec_width as nat,
                    old(self).setup.full_dec_height as nat,
                    4,
                    Filter::Box,
                )
            },
    {
        if self.needs_inference() {
            let n: usize = (self.setup.small_dec_width as usize) * (
            self.setup.small_dec_height as usize);
            match scores {
                Some(s) => {
                    if s.len() != n {
                        return Err(PipelineError::InferenceShape);
                    }
                    self.mask = binarize(s.as_slice(), self.setup.mask_threshold);
                    proof {
                        assert(self.mask@.len() / 4 == s@.len());
                    }
                },
                None => {
                    return Err(PipelineError::InferenceShape);
                },
            }
        }
        self.count = self.count.wrapping_add(1);
        let full_mask = resize_mask(
            self.setup.small_dec_width,
            self.setup.small_dec_height,
            self.mask.as_slice(),
            self.setup.full_dec_width,
            self.setup.full_dec_height,
        );
        let full_mask = match full_mask {
            Ok(v) => v,
            Err(e) => {
                return Err(e);
            },
        };
        let ml_high_frame = Frame {
            width: self.setup.full_dec_width as i32,
            height: self.setup.full_dec_height as i32,
            pixel_type: PixelType::U8x4,
            data: full_mask,
        };
        let ml_low_frame = Frame {
            width: frames.low_res_frame.width,
            height: frames.low_res_frame.height,
            pixel_type: PixelType::U8x4,
            data: self.mask.clone(),
        };
        Ok(RaylibFrames {
            high_res_frame: frames.high_res_frame,
            low_res_frame: frames.low_res_frame,
            ml_low_frame,
            ml_high_frame,
            instant: frames.instant,
        })
    }
}

} // verus!
