use bgcam::bgremoval::{binarize, resize_mask, should_recompute, MaskStage};
use bgcam::capture::{check_payload, PayloadVerdict};
use bgcam::composite::blend;
use bgcam::decoder::decoded_frames;
use bgcam::envelope::{MlFrames, PipelineError};
use bgcam::frame::{Frame, PixelType};
use bgcam::setup::{Setup, SetupError};
use std::time::Instant;

fn small_setup(mask_per_frame: u64) -> Setup {
    let mut s = Setup::standard();
    s.full_dec_width = 4;
    s.full_dec_height = 4;
    s.small_dec_width = 2;
    s.small_dec_height = 2;
    s.mask_per_frame = mask_per_frame;
    s
}

fn rgba_frame(width: i32, height: i32, data: Vec<u8>) -> Frame {
    Frame { width, height, pixel_type: PixelType::U8x4, data }
}

fn envelope(setup: &Setup) -> MlFrames {
    let full: Vec<u8> = (0..64).map(|i| i as u8).collect();
    decoded_frames(full, setup, Instant::now()).unwrap()
}

#[test]
fn as_rgb_drops_alpha() {
    let f = rgba_frame(2, 1, vec![1, 2, 3, 4, 5, 6, 7, 8]);
    assert_eq!(f.as_rgb(), vec![1, 2, 3, 5, 6, 7]);
}

#[test]
fn as_rgb_of_rgb_is_identity() {
    let f = Frame { width: 1, height: 2, pixel_type: PixelType::U8x3, data: vec![9, 8, 7, 6, 5, 4] };
    assert_eq!(f.as_rgb(), vec![9, 8, 7, 6, 5, 4]);
}

#[test]
fn as_rgba_adds_opaque_alpha() {
    let f = Frame { width: 2, height: 1, pixel_type: PixelType::U8x3, data: vec![1, 2, 3, 4, 5, 6] };
    assert_eq!(f.as_rgba(), vec![1, 2, 3, 255, 4, 5, 6, 255]);
}

#[test]
fn rgb_rgba_round_trip() {
    let f = rgba_frame(2, 1, vec![10, 20, 30, 40, 50, 60, 70, 80]);
    let rgb = f.as_rgb();
    let back = Frame { width: 2, height: 1, pixel_type: PixelType::U8x3, data: rgb.clone() }.as_rgba();
    assert_eq!(back, vec![10, 20, 30, 255, 50, 60, 70, 255]);
    let again = rgba_frame(2, 1, back.clone()).as_rgb();
    assert_eq!(again, rgb);
    assert_eq!(rgba_frame(2, 1, back.clone()).as_rgba(), back);
}

#[test]
fn as_bgra_swaps_red_and_blue() {
    let f = Frame { width: 1, height: 1, pixel_type: PixelType::U8x3, data: vec![1, 2, 3] };
    assert_eq!(f.as_bgra(), vec![3, 2, 1, 255]);
    let g = rgba_frame(1, 1, vec![1, 2, 3, 4]);
    assert_eq!(g.as_bgra(), vec![3, 2, 1, 4]);
}

#[test]
fn blend_keeps_foreground_and_clears_background() {
    let image = vec![1, 2, 3, 4, 5, 6, 7, 8];
    let mask = vec![0, 0, 0, 0, 0, 255, 0, 255];
    assert_eq!(blend(&image, &mask), vec![1, 2, 3, 4, 0, 0, 0, 0]);
}

#[test]
fn blend_of_empty_buffers_is_empty() {
    assert_eq!(blend(&[], &[]), Vec::<u8>::new());
}

#[test]
fn blend_drops_trailing_partial_pixel() {
    assert_eq!(blend(&[1, 2, 3, 4, 5], &[0, 0, 0, 0, 0]), vec![1, 2, 3, 4]);
}

#[test]
fn binarize_splits_at_threshold() {
    let m = binarize(&[236, 235, 0, 255], 235);
    assert_eq!(
        m,
        vec![0, 0, 0, 0, 0, 255, 0, 255, 0, 255, 0, 255, 0, 0, 0, 0]
    );
}

#[test]
fn binarize_pixels_are_binary() {
    let scores: Vec<u8> = (0..=255).collect();
    let m = binarize(&scores, 100);
    for px in m.chunks_exact(4) {
        assert!(px == [0, 0, 0, 0] || px == [0, 255, 0, 255]);
    }
}

#[test]
fn payload_with_one_sof_is_forwarded() {
    let p = [0xFF, 0xD8, 0x00, 0xFF, 0xC0, 0x11, 0xFF, 0xD9];
    assert_eq!(check_payload(&p), PayloadVerdict::Forward);
}

#[test]
fn payload_without_sof_is_forwarded() {
    assert_eq!(check_payload(&[0xFF, 0xD8]), PayloadVerdict::Forward);
}

#[test]
fn payload_with_two_sof_is_dropped() {
    let p = [0xFF, 0xD8, 0xFF, 0xC0, 0x01, 0xFF, 0xC0];
    assert_eq!(check_payload(&p), PayloadVerdict::MultipleSof);
}

#[test]
fn payload_without_soi_is_dropped() {
    assert_eq!(check_payload(&[0xD8, 0xFF, 0xFF, 0xC0]), PayloadVerdict::MissingSoi);
    assert_eq!(check_payload(&[]), PayloadVerdict::MissingSoi);
    assert_eq!(check_payload(&[0xFF]), PayloadVerdict::MissingSoi);
}

#[test]
fn cadence_zero_recomputes_every_frame() {
    assert!((0..10).all(|c| should_recompute(0, c)));
}

#[test]
fn cadence_three_over_six_frames() {
    let hits: Vec<u64> = (0..6).filter(|&c| should_recompute(3, c)).collect();
    assert_eq!(hits, vec![0, 3]);
}

#[test]
fn mask_stage_recomputes_two_masks_in_six_frames() {
    let setup = small_setup(3);
    let mut stage = MaskStage::new(setup);
    let mut computed = Vec::new();
    for i in 0..6u8 {
        let scores = if stage.needs_inference() {
            let s = vec![i * 40; 4];
            computed.push(s.clone());
            Some(s)
        } else {
            None
        };
        let out = stage.step(envelope(&setup), scores).unwrap();
        assert_eq!(out.ml_low_frame.data.len(), 16);
        assert_eq!(out.ml_high_frame.data.len(), 64);
    }
    assert_eq!(computed.len(), 2);
    assert_eq!(stage.count, 6);
}

#[test]
fn mask_stage_reuses_previous_mask() {
    let mut setup = small_setup(2);
    setup.mask_threshold = 100;
    let mut stage = MaskStage::new(setup);
    let first = stage.step(envelope(&setup), Some(vec![200, 0, 200, 0])).unwrap();
    assert_eq!(first.ml_low_frame.data, vec![0, 0, 0, 0, 0, 255, 0, 255, 0, 0, 0, 0, 0, 255, 0, 255]);
    assert!(!stage.needs_inference());
    let second = stage.step(envelope(&setup), Some(vec![0, 0, 0, 0])).unwrap();
    assert_eq!(second.ml_low_frame.data, first.ml_low_frame.data);
}

#[test]
fn mask_stage_refuses_missing_scores() {
    let setup = small_setup(0);
    let mut stage = MaskStage::new(setup);
    assert!(matches!(stage.step(envelope(&setup), None), Err(PipelineError::InferenceShape)));
    assert!(matches!(stage.step(envelope(&setup), Some(vec![1, 2, 3])), Err(PipelineError::InferenceShape)));
    assert_eq!(stage.count, 0);
}

#[test]
fn resize_mask_upscales_to_full_size() {
    let mask = binarize(&[255, 0, 0, 255], 235);
    let up = resize_mask(2, 2, &mask, 4, 4).unwrap();
    assert_eq!(up.len(), 4 * 4 * 4);
    for px in up.chunks_exact(4) {
        assert_eq!(px[0], 0);
        assert_eq!(px[2], 0);
    }
}

#[test]
fn uniform_mask_stays_uniform_after_upscale() {
    let mask = binarize(&[0, 0, 0, 0], 235);
    let up = resize_mask(2, 2, &mask, 6, 4).unwrap();
    assert_eq!(up.len(), 6 * 4 * 4);
    for px in up.chunks_exact(4) {
        assert_eq!(px, [0, 255, 0, 255]);
    }
}

#[test]
fn end_to_end_composite_keeps_only_foreground() {
    let setup = small_setup(0);
    let mut stage = MaskStage::new(setup);
    let env = envelope(&setup);
    let original = env.high_res_frame.data.clone();
    let out = stage.step(env, Some(vec![255, 255, 255, 255])).unwrap();
    let all_fg = out.composited();
    assert_eq!(all_fg.len(), 64);
    assert_eq!(all_fg, original);
    let out = stage.step(envelope(&setup), Some(vec![0, 0, 0, 0])).unwrap();
    assert_eq!(out.composited(), vec![0; 64]);
}

#[test]
fn decoded_frames_downsamples() {
    let setup = small_setup(0);
    let m = envelope(&setup);
    assert_eq!((m.high_res_frame.width, m.high_res_frame.height), (4, 4));
    assert_eq!((m.low_res_frame.width, m.low_res_frame.height), (2, 2));
    assert_eq!(m.low_res_frame.data.len(), 16);
    assert_eq!(m.high_res_frame.data, (0..64).map(|i| i as u8).collect::<Vec<u8>>());
    let uniform = decoded_frames(vec![7; 64], &setup, Instant::now()).unwrap();
    assert_eq!(uniform.low_res_frame.data, vec![7; 16]);
}

#[test]
fn decoded_frames_refuses_wrong_size() {
    let setup = small_setup(0);
    assert!(matches!(decoded_frames(vec![0; 63], &setup, Instant::now()), Err(PipelineError::BufferSize)));
}

#[test]
fn standard_setup_is_valid() {
    let s = Setup::standard();
    assert_eq!(s.validate(), Ok(()));
    assert_eq!(s.full_len(), 1920 * 1080 * 4);
}

#[test]
fn setup_errors() {
    let mut s = Setup::standard();
    s.small_dec_width = 0;
    assert_eq!(s.validate(), Err(SetupError::InvalidDimensions));
    let mut s = Setup::standard();
    s.full_dec_height = u32::MAX;
    assert_eq!(s.validate(), Err(SetupError::InvalidDimensions));
    let mut s = Setup::standard();
    s.small_dec_pixel_type = PixelType::U8x3;
    assert_eq!(s.validate(), Err(SetupError::MismatchedPixelTypes));
    let mut s = Setup::standard();
    s.ful_dec_pixel_type = PixelType::U8x3;
    s.small_dec_pixel_type = PixelType::U8x3;
    s.full_dec_width = 1;
    assert_eq!(s.validate(), Err(SetupError::PitchNotAligned));
}

#[test]
fn resize_mask_refuses_wrong_buffer_size() {
    let mask = binarize(&[0, 0, 0], 235);
    assert!(matches!(resize_mask(2, 2, &mask, 4, 4), Err(PipelineError::Resize)));
    let mut long = binarize(&[0, 0, 0, 0], 235);
    long.push(0);
    assert!(matches!(resize_mask(2, 2, &long, 4, 4), Err(PipelineError::Resize)));
}
