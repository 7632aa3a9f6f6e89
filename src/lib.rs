//! Real-time background removal for a camera feed: the frame and mask model, payload
//! validation, decode-stage pairing, mask inference bookkeeping and compositing.
use vstd::prelude::*;

pub mod bgremoval;
pub mod capture;
pub mod composite;
pub mod decoder;
pub mod envelope;
pub mod frame;
pub mod resample;
pub mod setup;

verus! {

} // verus!
