//! Audio-reactive LED strip engine: audio feature extraction, a closed catalog of
//! animation effects, a frame scheduler and a bounded command inbox.
use vstd::prelude::*;

pub mod color;
pub mod inbox;
pub mod signal;
pub mod agc;
pub mod audio;
pub mod effects;
pub mod controller;
pub mod types;
pub mod text;
pub mod scheduler;
pub mod network;
pub mod ntp;
pub mod wifi;
pub mod http;

verus! {

} // verus!
