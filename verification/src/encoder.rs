//! What the encoder is constructed from.

use crate::error::EncodeError;
use crate::quality::{bitrate_fits, checked_get_quality, spec_get_quality};
use vstd::prelude::*;

verus! {

/// The codec of the outgoing video.
#[derive(Clone, Copy, Debug, PartialEq, Eq, Structural)]
pub enum VideoCodecId {
    VP8,
    VP9,
}

/// The unit of output timestamps, as a fraction of a second.
#[derive(Clone, Copy, Debug, PartialEq, Eq, Structural)]
pub struct Timebase {
    pub num: i32,
    pub den: i32,
}

/// The configuration of an encoder.
#[derive(Clone, Copy, Debug, PartialEq, Eq, Structural)]
pub struct Config {
    pub width: u32,
    pub height: u32,
    /// Precision of output timestamps.
    pub timebase: Timebase,
    pub bitrate: u32,
    pub codec: VideoCodecId,
    pub rc_min_quantizer: u32,
    pub rc_max_quantizer: u32,
    pub speed: i32,
}

/// The encoder configuration for a `width` by `height` display at quality
/// `q`: VP9 with millisecond timestamps. Sizes are cut to the 32 bits of the
/// configuration's fields.
pub open spec fn spec_encoder_config(width: usize, height: usize, q: i32) -> Config {
    Config {
        width: width as u32,
        height: height as u32,
        timebase: Timebase { num: 1, den: 1000 },
        bitrate: spec_get_quality(width, height, q).0,
        codec: VideoCodecId::VP9,
        rc_min_quantizer: spec_get_quality(width, height, q).1,
        rc_max_quantizer: spec_get_quality(width, height, q).2,
        speed: spec_get_quality(width, height, q).3,
    }
}

/// The encoder configuration for a `width` by `height` display at quality
/// `q`; an error where the bitrate does not fit.
pub fn encoder_config(width: usize, height: usize, q: i32) -> (r: Result<Config, EncodeError>)
    ensures
        bitrate_fits(width, height, q) ==> r == Ok::<Config, EncodeError>(
            spec_encoder_config(width, height, q),
        ),
        !bitrate_fits(width, height, q) ==> r == Err::<Config, EncodeError>(EncodeError::Bitrate),
{
    match checked_get_quality(width, height, q) {
        Some((bitrate, rc_min_quantizer, rc_max_quantizer, speed)) => Ok(
            Config {
                width: #[verifier::truncate]
                (width as u32),
                height: #[verifier::truncate]
                (height as u32),
                timebase: Timebase { num: 1, den: 1000 },
                bitrate,
                codec: VideoCodecId::VP9,
                rc_min_quantizer,
                rc_max_quantizer,
                speed,
            },
        ),
        None => Err(EncodeError::Bitrate),
    }
}

/// The number of encoder threads on a machine with `cpus` processing
/// units: half of them, cut to 32 bits.
pub open spec fn spec_encoder_threads(cpus: usize) -> u32 {
    (cpus / 2) as u32
}

/// The number of encoder threads on a machine with `cpus` processing units.
pub fn encoder_threads(cpus: usize) -> (threads: u32)
    ensures
        threads == spec_encoder_threads(cpus),
{
    #[verifier::truncate]
    ((cpus / 2) as u32)
}

/// `num_cpus::get`: the number of logical processing units available to
/// this process. The number depends on the machine and on the limits set
/// for the process, so nothing is promised of it.
#[verifier::external_body]
fn available_cpus() -> (cpus: usize) {
    num_cpus::get()
}

/// The number of encoder threads on this machine: half of the processing
/// units that are available.
pub fn default_encoder_threads() -> (threads: u32)
    ensures
        exists|cpus: usize| threads == spec_encoder_threads(cpus),
{
    encoder_threads(available_cpus())
}

} // verus!
