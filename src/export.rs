//! The two export paths: a mono capture exported at the caller's sample rate,
//! and a decoded stereo source exported on the two-track path.
use vstd::prelude::*;
use crate::encoder::{
    accept_encoded, accepted_count, dual_capacity, job_for, mono_capacity, outcome_error,
    prepare_dual, prepare_mono, trim_encoded, EncodeJob, EncoderConfig, EncoderOutcome,
    DEFAULT_BITRATE_KBPS, DEFAULT_HEADROOM_BYTES, ENCODER_MAX_LEN, FASTEST_QUALITY,
};
use crate::error::ExportError;
use crate::trim::{has_end_of_data, stride_of, trimmed};

verus! {

/// What the caller asks of a mono export.
#[derive(Debug, Clone, Copy, PartialEq, Eq, Structural)]
pub struct ReceivedTargetSpec {
    pub sample_rate: u32,
}

/// Sample rate of the two-track export, in hertz.
pub const STEREO_SOURCE_SAMPLE_RATE_HZ: u32 = 16000;

/// Quality level of the two-track export.
pub const STEREO_SOURCE_QUALITY: u8 = 4;

/// The configuration `mono_export_config` returns.
pub open spec fn mono_export_config_of(target: ReceivedTargetSpec) -> EncoderConfig {
    EncoderConfig {
        sample_rate_hz: target.sample_rate,
        bitrate_kbps: DEFAULT_BITRATE_KBPS,
        quality: FASTEST_QUALITY,
        headroom_bytes: DEFAULT_HEADROOM_BYTES,
    }
}

/// The configuration `stereo_source_config` returns.
pub open spec fn stereo_source_config_spec() -> EncoderConfig {
    EncoderConfig {
        sample_rate_hz: STEREO_SOURCE_SAMPLE_RATE_HZ,
        bitrate_kbps: DEFAULT_BITRATE_KBPS,
        quality: STEREO_SOURCE_QUALITY,
        headroom_bytes: DEFAULT_HEADROOM_BYTES,
    }
}

/// Encoder parameters of the mono export: the target's sample rate, the
/// default bitrate, the fastest quality and the default headroom.
pub fn mono_export_config(target: &ReceivedTargetSpec) -> (r: EncoderConfig)
    ensures
        r == mono_export_config_of(*target),
{
    EncoderConfig {
        sample_rate_hz: target.sample_rate,
        bitrate_kbps: DEFAULT_BITRATE_KBPS,
        quality: FASTEST_QUALITY,
        headroom_bytes: DEFAULT_HEADROOM_BYTES,
    }
}

/// Encoder parameters of the two-track export.
pub fn stereo_source_config() -> (r: EncoderConfig)
    ensures
        r == stereo_source_config_spec(),
        r.is_valid(),
{
    EncoderConfig {
        sample_rate_hz: STEREO_SOURCE_SAMPLE_RATE_HZ,
        bitrate_kbps: DEFAULT_BITRATE_KBPS,
        quality: STEREO_SOURCE_QUALITY,
        headroom_bytes: DEFAULT_HEADROOM_BYTES,
    }
}

/// Splits decoded `(left, right)` frames into two 16-bit tracks, each sample
/// narrowed to its low 16 bits.
pub fn split_stereo_frames(frames: &Vec<(i32, i32)>) -> (r: (Vec<i16>, Vec<i16>))
    ensures
        r.0@.len() == frames@.len(),
        r.1@.len() == frames@.len(),
        forall|k: int|
            0 <= k < frames@.len() ==> r.0@[k] == (#[trigger] frames@[k]).0 as i16 && r.1@[k]
                == frames@[k].1 as i16,
{
    let mut left: Vec<i16> = Vec::new();
    let mut right: Vec<i16> = Vec::new();
    let mut i: usize = 0;
    while i < frames.len()
        invariant
            i <= frames@.len(),
            left@.len() == i,
            right@.len() == i,
            forall|k: int|
                0 <= k < i ==> left@[k] == (#[trigger] frames@[k]).0 as i16 && right@[k]
                    == frames@[k].1 as i16,
        decreases frames@.len() - i,
    {
        let (l, r) = frames[i];
        left.push(l as i16);
        right.push(r as i16);
        i = i + 1;
    }
    (left, right)
}

/// What the encoder is handed for one export: the job, the left and right
/// tracks, and the zero-filled output buffer of the job's capacity.
pub struct EncodeRequest {
    pub job: EncodeJob,
    pub left: Vec<i16>,
    pub right: Vec<i16>,
    pub output: Vec<u8>,
}

/// A zero-filled buffer of `capacity` bytes.
pub fn zeroed_output(capacity: usize) -> (r: Vec<u8>)
    ensures
        r@ == Seq::new(capacity as nat, |k: int| 0u8),
{
    let mut r: Vec<u8> = Vec::new();
    let mut i: usize = 0;
    while i < capacity
        invariant
            i <= capacity,
            r@ == Seq::new(i as nat, |k: int| 0u8),
        decreases capacity - i,
    {
        r.push(0u8);
        i = i + 1;
        proof {
            assert(r@ =~= Seq::new(i as nat, |k: int| 0u8));
        }
    }
    r
}

/// The encoder's input for a mono export: the samples as both tracks, the
/// job of `prepare_mono` for the target's configuration, and a zero-filled
/// output buffer. Fails exactly as `prepare_mono` does, so an empty capture
/// is an encoding failure.
pub fn mono_export_request(samples: &Vec<i16>, target: &ReceivedTargetSpec) -> (r: Result<
    EncodeRequest,
    ExportError,
>)
    ensures
        (target.sample_rate > 0 && samples@.len() > 0 && mono_capacity(
            samples@.len() as int,
            DEFAULT_HEADROOM_BYTES as int,
        ) <= ENCODER_MAX_LEN) <==> r is Ok,
        match r {
            Ok(q) => {
                &&& q.job == job_for(
                    mono_export_config_of(*target),
                    mono_capacity(samples@.len() as int, DEFAULT_HEADROOM_BYTES as int),
                )
                &&& q.left@ == samples@
                &&& q.right@ == samples@
                &&& q.output@ == Seq::new(q.job.capacity as nat, |k: int| 0u8)
            },
            Err(e) => if target.sample_rate == 0 {
                e == ExportError::ConfigurationRejected
            } else {
                e == ExportError::EncodingFailed
            },
        },
{
    let config = mono_export_config(target);
    let job = prepare_mono(samples.len(), &config)?;
    let output = zeroed_output(job.capacity);
    Ok(EncodeRequest { job, left: samples.clone(), right: samples.clone(), output })
}

/// The encoder's input for a decoded stereo source: the frames split into
/// two tracks, the job of `prepare_dual` for the two-track configuration, and
/// a zero-filled output buffer. No frames at all is an encoding failure.
pub fn stereo_export_request(frames: &Vec<(i32, i32)>) -> (r: Result<EncodeRequest, ExportError>)
    ensures
        (frames@.len() > 0 && dual_capacity(frames@.len() as int, DEFAULT_HEADROOM_BYTES as int)
            <= ENCODER_MAX_LEN) <==> r is Ok,
        match r {
            Ok(q) => {
                &&& q.job == job_for(
                    stereo_source_config_spec(),
                    dual_capacity(frames@.len() as int, DEFAULT_HEADROOM_BYTES as int),
                )
                &&& q.left@.len() == frames@.len()
                &&& q.right@.len() == frames@.len()
                &&& forall|k: int|
                    0 <= k < frames@.len() ==> q.left@[k] == (#[trigger] frames@[k]).0 as i16
                        && q.right@[k] == frames@[k].1 as i16
                &&& q.output@ == Seq::new(q.job.capacity as nat, |k: int| 0u8)
            },
            Err(e) => e == ExportError::EncodingFailed,
        },
{
    let (left, right) = split_stereo_frames(frames);
    let job = prepare_dual(left.len(), &stereo_source_config())?;
    let output = zeroed_output(job.capacity);
    Ok(EncodeRequest { job, left, right, output })
}

/// Finishes a mono export once the encoder has run `job`: the encoder's
/// report is checked, then the buffer is cut behind its data. Success comes
/// exactly when the report is a usable count and some probe of the buffer
/// holds a nonzero byte; what remains is then a nonempty prefix of the
/// buffer.
pub fn complete_mono_export(
    job: &EncodeJob,
    outcome: EncoderOutcome,
    bytes: Vec<u8>,
) -> (r: Result<Vec<u8>, ExportError>)
    ensures
        (accepted_count(*job, outcome, bytes@.len() as int) && has_end_of_data(
            bytes@,
            stride_of(job.sample_rate_hz),
        )) <==> r is Ok,
        match r {
            Ok(out) => {
                &&& out@ == trimmed(bytes@, stride_of(job.sample_rate_hz))
                &&& 0 < out@.len() <= job.capacity
            },
            Err(e) => if accepted_count(*job, outcome, bytes@.len() as int) {
                e == ExportError::TrimDegenerate
            } else {
                e == outcome_error(outcome)
            },
        },
{
    let encoded = accept_encoded(job, outcome, bytes)?;
    trim_encoded(encoded, job.sample_rate_hz)
}

/// Finishes a two-track export once the encoder has run `job`: the buffer is
/// returned whole when the report is a usable count, and the error the
/// report stands for otherwise.
pub fn complete_dual_export(
    job: &EncodeJob,
    outcome: EncoderOutcome,
    bytes: Vec<u8>,
) -> (r: Result<Vec<u8>, ExportError>)
    ensures
        accepted_count(*job, outcome, bytes@.len() as int) <==> r is Ok,
        match r {
            Ok(out) => out@ == bytes@ && out@.len() == job.capacity,
            Err(e) => e == outcome_error(outcome),
        },
{
    let encoded = accept_encoded(job, outcome, bytes)?;
    Ok(encoded.bytes)
}

} // verus!
