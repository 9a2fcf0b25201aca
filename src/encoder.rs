//! Everything the transcoding engine decides around the MP3 encoder: which
//! parameters it receives, how large its output buffer is, and what its
//! report means. The encoder calls themselves are made by the caller, who
//! hands back what the encoder reported as an `EncoderOutcome`.
use vstd::prelude::*;
use crate::error::ExportError;
use crate::trim::{cut_behind, find_end_of_data, has_end_of_data, stride_of, trimmed};

verus! {

/// Headroom added to the output buffer for headers and frame padding.
pub const DEFAULT_HEADROOM_BYTES: usize = 7200;

/// Target bitrate used by the mono export, in kilobits per second.
pub const DEFAULT_BITRATE_KBPS: i32 = 48;

/// Fastest quality level, used by the mono export.
pub const FASTEST_QUALITY: u8 = 9;

/// Highest quality level the encoder defines (0 is the best, 9 the fastest).
pub const MAX_QUALITY: u8 = 9;

/// Largest buffer or track length the encoder accepts (a C `int`).
pub const ENCODER_MAX_LEN: usize = 2147483647;

/// Parameters applied to the encoder before any sample is encoded. The
/// channel count is always one.
#[derive(Debug, Clone, Copy, PartialEq, Eq, Structural)]
pub struct EncoderConfig {
    pub sample_rate_hz: u32,
    pub bitrate_kbps: i32,
    pub quality: u8,
    /// Bytes added to the worst-case output size for headers and padding.
    pub headroom_bytes: usize,
}

impl EncoderConfig {
    /// Positive rates and a quality level the encoder defines.
    pub open spec fn is_valid(&self) -> bool {
        &&& self.sample_rate_hz > 0
        &&& self.bitrate_kbps > 0
        &&& self.quality <= MAX_QUALITY
    }

    /// Checks `is_valid`.
    pub fn check_valid(&self) -> (r: bool)
        ensures
            r == self.is_valid(),
    {
        self.sample_rate_hz > 0 && self.bitrate_kbps > 0 && self.quality <= MAX_QUALITY
    }
}

/// Output capacity for `n` samples encoded once: one byte per sample plus
/// the headroom.
pub open spec fn mono_capacity(n: int, headroom: int) -> int {
    n + headroom
}

/// Output capacity for `n` samples on the two-track path: `ceil(1.25 * n)`
/// plus the headroom.
pub open spec fn dual_capacity(n: int, headroom: int) -> int {
    (5 * n + 3) / 4 + headroom
}

/// What the encoder is to be given: channel count, sample rate, bitrate and
/// quality, applied in that order before `init_params`, and the length of the
/// zero-filled output buffer.
#[derive(Debug, Clone, Copy, PartialEq, Eq, Structural)]
pub struct EncodeJob {
    pub channels: u8,
    pub sample_rate_hz: u32,
    pub bitrate_kbps: i32,
    pub quality: u8,
    pub capacity: usize,
}

/// The job for `config` with an output buffer of `capacity` bytes.
pub open spec fn job_for(config: EncoderConfig, capacity: int) -> EncodeJob {
    EncodeJob {
        channels: 1,
        sample_rate_hz: config.sample_rate_hz,
        bitrate_kbps: config.bitrate_kbps,
        quality: config.quality,
        capacity: capacity as usize,
    }
}

/// What the encoder reported for a job.
#[derive(Debug, Clone, Copy, PartialEq, Eq, Structural)]
pub enum EncoderOutcome {
    /// No encoder context could be allocated.
    NoContext,
    /// A parameter setter or `init_params` refused.
    SettingRefused,
    /// The encode call itself failed.
    EncodeFailed,
    /// The encode call reported writing this many bytes.
    Wrote(usize),
}

/// An encoder's output buffer, of the capacity it was allocated with, and
/// the number of bytes the encoder reported writing into it.
pub struct EncodedBuffer {
    pub bytes: Vec<u8>,
    pub written: usize,
}

/// The job for `n` samples of one track, handed to the encoder as both its
/// left and right input. An invalid configuration is rejected before the
/// encoder is touched; an empty input, or one whose buffer would exceed what
/// the encoder can address, is an encoding failure.
pub fn prepare_mono(n: usize, config: &EncoderConfig) -> (r: Result<EncodeJob, ExportError>)
    ensures
        !config.is_valid() ==> r == Err::<EncodeJob, ExportError>(
            ExportError::ConfigurationRejected,
        ),
        config.is_valid() && (n == 0 || mono_capacity(n as int, config.headroom_bytes as int)
            > ENCODER_MAX_LEN) ==> r == Err::<EncodeJob, ExportError>(
            ExportError::EncodingFailed,
        ),
        config.is_valid() && n > 0 && mono_capacity(n as int, config.headroom_bytes as int)
            <= ENCODER_MAX_LEN ==> r == Ok::<EncodeJob, ExportError>(
            job_for(*config, mono_capacity(n as int, config.headroom_bytes as int)),
        ),
{
    if !config.check_valid() {
        return Err(ExportError::ConfigurationRejected);
    }
    if n == 0 || n > ENCODER_MAX_LEN || config.headroom_bytes > ENCODER_MAX_LEN - n {
        return Err(ExportError::EncodingFailed);
    }
    Ok(
        EncodeJob {
            channels: 1,
            sample_rate_hz: config.sample_rate_hz,
            bitrate_kbps: config.bitrate_kbps,
            quality: config.quality,
            capacity: n + config.headroom_bytes,
        },
    )
}

/// Computes `dual_capacity(n, headroom)`.
pub fn dual_capacity_of(n: usize, headroom: usize) -> (r: u64)
    requires
        n <= ENCODER_MAX_LEN,
        headroom <= ENCODER_MAX_LEN,
    ensures
        r as int == dual_capacity(n as int, headroom as int),
{
    (5 * (n as u64) + 3) / 4 + headroom as u64
}

/// The job for two tracks of `n` samples each on the two-track path, with
/// the same checks as `prepare_mono`: zero frames is an encoding failure.
pub fn prepare_dual(n: usize, config: &EncoderConfig) -> (r: Result<EncodeJob, ExportError>)
    ensures
        !config.is_valid() ==> r == Err::<EncodeJob, ExportError>(
            ExportError::ConfigurationRejected,
        ),
        config.is_valid() && (n == 0 || dual_capacity(n as int, config.headroom_bytes as int)
            > ENCODER_MAX_LEN) ==> r == Err::<EncodeJob, ExportError>(
            ExportError::EncodingFailed,
        ),
        config.is_valid() && n > 0 && dual_capacity(n as int, config.headroom_bytes as int)
            <= ENCODER_MAX_LEN ==> r == Ok::<EncodeJob, ExportError>(
            job_for(*config, dual_capacity(n as int, config.headroom_bytes as int)),
        ),
{
    if !config.check_valid() {
        return Err(ExportError::ConfigurationRejected);
    }
    if n == 0 || n > ENCODER_MAX_LEN || config.headroom_bytes > ENCODER_MAX_LEN {
        return Err(ExportError::EncodingFailed);
    }
    let capacity = dual_capacity_of(n, config.headroom_bytes);
    if capacity > ENCODER_MAX_LEN as u64 {
        return Err(ExportError::EncodingFailed);
    }
    Ok(
        EncodeJob {
            channels: 1,
            sample_rate_hz: config.sample_rate_hz,
            bitrate_kbps: config.bitrate_kbps,
            quality: config.quality,
            capacity: capacity as usize,
        },
    )
}

/// One call the caller makes on the encoder while running a job.
#[derive(Debug, Clone, Copy, PartialEq, Eq, Structural)]
pub enum EncoderCall {
    SetChannels(u8),
    SetSampleRate(u32),
    SetKilobitrate(i32),
    SetQuality(u8),
    InitParams,
    /// Encode both tracks into a zero-filled buffer of `capacity` bytes.
    Encode { capacity: usize },
}

/// The calls that run `job`, in order: every parameter is applied before
/// `init_params`, and encoding comes last, once.
pub open spec fn encoder_calls(job: EncodeJob) -> Seq<EncoderCall> {
    seq![
        EncoderCall::SetChannels(job.channels),
        EncoderCall::SetSampleRate(job.sample_rate_hz),
        EncoderCall::SetKilobitrate(job.bitrate_kbps),
        EncoderCall::SetQuality(job.quality),
        EncoderCall::InitParams,
        EncoderCall::Encode { capacity: job.capacity },
    ]
}

/// The call at position `step` of `encoder_calls(*job)`, or `None` once the
/// job is done. A caller stops at the first call the encoder refuses.
pub fn encoder_call(job: &EncodeJob, step: usize) -> (r: Option<EncoderCall>)
    ensures
        step < encoder_calls(*job).len() ==> r == Some(encoder_calls(*job)[step as int]),
        step >= encoder_calls(*job).len() ==> r is None,
{
    if step == 0 {
        Some(EncoderCall::SetChannels(job.channels))
    } else if step == 1 {
        Some(EncoderCall::SetSampleRate(job.sample_rate_hz))
    } else if step == 2 {
        Some(EncoderCall::SetKilobitrate(job.bitrate_kbps))
    } else if step == 3 {
        Some(EncoderCall::SetQuality(job.quality))
    } else if step == 4 {
        Some(EncoderCall::InitParams)
    } else if step == 5 {
        Some(EncoderCall::Encode { capacity: job.capacity })
    } else {
        None
    }
}

/// Whether the encoder's report, for a buffer of `len` bytes allocated for
/// `job`, is a usable result: a nonzero count that fits the capacity.
pub open spec fn accepted_count(job: EncodeJob, outcome: EncoderOutcome, len: int) -> bool {
    match outcome {
        EncoderOutcome::Wrote(n) => len == job.capacity && 0 < n <= job.capacity,
        _ => false,
    }
}

/// The error an unusable report stands for.
pub open spec fn outcome_error(outcome: EncoderOutcome) -> ExportError {
    match outcome {
        EncoderOutcome::SettingRefused => ExportError::ConfigurationRejected,
        _ => ExportError::EncodingFailed,
    }
}

/// Turns the encoder's report on `job` into the encoded buffer, or into the
/// error it stands for. A count of zero for the nonempty input, or one beyond
/// the capacity, is a failure of the encoder, never an empty result.
pub fn accept_encoded(job: &EncodeJob, outcome: EncoderOutcome, bytes: Vec<u8>) -> (r: Result<
    EncodedBuffer,
    ExportError,
>)
    ensures
        accepted_count(*job, outcome, bytes@.len() as int) <==> r is Ok,
        match r {
            Ok(e) => {
                &&& e.bytes@ == bytes@
                &&& outcome == EncoderOutcome::Wrote(e.written)
                &&& e.bytes@.len() == job.capacity
                &&& 0 < e.written <= e.bytes@.len()
            },
            Err(e) => e == outcome_error(outcome),
        },
{
    match outcome {
        EncoderOutcome::Wrote(n) => {
            if bytes.len() != job.capacity || n == 0 || n > job.capacity {
                Err(ExportError::EncodingFailed)
            } else {
                Ok(EncodedBuffer { bytes, written: n })
            }
        },
        EncoderOutcome::SettingRefused => Err(ExportError::ConfigurationRejected),
        _ => Err(ExportError::EncodingFailed),
    }
}

/// Cuts the encoded buffer behind its data (see `trim`), or reports
/// `TrimDegenerate` when no probe of it holds a nonzero byte.
pub fn trim_encoded(encoded: EncodedBuffer, sample_rate_hz: u32) -> (r: Result<
    Vec<u8>,
    ExportError,
>)
    ensures
        has_end_of_data(encoded.bytes@, stride_of(sample_rate_hz)) <==> r is Ok,
        match r {
            Ok(out) => {
                &&& out@ == trimmed(encoded.bytes@, stride_of(sample_rate_hz))
                &&& 0 < out@.len() <= encoded.bytes@.len()
            },
            Err(e) => e == ExportError::TrimDegenerate,
        },
{
    match find_end_of_data(&encoded.bytes, sample_rate_hz) {
        Some(j) => Ok(cut_behind(encoded.bytes, sample_rate_hz, j)),
        None => Err(ExportError::TrimDegenerate),
    }
}

} // verus!
