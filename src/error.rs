//! Failures of an export, from decoding the source to submitting the upload.
use vstd::prelude::*;

verus! {

/// Why an export did not complete. Every variant is final for the call that
/// reports it: nothing here is retried.
#[derive(Debug, Clone, Copy, PartialEq, Eq, Structural)]
pub enum ExportError {
    /// The source audio could not be read or is malformed.
    DecodeError,
    /// The encoder refused a configuration parameter.
    ConfigurationRejected,
    /// The encoder failed while encoding, or wrote nothing for a nonempty input.
    EncodingFailed,
    /// No probe of the encoded buffer holds a nonzero byte.
    TrimDegenerate,
    /// The upload server declined, or returned an incomplete descriptor.
    UploadAuthorizationFailed,
    /// The upload could not be transmitted.
    UploadTransportFailed,
}

} // verus!
