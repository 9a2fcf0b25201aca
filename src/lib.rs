//! Transcoding of mono PCM samples into MP3, with the removal of the encoder
//! buffer's unused tail and the preparation of a presigned upload.
pub mod encoder;
pub mod error;
pub mod export;
pub mod trim;
pub mod upload;
