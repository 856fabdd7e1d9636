//! Verified integer core of a template-matching wake word detector.
//!
//! The detector compares mel-frequency cepstral features of incoming audio
//! with a trained template by dynamic time warping.  Everything in that
//! pipeline that is decided by counting and indexing lives here and is proved:
//! how audio is cut into analysis frames, which bins each mel filter weighs and
//! by how much, which recordings take part in training and which of their rows
//! feed each row of the template, and when detection has nothing to compare.
//! The numeric kernels run on floating-point samples and are supplied by the
//! caller, who follows the layouts and plans computed here.
//!
//! Beside the detector stand three small helpers of a voice front end: the
//! packing of acknowledgement sounds as PCM and WAV data, a seeded noise
//! source for trying a detector out, and the reading of a transcript out of
//! a transcription service's reply.

pub mod config;
pub mod detector;
pub mod filterbank;
pub mod framing;
pub mod noise;
pub mod sounds;
pub mod training;
pub mod transcript;
