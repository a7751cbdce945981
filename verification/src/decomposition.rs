//! Decomposition and interpolation of audio.

pub use crate::audio_transport::AudioTransport;
