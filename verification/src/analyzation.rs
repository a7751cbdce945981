//! Analysis of audio frames.

pub use crate::loudness::{Loudness, LoudnessResult};
pub use crate::mel_bands::MelBands;
pub use crate::onset::{OnsetDetectionFunctions, OnsetFunction};
pub use crate::stft::{ComplexSpectrum, Istft, Stft, WindowType};
