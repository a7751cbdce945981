//! Segmentation of audio streams.

pub use crate::envelope_seg::EnvelopeSegmentation;
pub use crate::novelty_seg::NoveltySegmentation;
pub use crate::onset_seg::OnsetSegmentation;
pub use crate::transient_seg::TransientSegmentation;
