//! Client-side core of a speech-to-text HTTP service integration: encoding
//! captured audio into a linear-PCM container, resolving the active provider
//! from a configuration snapshot, building the outgoing transcription request,
//! and validating the response.

pub mod client;
pub mod error;
pub mod settings;
pub mod text;
pub mod wav;

pub use text::trim_str;
pub use wav::samples_to_wav;
