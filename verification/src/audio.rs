//! Values of the audio module.
pub mod time_span;
pub use time_span::TimeSpan;
