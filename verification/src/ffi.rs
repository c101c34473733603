//! The plain records that stand for this library's values on the foreign side,
//! and the items of the standard library that are taken on trust.
pub mod audio;
pub mod system;
pub use audio::sfTimeSpan;
