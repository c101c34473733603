//! Time values, a monotonic clock and the stream adapter of a multimedia
//! binding, each with a machine-checked contract.
//!
//! * [`system::Time`] is a signed span of time counted in microseconds, with
//!   wrapping integer arithmetic, and [`audio::TimeSpan`] a range made of two
//!   of them.
//! * [`system::Clock`] measures the time gone by on the monotonic clock.
//! * [`system::InputStream`] offers a seekable byte source as the four
//!   operations `read`, `seek`, `tell` and `get_size`, whose results follow the
//!   conventions of the foreign consumer: a byte count or a position on
//!   success, `-1` on failure.
pub mod audio;
pub mod ffi;
pub mod system;
