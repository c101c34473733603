//! Values and tools of the system module.
pub mod clock;
pub mod input_stream;
pub mod time;
pub use clock::Clock;
pub use input_stream::InputStream;
pub use time::Time;
