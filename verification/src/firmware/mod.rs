//! The button device: what it makes of its switch and of the serial line, what
//! it types, and what its LED ring shows.
//!
//! A moment is a number of nanoseconds since some fixed start of the clock.

pub mod button;
pub mod device;
pub mod gesture;
pub mod hid;
pub mod led;
pub mod machine;
pub mod serial;
