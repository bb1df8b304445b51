//! Conversion of depth maps packed as 32-bit floats into RGBA images into
//! single-channel grayscale intensity images, with a shared job queue that a
//! pool of workers drains.
pub mod codec;
pub mod pixels;
pub mod queue;
pub mod worker;
