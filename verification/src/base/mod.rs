//! The driver objects the renderer is built from.

pub mod fence;
pub mod image;
pub mod semaphore;
