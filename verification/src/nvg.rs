//! Values of the vector-drawing interface that are plain numbers to the host.

pub mod color;
pub mod context;
pub mod enums;
