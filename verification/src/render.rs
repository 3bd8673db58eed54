//! Rendering back ends.

pub mod nanovg_shim;
