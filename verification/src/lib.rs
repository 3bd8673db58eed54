//! Callback ownership and marshalling for a flight-simulator plugin.

pub mod buffer;
pub mod comm_bus;
pub mod context;
pub mod exports;
pub mod host_string;
pub mod io;
pub mod network;
pub mod nvg;
pub mod registry;
pub mod render;
pub mod sys;
pub mod text;
pub mod utils;
pub mod var_struct;
pub mod vars;
