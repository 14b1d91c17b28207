//! Version 2 of the public API.
pub mod productos;
