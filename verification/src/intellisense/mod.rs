//! Code navigation: translation units, cursors and source ranges.

pub mod ffi;
pub mod wrapper;
