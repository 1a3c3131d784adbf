//! Safe, verified front end for the DirectX shader compiler's COM-style interfaces.

pub mod ffi;
pub mod intellisense;
pub mod os;
pub mod unknown;
pub mod utils;
pub mod wrapper;
