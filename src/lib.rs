//! Validated access to the CPU and memory binding interface of a native
//! hardware topology library.
//!
//! Requests are checked against the binding rules before any native call is
//! made, and the native result codes are turned into structured errors.
pub mod bitmap;
pub mod cpu_binding;
pub mod errors;
pub mod memory_binding;
