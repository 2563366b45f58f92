//! Verified building blocks for working with Windows composition, capture
//! and Direct3D/Direct2D interop: the COM result-code logic, the device
//! creation fallback, and the descriptors handed to the system calls.

pub mod desktop;
pub mod error;
pub mod universal;
