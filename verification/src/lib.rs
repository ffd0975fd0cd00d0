//! Verified core of a graphics-context bootstrap: format preference,
//! surface-configuration policy, host-binding checks and the error
//! taxonomy. The platform calls themselves (window system, GPU driver)
//! live outside this crate; they hand plain values in and take plain
//! values back.

pub mod binding;
pub mod error;
pub mod surface;
pub mod texture;
