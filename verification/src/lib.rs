//! Camera capture support library: capability negotiation and frame decoding.
//!
//! A capture device advertises the frame intervals and resolutions it
//! supports, either as an explicit discrete set or as a stepwise grid.
//! This crate decides whether a requested configuration is achievable,
//! reports the supported alternatives when it is not, and converts raw
//! captured frames into tightly packed RGB buffers.

pub mod builder;
pub mod caps;
pub mod decode;
pub mod error;
pub mod frame;

pub use builder::Builder;
pub use caps::Capability;
pub use error::Error;
