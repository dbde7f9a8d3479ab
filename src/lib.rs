//! GPU-assisted frame transforms for animated raster containers.
//!
//! The library holds the verified core: the readback layout arithmetic that
//! a texture-to-buffer copy needs, the full-screen quad that every transform
//! draws, the frame model with its RGB/RGBA normalisation, the container
//! codec built on the `gif` crate, and the per-frame transform run that ties
//! decoding, transforming and re-encoding together.

pub mod codec;
pub mod error;
pub mod frame;
pub mod pipeline;
pub mod quad;
pub mod readback;

pub use error::{GpuWorkerError, TransformationError};
