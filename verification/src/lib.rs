//! Verified template-matching engine.
//!
//! Given a captured screenshot and a set of small reference ("hint") images,
//! the engine locates each reference image inside the screenshot by
//! normalized cross-correlation and reports a click-target coordinate with a
//! confidence score. The pipeline per template is: decode, scale alignment,
//! opacity gate, alpha-aware grayscale compositing, size guard, correlation,
//! classification. A batch call decodes the screenshot once and processes
//! each template independently, preserving input order in the result list.
//!
//! Everything is exact integer arithmetic, verified end to end: the base64
//! transport decoding, the raster container, the resampler, the pixel
//! compositing, and the correlation engine itself, which carries scores in
//! parts per million with an integer square root.

pub mod automation;
pub mod b64;
pub mod codec;
pub mod error;
pub mod hints;
pub mod keys;
pub mod matcher;
pub mod ncc;
pub mod raster;
pub mod scale;
