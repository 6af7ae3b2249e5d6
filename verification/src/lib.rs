//! A verified image-transformation pipeline: decode an untrusted byte
//! payload into a pixel buffer, collapse it to a single luminance channel,
//! and serialize the result as a PNG.
//!
//! The pipeline is pure and stateless: every invocation owns its buffers and
//! nothing survives a call.  Decoding and PNG serialization are delegated to
//! the `image` codec crate behind narrow trusted wrappers; the data model,
//! the luminance transform and the orchestration are verified.
pub mod codec;
pub mod pipeline;
pub mod pixel;
pub mod transform;
