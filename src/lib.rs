//! Input validation and conversion dispatch for turning a HEIC/HEIF image
//! into a JPEG: layered settings, a path validator, content checks
//! (extension, size, magic bytes), and the decisions around the native
//! converter and the image-library fallback. Filesystem and process work is
//! left to the caller, which hands the results in as plain values.

use vstd::prelude::*;

pub mod text;
pub mod errors;
pub mod config;
pub mod validation;
pub mod conversion;
pub mod pipeline;

verus! {

} // verus!
