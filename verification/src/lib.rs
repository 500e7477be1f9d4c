//! A verified core for owning handles to images held by a native
//! image-processing engine.
//!
//! The crate never talks to the engine itself. Every operation is split at the
//! foreign boundary: asked without a reply, it says which native call is to be
//! made and with which arguments; the caller makes that call and asks again
//! with the answer, as plain values; the operation then decides what the
//! answer means.

pub mod enums;
pub mod image;
pub mod native;
pub mod options;
pub mod result;
pub mod utils;
