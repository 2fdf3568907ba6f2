//! Frame-gated rendering over a publish/subscribe bus.
//!
//! A producer issues resource upserts, draw requests and frame-done sentinels;
//! consumers apply them to a resource cache, assemble draws against the active
//! shader program, and move a per-frame barrier subscription forward. The
//! library decides; the caller performs the returned graphics operations and
//! bus actions.
use vstd::prelude::*;

pub mod buffers;
pub mod cache;
pub mod command;
pub mod consumer;
pub mod draw;
pub mod gate;
pub mod gpu;
pub mod producer;
pub mod shader;
pub mod topic;

verus! {

} // verus!
