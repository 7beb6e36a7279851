//! Modular Monte-Carlo ray-tracing engine core: composition of shapes,
//! materials, views and backgrounds into packed device buffers, a deduplicated
//! device-source tree, and a progressive, sample-accumulating render loop.
//!
//! Floating-point device parameters are carried host-side as their raw IEEE-754
//! bit patterns (`u32`); the host never performs arithmetic on them, it only
//! lays them out for the device.

use vstd::prelude::*;

pub mod background;
pub mod instance;
pub mod material;
pub mod pack;
pub mod prelude;
pub mod process;
pub mod scene;
pub mod select;
pub mod source;
pub mod view;
pub mod shape;

verus! {

/// Failure categories: source resolution errors are compile-time, device
/// errors come from the compute backend, and stale accumulation is a protocol
/// violation of the two-step invalidation. Composition errors (an empty
/// member list) cannot arise: the closed variant and combination types make
/// them unrepresentable at composition time.
#[derive(Debug, Clone)]
pub enum Error {
    /// An import directive named a path no registered file matches; carries
    /// the unresolved path and the path of the importing file.
    UnresolvedImport { path: Vec<u8>, importer: Vec<u8> },
    /// A file was registered under a path that is already taken.
    DuplicatePath { path: Vec<u8> },
    /// A buffer handed across the host/device boundary has the wrong size.
    BufferSizeMismatch { expected: usize, actual: usize },
    /// The compute backend failed; carries its status code.
    Device { code: i64 },
    /// A render pass was requested while accumulated samples are stale.
    StaleAccumulation,
}

} // verus!
