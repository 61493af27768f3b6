//! Composable, statically guarded recording of GPU compute commands.
//!
//! A caller assembles a chain of recording steps (bind a compute pipeline,
//! bind a compute layout's descriptor sets, bind an index buffer, dispatch a
//! workload) as a chain of wrapper nodes, each carrying type-level slots for
//! what is currently bound. A dispatch step can only be appended when the
//! bound pipeline's compatibility type and the bound layout's compatibility
//! type are the same type, witnessed by [`Is`]; a chain that violates this
//! does not type-check, so no runtime check is needed.
//!
//! Building a chain replays its steps, left to right in append order, into a
//! [`CommandBuffer`]: a verified recording target whose view is the exact
//! sequence of primitive calls issued.

use vstd::prelude::*;

pub mod commands;
pub mod helpers;
pub mod recording;
pub mod resources;
mod sealed;

pub use commands::BindComputeLayout;
pub use commands::BindComputePipeline;
pub use commands::BindIndexBuffer;
pub use commands::Command;
pub use commands::CommandBuilder;
pub use commands::CommandExt;
pub use commands::Dispatch;
pub use commands::Root;
pub use helpers::DispatchDimensions;
pub use helpers::IndexFormat;
pub use helpers::IndexType;
pub use helpers::Is;
pub use helpers::VertexIndex;
pub use recording::CallView;
pub use recording::CommandBuffer;
pub use recording::RecordedCall;
pub use resources::RawIndexBuffer;
pub use resources::RawKernel;

verus! {

/// A compute pipeline resource: a pure accessor for its native handle.
pub trait ComputePipeline {
    /// The native pipeline handle.
    spec fn pipeline_spec(&self) -> u64;

    /// The native pipeline handle.
    fn pipeline(&self) -> (r: u64)
        ensures
            r == self.pipeline_spec(),
    ;
}

/// A compute pipeline layout resource: pure accessors for its native handle,
/// the first descriptor-set slot to bind at, and the ordered descriptor-set
/// handles to bind there. The descriptor-set sequence may be empty.
pub trait ComputeLayout {
    /// The native layout handle.
    spec fn layout_spec(&self) -> u64;

    /// The first descriptor-set slot index to bind at.
    spec fn first_set_spec(&self) -> u32;

    /// The ordered descriptor-set handles to bind.
    spec fn descriptor_sets_spec(&self) -> Seq<u64>;

    /// The native layout handle.
    fn layout(&self) -> (r: u64)
        ensures
            r == self.layout_spec(),
    ;

    /// The first descriptor-set slot index to bind at.
    fn first_set(&self) -> (r: u32)
        ensures
            r == self.first_set_spec(),
    ;

    /// The ordered descriptor-set handles to bind.
    fn descriptor_sets(&self) -> (r: &[u64])
        ensures
            r@ == self.descriptor_sets_spec(),
    ;
}

/// An index buffer resource: pure accessors for its native handle and byte
/// offset, plus a declared element type that carries the index-format tag.
pub trait IndexBuffer {
    /// The element width of the indices in the buffer.
    type Index: VertexIndex;

    /// The native buffer handle.
    spec fn buffer_spec(&self) -> u64;

    /// The byte offset at which index data begins.
    spec fn offset_spec(&self) -> u64;

    /// The native buffer handle.
    fn buffer(&self) -> (r: u64)
        ensures
            r == self.buffer_spec(),
    ;

    /// The byte offset at which index data begins.
    fn offset(&self) -> (r: u64)
        ensures
            r == self.offset_spec(),
    ;
}

} // verus!
