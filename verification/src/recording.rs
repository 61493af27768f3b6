//! The verified recording target.
//!
//! A [`CommandBuffer`] stands for the externally owned object that GPU work is
//! recorded into. It accepts the four primitive recording operations and keeps
//! every recorded call in order; its view is the sequence of calls recorded so
//! far, each abstracted to a [`CallView`].

use vstd::prelude::*;

use crate::helpers::IndexFormat;

verus! {

/// One primitive recording call, as kept by a [`CommandBuffer`].
#[derive(Debug, PartialEq, Eq)]
pub enum RecordedCall {
    /// Dispatch a compute workload over an `x` by `y` by `z` grid of
    /// workgroups.
    Dispatch { x: u32, y: u32, z: u32 },
    /// Bind a pipeline handle into the compute bind point.
    BindComputePipeline { pipeline: u64 },
    /// Bind a layout's descriptor sets into the compute bind point, starting
    /// at `first_set`, with no dynamic offsets.
    BindDescriptorSets { layout: u64, first_set: u32, descriptor_sets: Vec<u64> },
    /// Bind a buffer at a byte offset as the index buffer, with the format
    /// tag derived from the buffer's element type.
    BindIndexBuffer { buffer: u64, offset: u64, format: IndexFormat },
}

/// The mathematical abstraction of one recorded call.
pub ghost enum CallView {
    /// Dispatch a compute workload.
    Dispatch { x: u32, y: u32, z: u32 },
    /// Bind a compute pipeline handle.
    BindComputePipeline { pipeline: u64 },
    /// Bind a layout's descriptor sets.
    BindDescriptorSets { layout: u64, first_set: u32, descriptor_sets: Seq<u64> },
    /// Bind an index buffer.
    BindIndexBuffer { buffer: u64, offset: u64, format: IndexFormat },
}

impl View for RecordedCall {
    type V = CallView;

    open spec fn view(&self) -> CallView {
        match self {
            RecordedCall::Dispatch { x, y, z } => CallView::Dispatch { x: *x, y: *y, z: *z },
            RecordedCall::BindComputePipeline { pipeline } => CallView::BindComputePipeline {
                pipeline: *pipeline,
            },
            RecordedCall::BindDescriptorSets { layout, first_set, descriptor_sets } => (
                CallView::BindDescriptorSets {
                    layout: *layout,
                    first_set: *first_set,
                    descriptor_sets: descriptor_sets@,
                }
            ),
            RecordedCall::BindIndexBuffer { buffer, offset, format } => (
                CallView::BindIndexBuffer { buffer: *buffer, offset: *offset, format: *format }
            ),
        }
    }
}

/// The views of a sequence of recorded calls, in the same order.
pub open spec fn call_views(calls: Seq<RecordedCall>) -> Seq<CallView> {
    calls.map_values(|c: RecordedCall| c@)
}

/// An ordered recording target for GPU work: the unit of exclusivity during
/// recording. Each primitive operation appends exactly one call; nothing is
/// ever reordered or dropped.
pub struct CommandBuffer {
    calls: Vec<RecordedCall>,
}

impl View for CommandBuffer {
    type V = Seq<CallView>;

    closed spec fn view(&self) -> Seq<CallView> {
        call_views(self.calls@)
    }
}

impl CommandBuffer {
    /// A fresh target with nothing recorded.
    pub fn new() -> (r: CommandBuffer)
        ensures
            r@ == Seq::<CallView>::empty(),
    {
        let r = CommandBuffer { calls: Vec::new() };
        proof {
            assert(r@ =~= Seq::<CallView>::empty());
        }
        r
    }

    /// How many calls have been recorded.
    pub fn len(&self) -> (r: usize)
        ensures
            r == self@.len(),
    {
        self.calls.len()
    }

    /// The calls recorded so far, in recording order.
    pub fn recorded(&self) -> (r: &Vec<RecordedCall>)
        ensures
            call_views(r@) == self@,
    {
        &self.calls
    }

    fn record(&mut self, call: RecordedCall)
        ensures
            final(self)@ == old(self)@.push(call@),
    {
        let ghost c = call@;
        self.calls.push(call);
        proof {
            assert(self@ =~= old(self)@.push(c));
        }
    }

    /// Record a dispatch of `x` by `y` by `z` workgroups.
    pub fn record_dispatch(&mut self, x: u32, y: u32, z: u32)
        ensures
            final(self)@ == old(self)@.push(CallView::Dispatch { x, y, z }),
    {
        self.record(RecordedCall::Dispatch { x, y, z });
    }

    /// Record a bind of a pipeline handle into the compute bind point.
    pub fn record_bind_pipeline(&mut self, pipeline: u64)
        ensures
            final(self)@ == old(self)@.push(CallView::BindComputePipeline { pipeline }),
    {
        self.record(RecordedCall::BindComputePipeline { pipeline });
    }

    /// Record a bind of descriptor sets into the compute bind point, starting
    /// at `first_set`, with no dynamic offsets.
    pub fn record_bind_descriptor_sets(
        &mut self,
        layout: u64,
        first_set: u32,
        descriptor_sets: Vec<u64>,
    )
        ensures
            final(self)@ == old(self)@.push(
                CallView::BindDescriptorSets {
                    layout,
                    first_set,
                    descriptor_sets: descriptor_sets@,
                },
            ),
    {
        self.record(RecordedCall::BindDescriptorSets { layout, first_set, descriptor_sets });
    }

    /// Record a bind of `buffer` at byte `offset` as the index buffer, in the
    /// given index format.
    pub fn record_bind_index_buffer(&mut self, buffer: u64, offset: u64, format: IndexFormat)
        ensures
            final(self)@ == old(self)@.push(CallView::BindIndexBuffer { buffer, offset, format }),
    {
        self.record(RecordedCall::BindIndexBuffer { buffer, offset, format });
    }
}

} // verus!
