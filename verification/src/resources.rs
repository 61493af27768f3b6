//! Ready-made resources over raw native handles.
//!
//! A caller who already holds raw handles (every Vulkan handle is a 64-bit
//! value) can wrap them here instead of writing capability impls of their
//! own. [`RawKernel`] carries a pipeline together with the layout it was
//! created with, under one compatibility type, so binding both and then
//! dispatching type-checks; [`RawIndexBuffer`] declares its element type as a
//! type parameter, so the recorded format tag always agrees with it.

use core::marker::PhantomData;
use vstd::prelude::*;

use crate::ComputeLayout;
use crate::ComputePipeline;
use crate::IndexBuffer;
use crate::helpers::VertexIndex;

verus! {

/// A compute pipeline and the layout it was created with, as raw handles
/// sharing one compatibility type.
pub struct RawKernel {
    pipeline: u64,
    layout: u64,
    first_set: u32,
    descriptor_sets: Vec<u64>,
}

impl RawKernel {
    /// Wrap raw handles: a pipeline handle, its layout handle, the first
    /// descriptor-set slot, and the ordered descriptor-set handles.
    pub fn new(pipeline: u64, layout: u64, first_set: u32, descriptor_sets: Vec<u64>) -> (r:
        RawKernel)
        ensures
            r.pipeline_spec() == pipeline,
            r.layout_spec() == layout,
            r.first_set_spec() == first_set,
            r.descriptor_sets_spec() == descriptor_sets@,
    {
        RawKernel { pipeline, layout, first_set, descriptor_sets }
    }
}

impl ComputePipeline for RawKernel {
    closed spec fn pipeline_spec(&self) -> u64 {
        self.pipeline
    }

    fn pipeline(&self) -> (r: u64) {
        self.pipeline
    }
}

impl ComputeLayout for RawKernel {
    closed spec fn layout_spec(&self) -> u64 {
        self.layout
    }

    closed spec fn first_set_spec(&self) -> u32 {
        self.first_set
    }

    closed spec fn descriptor_sets_spec(&self) -> Seq<u64> {
        self.descriptor_sets@
    }

    fn layout(&self) -> (r: u64) {
        self.layout
    }

    fn first_set(&self) -> (r: u32) {
        self.first_set
    }

    fn descriptor_sets(&self) -> (r: &[u64]) {
        self.descriptor_sets.as_slice()
    }
}

/// A raw buffer handle declared to hold indices of element type `I`, with
/// the byte offset at which the index data begins.
pub struct RawIndexBuffer<I: VertexIndex> {
    buffer: u64,
    offset: u64,
    element: PhantomData<I>,
}

impl<I: VertexIndex> RawIndexBuffer<I> {
    /// Wrap a raw buffer handle and byte offset.
    pub fn new(buffer: u64, offset: u64) -> (r: RawIndexBuffer<I>)
        ensures
            r.buffer_spec() == buffer,
            r.offset_spec() == offset,
    {
        RawIndexBuffer { buffer, offset, element: PhantomData }
    }
}

impl<I: VertexIndex> IndexBuffer for RawIndexBuffer<I> {
    type Index = I;

    closed spec fn buffer_spec(&self) -> u64 {
        self.buffer
    }

    closed spec fn offset_spec(&self) -> u64 {
        self.offset
    }

    fn buffer(&self) -> (r: u64) {
        self.buffer
    }

    fn offset(&self) -> (r: u64) {
        self.offset
    }
}

} // verus!
