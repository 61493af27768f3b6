//! The command composition chain.
//!
//! A chain is a recursive wrapper structure: each node owns a previous
//! command sequence and one additional recording action. Building a node
//! first builds its wrapped predecessor, then records its own action, so the
//! net effect of building the outermost node is to record every action in
//! exactly the order the caller appended them.
//!
//! Each node carries six type slots tracking, per pipeline domain (compute,
//! graphics, ray tracing), the currently bound pipeline and layout types,
//! plus one slot for the current index-element type. A dispatch step can only
//! be appended when the compute-pipeline slot and the compute-layout slot
//! hold the same type, witnessed by [`Is`].

use vstd::prelude::*;
use vstd::slice::slice_to_vec;

use crate::ComputeLayout;
use crate::ComputePipeline;
use crate::IndexBuffer;
use crate::helpers::DispatchDimensions;
use crate::helpers::IndexType;
use crate::helpers::Is;
use crate::recording::CallView;
use crate::recording::CommandBuffer;

verus! {

/// How a failed build leaves its target: the calls recorded before the
/// failure are a proper prefix of the chain's calls, appended in order. The
/// rejected call itself and everything after it were never recorded.
pub open spec fn stopped_early(
    before: Seq<CallView>,
    after: Seq<CallView>,
    calls: Seq<CallView>,
) -> bool {
    exists|n: int| 0 <= n < calls.len() && after == before + calls.take(n)
}

/// A sequence of zero or more recording actions, with type slots tracking
/// what is currently bound. Chains are single-use and strictly linear: each
/// composition operation consumes the chain by value and wraps it in a new
/// node.
pub trait Command: Sized {
    /// The compatibility type of the last compute pipeline bound.
    type ComputePipeline;

    /// The compatibility type of the last compute layout bound.
    type ComputeLayout;

    /// The compatibility type of the last graphics pipeline bound.
    type GraphicsPipeline;

    /// The compatibility type of the last graphics layout bound.
    type GraphicsLayout;

    /// The compatibility type of the last ray-tracing pipeline bound.
    type RayTracingPipeline;

    /// The compatibility type of the last ray-tracing layout bound.
    type RayTracingLayout;

    /// The element type of the last index buffer bound.
    type Index;

    /// The primitive recording calls this chain stands for, in append order.
    spec fn calls(&self) -> Seq<CallView>;

    /// Whether every build of this chain is owed success. The chain
    /// mechanism itself introduces no failure mode: a build can fail only by
    /// propagating a failure from a caller-supplied root, so every chain
    /// rooted in [`Root`] is infallible.
    spec fn infallible(&self) -> bool;

    /// Record this chain's calls, in append order, into `command_buffer`.
    ///
    /// On success exactly `self.calls()` was appended; on failure the calls
    /// recorded up to the failure are a prefix of `self.calls()`, and the
    /// traversal stopped there. An infallible chain always succeeds.
    fn build(&self, command_buffer: &mut CommandBuffer) -> (r: Result<(), ()>)
        ensures
            r is Ok ==> final(command_buffer)@ == old(command_buffer)@ + self.calls(),
            r is Err ==> stopped_early(
                old(command_buffer)@,
                final(command_buffer)@,
                self.calls(),
            ),
            self.infallible() ==> r is Ok,
    ;

}

/// The four composition operations, available on every chain. They live in
/// an extension trait of [`Command`] so that their contracts can speak of the
/// wrapper nodes they return without the trait depending on its own impls.
pub trait CommandExt: Command {
    /// Append a dispatch of `dimensions` workgroups, normalized to a triple.
    ///
    /// Only available when the compute-pipeline slot and the compute-layout
    /// slot hold the same type: a chain whose last pipeline and layout binds
    /// disagree cannot dispatch, and that is rejected at compile time. (A
    /// pipeline that uses no descriptor sets still needs a layout of the
    /// matching compatibility type; the requirement is deliberately this coarse.)
    fn dispatch<D: DispatchDimensions>(self, dimensions: D) -> (r: Dispatch<Self>) where
        Self::ComputePipeline: Is<Self::ComputeLayout>,

        ensures
            r.calls() == self.calls().push(
                CallView::Dispatch {
                    x: dimensions.dispatch_dimensions_spec()[0],
                    y: dimensions.dispatch_dimensions_spec()[1],
                    z: dimensions.dispatch_dimensions_spec()[2],
                },
            ),
            r.infallible() == self.infallible(),
    {
        let dims = dimensions.dispatch_dimensions();
        Dispatch { commands: self, dimensions: dims }
    }

    /// Append a bind of `pipeline` into the compute bind point. The
    /// compute-pipeline slot becomes `P`; every other slot is untouched.
    fn bind_compute_pipeline<P: ComputePipeline>(self, pipeline: P) -> (r: BindComputePipeline<
        Self,
        P,
    >)
        ensures
            r.calls() == self.calls().push(
                CallView::BindComputePipeline { pipeline: pipeline.pipeline_spec() },
            ),
            r.infallible() == self.infallible(),
    {
        BindComputePipeline { commands: self, pipeline }
    }

    /// Append a bind of `layout`'s descriptor sets into the compute bind
    /// point, starting at its first-set index, with no dynamic offsets. The
    /// compute-layout slot becomes `L`; every other slot is untouched.
    fn bind_compute_layout<L: ComputeLayout>(self, layout: L) -> (r: BindComputeLayout<Self, L>)
        ensures
            r.calls() == self.calls().push(
                CallView::BindDescriptorSets {
                    layout: layout.layout_spec(),
                    first_set: layout.first_set_spec(),
                    descriptor_sets: layout.descriptor_sets_spec(),
                },
            ),
            r.infallible() == self.infallible(),
    {
        BindComputeLayout { commands: self, layout }
    }

    /// Append a bind of `index_buffer` at its byte offset, with the format
    /// tag derived from its declared element type. The index slot becomes
    /// that element type; every other slot is untouched.
    fn bind_index_buffer<I: IndexBuffer>(self, index_buffer: I) -> (r: BindIndexBuffer<Self, I>)
        ensures
            r.calls() == self.calls().push(
                CallView::BindIndexBuffer {
                    buffer: index_buffer.buffer_spec(),
                    offset: index_buffer.offset_spec(),
                    format: <I::Index as IndexType>::index_format_spec(),
                },
            ),
            r.infallible() == self.infallible(),
    {
        BindIndexBuffer { commands: self, index_buffer }
    }
}

impl<T: Command> CommandExt for T {

}

/// A failed inner build also leaves a `stopped_early` state for any chain
/// whose calls extend the inner chain's calls by one.
proof fn lemma_stopped_early_extend(
    before: Seq<CallView>,
    after: Seq<CallView>,
    inner: Seq<CallView>,
    outer: Seq<CallView>,
)
    requires
        stopped_early(before, after, inner),
        inner.is_prefix_of(outer),
    ensures
        stopped_early(before, after, outer),
{
    let n = choose|n: int| 0 <= n < inner.len() && after == before + inner.take(n);
    assert(outer.take(n) =~= inner.take(n));
    assert(0 <= n < outer.len() && after == before + outer.take(n));
}

/// The empty command sequence: the usual root of a chain. Building it
/// records nothing and always succeeds.
pub struct Root;

impl Command for Root {
    type ComputePipeline = ();

    type ComputeLayout = ();

    type GraphicsPipeline = ();

    type GraphicsLayout = ();

    type RayTracingPipeline = ();

    type RayTracingLayout = ();

    type Index = ();

    open spec fn calls(&self) -> Seq<CallView> {
        Seq::empty()
    }

    open spec fn infallible(&self) -> bool {
        true
    }

    fn build(&self, command_buffer: &mut CommandBuffer) -> (r: Result<(), ()>) {
        proof {
            assert(command_buffer@ =~= old(command_buffer)@ + self.calls());
        }
        Ok(())
    }
}

/// A chain node that dispatches a compute workload after its wrapped chain.
pub struct Dispatch<C> {
    pub(crate) commands: C,
    pub(crate) dimensions: [u32; 3],
}

impl<C: Command> Command for Dispatch<C> {
    type ComputePipeline = C::ComputePipeline;

    type ComputeLayout = C::ComputeLayout;

    type GraphicsPipeline = C::GraphicsPipeline;

    type GraphicsLayout = C::GraphicsLayout;

    type RayTracingPipeline = C::RayTracingPipeline;

    type RayTracingLayout = C::RayTracingLayout;

    type Index = C::Index;

    closed spec fn calls(&self) -> Seq<CallView> {
        self.commands.calls().push(
            CallView::Dispatch {
                x: self.dimensions@[0],
                y: self.dimensions@[1],
                z: self.dimensions@[2],
            },
        )
    }

    closed spec fn infallible(&self) -> bool {
        self.commands.infallible()
    }

    fn build(&self, command_buffer: &mut CommandBuffer) -> (r: Result<(), ()>) {
        match self.commands.build(command_buffer) {
            Ok(()) => {},
            Err(()) => {
                proof {
                    lemma_stopped_early_extend(
                        old(command_buffer)@,
                        command_buffer@,
                        self.commands.calls(),
                        self.calls(),
                    );
                }
                return Err(());
            },
        }
        command_buffer.record_dispatch(self.dimensions[0], self.dimensions[1], self.dimensions[2]);
        proof {
            assert(command_buffer@ =~= old(command_buffer)@ + self.calls());
        }
        Ok(())
    }
}

/// A chain node that binds a compute pipeline after its wrapped chain.
pub struct BindComputePipeline<C, P> {
    pub(crate) commands: C,
    pub(crate) pipeline: P,
}

impl<C: Command, P: ComputePipeline> Command for BindComputePipeline<C, P> {
    type ComputePipeline = P;

    type ComputeLayout = C::ComputeLayout;

    type GraphicsPipeline = C::GraphicsPipeline;

    type GraphicsLayout = C::GraphicsLayout;

    type RayTracingPipeline = C::RayTracingPipeline;

    type RayTracingLayout = C::RayTracingLayout;

    type Index = C::Index;

    closed spec fn calls(&self) -> Seq<CallView> {
        self.commands.calls().push(
            CallView::BindComputePipeline { pipeline: self.pipeline.pipeline_spec() },
        )
    }

    closed spec fn infallible(&self) -> bool {
        self.commands.infallible()
    }

    fn build(&self, command_buffer: &mut CommandBuffer) -> (r: Result<(), ()>) {
        match self.commands.build(command_buffer) {
            Ok(()) => {},
            Err(()) => {
                proof {
                    lemma_stopped_early_extend(
                        old(command_buffer)@,
                        command_buffer@,
                        self.commands.calls(),
                        self.calls(),
                    );
                }
                return Err(());
            },
        }
        command_buffer.record_bind_pipeline(self.pipeline.pipeline());
        proof {
            assert(command_buffer@ =~= old(command_buffer)@ + self.calls());
        }
        Ok(())
    }
}

/// A chain node that binds a compute layout's descriptor sets after its
/// wrapped chain.
pub struct BindComputeLayout<C, L> {
    pub(crate) commands: C,
    pub(crate) layout: L,
}

impl<C: Command, L: ComputeLayout> Command for BindComputeLayout<C, L> {
    type ComputePipeline = C::ComputePipeline;

    type ComputeLayout = L;

    type GraphicsPipeline = C::GraphicsPipeline;

    type GraphicsLayout = C::GraphicsLayout;

    type RayTracingPipeline = C::RayTracingPipeline;

    type RayTracingLayout = C::RayTracingLayout;

    type Index = C::Index;

    closed spec fn calls(&self) -> Seq<CallView> {
        self.commands.calls().push(
            CallView::BindDescriptorSets {
                layout: self.layout.layout_spec(),
                first_set: self.layout.first_set_spec(),
                descriptor_sets: self.layout.descriptor_sets_spec(),
            },
        )
    }

    closed spec fn infallible(&self) -> bool {
        self.commands.infallible()
    }

    fn build(&self, command_buffer: &mut CommandBuffer) -> (r: Result<(), ()>) {
        match self.commands.build(command_buffer) {
            Ok(()) => {},
            Err(()) => {
                proof {
                    lemma_stopped_early_extend(
                        old(command_buffer)@,
                        command_buffer@,
                        self.commands.calls(),
                        self.calls(),
                    );
                }
                return Err(());
            },
        }
        let descriptor_sets = slice_to_vec(self.layout.descriptor_sets());
        command_buffer.record_bind_descriptor_sets(
            self.layout.layout(),
            self.layout.first_set(),
            descriptor_sets,
        );
        proof {
            assert(command_buffer@ =~= old(command_buffer)@ + self.calls());
        }
        Ok(())
    }
}

/// A chain node that binds an index buffer after its wrapped chain.
pub struct BindIndexBuffer<C, I> {
    pub(crate) commands: C,
    pub(crate) index_buffer: I,
}

impl<C: Command, I: IndexBuffer> Command for BindIndexBuffer<C, I> {
    type ComputePipeline = C::ComputePipeline;

    type ComputeLayout = C::ComputeLayout;

    type GraphicsPipeline = C::GraphicsPipeline;

    type GraphicsLayout = C::GraphicsLayout;

    type RayTracingPipeline = C::RayTracingPipeline;

    type RayTracingLayout = C::RayTracingLayout;

    type Index = I::Index;

    closed spec fn calls(&self) -> Seq<CallView> {
        self.commands.calls().push(
            CallView::BindIndexBuffer {
                buffer: self.index_buffer.buffer_spec(),
                offset: self.index_buffer.offset_spec(),
                format: <I::Index as IndexType>::index_format_spec(),
            },
        )
    }

    closed spec fn infallible(&self) -> bool {
        self.commands.infallible()
    }

    fn build(&self, command_buffer: &mut CommandBuffer) -> (r: Result<(), ()>) {
        match self.commands.build(command_buffer) {
            Ok(()) => {},
            Err(()) => {
                proof {
                    lemma_stopped_early_extend(
                        old(command_buffer)@,
                        command_buffer@,
                        self.commands.calls(),
                        self.calls(),
                    );
                }
                return Err(());
            },
        }
        command_buffer.record_bind_index_buffer(
            self.index_buffer.buffer(),
            self.index_buffer.offset(),
            <I::Index as IndexType>::index_format(),
        );
        proof {
            assert(command_buffer@ =~= old(command_buffer)@ + self.calls());
        }
        Ok(())
    }
}

/// Alias for [`Command::build`] for use with `dyn`: one method that records a
/// chain into a command buffer, for callers who store heterogeneous chains
/// behind one interface.
pub trait CommandBuilder {
    /// The primitive recording calls this builder stands for, in append
    /// order.
    spec fn builder_calls(&self) -> Seq<CallView>;

    /// Whether every build is owed success.
    spec fn builder_infallible(&self) -> bool;

    /// Record this builder's calls, in append order, into `command_buffer`.
    fn build(&self, command_buffer: &mut CommandBuffer) -> (r: Result<(), ()>)
        ensures
            r is Ok ==> final(command_buffer)@ == old(command_buffer)@ + self.builder_calls(),
            r is Err ==> stopped_early(
                old(command_buffer)@,
                final(command_buffer)@,
                self.builder_calls(),
            ),
            self.builder_infallible() ==> r is Ok,
    ;
}

impl<T: Command> CommandBuilder for T {
    open spec fn builder_calls(&self) -> Seq<CallView> {
        self.calls()
    }

    open spec fn builder_infallible(&self) -> bool {
        self.infallible()
    }

    fn build(&self, command_buffer: &mut CommandBuffer) -> (r: Result<(), ()>) {
        Command::build(self, command_buffer)
    }
}

/// The format tag a bind-index-buffer node records is derived from the
/// buffer's declared element type, never supplied separately: its last call
/// always carries exactly that type's format tag.
pub proof fn lemma_index_format_agrees<C: Command, I: IndexBuffer>(chain: &BindIndexBuffer<C, I>)
    ensures
        chain.calls().len() > 0,
        chain.calls().last() matches CallView::BindIndexBuffer { format, .. }
            && format == <I::Index as IndexType>::index_format_spec(),
{
}

/// Chains are pure action recipes: what a build appends is a function of the
/// chain value alone, so building one chain into two targets whose recorded
/// calls agree leaves the two targets' recorded calls agreeing as well.
pub proof fn lemma_build_repeatable<C: Command>(
    chain: &C,
    before1: Seq<CallView>,
    before2: Seq<CallView>,
)
    requires
        before1 == before2,
    ensures
        before1 + chain.calls() == before2 + chain.calls(),
{
}

} // verus!
