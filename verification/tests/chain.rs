use command_chain::CallView;
use command_chain::Command;
use command_chain::CommandBuffer;
use command_chain::CommandExt;
use command_chain::DispatchDimensions;
use command_chain::IndexFormat;
use command_chain::IndexType;
use command_chain::RawIndexBuffer;
use command_chain::RawKernel;
use command_chain::RecordedCall;
use command_chain::Root;

fn kernel_pipeline(handle: u64) -> RawKernel {
    RawKernel::new(handle, 0, 0, Vec::new())
}

fn kernel_layout(handle: u64, first_set: u32, sets: Vec<u64>) -> RawKernel {
    RawKernel::new(0, handle, first_set, sets)
}

/// A caller-supplied root whose build always reports that the collaborator
/// rejected recording. The specification-level items are never run; a chain
/// over this root is simply not one the library owes success for.
struct FailingRoot;

impl Command for FailingRoot {
    type ComputePipeline = ();
    type ComputeLayout = ();
    type GraphicsPipeline = ();
    type GraphicsLayout = ();
    type RayTracingPipeline = ();
    type RayTracingLayout = ();
    type Index = ();

    fn calls(&self) -> vstd::prelude::Seq<CallView> {
        panic!()
    }

    fn infallible(&self) -> bool {
        false
    }

    fn build(&self, _command_buffer: &mut CommandBuffer) -> Result<(), ()> {
        Err(())
    }
}

#[test]
fn scalar_normalizes_with_trailing_ones() {
    assert_eq!(64u32.dispatch_dimensions(), [64, 1, 1]);
    assert_eq!(0u32.dispatch_dimensions(), [0, 1, 1]);
    assert_eq!(u32::MAX.dispatch_dimensions(), [u32::MAX, 1, 1]);
}

#[test]
fn single_normalizes_with_trailing_ones() {
    assert_eq!([5u32].dispatch_dimensions(), [5, 1, 1]);
}

#[test]
fn pair_normalizes_with_trailing_one() {
    assert_eq!([5u32, 9u32].dispatch_dimensions(), [5, 9, 1]);
}

#[test]
fn triple_normalizes_unchanged() {
    assert_eq!([5u32, 9u32, 13u32].dispatch_dimensions(), [5, 9, 13]);
}

#[test]
fn index_format_tags_match_element_widths() {
    assert_eq!(<() as IndexType>::index_format(), IndexFormat::NoIndex);
    assert_eq!(<u8 as IndexType>::index_format(), IndexFormat::Uint8);
    assert_eq!(<u16 as IndexType>::index_format(), IndexFormat::Uint16);
    assert_eq!(<u32 as IndexType>::index_format(), IndexFormat::Uint32);
}

#[test]
fn bare_root_can_dispatch() {
    // The compatibility slots of a fresh root agree trivially, so a dispatch
    // without any binds type-checks; the deliberate coarseness of the
    // type-equality requirement keeps this permissive.
    let chain = Root.dispatch([2u32, 3u32]);
    let mut cb = CommandBuffer::new();
    assert_eq!(chain.build(&mut cb), Ok(()));
    assert_eq!(cb.recorded().as_slice(), &[RecordedCall::Dispatch { x: 2, y: 3, z: 1 }]);
}

#[test]
fn empty_root_records_nothing() {
    let mut cb = CommandBuffer::new();
    assert_eq!(Root.build(&mut cb), Ok(()));
    assert_eq!(cb.len(), 0);
    assert!(cb.recorded().is_empty());
}

#[test]
fn layout_pipeline_dispatch_records_three_calls_in_order() {
    let layout = kernel_layout(9, 1, vec![11, 12]);
    let pipeline = kernel_pipeline(7);
    let chain = Root.bind_compute_layout(layout).bind_compute_pipeline(pipeline).dispatch(64u32);
    let mut cb = CommandBuffer::new();
    assert_eq!(chain.build(&mut cb), Ok(()));
    assert_eq!(
        cb.recorded().as_slice(),
        &[
            RecordedCall::BindDescriptorSets {
                layout: 9,
                first_set: 1,
                descriptor_sets: vec![11, 12],
            },
            RecordedCall::BindComputePipeline { pipeline: 7 },
            RecordedCall::Dispatch { x: 64, y: 1, z: 1 },
        ],
    );
}

#[test]
fn u16_index_buffer_records_one_call_with_u16_format() {
    let chain = Root.bind_index_buffer(RawIndexBuffer::<u16>::new(20, 128));
    let mut cb = CommandBuffer::new();
    assert_eq!(chain.build(&mut cb), Ok(()));
    assert_eq!(
        cb.recorded().as_slice(),
        &[RecordedCall::BindIndexBuffer { buffer: 20, offset: 128, format: IndexFormat::Uint16 }],
    );
}

#[test]
fn index_format_follows_declared_element_type() {
    let chain = Root
        .bind_index_buffer(RawIndexBuffer::<u8>::new(1, 0))
        .bind_index_buffer(RawIndexBuffer::<u16>::new(2, 8))
        .bind_index_buffer(RawIndexBuffer::<u32>::new(3, 16));
    let mut cb = CommandBuffer::new();
    assert_eq!(chain.build(&mut cb), Ok(()));
    assert_eq!(
        cb.recorded().as_slice(),
        &[
            RecordedCall::BindIndexBuffer { buffer: 1, offset: 0, format: IndexFormat::Uint8 },
            RecordedCall::BindIndexBuffer { buffer: 2, offset: 8, format: IndexFormat::Uint16 },
            RecordedCall::BindIndexBuffer { buffer: 3, offset: 16, format: IndexFormat::Uint32 },
        ],
    );
}

#[test]
fn build_replays_calls_in_append_order() {
    let chain = Root
        .bind_compute_layout(kernel_layout(40, 0, vec![41]))
        .bind_compute_pipeline(kernel_pipeline(42))
        .dispatch([6u32, 2u32])
        .bind_index_buffer(RawIndexBuffer::<u32>::new(43, 24))
        .dispatch([3u32, 4u32, 5u32]);
    let mut cb = CommandBuffer::new();
    assert_eq!(chain.build(&mut cb), Ok(()));
    assert_eq!(
        cb.recorded().as_slice(),
        &[
            RecordedCall::BindDescriptorSets {
                layout: 40,
                first_set: 0,
                descriptor_sets: vec![41],
            },
            RecordedCall::BindComputePipeline { pipeline: 42 },
            RecordedCall::Dispatch { x: 6, y: 2, z: 1 },
            RecordedCall::BindIndexBuffer { buffer: 43, offset: 24, format: IndexFormat::Uint32 },
            RecordedCall::Dispatch { x: 3, y: 4, z: 5 },
        ],
    );
}

#[test]
fn building_twice_into_equivalent_targets_records_the_same_calls() {
    let chain = Root
        .bind_compute_layout(kernel_layout(9, 2, vec![10]))
        .bind_compute_pipeline(kernel_pipeline(8))
        .dispatch(16u32);
    let mut first = CommandBuffer::new();
    let mut second = CommandBuffer::new();
    assert_eq!(chain.build(&mut first), Ok(()));
    assert_eq!(chain.build(&mut second), Ok(()));
    assert_eq!(first.recorded(), second.recorded());
    assert_eq!(first.len(), 3);
}

#[test]
fn failing_root_stops_the_traversal_before_any_later_call() {
    let chain = FailingRoot
        .bind_compute_layout(kernel_layout(9, 0, vec![]))
        .bind_compute_pipeline(kernel_pipeline(7))
        .dispatch(4u32);
    let mut cb = CommandBuffer::new();
    assert_eq!(chain.build(&mut cb), Err(()));
    assert!(cb.recorded().is_empty());
}
