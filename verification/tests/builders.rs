use command_chain::CommandBuffer;
use command_chain::CommandBuilder;
use command_chain::CommandExt;
use command_chain::IndexFormat;
use command_chain::RawIndexBuffer;
use command_chain::RawKernel;
use command_chain::RecordedCall;
use command_chain::Root;

#[test]
fn primitives_record_one_call_each_in_call_order() {
    let mut cb = CommandBuffer::new();
    cb.record_bind_descriptor_sets(5, 0, vec![6]);
    cb.record_bind_pipeline(4);
    cb.record_dispatch(1, 2, 3);
    cb.record_bind_index_buffer(7, 64, IndexFormat::Uint32);
    assert_eq!(cb.len(), 4);
    assert_eq!(
        cb.recorded().as_slice(),
        &[
            RecordedCall::BindDescriptorSets { layout: 5, first_set: 0, descriptor_sets: vec![6] },
            RecordedCall::BindComputePipeline { pipeline: 4 },
            RecordedCall::Dispatch { x: 1, y: 2, z: 3 },
            RecordedCall::BindIndexBuffer { buffer: 7, offset: 64, format: IndexFormat::Uint32 },
        ],
    );
}

#[test]
fn heterogeneous_chains_behind_one_interface() {
    let dispatch_only = Root
        .bind_compute_layout(RawKernel::new(0, 1, 0, Vec::new()))
        .bind_compute_pipeline(RawKernel::new(2, 0, 0, Vec::new()))
        .dispatch(8u32);
    let index_only = Root.bind_index_buffer(RawIndexBuffer::<u16>::new(3, 0));
    let builders: Vec<Box<dyn CommandBuilder>> =
        vec![Box::new(dispatch_only), Box::new(index_only)];
    let mut cb = CommandBuffer::new();
    for builder in &builders {
        assert_eq!(builder.build(&mut cb), Ok(()));
    }
    assert_eq!(
        cb.recorded().as_slice(),
        &[
            RecordedCall::BindDescriptorSets { layout: 1, first_set: 0, descriptor_sets: vec![] },
            RecordedCall::BindComputePipeline { pipeline: 2 },
            RecordedCall::Dispatch { x: 8, y: 1, z: 1 },
            RecordedCall::BindIndexBuffer { buffer: 3, offset: 0, format: IndexFormat::Uint16 },
        ],
    );
}
