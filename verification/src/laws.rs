//! Properties of the modelled device, stated and proved once for every
//! resource state and every recorded unit.

use vstd::prelude::*;

use crate::fence::{
    cleared_listed,
    init_bindings,
    lists_id,
    unit_touches_buffer,
    unit_touches_image,
    invocation_count,
    mark_one_written,
    mark_written,
    run_ops,
    run_unit,
    same_shape,
    scale_words,
    step_op,
    with_flags,
    RunBindings,
};
use crate::memory::{BufModel, DataModel, MachineState};
use crate::mul_wrap_spec;
use crate::pipeline::{BoundResource, DescriptorWrite, ShaderEffect};
use crate::recorder::OpModel;

verus! {

/// A dispatch that multiplies each element by a constant does exactly
/// that: binding a scaling compute pipeline and a descriptor set naming
/// one word buffer, then dispatching enough invocations to cover it,
/// leaves `output[i] == input[i] * factor` (modulo 2^32) for every `i`,
/// and touches nothing else.
pub proof fn lemma_dispatch_scales(
    s: MachineState,
    ops: Seq<OpModel>,
    b: int,
    factor: u32,
    local_size: u32,
    gx: u32,
    gy: u32,
    gz: u32,
    writes: Seq<DescriptorWrite>,
)
    requires
        0 <= b < s.buffers.len(),
        b <= usize::MAX,
        s.buffers[b].data is Words,
        invocation_count(gx, gy, gz, local_size) >= s.buffers[b].data->Words_0.len(),
        writes == seq![
            DescriptorWrite { binding: 0, resource: BoundResource::Buffer(b as usize) },
        ],
        ops == seq![
            OpModel::BindComputePipeline {
                binding_count: 1,
                effect: ShaderEffect::ScaleWords { factor, local_size },
            },
            OpModel::BindDescriptorSet { writes },
            OpModel::Dispatch { groups_x: gx, groups_y: gy, groups_z: gz },
        ],
    ensures
        run_unit(s, ops).buffers.len() == s.buffers.len(),
        run_unit(s, ops).buffers[b] == (BufModel {
            data: DataModel::Words(
                scale_words(
                    s.buffers[b].data->Words_0,
                    factor,
                    invocation_count(gx, gy, gz, local_size),
                ),
            ),
            ..s.buffers[b]
        }),
        run_unit(s, ops).buffers[b].data is Words,
        run_unit(s, ops).buffers[b].data->Words_0.len() == s.buffers[b].data->Words_0.len(),
        forall|i: int|
            0 <= i < s.buffers[b].data->Words_0.len() ==> run_unit(s, ops).buffers[b].data->Words_0[i]
                == mul_wrap_spec(s.buffers[b].data->Words_0[i], factor),
        forall|j: int|
            0 <= j < s.buffers.len() && j != b ==> run_unit(s, ops).buffers[j] == s.buffers[j],
        run_unit(s, ops).images == s.images,
{
    let b0 = init_bindings();
    let (s1, b1) = step_op(s, b0, ops[0]);
    let t1 = ops.drop_first();
    assert(t1[0] == ops[1]);
    let (s2, b2) = step_op(s1, b1, ops[1]);
    let t2 = t1.drop_first();
    assert(t2[0] == ops[2]);
    let (s3, b3) = step_op(s2, b2, ops[2]);
    let t3 = t2.drop_first();
    assert(t3.len() == 0);
    assert(run_ops(s, b0, ops) == run_ops(s1, b1, t1));
    assert(run_ops(s1, b1, t1) == run_ops(s2, b2, t2));
    assert(run_ops(s2, b2, t2) == run_ops(s3, b3, t3));
    assert(run_ops(s3, b3, t3) == s3);
}

/// Round trip: copying a source buffer into a destination of equal byte
/// length makes the destination's contents equal the source's, for any
/// content length including zero, and leaves every other resource — the
/// source included — untouched.
pub proof fn lemma_copy_round_trip(s: MachineState, ops: Seq<OpModel>, src: int, dst: int)
    requires
        0 <= src < s.buffers.len(),
        0 <= dst < s.buffers.len(),
        s.buffers[src].byte_len() == s.buffers[dst].byte_len(),
        ops == seq![OpModel::CopyBuffer { src, dst }],
    ensures
        run_unit(s, ops).buffers.len() == s.buffers.len(),
        run_unit(s, ops).buffers[dst] == (BufModel { data: s.buffers[src].data, ..s.buffers[dst] }),
        run_unit(s, ops).buffers[dst].data == s.buffers[src].data,
        forall|j: int|
            0 <= j < s.buffers.len() && j != dst ==> run_unit(s, ops).buffers[j] == s.buffers[j],
        run_unit(s, ops).images == s.images,
{
    let b0 = init_bindings();
    let (s1, b1) = step_op(s, b0, ops[0]);
    let t1 = ops.drop_first();
    assert(t1.len() == 0);
    assert(run_ops(s, b0, ops) == run_ops(s1, b1, t1));
    assert(run_ops(s1, b1, t1) == s1);
}

/// Idempotence of re-recording and re-submitting: the modelled device is
/// a function of the initial resource state and the recorded operations,
/// so an equivalent unit against an equal initial state ends in an equal
/// final state.
pub proof fn lemma_resubmission_identical(
    s1: MachineState,
    s2: MachineState,
    ops1: Seq<OpModel>,
    ops2: Seq<OpModel>,
)
    requires
        s1 == s2,
        ops1 == ops2,
    ensures
        run_unit(s1, ops1) == run_unit(s2, ops2),
{
}

/// A copy between two zero-length word buffers is a no-op: the machine
/// state afterwards is the state before.
pub proof fn lemma_empty_copy_is_noop(s: MachineState, ops: Seq<OpModel>, src: int, dst: int)
    requires
        0 <= src < s.buffers.len(),
        0 <= dst < s.buffers.len(),
        s.buffers[src].data is Words,
        s.buffers[dst].data is Words,
        s.buffers[src].data->Words_0.len() == 0,
        s.buffers[dst].data->Words_0.len() == 0,
        ops == seq![OpModel::CopyBuffer { src, dst }],
    ensures
        run_unit(s, ops) == s,
{
    lemma_copy_round_trip(s, ops, src, dst);
    assert(s.buffers[src].data->Words_0 =~= s.buffers[dst].data->Words_0);
    assert(s.buffers[src].data =~= s.buffers[dst].data);
    assert(run_unit(s, ops).buffers =~= s.buffers);
    assert(run_unit(s, ops) =~= s);
}

/// A dispatch over a zero-length word buffer is a no-op: there is no
/// element to scale, so the machine state afterwards is the state before.
pub proof fn lemma_empty_dispatch_is_noop(
    s: MachineState,
    ops: Seq<OpModel>,
    b: int,
    factor: u32,
    local_size: u32,
    gx: u32,
    gy: u32,
    gz: u32,
    writes: Seq<DescriptorWrite>,
)
    requires
        0 <= b < s.buffers.len(),
        b <= usize::MAX,
        s.buffers[b].data is Words,
        s.buffers[b].data->Words_0.len() == 0,
        writes == seq![
            DescriptorWrite { binding: 0, resource: BoundResource::Buffer(b as usize) },
        ],
        ops == seq![
            OpModel::BindComputePipeline {
                binding_count: 1,
                effect: ShaderEffect::ScaleWords { factor, local_size },
            },
            OpModel::BindDescriptorSet { writes },
            OpModel::Dispatch { groups_x: gx, groups_y: gy, groups_z: gz },
        ],
    ensures
        run_unit(s, ops) == s,
{
    lemma_dispatch_scales(s, ops, b, factor, local_size, gx, gy, gz, writes);
    assert(run_unit(s, ops).buffers[b].data->Words_0 =~= s.buffers[b].data->Words_0);
    assert(run_unit(s, ops).buffers[b].data =~= s.buffers[b].data);
    assert(run_unit(s, ops).buffers[b] =~= s.buffers[b]);
    assert(run_unit(s, ops).buffers =~= s.buffers);
    assert(run_unit(s, ops) =~= s);
}


/// Marking resources in flight at submission, and clearing the marks at a
/// successful wait, change no contents: synchronisation only gates when
/// the host may read, never what it reads.
pub proof fn lemma_synchronisation_preserves_contents(
    s: MachineState,
    ops: Seq<OpModel>,
    bs: Seq<usize>,
    is: Seq<usize>,
)
    ensures
        with_flags(s, ops).buffers.len() == s.buffers.len(),
        forall|i: int|
            0 <= i < s.buffers.len() ==> (#[trigger] with_flags(s, ops).buffers[i]).data
                == s.buffers[i].data,
        with_flags(s, ops).images.len() == s.images.len(),
        forall|i: int|
            0 <= i < s.images.len() ==> (#[trigger] with_flags(s, ops).images[i]).content
                == s.images[i].content,
        cleared_listed(s, bs, is).buffers.len() == s.buffers.len(),
        forall|i: int|
            0 <= i < s.buffers.len() ==> (#[trigger] cleared_listed(s, bs, is).buffers[i]).data
                == s.buffers[i].data,
        cleared_listed(s, bs, is).images.len() == s.images.len(),
        forall|i: int|
            0 <= i < s.images.len() ==> (#[trigger] cleared_listed(s, bs, is).images[i]).content
                == s.images[i].content,
{
}

proof fn lemma_mark_one_written_shape(s: MachineState, w: DescriptorWrite)
    ensures
        same_shape(s, mark_one_written(s, w)),
{
}

proof fn lemma_mark_written_shape(s: MachineState, ws: Seq<DescriptorWrite>)
    ensures
        same_shape(s, mark_written(s, ws)),
    decreases ws.len(),
{
    if ws.len() > 0 {
        lemma_mark_one_written_shape(s, ws[0]);
        lemma_mark_written_shape(mark_one_written(s, ws[0]), ws.drop_first());
    }
}

#[verifier::rlimit(60)]
proof fn lemma_step_shape(s: MachineState, b: RunBindings, op: OpModel)
    ensures
        same_shape(s, step_op(s, b, op).0),
{
    match op {
        OpModel::Dispatch { groups_x, groups_y, groups_z } => {
            match b.compute {
                Option::None => {},
                Option::Some(cb) => match b.writes {
                    Option::None => {},
                    Option::Some(ws) => match cb.effect {
                        ShaderEffect::Opaque => {
                            lemma_mark_written_shape(s, ws);
                        },
                        ShaderEffect::ScaleWords { .. } => {
                            lemma_mark_written_shape(s, ws);
                        },
                    },
                },
            }
        },
        _ => {},
    }
}

/// Execution never changes a resource's shape: however a unit runs, every
/// buffer keeps its byte length, usage, access pattern and flight flag,
/// and every image its dimensions and flight flag. Only contents move.
pub proof fn lemma_execution_preserves_shape(s: MachineState, ops: Seq<OpModel>)
    ensures
        same_shape(s, run_unit(s, ops)),
{
    lemma_run_ops_shape(s, init_bindings(), ops);
}

proof fn lemma_run_ops_shape(s: MachineState, b: RunBindings, ops: Seq<OpModel>)
    ensures
        same_shape(s, run_ops(s, b, ops)),
    decreases ops.len(),
{
    if ops.len() > 0 {
        let (s2, b2) = step_op(s, b, ops[0]);
        lemma_step_shape(s, b, ops[0]);
        lemma_run_ops_shape(s2, b2, ops.drop_first());
    }
}


/// The flight flags round-trip: a submission marks exactly the resources
/// its unit may write (`with_flags`), its token lists exactly those, and
/// waiting the token (`cleared_listed`) returns every flight flag to its
/// value before the submission — no more, no less. What a later, separate
/// submission marked stays marked.
pub proof fn lemma_wait_releases_what_submit_acquired(
    s: MachineState,
    ops: Seq<OpModel>,
    bs: Seq<usize>,
    is: Seq<usize>,
)
    requires
        forall|i: int|
            0 <= i < s.buffers.len() && unit_touches_buffer(ops, i) ==> !s.buffers[i].in_flight,
        forall|i: int|
            0 <= i < s.images.len() && unit_touches_image(ops, i) ==> !s.images[i].in_flight,
        forall|i: int| #![trigger lists_id(bs, i)]
            lists_id(bs, i) <==> (0 <= i < s.buffers.len() && unit_touches_buffer(ops, i)),
        forall|i: int| #![trigger lists_id(is, i)]
            lists_id(is, i) <==> (0 <= i < s.images.len() && unit_touches_image(ops, i)),
    ensures
        cleared_listed(with_flags(run_unit(s, ops), ops), bs, is).buffers.len()
            == s.buffers.len(),
        forall|i: int|
            0 <= i < s.buffers.len() ==> (#[trigger] cleared_listed(
                with_flags(run_unit(s, ops), ops),
                bs,
                is,
            ).buffers[i]).in_flight == s.buffers[i].in_flight,
        cleared_listed(with_flags(run_unit(s, ops), ops), bs, is).images.len() == s.images.len(),
        forall|i: int|
            0 <= i < s.images.len() ==> (#[trigger] cleared_listed(
                with_flags(run_unit(s, ops), ops),
                bs,
                is,
            ).images[i]).in_flight == s.images[i].in_flight,
{
    lemma_execution_preserves_shape(s, ops);
}

} // verus!
