//! Submission and completion: a finalized command unit is enqueued against
//! the device context, the modelled device executes its operations strictly
//! in recorded order, and the host gets a completion token to wait on
//! before it reads results back.
//!
//! The modelled device is a deterministic function of the resource state
//! and the recorded operations (`run_unit`). Work it performs that the
//! layer does not model (a draw's rasterisation, an unmodelled shader)
//! leaves the written resources marked device-written rather than with
//! predicted contents. It also completes every submission by the time the
//! submission call returns, so a wait against it never reports `Timeout`:
//! that error is part of the taxonomy for hosts that wait on a real,
//! asynchronous device.

use vstd::prelude::*;
use vstd::pervasive::VecAdditionalExecFns;

use crate::device::{DeviceContext, QueueCaps};
use crate::error::GpuError;
use crate::memory::{
    BufModel,
    BufferData,
    BufferResource,
    ClearColor,
    DataModel,
    ImageContent,
    ImageFormat,
    ImageResource,
    ImgModel,
    MachineState,
    MemoryAllocator,
};
use crate::mul_wrap_spec;
use crate::pipeline::{BoundResource, DescriptorWrite, ShaderEffect};
use crate::recorder::{CommandUnit, ComputeBinding, OpModel, Operation};

verus! {

/// The compute pipeline the modelled device currently has bound.
pub struct ComputeBindModel {
    pub binding_count: nat,
    pub effect: ShaderEffect,
}

/// What the modelled device has bound while it walks a unit's operations.
#[verifier::ext_equal]
pub struct RunBindings {
    pub compute: Option<ComputeBindModel>,
    pub writes: Option<Seq<DescriptorWrite>>,
    pub attachment: Option<int>,
}

/// Nothing bound: the state at the start of every unit.
pub open spec fn init_bindings() -> RunBindings {
    RunBindings { compute: None, writes: None, attachment: None }
}

/// How many shader invocations a dispatch starts.
pub open spec fn invocation_count(gx: u32, gy: u32, gz: u32, local_size: u32) -> nat {
    ((gx as nat) * (gy as nat) * (gz as nat)) * (local_size as nat)
}

/// Words after an element-wise scale: the first `invocations` words are
/// multiplied by `factor` modulo 2^32, the rest untouched.
pub open spec fn scale_words(w: Seq<u32>, factor: u32, invocations: nat) -> Seq<u32> {
    Seq::new(
        w.len(),
        |i: int|
            if i < invocations {
                mul_wrap_spec(w[i], factor)
            } else {
                w[i]
            },
    )
}

/// The byte at offset `i` of tightly packed pixels that all equal `c`,
/// laid out in `format`'s channel order.
pub open spec fn solid_byte(pixel_format: ImageFormat, c: ClearColor, i: int) -> u8 {
    match pixel_format {
        ImageFormat::Rgba8Unorm => if i % 4 == 0 {
            c.r
        } else if i % 4 == 1 {
            c.g
        } else if i % 4 == 2 {
            c.b
        } else {
            c.a
        },
        ImageFormat::Bgra8Unorm => if i % 4 == 0 {
            c.b
        } else if i % 4 == 1 {
            c.g
        } else if i % 4 == 2 {
            c.r
        } else {
            c.a
        },
    }
}

/// `byte_len` bytes of tightly packed pixels that all equal `c`, in
/// `format`'s channel order.
pub open spec fn solid_bytes(pixel_format: ImageFormat, byte_len: nat, c: ClearColor) -> Seq<u8> {
    Seq::new(byte_len, |i: int| solid_byte(pixel_format, c, i))
}

/// One buffer with new contents, everything else as it was.
pub open spec fn set_buffer_data(s: MachineState, id: int, data: DataModel) -> MachineState {
    MachineState {
        buffers: s.buffers.update(id, BufModel { data, ..s.buffers[id] }),
        ..s
    }
}

/// One image with new contents, everything else as it was.
pub open spec fn set_image_content(s: MachineState, id: int, content: ImageContent) -> MachineState {
    MachineState {
        images: s.images.update(id, ImgModel { content, ..s.images[id] }),
        ..s
    }
}

/// One descriptor write's resource after an unmodelled shader ran over it:
/// device-written, same byte length.
pub open spec fn mark_one_written(s: MachineState, w: DescriptorWrite) -> MachineState {
    match w.resource {
        BoundResource::Buffer(id) => if 0 <= id < s.buffers.len() {
            set_buffer_data(s, id as int, DataModel::Device(s.buffers[id as int].byte_len()))
        } else {
            s
        },
        BoundResource::ImageView(id) => if 0 <= id < s.images.len() {
            set_image_content(s, id as int, ImageContent::DeviceWritten)
        } else {
            s
        },
    }
}

/// Every resource of a descriptor set after an unmodelled shader ran.
pub open spec fn mark_written(s: MachineState, writes: Seq<DescriptorWrite>) -> MachineState
    decreases writes.len(),
{
    if writes.len() == 0 {
        s
    } else {
        mark_written(mark_one_written(s, writes[0]), writes.drop_first())
    }
}

/// Whether an image-to-buffer copy applies: both resources exist, the byte
/// lengths agree, and the pixels fit the host's address space.
pub open spec fn image_copy_applies(s: MachineState, image: int, buffer: int) -> bool {
    &&& 0 <= image < s.images.len()
    &&& 0 <= buffer < s.buffers.len()
    &&& s.buffers[buffer].byte_len() == s.images[image].byte_len()
    &&& s.images[image].byte_len() <= usize::MAX
}

/// What a dispatch does, given what is bound.
pub open spec fn dispatch_step(
    s: MachineState,
    b: RunBindings,
    gx: u32,
    gy: u32,
    gz: u32,
) -> MachineState {
    match b.compute {
        Option::None => s,
        Option::Some(cb) => match b.writes {
            Option::None => s,
            Option::Some(ws) => match cb.effect {
                ShaderEffect::Opaque => mark_written(s, ws),
                ShaderEffect::ScaleWords { factor, local_size } => {
                    if ws.len() == 1 && ws[0].resource is Buffer && 0 <= resource_id(
                        ws[0].resource,
                    ) < s.buffers.len() && s.buffers[resource_id(ws[0].resource)].data is Words {
                        let scaled = scale_words_of(
                            s.buffers[resource_id(ws[0].resource)].data,
                            factor,
                            invocation_count(gx, gy, gz, local_size),
                        );
                        set_buffer_data(s, resource_id(ws[0].resource), DataModel::Words(scaled))
                    } else {
                        mark_written(s, ws)
                    }
                },
            },
        },
    }
}

/// The scaled words of a word buffer's contents (only applied to `Words`).
pub open spec fn scale_words_of(data: DataModel, factor: u32, invocations: nat) -> Seq<u32> {
    scale_words(data->Words_0, factor, invocations)
}

/// The allocator index a descriptor write points at.
pub open spec fn resource_id(r: BoundResource) -> int {
    match r {
        BoundResource::Buffer(id) => id as int,
        BoundResource::ImageView(id) => id as int,
    }
}

/// What one operation does to the machine state and the bindings. The
/// modelled device applies an operation whose resources fit and leaves the
/// state unchanged otherwise; the recorder only ever finalizes units whose
/// operations fit the allocator they were recorded against.
pub open spec fn step_op(s: MachineState, b: RunBindings, op: OpModel) -> (MachineState,
    RunBindings) {
    match op {
        OpModel::CopyBuffer { src, dst } => {
            if 0 <= src < s.buffers.len() && 0 <= dst < s.buffers.len() && s.buffers[src].byte_len()
                == s.buffers[dst].byte_len() {
                (set_buffer_data(s, dst, s.buffers[src].data), b)
            } else {
                (s, b)
            }
        },
        OpModel::ClearImage { image, color } => {
            if 0 <= image < s.images.len() {
                (set_image_content(s, image, ImageContent::Solid(color)), b)
            } else {
                (s, b)
            }
        },
        OpModel::BeginRenderPass { attachment, clear } => {
            let s2 = if 0 <= attachment < s.images.len() {
                set_image_content(s, attachment, ImageContent::Solid(clear))
            } else {
                s
            };
            (s2, RunBindings { attachment: Some(attachment), ..b })
        },
        OpModel::BindComputePipeline { binding_count, effect } => {
            (
                s,
                RunBindings {
                    compute: Some(ComputeBindModel { binding_count, effect }),
                    writes: None,
                    ..b
                },
            )
        },
        OpModel::BindGraphicsPipeline { .. } => (s, b),
        OpModel::BindDescriptorSet { writes } => (s, RunBindings { writes: Some(writes), ..b }),
        OpModel::BindVertexBuffer { .. } => (s, b),
        OpModel::Dispatch { groups_x, groups_y, groups_z } => {
            (dispatch_step(s, b, groups_x, groups_y, groups_z), b)
        },
        OpModel::Draw { .. } => {
            let s2 = match b.attachment {
                Option::Some(a) => if 0 <= a < s.images.len() {
                    set_image_content(s, a, ImageContent::DeviceWritten)
                } else {
                    s
                },
                Option::None => s,
            };
            (s2, b)
        },
        OpModel::EndRenderPass => (s, RunBindings { attachment: None, ..b }),
        OpModel::CopyImageToBuffer { image, buffer } => {
            if image_copy_applies(s, image, buffer) {
                let data = match s.images[image].content {
                    ImageContent::Solid(c) => DataModel::Bytes(
                        solid_bytes(s.images[image].format, s.images[image].byte_len(), c),
                    ),
                    ImageContent::DeviceWritten => DataModel::Device(s.images[image].byte_len()),
                };
                (set_buffer_data(s, buffer, data), b)
            } else {
                (s, b)
            }
        },
    }
}

/// The machine state after the modelled device walked `ops` in order,
/// starting with bindings `b`.
pub open spec fn run_ops(s: MachineState, b: RunBindings, ops: Seq<OpModel>) -> MachineState
    decreases ops.len(),
{
    if ops.len() == 0 {
        s
    } else {
        let (s2, b2) = step_op(s, b, ops[0]);
        run_ops(s2, b2, ops.drop_first())
    }
}

/// The machine state after one command unit ran: operations in recorded
/// order, nothing bound at the start.
pub open spec fn run_unit(s: MachineState, ops: Seq<OpModel>) -> MachineState {
    run_ops(s, init_bindings(), ops)
}

/// Whether one operation may write this buffer. Descriptor-set writes
/// count whether or not a dispatch follows: the marking is conservative.
pub open spec fn op_touches_buffer(op: OpModel, i: int) -> bool {
    match op {
        OpModel::CopyBuffer { dst, .. } => i == dst,
        OpModel::BindDescriptorSet { writes } => exists|j: int|
            0 <= j < writes.len() && (#[trigger] writes[j]).resource is Buffer && resource_id(
                writes[j].resource,
            ) == i,
        OpModel::CopyImageToBuffer { buffer, .. } => i == buffer,
        _ => false,
    }
}

/// Whether one operation may write this image. A draw writes the pass's
/// attachment, which `BeginRenderPass` already marks.
pub open spec fn op_touches_image(op: OpModel, i: int) -> bool {
    match op {
        OpModel::ClearImage { image, .. } => i == image,
        OpModel::BeginRenderPass { attachment, .. } => i == attachment,
        OpModel::BindDescriptorSet { writes } => exists|j: int|
            0 <= j < writes.len() && (#[trigger] writes[j]).resource is ImageView && resource_id(
                writes[j].resource,
            ) == i,
        _ => false,
    }
}

/// Whether some operation of the unit may write this buffer.
pub open spec fn unit_touches_buffer(ops: Seq<OpModel>, i: int) -> bool {
    exists|k: int| 0 <= k < ops.len() && op_touches_buffer(#[trigger] ops[k], i)
}

/// Whether some operation of the unit may write this image.
pub open spec fn unit_touches_image(ops: Seq<OpModel>, i: int) -> bool {
    exists|k: int| 0 <= k < ops.len() && op_touches_image(#[trigger] ops[k], i)
}

/// The state with every resource the unit may write marked in flight.
pub open spec fn with_flags(s: MachineState, ops: Seq<OpModel>) -> MachineState {
    MachineState {
        buffers: Seq::new(
            s.buffers.len(),
            |i: int| BufModel {
                in_flight: s.buffers[i].in_flight || unit_touches_buffer(ops, i),
                ..s.buffers[i]
            },
        ),
        images: Seq::new(
            s.images.len(),
            |i: int| ImgModel {
                in_flight: s.images[i].in_flight || unit_touches_image(ops, i),
                ..s.images[i]
            },
        ),
    }
}

/// Whether a list of resource indices names `i`.
pub open spec fn lists_id(ids: Seq<usize>, i: int) -> bool {
    exists|k: int| 0 <= k < ids.len() && (#[trigger] ids[k]) as int == i
}

/// The state after a successful wait on one submission's token: exactly
/// the resources the token lists are no longer in flight; everything
/// else, contents included, is as it was.
pub open spec fn cleared_listed(s: MachineState, bs: Seq<usize>, is: Seq<usize>) -> MachineState {
    MachineState {
        buffers: Seq::new(
            s.buffers.len(),
            |i: int| BufModel {
                in_flight: s.buffers[i].in_flight && !lists_id(bs, i),
                ..s.buffers[i]
            },
        ),
        images: Seq::new(
            s.images.len(),
            |i: int| ImgModel {
                in_flight: s.images[i].in_flight && !lists_id(is, i),
                ..s.images[i]
            },
        ),
    }
}

/// Whether `b` holds resources of the same shape as `a`: as many buffers
/// of the same byte lengths, usage and access, as many images of the same
/// dimensions, with the same flight flags. Execution changes contents,
/// never shape.
pub open spec fn same_shape(a: MachineState, b: MachineState) -> bool {
    &&& a.buffers.len() == b.buffers.len()
    &&& forall|i: int|
        0 <= i < a.buffers.len() ==> (#[trigger] b.buffers[i]).byte_len() == a.buffers[i].byte_len()
            && b.buffers[i].usage == a.buffers[i].usage && b.buffers[i].access
            == a.buffers[i].access && b.buffers[i].in_flight == a.buffers[i].in_flight
    &&& a.images.len() == b.images.len()
    &&& forall|i: int|
        0 <= i < a.images.len() ==> (#[trigger] b.images[i]).width == a.images[i].width
            && b.images[i].height == a.images[i].height && b.images[i].usage == a.images[i].usage
            && b.images[i].access == a.images[i].access && b.images[i].format
            == a.images[i].format && b.images[i].in_flight == a.images[i].in_flight
}

/// Whether an operation needs a graphics-capable queue.
pub open spec fn op_needs_graphics(op: OpModel) -> bool {
    match op {
        OpModel::BeginRenderPass { .. } => true,
        OpModel::BindGraphicsPipeline { .. } => true,
        OpModel::Draw { .. } => true,
        OpModel::EndRenderPass => true,
        _ => false,
    }
}

/// Whether an operation needs a compute-capable queue.
pub open spec fn op_needs_compute(op: OpModel) -> bool {
    op is Dispatch
}

/// Whether an operation needs a transfer-capable queue.
pub open spec fn op_needs_transfer(op: OpModel) -> bool {
    match op {
        OpModel::CopyBuffer { .. } => true,
        OpModel::ClearImage { .. } => true,
        OpModel::CopyImageToBuffer { .. } => true,
        _ => false,
    }
}

/// The capability a queue family must report to execute the unit.
pub open spec fn required_caps(ops: Seq<OpModel>) -> QueueCaps {
    QueueCaps {
        graphics: exists|k: int| 0 <= k < ops.len() && op_needs_graphics(#[trigger] ops[k]),
        compute: exists|k: int| 0 <= k < ops.len() && op_needs_compute(#[trigger] ops[k]),
        transfer: exists|k: int| 0 <= k < ops.len() && op_needs_transfer(#[trigger] ops[k]),
    }
}

/// Whether the queue rejects the unit: the context is lost, the unit
/// targets another family, or the family does not report the capabilities
/// the operations need.
pub open spec fn queue_rejects(ctx: DeviceContext, unit: CommandUnit) -> bool {
    ||| ctx.lost
    ||| unit.queue_family_index != ctx.queue_family_index
    ||| !ctx.queue_caps.covers(required_caps(unit.op_models()))
}


/// A pushed index is listed exactly when the list already named it or it
/// is the pushed one.
proof fn lemma_lists_id_push(ids: Seq<usize>, x: usize, i: int)
    ensures
        lists_id(ids.push(x), i) == (lists_id(ids, i) || x as int == i),
{
    if lists_id(ids.push(x), i) {
        let k = choose|k: int| 0 <= k < ids.push(x).len() && (#[trigger] ids.push(x)[k]) as int == i;
        if k < ids.len() {
            assert(ids.push(x)[k] == ids[k]);
        } else {
            assert(ids.push(x)[k] == x);
        }
    }
    if lists_id(ids, i) {
        let k = choose|k: int| 0 <= k < ids.len() && (#[trigger] ids[k]) as int == i;
        assert(ids.push(x)[k] as int == i);
    }
    if x as int == i {
        assert(ids.push(x)[ids.len() as int] as int == i);
    }
}

/// A pushed operation touches a buffer exactly when the list did or the
/// new operation does.
proof fn lemma_touches_buffer_push(ops: Seq<OpModel>, op: OpModel, i: int)
    ensures
        unit_touches_buffer(ops.push(op), i) == (unit_touches_buffer(ops, i) || op_touches_buffer(
            op,
            i,
        )),
{
    if unit_touches_buffer(ops.push(op), i) {
        let k = choose|k: int|
            0 <= k < ops.push(op).len() && op_touches_buffer(#[trigger] ops.push(op)[k], i);
        if k < ops.len() {
            assert(ops.push(op)[k] == ops[k]);
        } else {
            assert(ops.push(op)[k] == op);
        }
    }
    if unit_touches_buffer(ops, i) {
        let k = choose|k: int| 0 <= k < ops.len() && op_touches_buffer(#[trigger] ops[k], i);
        assert(op_touches_buffer(ops.push(op)[k], i));
    }
    if op_touches_buffer(op, i) {
        assert(op_touches_buffer(ops.push(op)[ops.len() as int], i));
    }
}

/// A pushed operation touches an image exactly when the list did or the
/// new operation does.
proof fn lemma_touches_image_push(ops: Seq<OpModel>, op: OpModel, i: int)
    ensures
        unit_touches_image(ops.push(op), i) == (unit_touches_image(ops, i) || op_touches_image(
            op,
            i,
        )),
{
    if unit_touches_image(ops.push(op), i) {
        let k = choose|k: int|
            0 <= k < ops.push(op).len() && op_touches_image(#[trigger] ops.push(op)[k], i);
        if k < ops.len() {
            assert(ops.push(op)[k] == ops[k]);
        } else {
            assert(ops.push(op)[k] == op);
        }
    }
    if unit_touches_image(ops, i) {
        let k = choose|k: int| 0 <= k < ops.len() && op_touches_image(#[trigger] ops[k], i);
        assert(op_touches_image(ops.push(op)[k], i));
    }
    if op_touches_image(op, i) {
        assert(op_touches_image(ops.push(op)[ops.len() as int], i));
    }
}

/// A pushed operation changes the required capability exactly by what it
/// itself needs.
proof fn lemma_required_caps_push(ops: Seq<OpModel>, op: OpModel)
    ensures
        required_caps(ops.push(op)) == (QueueCaps {
            graphics: required_caps(ops).graphics || op_needs_graphics(op),
            compute: required_caps(ops).compute || op_needs_compute(op),
            transfer: required_caps(ops).transfer || op_needs_transfer(op),
        }),
{
    assert(forall|k: int| 0 <= k < ops.len() ==> ops.push(op)[k] == ops[k]);
    assert(ops.push(op)[ops.len() as int] == op);
    assert(required_caps(ops.push(op)).graphics == (required_caps(ops).graphics
        || op_needs_graphics(op))) by {
        if required_caps(ops.push(op)).graphics {
            let k = choose|k: int|
                0 <= k < ops.push(op).len() && op_needs_graphics(#[trigger] ops.push(op)[k]);
            if k < ops.len() {
                assert(op_needs_graphics(ops[k]));
            }
        }
        if required_caps(ops).graphics {
            let k = choose|k: int| 0 <= k < ops.len() && op_needs_graphics(#[trigger] ops[k]);
            assert(op_needs_graphics(ops.push(op)[k]));
        }
        if op_needs_graphics(op) {
            assert(op_needs_graphics(ops.push(op)[ops.len() as int]));
        }
    }
    assert(required_caps(ops.push(op)).compute == (required_caps(ops).compute || op_needs_compute(
        op,
    ))) by {
        if required_caps(ops.push(op)).compute {
            let k = choose|k: int|
                0 <= k < ops.push(op).len() && op_needs_compute(#[trigger] ops.push(op)[k]);
            if k < ops.len() {
                assert(op_needs_compute(ops[k]));
            }
        }
        if required_caps(ops).compute {
            let k = choose|k: int| 0 <= k < ops.len() && op_needs_compute(#[trigger] ops[k]);
            assert(op_needs_compute(ops.push(op)[k]));
        }
        if op_needs_compute(op) {
            assert(op_needs_compute(ops.push(op)[ops.len() as int]));
        }
    }
    assert(required_caps(ops.push(op)).transfer == (required_caps(ops).transfer
        || op_needs_transfer(op))) by {
        if required_caps(ops.push(op)).transfer {
            let k = choose|k: int|
                0 <= k < ops.push(op).len() && op_needs_transfer(#[trigger] ops.push(op)[k]);
            if k < ops.len() {
                assert(op_needs_transfer(ops[k]));
            }
        }
        if required_caps(ops).transfer {
            let k = choose|k: int| 0 <= k < ops.len() && op_needs_transfer(#[trigger] ops[k]);
            assert(op_needs_transfer(ops.push(op)[k]));
        }
        if op_needs_transfer(op) {
            assert(op_needs_transfer(ops.push(op)[ops.len() as int]));
        }
    }
}

/// Computes the capability the unit's operations need.
fn compute_required_caps(ops: &Vec<Operation>) -> (r: QueueCaps)
    ensures
        r == required_caps(crate::recorder::op_models(ops@)),
{
    let ghost models = crate::recorder::op_models(ops@);
    let mut graphics = false;
    let mut compute = false;
    let mut transfer = false;
    let mut k: usize = 0;
    proof {
        assert(models.take(0) =~= Seq::<OpModel>::empty());
        assert(!required_caps(models.take(0)).graphics);
        assert(!required_caps(models.take(0)).compute);
        assert(!required_caps(models.take(0)).transfer);
    }
    while k < ops.len()
        invariant
            k <= ops@.len(),
            models == crate::recorder::op_models(ops@),
            graphics == required_caps(models.take(k as int)).graphics,
            compute == required_caps(models.take(k as int)).compute,
            transfer == required_caps(models.take(k as int)).transfer,
        decreases ops@.len() - k,
    {
        let g_hit: bool = match &ops[k] {
            Operation::BeginRenderPass { .. } => true,
            Operation::BindGraphicsPipeline { .. } => true,
            Operation::Draw { .. } => true,
            Operation::EndRenderPass => true,
            _ => false,
        };
        let c_hit: bool = match &ops[k] {
            Operation::Dispatch { .. } => true,
            _ => false,
        };
        let t_hit: bool = match &ops[k] {
            Operation::CopyBuffer { .. } => true,
            Operation::ClearImage { .. } => true,
            Operation::CopyImageToBuffer { .. } => true,
            _ => false,
        };
        proof {
            assert(models[k as int] == ops@[k as int]@);
            assert(g_hit == op_needs_graphics(models[k as int]));
            assert(c_hit == op_needs_compute(models[k as int]));
            assert(t_hit == op_needs_transfer(models[k as int]));
            assert(models.take(k as int + 1) =~= models.take(k as int).push(models[k as int]));
            lemma_required_caps_push(models.take(k as int), models[k as int]);
        }
        graphics = graphics || g_hit;
        compute = compute || c_hit;
        transfer = transfer || t_hit;
        k = k + 1;
    }
    proof {
        assert(models.take(ops@.len() as int) =~= models);
    }
    QueueCaps { graphics, compute, transfer }
}

/// Whether some write of a descriptor set names this buffer.
fn writes_name_buffer(writes: &Vec<DescriptorWrite>, i: usize) -> (r: bool)
    ensures
        r == (exists|j: int|
            0 <= j < writes@.len() && (#[trigger] writes@[j]).resource is Buffer && resource_id(
                writes@[j].resource,
            ) == i),
{
    let mut j: usize = 0;
    let mut found = false;
    while j < writes.len()
        invariant
            j <= writes@.len(),
            found == (exists|q: int|
                0 <= q < j && (#[trigger] writes@[q]).resource is Buffer && resource_id(
                    writes@[q].resource,
                ) == i),
        decreases writes@.len() - j,
    {
        let hit: bool = match writes[j].resource {
            BoundResource::Buffer(id) => id == i,
            BoundResource::ImageView(..) => false,
        };
        found = found || hit;
        j = j + 1;
    }
    found
}

/// Whether some write of a descriptor set names this image.
fn writes_name_image(writes: &Vec<DescriptorWrite>, i: usize) -> (r: bool)
    ensures
        r == (exists|j: int|
            0 <= j < writes@.len() && (#[trigger] writes@[j]).resource is ImageView && resource_id(
                writes@[j].resource,
            ) == i),
{
    let mut j: usize = 0;
    let mut found = false;
    while j < writes.len()
        invariant
            j <= writes@.len(),
            found == (exists|q: int|
                0 <= q < j && (#[trigger] writes@[q]).resource is ImageView && resource_id(
                    writes@[q].resource,
                ) == i),
        decreases writes@.len() - j,
    {
        let hit: bool = match writes[j].resource {
            BoundResource::ImageView(id) => id == i,
            BoundResource::Buffer(..) => false,
        };
        found = found || hit;
        j = j + 1;
    }
    found
}

/// Whether some operation of the unit may write this buffer.
fn touches_buffer_exec(ops: &Vec<Operation>, i: usize) -> (r: bool)
    ensures
        r == unit_touches_buffer(crate::recorder::op_models(ops@), i as int),
{
    let ghost models = crate::recorder::op_models(ops@);
    let mut k: usize = 0;
    let mut found = false;
    proof {
        assert(models.take(0) =~= Seq::<OpModel>::empty());
        assert(!unit_touches_buffer(models.take(0), i as int));
    }
    while k < ops.len()
        invariant
            k <= ops@.len(),
            models == crate::recorder::op_models(ops@),
            found == unit_touches_buffer(models.take(k as int), i as int),
        decreases ops@.len() - k,
    {
        let hit: bool = match &ops[k] {
            Operation::CopyBuffer { dst, .. } => *dst == i,
            Operation::CopyImageToBuffer { buffer, .. } => *buffer == i,
            Operation::BindDescriptorSet { writes } => writes_name_buffer(writes, i),
            _ => false,
        };
        proof {
            assert(models[k as int] == ops@[k as int]@);
            assert(hit == op_touches_buffer(models[k as int], i as int));
            assert(models.take(k as int + 1) =~= models.take(k as int).push(models[k as int]));
            lemma_touches_buffer_push(models.take(k as int), models[k as int], i as int);
        }
        found = found || hit;
        k = k + 1;
    }
    proof {
        assert(models.take(ops@.len() as int) =~= models);
    }
    found
}

/// Whether some operation of the unit may write this image.
fn touches_image_exec(ops: &Vec<Operation>, i: usize) -> (r: bool)
    ensures
        r == unit_touches_image(crate::recorder::op_models(ops@), i as int),
{
    let ghost models = crate::recorder::op_models(ops@);
    let mut k: usize = 0;
    let mut found = false;
    proof {
        assert(models.take(0) =~= Seq::<OpModel>::empty());
        assert(!unit_touches_image(models.take(0), i as int));
    }
    while k < ops.len()
        invariant
            k <= ops@.len(),
            models == crate::recorder::op_models(ops@),
            found == unit_touches_image(models.take(k as int), i as int),
        decreases ops@.len() - k,
    {
        let hit: bool = match &ops[k] {
            Operation::ClearImage { image, .. } => *image == i,
            Operation::BeginRenderPass { attachment, .. } => *attachment == i,
            Operation::BindDescriptorSet { writes } => writes_name_image(writes, i),
            _ => false,
        };
        proof {
            assert(models[k as int] == ops@[k as int]@);
            assert(hit == op_touches_image(models[k as int], i as int));
            assert(models.take(k as int + 1) =~= models.take(k as int).push(models[k as int]));
            lemma_touches_image_push(models.take(k as int), models[k as int], i as int);
        }
        found = found || hit;
        k = k + 1;
    }
    proof {
        assert(models.take(ops@.len() as int) =~= models);
    }
    found
}


/// A copy of a word vector.
fn clone_words(v: &Vec<u32>) -> (r: Vec<u32>)
    ensures
        r@ == v@,
{
    let mut out: Vec<u32> = Vec::new();
    let mut i: usize = 0;
    while i < v.len()
        invariant
            i <= v@.len(),
            out@ == v@.subrange(0, i as int),
        decreases v@.len() - i,
    {
        out.push(v[i]);
        proof {
            assert(out@ =~= v@.subrange(0, i as int + 1));
        }
        i = i + 1;
    }
    proof {
        assert(out@ =~= v@);
    }
    out
}

/// A copy of a byte vector.
fn clone_bytes(v: &Vec<u8>) -> (r: Vec<u8>)
    ensures
        r@ == v@,
{
    let mut out: Vec<u8> = Vec::new();
    let mut i: usize = 0;
    while i < v.len()
        invariant
            i <= v@.len(),
            out@ == v@.subrange(0, i as int),
        decreases v@.len() - i,
    {
        out.push(v[i]);
        proof {
            assert(out@ =~= v@.subrange(0, i as int + 1));
        }
        i = i + 1;
    }
    proof {
        assert(out@ =~= v@);
    }
    out
}

/// A copy of a buffer's contents.
fn clone_data(d: &BufferData) -> (r: BufferData)
    ensures
        r@ == d@,
{
    match d {
        BufferData::Words(w) => BufferData::Words(clone_words(w)),
        BufferData::Bytes(b) => BufferData::Bytes(clone_bytes(b)),
        BufferData::DeviceWritten(n) => BufferData::DeviceWritten(*n),
    }
}

/// A copy of a descriptor set's writes.
fn copy_writes(v: &Vec<DescriptorWrite>) -> (r: Vec<DescriptorWrite>)
    ensures
        r@ == v@,
{
    let mut out: Vec<DescriptorWrite> = Vec::new();
    let mut i: usize = 0;
    while i < v.len()
        invariant
            i <= v@.len(),
            out@ == v@.subrange(0, i as int),
        decreases v@.len() - i,
    {
        out.push(v[i]);
        proof {
            assert(out@ =~= v@.subrange(0, i as int + 1));
        }
        i = i + 1;
    }
    proof {
        assert(out@ =~= v@);
    }
    out
}

/// Replaces one buffer's contents, leaving its usage, access pattern and
/// flight flag as they were.
fn set_data(alloc: &mut MemoryAllocator, id: usize, data: BufferData)
    requires
        id < old(alloc).buffers@.len(),
    ensures
        final(alloc).machine_state() == set_buffer_data(
            old(alloc).machine_state(),
            id as int,
            data@,
        ),
        final(alloc).remaining == old(alloc).remaining,
        final(alloc).host_visible_memory == old(alloc).host_visible_memory,
        final(alloc).device_local_memory == old(alloc).device_local_memory,
        final(alloc).buffers@.len() == old(alloc).buffers@.len(),
        final(alloc).images@ == old(alloc).images@,
{
    let usage = alloc.buffers[id].usage;
    let access = alloc.buffers[id].access;
    let in_flight = alloc.buffers[id].in_flight;
    alloc.buffers.set(id, BufferResource { usage, access, data, in_flight });
    proof {
        assert(alloc.machine_state().buffers =~= set_buffer_data(
            old(alloc).machine_state(),
            id as int,
            data@,
        ).buffers);
        assert(alloc.machine_state().images =~= set_buffer_data(
            old(alloc).machine_state(),
            id as int,
            data@,
        ).images);
        assert(alloc.machine_state() =~= set_buffer_data(
            old(alloc).machine_state(),
            id as int,
            data@,
        ));
    }
}

/// Replaces one image's contents, leaving its dimensions and flight flag
/// as they were.
fn set_content(alloc: &mut MemoryAllocator, id: usize, content: ImageContent)
    requires
        id < old(alloc).images@.len(),
    ensures
        final(alloc).machine_state() == set_image_content(
            old(alloc).machine_state(),
            id as int,
            content,
        ),
        final(alloc).remaining == old(alloc).remaining,
        final(alloc).host_visible_memory == old(alloc).host_visible_memory,
        final(alloc).device_local_memory == old(alloc).device_local_memory,
        final(alloc).images@.len() == old(alloc).images@.len(),
        final(alloc).buffers@ == old(alloc).buffers@,
{
    let width = alloc.images[id].width;
    let height = alloc.images[id].height;
    let usage = alloc.images[id].usage;
    let access = alloc.images[id].access;
    let pixel_format = alloc.images[id].format;
    let in_flight = alloc.images[id].in_flight;
    alloc.images.set(
        id,
        ImageResource { width, height, usage, access, format: pixel_format, content, in_flight },
    );
    proof {
        assert(alloc.machine_state().buffers =~= set_image_content(
            old(alloc).machine_state(),
            id as int,
            content,
        ).buffers);
        assert(alloc.machine_state().images =~= set_image_content(
            old(alloc).machine_state(),
            id as int,
            content,
        ).images);
        assert(alloc.machine_state() =~= set_image_content(
            old(alloc).machine_state(),
            id as int,
            content,
        ));
    }
}

/// Marks every resource a descriptor set names as device-written: an
/// unmodelled shader may have left anything in them.
fn mark_written_exec(alloc: &mut MemoryAllocator, writes: &Vec<DescriptorWrite>)
    ensures
        final(alloc).machine_state() == mark_written(old(alloc).machine_state(), writes@),
        final(alloc).remaining == old(alloc).remaining,
        final(alloc).host_visible_memory == old(alloc).host_visible_memory,
        final(alloc).device_local_memory == old(alloc).device_local_memory,
{
    let ghost target = mark_written(old(alloc).machine_state(), writes@);
    let mut j: usize = 0;
    proof {
        assert(writes@.skip(0) =~= writes@);
    }
    while j < writes.len()
        invariant
            j <= writes@.len(),
            mark_written(alloc.machine_state(), writes@.skip(j as int)) == target,
            alloc.remaining == old(alloc).remaining,
            alloc.host_visible_memory == old(alloc).host_visible_memory,
            alloc.device_local_memory == old(alloc).device_local_memory,
        decreases writes@.len() - j,
    {
        let ghost pre = alloc.machine_state();
        let w = writes[j];
        match w.resource {
            BoundResource::Buffer(id) => {
                if id < alloc.buffer_count() {
                    let n = alloc.buffer_byte_len(id);
                    set_data(alloc, id, BufferData::DeviceWritten(n));
                }
            },
            BoundResource::ImageView(id) => {
                if id < alloc.image_count() {
                    set_content(alloc, id, ImageContent::DeviceWritten);
                }
            },
        }
        proof {
            assert(alloc.machine_state() == mark_one_written(pre, writes@[j as int]));
            assert(writes@.skip(j as int)[0] == writes@[j as int]);
            assert(writes@.skip(j as int).drop_first() =~= writes@.skip(j as int + 1));
            assert(mark_written(pre, writes@.skip(j as int)) == mark_written(
                alloc.machine_state(),
                writes@.skip(j as int + 1),
            ));
        }
        j = j + 1;
    }
    proof {
        assert(writes@.skip(writes@.len() as int) =~= Seq::<DescriptorWrite>::empty());
    }
}

/// The words of a buffer after an element-wise scale on the device: the
/// first `invocations` words multiplied by `factor` modulo 2^32.
fn scale_vec(w: &Vec<u32>, factor: u32, invocations: u128) -> (r: Vec<u32>)
    ensures
        r@ == scale_words(w@, factor, invocations as nat),
{
    let mut out: Vec<u32> = Vec::new();
    let mut i: usize = 0;
    while i < w.len()
        invariant
            i <= w@.len(),
            out@.len() == i,
            forall|q: int|
                0 <= q < i ==> out@[q] == scale_words(w@, factor, invocations as nat)[q],
        decreases w@.len() - i,
    {
        let v: u32 = if (i as u128) < invocations {
            crate::mul_wrap(w[i], factor)
        } else {
            w[i]
        };
        out.push(v);
        i = i + 1;
    }
    proof {
        assert(out@ =~= scale_words(w@, factor, invocations as nat));
    }
    out
}

/// `n` bytes of tightly packed pixels that all equal `c`, in `format`'s
/// channel order.
fn solid_vec(pixel_format: ImageFormat, n: usize, c: ClearColor) -> (r: Vec<u8>)
    ensures
        r@ == solid_bytes(pixel_format, n as nat, c),
{
    let mut out: Vec<u8> = Vec::new();
    let mut i: usize = 0;
    while i < n
        invariant
            i <= n,
            out@.len() == i,
            forall|q: int| 0 <= q < i ==> out@[q] == solid_byte(pixel_format, c, q),
        decreases n - i,
    {
        let m = i % 4;
        let first: u8 = match pixel_format {
            ImageFormat::Rgba8Unorm => c.r,
            ImageFormat::Bgra8Unorm => c.b,
        };
        let third: u8 = match pixel_format {
            ImageFormat::Rgba8Unorm => c.b,
            ImageFormat::Bgra8Unorm => c.r,
        };
        let v: u8 = if m == 0 {
            first
        } else if m == 1 {
            c.g
        } else if m == 2 {
            third
        } else {
            c.a
        };
        out.push(v);
        i = i + 1;
    }
    proof {
        assert(out@ =~= solid_bytes(pixel_format, n as nat, c));
    }
    out
}

/// What the modelled device has bound, as the executor tracks it.
struct ExecBindings {
    compute: Option<ComputeBinding>,
    writes: Option<Vec<DescriptorWrite>>,
    attachment: Option<usize>,
}

impl View for ExecBindings {
    type V = RunBindings;

    closed spec fn view(&self) -> RunBindings {
        RunBindings {
            compute: match self.compute {
                Option::Some(cb) => Some(
                    ComputeBindModel { binding_count: cb.binding_count as nat, effect: cb.effect },
                ),
                Option::None => None,
            },
            writes: match self.writes {
                Option::Some(v) => Some(v@),
                Option::None => None,
            },
            attachment: match self.attachment {
                Option::Some(a) => Some(a as int),
                Option::None => None,
            },
        }
    }
}


/// Applies one operation to the allocator's resources and the executor's
/// bindings, exactly as `step_op` says.
#[verifier::rlimit(50)]
fn apply_op(alloc: &mut MemoryAllocator, eb: &mut ExecBindings, op: &Operation)
    ensures
        final(alloc).machine_state() == step_op(old(alloc).machine_state(), old(eb)@, op@).0,
        final(eb)@ == step_op(old(alloc).machine_state(), old(eb)@, op@).1,
        final(alloc).remaining == old(alloc).remaining,
        final(alloc).host_visible_memory == old(alloc).host_visible_memory,
        final(alloc).device_local_memory == old(alloc).device_local_memory,
{
    match op {
        Operation::CopyBuffer { src, dst } => {
            let src: usize = *src;
            let dst: usize = *dst;
            if src < alloc.buffer_count() && dst < alloc.buffer_count() {
                if alloc.buffer_byte_len(src) == alloc.buffer_byte_len(dst) {
                    let data = clone_data(&alloc.buffers[src].data);
                    set_data(alloc, dst, data);
                }
            }
        },
        Operation::ClearImage { image, color } => {
            let image: usize = *image;
            if image < alloc.image_count() {
                set_content(alloc, image, ImageContent::Solid(*color));
            }
        },
        Operation::BeginRenderPass { attachment, clear } => {
            let attachment: usize = *attachment;
            if attachment < alloc.image_count() {
                set_content(alloc, attachment, ImageContent::Solid(*clear));
            }
            eb.attachment = Some(attachment);
        },
        Operation::BindComputePipeline { binding_count, effect } => {
            eb.compute = Some(ComputeBinding { binding_count: *binding_count, effect: *effect });
            eb.writes = None;
        },
        Operation::BindGraphicsPipeline { .. } => {},
        Operation::BindDescriptorSet { writes } => {
            eb.writes = Some(copy_writes(writes));
        },
        Operation::BindVertexBuffer { .. } => {},
        Operation::Dispatch { groups_x, groups_y, groups_z } => {
            let gx: u32 = *groups_x;
            let gy: u32 = *groups_y;
            let gz: u32 = *groups_z;
            let cb_opt: Option<ComputeBinding> = eb.compute;
            match cb_opt {
                Option::None => {},
                Option::Some(cb) => match &eb.writes {
                    Option::None => {},
                    Option::Some(ws) => match cb.effect {
                        ShaderEffect::Opaque => {
                            mark_written_exec(alloc, ws);
                        },
                        ShaderEffect::ScaleWords { factor, local_size } => {
                            let mut modelled = false;
                            let mut target: usize = 0;
                            if ws.len() == 1 {
                                match ws[0].resource {
                                    BoundResource::Buffer(id) => {
                                        if id < alloc.buffer_count() {
                                            match &alloc.buffers[id].data {
                                                BufferData::Words(_) => {
                                                    modelled = true;
                                                    target = id;
                                                },
                                                _ => {},
                                            }
                                        }
                                    },
                                    BoundResource::ImageView(..) => {},
                                }
                            }
                            if modelled {
                                proof {
                                    assert((gx as int) * (gy as int) <= 0xffff_ffff * 0xffff_ffff)
                                        by (nonlinear_arith)
                                        requires
                                            0 <= gx as int <= 0xffff_ffff,
                                            0 <= gy as int <= 0xffff_ffff,
                                    ;
                                    assert((gx as int) * (gy as int) * (gz as int) <= 0xffff_ffff
                                        * 0xffff_ffff * 0xffff_ffff) by (nonlinear_arith)
                                        requires
                                            0 <= (gx as int) * (gy as int) <= 0xffff_ffff
                                                * 0xffff_ffff,
                                            0 <= gz as int <= 0xffff_ffff,
                                    ;
                                    assert((gx as int) * (gy as int) * (gz as int) * (
                                    local_size as int) <= 0xffff_ffff * 0xffff_ffff * 0xffff_ffff
                                        * 0xffff_ffff) by (nonlinear_arith)
                                        requires
                                            0 <= (gx as int) * (gy as int) * (gz as int)
                                                <= 0xffff_ffff * 0xffff_ffff * 0xffff_ffff,
                                            0 <= local_size as int <= 0xffff_ffff,
                                    ;
                                }
                                let inv: u128 = ((gx as u128) * (gy as u128) * (gz as u128)) * (
                                local_size as u128);
                                let scaled_opt: Option<Vec<u32>> = match &alloc.buffers[
                                    target
                                ].data {
                                    BufferData::Words(w) => Some(scale_vec(w, factor, inv)),
                                    _ => None,
                                };
                                match scaled_opt {
                                    Option::Some(sc) => {
                                        set_data(alloc, target, BufferData::Words(sc));
                                    },
                                    Option::None => {},
                                }
                            } else {
                                mark_written_exec(alloc, ws);
                            }
                        },
                    },
                },
            }
        },
        Operation::Draw { .. } => {
            match eb.attachment {
                Option::Some(a) => {
                    if a < alloc.image_count() {
                        set_content(alloc, a, ImageContent::DeviceWritten);
                    }
                },
                Option::None => {},
            }
        },
        Operation::EndRenderPass => {
            eb.attachment = None;
        },
        Operation::CopyImageToBuffer { image, buffer } => {
            let image: usize = *image;
            let buffer: usize = *buffer;
            if image < alloc.image_count() && buffer < alloc.buffer_count() {
                let blen = alloc.buffer_byte_len(buffer);
                let ilen = alloc.image_byte_len(image);
                if blen == ilen && ilen <= usize::MAX as u128 {
                    let content = alloc.images[image].content;
                    let pixel_format = alloc.images[image].format;
                    match content {
                        ImageContent::Solid(c) => {
                            let bytes = solid_vec(pixel_format, ilen as usize, c);
                            set_data(alloc, buffer, BufferData::Bytes(bytes));
                        },
                        ImageContent::DeviceWritten => {
                            set_data(alloc, buffer, BufferData::DeviceWritten(ilen));
                        },
                    }
                }
            }
        },
    }
}


/// Sets one buffer's flight flag, leaving everything else as it was.
fn set_buffer_flag(alloc: &mut MemoryAllocator, id: usize, v: bool)
    requires
        id < old(alloc).buffers@.len(),
    ensures
        final(alloc).buffers@.len() == old(alloc).buffers@.len(),
        final(alloc).buffers@[id as int]@ == (BufModel {
            in_flight: v,
            ..old(alloc).buffers@[id as int]@
        }),
        forall|i: int|
            0 <= i < old(alloc).buffers@.len() && i != id ==> final(alloc).buffers@[i] == old(alloc).buffers@[i],
        final(alloc).images@ == old(alloc).images@,
        final(alloc).remaining == old(alloc).remaining,
        final(alloc).host_visible_memory == old(alloc).host_visible_memory,
        final(alloc).device_local_memory == old(alloc).device_local_memory,
{
    let mut taken = BufferResource {
        usage: crate::memory::BufferUsage {
            transfer_src: false,
            transfer_dst: false,
            storage: false,
            vertex: false,
        },
        access: crate::memory::AccessPattern::DeviceOnly,
        data: BufferData::DeviceWritten(0),
        in_flight: false,
    };
    alloc.buffers.set_and_swap(id, &mut taken);
    taken.in_flight = v;
    alloc.buffers.set_and_swap(id, &mut taken);
}

/// Sets one image's flight flag, leaving everything else as it was.
fn set_image_flag(alloc: &mut MemoryAllocator, id: usize, v: bool)
    requires
        id < old(alloc).images@.len(),
    ensures
        final(alloc).images@.len() == old(alloc).images@.len(),
        final(alloc).images@[id as int]@ == (ImgModel {
            in_flight: v,
            ..old(alloc).images@[id as int]@
        }),
        forall|i: int|
            0 <= i < old(alloc).images@.len() && i != id ==> final(alloc).images@[i] == old(alloc).images@[i],
        final(alloc).buffers@ == old(alloc).buffers@,
        final(alloc).remaining == old(alloc).remaining,
        final(alloc).host_visible_memory == old(alloc).host_visible_memory,
        final(alloc).device_local_memory == old(alloc).device_local_memory,
{
    let mut taken = ImageResource {
        width: 0,
        height: 0,
        usage: crate::memory::ImageUsage {
            transfer_src: false,
            transfer_dst: false,
            storage: false,
            color_attachment: false,
        },
        access: crate::memory::AccessPattern::DeviceOnly,
        format: ImageFormat::Rgba8Unorm,
        content: ImageContent::DeviceWritten,
        in_flight: false,
    };
    alloc.images.set_and_swap(id, &mut taken);
    taken.in_flight = v;
    alloc.images.set_and_swap(id, &mut taken);
}

/// Marks every resource the unit may write as in flight, and returns the
/// lists of exactly those buffer and image indices.
fn mark_flags(alloc: &mut MemoryAllocator, ops: &Vec<Operation>) -> (r: (Vec<usize>, Vec<usize>))
    ensures
        final(alloc).machine_state() == with_flags(
            old(alloc).machine_state(),
            crate::recorder::op_models(ops@),
        ),
        final(alloc).remaining == old(alloc).remaining,
        final(alloc).host_visible_memory == old(alloc).host_visible_memory,
        final(alloc).device_local_memory == old(alloc).device_local_memory,
        forall|i: int| #![trigger lists_id(r.0@, i)]
            lists_id(r.0@, i) <==> (0 <= i < old(alloc).buffers@.len() && unit_touches_buffer(
                crate::recorder::op_models(ops@),
                i,
            )),
        forall|i: int| #![trigger lists_id(r.1@, i)]
            lists_id(r.1@, i) <==> (0 <= i < old(alloc).images@.len() && unit_touches_image(
                crate::recorder::op_models(ops@),
                i,
            )),
{
    let ghost base = old(alloc).machine_state();
    let ghost models = crate::recorder::op_models(ops@);
    let mut touched_buffers: Vec<usize> = Vec::new();
    let mut touched_images: Vec<usize> = Vec::new();
    let n = alloc.buffer_count();
    let mut bi: usize = 0;
    while bi < n
        invariant
            bi <= n,
            n == alloc.buffers@.len(),
            base == old(alloc).machine_state(),
            models == crate::recorder::op_models(ops@),
            n == base.buffers.len(),
            alloc.images@ == old(alloc).images@,
            alloc.remaining == old(alloc).remaining,
            alloc.host_visible_memory == old(alloc).host_visible_memory,
            alloc.device_local_memory == old(alloc).device_local_memory,
            forall|i: int|
                0 <= i < bi ==> alloc.buffers@[i]@ == (BufModel {
                    in_flight: base.buffers[i].in_flight || unit_touches_buffer(models, i),
                    ..base.buffers[i]
                }),
            forall|i: int| bi <= i < n ==> alloc.buffers@[i]@ == base.buffers[i],
            forall|i: int| #![trigger lists_id(touched_buffers@, i)]
                lists_id(touched_buffers@, i) <==> (0 <= i < bi && unit_touches_buffer(models, i)),
        decreases n - bi,
    {
        let ghost before = touched_buffers@;
        if touches_buffer_exec(ops, bi) {
            set_buffer_flag(alloc, bi, true);
            touched_buffers.push(bi);
        }
        proof {
            assert forall|i: int| #![trigger lists_id(touched_buffers@, i)]
                lists_id(touched_buffers@, i) <==> (0 <= i < bi + 1 && unit_touches_buffer(
                    models,
                    i,
                )) by {
                if touched_buffers@.len() > before.len() {
                    lemma_lists_id_push(before, bi, i);
                }
                assert(lists_id(before, i) <==> (0 <= i < bi && unit_touches_buffer(models, i)));
            }
        }
        bi = bi + 1;
    }
    let m = alloc.image_count();
    let mut ii: usize = 0;
    while ii < m
        invariant
            ii <= m,
            m == alloc.images@.len(),
            base == old(alloc).machine_state(),
            models == crate::recorder::op_models(ops@),
            m == base.images.len(),
            n == alloc.buffers@.len(),
            n == base.buffers.len(),
            alloc.remaining == old(alloc).remaining,
            alloc.host_visible_memory == old(alloc).host_visible_memory,
            alloc.device_local_memory == old(alloc).device_local_memory,
            forall|i: int|
                0 <= i < n ==> alloc.buffers@[i]@ == (BufModel {
                    in_flight: base.buffers[i].in_flight || unit_touches_buffer(models, i),
                    ..base.buffers[i]
                }),
            forall|i: int|
                0 <= i < ii ==> alloc.images@[i]@ == (ImgModel {
                    in_flight: base.images[i].in_flight || unit_touches_image(models, i),
                    ..base.images[i]
                }),
            forall|i: int| ii <= i < m ==> alloc.images@[i]@ == base.images[i],
            forall|i: int| #![trigger lists_id(touched_buffers@, i)]
                lists_id(touched_buffers@, i) <==> (0 <= i < n && unit_touches_buffer(models, i)),
            forall|i: int| #![trigger lists_id(touched_images@, i)]
                lists_id(touched_images@, i) <==> (0 <= i < ii && unit_touches_image(models, i)),
        decreases m - ii,
    {
        let ghost before = touched_images@;
        if touches_image_exec(ops, ii) {
            set_image_flag(alloc, ii, true);
            touched_images.push(ii);
        }
        proof {
            assert forall|i: int| #![trigger lists_id(touched_images@, i)]
                lists_id(touched_images@, i) <==> (0 <= i < ii + 1 && unit_touches_image(
                    models,
                    i,
                )) by {
                if touched_images@.len() > before.len() {
                    lemma_lists_id_push(before, ii, i);
                }
                assert(lists_id(before, i) <==> (0 <= i < ii && unit_touches_image(models, i)));
            }
        }
        ii = ii + 1;
    }
    proof {
        assert(alloc.machine_state().buffers =~= with_flags(base, models).buffers);
        assert(alloc.machine_state().images =~= with_flags(base, models).images);
        assert(alloc.machine_state() =~= with_flags(base, models));
    }
    (touched_buffers, touched_images)
}

/// The completion signal of one submission: single-use, consumed by the
/// wait that observes it. The token carries, in fields no caller can
/// forge, exactly which buffers and images its unit may write — the
/// resources the submission marked in flight; only a submission returns a
/// token.
pub struct CompletionToken {
    queue_family_index: usize,
    buffers: Vec<usize>,
    images: Vec<usize>,
}

impl CompletionToken {
    /// The queue family the producing unit was submitted to.
    pub closed spec fn family(&self) -> usize {
        self.queue_family_index
    }

    /// Reads back the queue family the producing unit was submitted to.
    pub fn queue_family(&self) -> (r: usize)
        ensures
            r == self.family(),
    {
        self.queue_family_index
    }

    /// The indices of the buffers the producing unit may write.
    pub closed spec fn listed_buffers(&self) -> Seq<usize> {
        self.buffers@
    }

    /// The indices of the images the producing unit may write.
    pub closed spec fn listed_images(&self) -> Seq<usize> {
        self.images@
    }

    /// Blocks until the device signals completion of the submission that
    /// produced this token or until `timeout_ms` elapses (an infinite wait
    /// when none is given), then consumes the token. A successful wait
    /// releases exactly the resources the producing submission marked in
    /// flight — those are then safe to read on the host; a resource a
    /// later, unwaited submission may write stays in flight. Fails with
    /// `DeviceLost` if and only if the device was lost; the resources then
    /// stay unsafe to read. The modelled device has completed the work by
    /// the time the submission call returned, so no timeout ever elapses
    /// here and `Timeout` is never returned.
    pub fn wait(
        self,
        ctx: &DeviceContext,
        alloc: &mut MemoryAllocator,
        timeout_ms: Option<u64>,
    ) -> (r: Result<(), GpuError>)
        ensures
            ctx.lost ==> r == Err::<(), GpuError>(GpuError::DeviceLost) && *final(alloc) == *old(alloc),
            !ctx.lost ==> r == Ok::<(), GpuError>(()) && final(alloc).machine_state()
                == cleared_listed(
                old(alloc).machine_state(),
                self.listed_buffers(),
                self.listed_images(),
            ) && final(alloc).remaining == old(alloc).remaining && final(alloc).host_visible_memory == old(alloc).host_visible_memory && final(alloc).device_local_memory == old(alloc).device_local_memory,
    {
        if ctx.lost {
            return Err(GpuError::DeviceLost);
        }
        let ghost base = old(alloc).machine_state();
        let ghost bs = self.buffers@;
        let ghost is = self.images@;
        let n = alloc.buffer_count();
        let m = alloc.image_count();
        let mut k: usize = 0;
        proof {
            assert(bs.take(0) =~= Seq::<usize>::empty());
        }
        while k < self.buffers.len()
            invariant
                k <= bs.len(),
                bs == self.buffers@,
                is == self.images@,
                base == old(alloc).machine_state(),
                n == alloc.buffers@.len(),
                n == base.buffers.len(),
                alloc.images@ == old(alloc).images@,
                alloc.remaining == old(alloc).remaining,
                alloc.host_visible_memory == old(alloc).host_visible_memory,
                alloc.device_local_memory == old(alloc).device_local_memory,
                forall|i: int|
                    0 <= i < n ==> alloc.buffers@[i]@ == (BufModel {
                        in_flight: base.buffers[i].in_flight && !lists_id(bs.take(k as int), i),
                        ..base.buffers[i]
                    }),
            decreases bs.len() - k,
        {
            let id = self.buffers[k];
            if id < n {
                set_buffer_flag(alloc, id, false);
            }
            proof {
                assert(bs.take(k as int + 1) =~= bs.take(k as int).push(bs[k as int]));
                assert forall|i: int|
                    lists_id(bs.take(k as int + 1), i) == (lists_id(bs.take(k as int), i) || id
                        as int == i) by {
                    lemma_lists_id_push(bs.take(k as int), bs[k as int], i);
                }
            }
            k = k + 1;
        }
        proof {
            assert(bs.take(bs.len() as int) =~= bs);
        }
        let mut q: usize = 0;
        proof {
            assert(is.take(0) =~= Seq::<usize>::empty());
        }
        while q < self.images.len()
            invariant
                q <= is.len(),
                is == self.images@,
                bs == self.buffers@,
                base == old(alloc).machine_state(),
                n == alloc.buffers@.len(),
                n == base.buffers.len(),
                m == alloc.images@.len(),
                m == base.images.len(),
                alloc.remaining == old(alloc).remaining,
                alloc.host_visible_memory == old(alloc).host_visible_memory,
                alloc.device_local_memory == old(alloc).device_local_memory,
                forall|i: int|
                    0 <= i < n ==> alloc.buffers@[i]@ == (BufModel {
                        in_flight: base.buffers[i].in_flight && !lists_id(bs, i),
                        ..base.buffers[i]
                    }),
                forall|i: int|
                    0 <= i < m ==> alloc.images@[i]@ == (ImgModel {
                        in_flight: base.images[i].in_flight && !lists_id(is.take(q as int), i),
                        ..base.images[i]
                    }),
            decreases is.len() - q,
        {
            let id = self.images[q];
            if id < m {
                set_image_flag(alloc, id, false);
            }
            proof {
                assert(is.take(q as int + 1) =~= is.take(q as int).push(is[q as int]));
                assert forall|i: int|
                    lists_id(is.take(q as int + 1), i) == (lists_id(is.take(q as int), i) || id
                        as int == i) by {
                    lemma_lists_id_push(is.take(q as int), is[q as int], i);
                }
            }
            q = q + 1;
        }
        proof {
            assert(is.take(is.len() as int) =~= is);
            assert(alloc.machine_state().buffers =~= cleared_listed(base, bs, is).buffers);
            assert(alloc.machine_state().images =~= cleared_listed(base, bs, is).images);
            assert(alloc.machine_state() =~= cleared_listed(base, bs, is));
        }
        Ok(())
    }
}

/// Submits a finalized command unit to the context's queue. The unit is
/// consumed: re-submission takes re-recording. Fails with
/// `SubmissionFailed` if and only if the queue rejects the unit: the
/// device is lost, the unit targets another family, or the family does
/// not report the capabilities the operations need. On success the
/// modelled device has executed the operations in recorded order
/// (`run_unit`), every resource the unit may write is marked in flight,
/// and the returned token must be waited on before any of them is read.
pub fn submit(ctx: &DeviceContext, unit: CommandUnit, alloc: &mut MemoryAllocator) -> (r: Result<
    CompletionToken,
    GpuError,
>)
    requires
        forall|i: int|
            0 <= i < old(alloc).buffers@.len() && unit_touches_buffer(unit.op_models(), i)
                ==> !old(alloc).buffers@[i].in_flight,
        forall|i: int|
            0 <= i < old(alloc).images@.len() && unit_touches_image(unit.op_models(), i) ==> !old(alloc).images@[i].in_flight,
    ensures
        queue_rejects(*ctx, unit) ==> r == Err::<CompletionToken, GpuError>(
            GpuError::SubmissionFailed,
        ) && *final(alloc) == *old(alloc),
        !queue_rejects(*ctx, unit) ==> (r matches Ok(t) && t.family()
            == ctx.queue_family_index && (forall|i: int|
            #![trigger lists_id(t.listed_buffers(), i)]
            lists_id(t.listed_buffers(), i) <==> (0 <= i < old(alloc).buffers@.len()
                && unit_touches_buffer(unit.op_models(), i))) && (forall|i: int|
            #![trigger lists_id(t.listed_images(), i)]
            lists_id(t.listed_images(), i) <==> (0 <= i < old(alloc).images@.len()
                && unit_touches_image(unit.op_models(), i))) && final(alloc).machine_state()
            == with_flags(
            run_unit(old(alloc).machine_state(), unit.op_models()),
            unit.op_models(),
        ) && final(alloc).remaining == old(alloc).remaining && final(alloc).host_visible_memory
            == old(alloc).host_visible_memory && final(alloc).device_local_memory == old(alloc).device_local_memory),
{
    let required = compute_required_caps(&unit.ops);
    if ctx.lost || unit.queue_family_index != ctx.queue_family_index || !ctx.queue_caps.satisfies(
        &required,
    ) {
        return Err(GpuError::SubmissionFailed);
    }
    let ghost s0 = old(alloc).machine_state();
    let ghost models = unit.op_models();
    let mut eb = ExecBindings { compute: None, writes: None, attachment: None };
    proof {
        assert(eb@ =~= init_bindings());
        assert(models.skip(0) =~= models);
    }
    let mut i: usize = 0;
    while i < unit.ops.len()
        invariant
            i <= unit.ops@.len(),
            s0 == old(alloc).machine_state(),
            models == unit.op_models(),
            run_ops(alloc.machine_state(), eb@, models.skip(i as int)) == run_unit(s0, models),
            alloc.remaining == old(alloc).remaining,
            alloc.host_visible_memory == old(alloc).host_visible_memory,
            alloc.device_local_memory == old(alloc).device_local_memory,
        decreases unit.ops@.len() - i,
    {
        let ghost pre = alloc.machine_state();
        let ghost preb = eb@;
        apply_op(alloc, &mut eb, &unit.ops[i]);
        proof {
            assert(models[i as int] == unit.ops@[i as int]@);
            assert(models.skip(i as int)[0] == models[i as int]);
            assert(models.skip(i as int).drop_first() =~= models.skip(i as int + 1));
            assert(run_ops(pre, preb, models.skip(i as int)) == run_ops(
                alloc.machine_state(),
                eb@,
                models.skip(i as int + 1),
            ));
        }
        i = i + 1;
    }
    proof {
        assert(models.skip(unit.ops@.len() as int) =~= Seq::<OpModel>::empty());
        assert(alloc.machine_state() == run_unit(s0, models));
        crate::laws::lemma_execution_preserves_shape(s0, models);
        assert(alloc.buffers@.len() == old(alloc).buffers@.len());
        assert(alloc.images@.len() == old(alloc).images@.len());
    }
    let (touched_buffers, touched_images) = mark_flags(alloc, &unit.ops);
    Ok(
        CompletionToken {
            queue_family_index: ctx.queue_family_index,
            buffers: touched_buffers,
            images: touched_images,
        },
    )
}

} // verus!
