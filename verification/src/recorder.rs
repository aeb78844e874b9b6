//! The command recorder: an ordered list of GPU operations built under a
//! strict state machine, and the immutable command unit it finalises into.
//!
//! The recorder moves `Empty -> Recording -> Finalized` and never back. A
//! call outside its state fails with `InvalidState`; an operation whose
//! required prior binding is missing, or whose resources do not fit it,
//! fails with `InvalidBinding`. Operations execute on the device strictly
//! in recorded order; a finalized unit is immutable and consumed by a
//! single submission.

use vstd::prelude::*;

use crate::error::GpuError;
use crate::memory::{BufferResource, ClearColor, ImageResource, MemoryAllocator};
use crate::pipeline::{BoundResource, DescriptorSet, DescriptorWrite, Pipeline, ShaderEffect};

verus! {

/// The phases of the recorder's life.
#[derive(Clone, Copy, Debug, PartialEq, Eq, Structural)]
pub enum RecorderState {
    /// Created, recording not begun.
    Empty,
    /// Between `begin_recording` and `finalize`: operations append.
    Recording,
    /// Finalized; nothing may be appended any more.
    Finalized,
}

/// A compute pipeline as the recorder tracks it once bound.
#[derive(Clone, Copy, Debug, PartialEq, Eq, Structural)]
pub struct ComputeBinding {
    pub binding_count: usize,
    pub effect: ShaderEffect,
}

/// One recorded operation. Resources are named by the indices the
/// allocator handed out.
pub enum Operation {
    CopyBuffer { src: usize, dst: usize },
    ClearImage { image: usize, color: ClearColor },
    BeginRenderPass { attachment: usize, clear: ClearColor },
    BindComputePipeline { binding_count: usize, effect: ShaderEffect },
    BindGraphicsPipeline { viewport_width: u32, viewport_height: u32 },
    BindDescriptorSet { writes: Vec<DescriptorWrite> },
    BindVertexBuffer { buffer: usize },
    Dispatch { groups_x: u32, groups_y: u32, groups_z: u32 },
    Draw { vertex_count: u32, instance_count: u32, first_vertex: u32, first_instance: u32 },
    EndRenderPass,
    CopyImageToBuffer { image: usize, buffer: usize },
}

/// The mathematical shape of one operation.
pub enum OpModel {
    CopyBuffer { src: int, dst: int },
    ClearImage { image: int, color: ClearColor },
    BeginRenderPass { attachment: int, clear: ClearColor },
    BindComputePipeline { binding_count: nat, effect: ShaderEffect },
    BindGraphicsPipeline { viewport_width: u32, viewport_height: u32 },
    BindDescriptorSet { writes: Seq<DescriptorWrite> },
    BindVertexBuffer { buffer: int },
    Dispatch { groups_x: u32, groups_y: u32, groups_z: u32 },
    Draw { vertex_count: u32, instance_count: u32, first_vertex: u32, first_instance: u32 },
    EndRenderPass,
    CopyImageToBuffer { image: int, buffer: int },
}

impl View for Operation {
    type V = OpModel;

    open spec fn view(&self) -> OpModel {
        match self {
            Operation::CopyBuffer { src, dst } => OpModel::CopyBuffer {
                src: *src as int,
                dst: *dst as int,
            },
            Operation::ClearImage { image, color } => OpModel::ClearImage {
                image: *image as int,
                color: *color,
            },
            Operation::BeginRenderPass { attachment, clear } => OpModel::BeginRenderPass {
                attachment: *attachment as int,
                clear: *clear,
            },
            Operation::BindComputePipeline { binding_count, effect } => (
            OpModel::BindComputePipeline {
                binding_count: *binding_count as nat,
                effect: *effect,
            }),
            Operation::BindGraphicsPipeline { viewport_width, viewport_height } => (
            OpModel::BindGraphicsPipeline {
                viewport_width: *viewport_width,
                viewport_height: *viewport_height,
            }),
            Operation::BindDescriptorSet { writes } => OpModel::BindDescriptorSet {
                writes: writes@,
            },
            Operation::BindVertexBuffer { buffer } => OpModel::BindVertexBuffer {
                buffer: *buffer as int,
            },
            Operation::Dispatch { groups_x, groups_y, groups_z } => OpModel::Dispatch {
                groups_x: *groups_x,
                groups_y: *groups_y,
                groups_z: *groups_z,
            },
            Operation::Draw { vertex_count, instance_count, first_vertex, first_instance } => (
            OpModel::Draw {
                vertex_count: *vertex_count,
                instance_count: *instance_count,
                first_vertex: *first_vertex,
                first_instance: *first_instance,
            }),
            Operation::EndRenderPass => OpModel::EndRenderPass,
            Operation::CopyImageToBuffer { image, buffer } => OpModel::CopyImageToBuffer {
                image: *image as int,
                buffer: *buffer as int,
            },
        }
    }
}

/// The models of a recorded operation list, in order.
pub open spec fn op_models(ops: Seq<Operation>) -> Seq<OpModel> {
    ops.map_values(|o: Operation| o@)
}

/// Whether a buffer-to-buffer copy fits the resources it names: both exist,
/// the source is a transfer source, the destination a transfer destination,
/// and the byte lengths agree.
pub open spec fn copy_buffer_fits(buffers: Seq<BufferResource>, src: int, dst: int) -> bool {
    &&& 0 <= src < buffers.len()
    &&& 0 <= dst < buffers.len()
    &&& buffers[src].usage.transfer_src
    &&& buffers[dst].usage.transfer_dst
    &&& buffers[src].data.byte_len() == buffers[dst].data.byte_len()
}

/// Whether every write of a descriptor set names an existing resource
/// created for shader storage use.
pub open spec fn descriptor_writes_fit(
    buffers: Seq<BufferResource>,
    images: Seq<ImageResource>,
    writes: Seq<DescriptorWrite>,
) -> bool {
    forall|j: int|
        0 <= j < writes.len() ==> match #[trigger] writes[j].resource {
            BoundResource::Buffer(id) => id < buffers.len() && buffers[id as int].usage.storage,
            BoundResource::ImageView(id) => id < images.len() && images[id as int].usage.storage,
        }
}

/// Whether an image-to-buffer copy fits: both exist, the image is a
/// transfer source, the buffer a transfer destination, and the buffer is
/// exactly as long as the tightly packed pixels of the image.
pub open spec fn copy_image_to_buffer_fits(
    buffers: Seq<BufferResource>,
    images: Seq<ImageResource>,
    image: int,
    buffer: int,
) -> bool {
    &&& 0 <= image < images.len()
    &&& 0 <= buffer < buffers.len()
    &&& images[image].usage.transfer_src
    &&& buffers[buffer].usage.transfer_dst
    &&& buffers[buffer].data.byte_len() == images[image].byte_len()
}

/// A finalized, immutable, one-shot command unit: the recorded operations
/// in order, and the queue family they target.
pub struct CommandUnit {
    pub queue_family_index: usize,
    pub ops: Vec<Operation>,
}

impl CommandUnit {
    /// The models of the unit's operations, in recorded order.
    pub open spec fn op_models(&self) -> Seq<OpModel> {
        op_models(self.ops@)
    }
}

/// The recorder. Fields mirror exactly what the state machine needs: the
/// phase, the target queue family, the operations so far, and which
/// bindings are currently active while recording.
pub struct CommandRecorder {
    pub state: RecorderState,
    pub queue_family_index: usize,
    pub ops: Vec<Operation>,
    /// The compute pipeline currently bound, if any.
    pub bound_compute: Option<ComputeBinding>,
    /// Whether a descriptor set matching the bound compute pipeline's
    /// layout is bound.
    pub descriptor_bound: bool,
    /// Whether a graphics pipeline is bound.
    pub graphics_bound: bool,
    /// Whether a vertex buffer is bound.
    pub vertex_bound: bool,
    /// Whether a render pass is open.
    pub in_render_pass: bool,
}

/// Everything of the recorder except its operation list.
pub open spec fn same_but_ops(a: CommandRecorder, b: CommandRecorder) -> bool {
    &&& a.state == b.state
    &&& a.queue_family_index == b.queue_family_index
    &&& a.bound_compute == b.bound_compute
    &&& a.descriptor_bound == b.descriptor_bound
    &&& a.graphics_bound == b.graphics_bound
    &&& a.vertex_bound == b.vertex_bound
    &&& a.in_render_pass == b.in_render_pass
}

impl CommandRecorder {
    /// The models of the operations recorded so far, in order.
    pub open spec fn op_models(&self) -> Seq<OpModel> {
        op_models(self.ops@)
    }

    /// A fresh recorder: nothing recorded, nothing bound.
    pub fn new() -> (r: CommandRecorder)
        ensures
            r.state == RecorderState::Empty,
            r.queue_family_index == 0,
            r.op_models() == Seq::<OpModel>::empty(),
            r.bound_compute is None,
            !r.descriptor_bound,
            !r.graphics_bound,
            !r.vertex_bound,
            !r.in_render_pass,
    {
        let r = CommandRecorder {
            state: RecorderState::Empty,
            queue_family_index: 0,
            ops: Vec::new(),
            bound_compute: None,
            descriptor_bound: false,
            graphics_bound: false,
            vertex_bound: false,
            in_render_pass: false,
        };
        proof {
            assert(r.op_models() =~= Seq::<OpModel>::empty());
        }
        r
    }

    /// Begins recording a one-time-submit unit against `queue_family_index`.
    /// Fails with `InvalidState` if and only if recording was already begun
    /// (or the recorder is already finalized).
    pub fn begin_recording(&mut self, queue_family_index: usize) -> (r: Result<(), GpuError>)
        ensures
            old(self).state is Empty ==> r == Ok::<(), GpuError>(()) && *final(self)
                == (CommandRecorder {
                state: RecorderState::Recording,
                queue_family_index,
                ..*old(self)
            }),
            !(old(self).state is Empty) ==> r == Err::<(), GpuError>(GpuError::InvalidState)
                && *final(self) == *old(self),
    {
        match self.state {
            RecorderState::Empty => {
                self.state = RecorderState::Recording;
                self.queue_family_index = queue_family_index;
                Ok(())
            },
            _ => Err(GpuError::InvalidState),
        }
    }

    /// Appends a buffer-to-buffer copy: the destination's contents become
    /// the source's. Fails with `InvalidState` if and only if the recorder
    /// is not recording; otherwise with `InvalidBinding` if and only if the
    /// named buffers do not fit a copy (see `copy_buffer_fits`).
    pub fn copy_buffer(&mut self, alloc: &MemoryAllocator, src: usize, dst: usize) -> (r: Result<
        (),
        GpuError,
    >)
        ensures
            !(old(self).state is Recording) ==> r == Err::<(), GpuError>(GpuError::InvalidState)
                && *final(self) == *old(self),
            old(self).state is Recording && !copy_buffer_fits(
                alloc.buffers@,
                src as int,
                dst as int,
            ) ==> r == Err::<(), GpuError>(GpuError::InvalidBinding) && *final(self) == *old(self),
            old(self).state is Recording && copy_buffer_fits(alloc.buffers@, src as int, dst as int)
                ==> r == Ok::<(), GpuError>(()) && final(self).op_models() == old(self).op_models().push(OpModel::CopyBuffer { src: src as int, dst: dst as int })
                && same_but_ops(*final(self), *old(self)),
    {
        if self.state != RecorderState::Recording {
            return Err(GpuError::InvalidState);
        }
        if !(src < alloc.buffer_count() && dst < alloc.buffer_count()) {
            return Err(GpuError::InvalidBinding);
        }
        if !(alloc.buffer_usage(src).transfer_src && alloc.buffer_usage(dst).transfer_dst) {
            return Err(GpuError::InvalidBinding);
        }
        if alloc.buffer_byte_len(src) != alloc.buffer_byte_len(dst) {
            return Err(GpuError::InvalidBinding);
        }
        self.push_op(Operation::CopyBuffer { src, dst });
        Ok(())
    }

    /// Appends a clear: every pixel of the image becomes `color`. Fails
    /// with `InvalidState` if and only if the recorder is not recording or
    /// a render pass is open; otherwise with `InvalidBinding` if and only
    /// if the image does not exist or was not created as a transfer
    /// destination.
    pub fn clear_image(
        &mut self,
        alloc: &MemoryAllocator,
        image: usize,
        color: ClearColor,
    ) -> (r: Result<(), GpuError>)
        ensures
            !(old(self).state is Recording && !old(self).in_render_pass) ==> r == Err::<
                (),
                GpuError,
            >(GpuError::InvalidState) && *final(self) == *old(self),
            (old(self).state is Recording && !old(self).in_render_pass) && !(image
                < alloc.images@.len() && alloc.images@[image as int].usage.transfer_dst) ==> r
                == Err::<(), GpuError>(GpuError::InvalidBinding) && *final(self) == *old(self),
            (old(self).state is Recording && !old(self).in_render_pass) && (image
                < alloc.images@.len() && alloc.images@[image as int].usage.transfer_dst) ==> r
                == Ok::<(), GpuError>(()) && final(self).op_models() == old(self).op_models().push(
                OpModel::ClearImage { image: image as int, color },
            ) && same_but_ops(*final(self), *old(self)),
    {
        if self.state != RecorderState::Recording || self.in_render_pass {
            return Err(GpuError::InvalidState);
        }
        if !(image < alloc.image_count() && alloc.image_usage(image).transfer_dst) {
            return Err(GpuError::InvalidBinding);
        }
        self.push_op(Operation::ClearImage { image, color });
        Ok(())
    }

    /// Opens a render pass over `attachment`, clearing it to `clear` as its
    /// load operation. Fails with `InvalidState` if and only if the
    /// recorder is not recording or a pass is already open; otherwise with
    /// `InvalidBinding` if and only if the attachment does not exist or
    /// was not created for colour-attachment use.
    pub fn begin_render_pass(
        &mut self,
        alloc: &MemoryAllocator,
        attachment: usize,
        clear: ClearColor,
    ) -> (r: Result<(), GpuError>)
        ensures
            !(old(self).state is Recording && !old(self).in_render_pass) ==> r == Err::<
                (),
                GpuError,
            >(GpuError::InvalidState) && *final(self) == *old(self),
            (old(self).state is Recording && !old(self).in_render_pass) && !(attachment
                < alloc.images@.len() && alloc.images@[attachment as int].usage.color_attachment)
                ==> r == Err::<(), GpuError>(GpuError::InvalidBinding) && *final(self) == *old(
                self,
            ),
            (old(self).state is Recording && !old(self).in_render_pass) && (attachment
                < alloc.images@.len() && alloc.images@[attachment as int].usage.color_attachment)
                ==> r == Ok::<(), GpuError>(()) && final(self).op_models()
                == old(self).op_models().push(
                OpModel::BeginRenderPass { attachment: attachment as int, clear },
            ) && *final(self) == (CommandRecorder {
                ops: final(self).ops,
                in_render_pass: true,
                ..*old(self)
            }),
    {
        if self.state != RecorderState::Recording || self.in_render_pass {
            return Err(GpuError::InvalidState);
        }
        if !(attachment < alloc.image_count() && alloc.image_usage(attachment).color_attachment) {
            return Err(GpuError::InvalidBinding);
        }
        self.in_render_pass = true;
        self.push_op(Operation::BeginRenderPass { attachment, clear });
        Ok(())
    }

    /// Closes the open render pass. Fails with `InvalidState` if and only
    /// if the recorder is not recording or no pass is open.
    pub fn end_render_pass(&mut self) -> (r: Result<(), GpuError>)
        ensures
            !(old(self).state is Recording && old(self).in_render_pass) ==> r == Err::<
                (),
                GpuError,
            >(GpuError::InvalidState) && *final(self) == *old(self),
            (old(self).state is Recording && old(self).in_render_pass) ==> r == Ok::<(), GpuError>(
                (),
            ) && final(self).op_models() == old(self).op_models().push(OpModel::EndRenderPass)
                && *final(self) == (CommandRecorder {
                ops: final(self).ops,
                in_render_pass: false,
                ..*old(self)
            }),
    {
        if self.state != RecorderState::Recording || !self.in_render_pass {
            return Err(GpuError::InvalidState);
        }
        self.in_render_pass = false;
        self.push_op(Operation::EndRenderPass);
        Ok(())
    }

    /// Binds a compute pipeline. A descriptor set must be bound afresh for
    /// it. Fails with `InvalidState` if and only if the recorder is not
    /// recording; otherwise with `InvalidBinding` if and only if the
    /// pipeline is not a compute pipeline.
    pub fn bind_compute_pipeline(&mut self, pipeline: &Pipeline) -> (r: Result<(), GpuError>)
        ensures
            !(old(self).state is Recording) ==> r == Err::<(), GpuError>(GpuError::InvalidState)
                && *final(self) == *old(self),
            old(self).state is Recording && !(pipeline is Compute) ==> r == Err::<(), GpuError>(
                GpuError::InvalidBinding,
            ) && *final(self) == *old(self),
            old(self).state is Recording && pipeline is Compute ==> r == Ok::<(), GpuError>(())
                && final(self).op_models() == old(self).op_models().push(
                OpModel::BindComputePipeline {
                    binding_count: pipeline->Compute_binding_count as nat,
                    effect: pipeline->Compute_effect,
                },
            ) && *final(self) == (CommandRecorder {
                ops: final(self).ops,
                bound_compute: Some(
                    ComputeBinding {
                        binding_count: pipeline->Compute_binding_count,
                        effect: pipeline->Compute_effect,
                    },
                ),
                descriptor_bound: false,
                ..*old(self)
            }),
    {
        if self.state != RecorderState::Recording {
            return Err(GpuError::InvalidState);
        }
        match pipeline {
            Pipeline::Compute { binding_count, effect } => {
                self.bound_compute = Some(
                    ComputeBinding { binding_count: *binding_count, effect: *effect },
                );
                self.descriptor_bound = false;
                self.push_op(
                    Operation::BindComputePipeline {
                        binding_count: *binding_count,
                        effect: *effect,
                    },
                );
                Ok(())
            },
            Pipeline::Graphics { .. } => Err(GpuError::InvalidBinding),
        }
    }

    /// Binds a graphics pipeline. Fails with `InvalidState` if and only if
    /// the recorder is not recording; otherwise with `InvalidBinding` if
    /// and only if the pipeline is not a graphics pipeline.
    pub fn bind_graphics_pipeline(&mut self, pipeline: &Pipeline) -> (r: Result<(), GpuError>)
        ensures
            !(old(self).state is Recording) ==> r == Err::<(), GpuError>(GpuError::InvalidState)
                && *final(self) == *old(self),
            old(self).state is Recording && !(pipeline is Graphics) ==> r == Err::<(), GpuError>(
                GpuError::InvalidBinding,
            ) && *final(self) == *old(self),
            old(self).state is Recording && pipeline is Graphics ==> r == Ok::<(), GpuError>(())
                && final(self).op_models() == old(self).op_models().push(
                OpModel::BindGraphicsPipeline {
                    viewport_width: pipeline->Graphics_viewport_width,
                    viewport_height: pipeline->Graphics_viewport_height,
                },
            ) && *final(self) == (CommandRecorder {
                ops: final(self).ops,
                graphics_bound: true,
                ..*old(self)
            }),
    {
        if self.state != RecorderState::Recording {
            return Err(GpuError::InvalidState);
        }
        match pipeline {
            Pipeline::Graphics { viewport_width, viewport_height } => {
                self.graphics_bound = true;
                self.push_op(
                    Operation::BindGraphicsPipeline {
                        viewport_width: *viewport_width,
                        viewport_height: *viewport_height,
                    },
                );
                Ok(())
            },
            Pipeline::Compute { .. } => Err(GpuError::InvalidBinding),
        }
    }

    /// Binds a descriptor set to the bound compute pipeline. Fails with
    /// `InvalidState` if and only if the recorder is not recording;
    /// otherwise with `InvalidBinding` if and only if no compute pipeline
    /// is bound, the set was built for a different binding count, or a
    /// write names a resource that does not exist or was not created for
    /// shader storage use.
    pub fn bind_descriptor_set(&mut self, alloc: &MemoryAllocator, set: &DescriptorSet) -> (r:
        Result<(), GpuError>)
        ensures
            !(old(self).state is Recording) ==> r == Err::<(), GpuError>(GpuError::InvalidState)
                && *final(self) == *old(self),
            old(self).state is Recording && !(old(self).bound_compute matches Some(cb)
                && cb.binding_count == set.binding_count && descriptor_writes_fit(
                alloc.buffers@,
                alloc.images@,
                set.writes@,
            )) ==> r == Err::<(), GpuError>(GpuError::InvalidBinding) && *final(self) == *old(self),
            old(self).state is Recording && (old(self).bound_compute matches Some(cb)
                && cb.binding_count == set.binding_count && descriptor_writes_fit(
                alloc.buffers@,
                alloc.images@,
                set.writes@,
            )) ==> r == Ok::<(), GpuError>(()) && final(self).op_models() == old(self).op_models().push(OpModel::BindDescriptorSet { writes: set.writes@ }) && *final(self)
                == (CommandRecorder {
                ops: final(self).ops,
                descriptor_bound: true,
                ..*old(self)
            }),
    {
        if self.state != RecorderState::Recording {
            return Err(GpuError::InvalidState);
        }
        let fits: bool = match &self.bound_compute {
            Some(cb) => cb.binding_count == set.binding_count,
            None => false,
        };
        if !fits {
            return Err(GpuError::InvalidBinding);
        }
        let mut copied: Vec<DescriptorWrite> = Vec::new();
        let mut j: usize = 0;
        while j < set.writes.len()
            invariant
                old(self).state is Recording,
                *self == *old(self),
                j <= set.writes@.len(),
                copied@ == set.writes@.subrange(0, j as int),
                forall|k: int|
                    0 <= k < j ==> match #[trigger] set.writes@[k].resource {
                        BoundResource::Buffer(id) => id < alloc.buffers@.len() && alloc.buffers@[id
                            as int].usage.storage,
                        BoundResource::ImageView(id) => id < alloc.images@.len()
                            && alloc.images@[id as int].usage.storage,
                    },
            decreases set.writes@.len() - j,
        {
            let w = set.writes[j];
            let in_range: bool = match w.resource {
                BoundResource::Buffer(id) => id < alloc.buffer_count() && alloc.buffer_usage(
                    id,
                ).storage,
                BoundResource::ImageView(id) => id < alloc.image_count() && alloc.image_usage(
                    id,
                ).storage,
            };
            if !in_range {
                return Err(GpuError::InvalidBinding);
            }
            copied.push(w);
            proof {
                assert(copied@ =~= set.writes@.subrange(0, j as int + 1));
            }
            j = j + 1;
        }
        proof {
            assert(copied@ =~= set.writes@);
        }
        self.descriptor_bound = true;
        self.push_op(Operation::BindDescriptorSet { writes: copied });
        Ok(())
    }

    /// Binds a vertex buffer. Fails with `InvalidState` if and only if the
    /// recorder is not recording; otherwise with `InvalidBinding` if and
    /// only if the buffer does not exist or was not created for vertex use.
    pub fn bind_vertex_buffer(&mut self, alloc: &MemoryAllocator, buffer: usize) -> (r: Result<
        (),
        GpuError,
    >)
        ensures
            !(old(self).state is Recording) ==> r == Err::<(), GpuError>(GpuError::InvalidState)
                && *final(self) == *old(self),
            old(self).state is Recording && !(buffer < alloc.buffers@.len() && alloc.buffers@[buffer
                as int].usage.vertex) ==> r == Err::<(), GpuError>(GpuError::InvalidBinding)
                && *final(self) == *old(self),
            old(self).state is Recording && (buffer < alloc.buffers@.len() && alloc.buffers@[buffer
                as int].usage.vertex) ==> r == Ok::<(), GpuError>(()) && final(self).op_models()
                == old(self).op_models().push(OpModel::BindVertexBuffer { buffer: buffer as int })
                && *final(self) == (CommandRecorder {
                ops: final(self).ops,
                vertex_bound: true,
                ..*old(self)
            }),
    {
        if self.state != RecorderState::Recording {
            return Err(GpuError::InvalidState);
        }
        if !(buffer < alloc.buffer_count() && alloc.buffer_usage(buffer).vertex) {
            return Err(GpuError::InvalidBinding);
        }
        self.vertex_bound = true;
        self.push_op(Operation::BindVertexBuffer { buffer });
        Ok(())
    }

    /// Appends a compute dispatch of `groups_x * groups_y * groups_z`
    /// workgroups. Fails with `InvalidState` if and only if the recorder is
    /// not recording or a render pass is open; otherwise with
    /// `InvalidBinding` if and only if no compute pipeline is bound, or it
    /// declares bindings and no matching descriptor set is bound.
    pub fn dispatch(&mut self, groups_x: u32, groups_y: u32, groups_z: u32) -> (r: Result<
        (),
        GpuError,
    >)
        ensures
            !(old(self).state is Recording && !old(self).in_render_pass) ==> r == Err::<
                (),
                GpuError,
            >(GpuError::InvalidState) && *final(self) == *old(self),
            (old(self).state is Recording && !old(self).in_render_pass) && !(old(self).bound_compute matches Some(cb) && (cb.binding_count == 0 || old(self).descriptor_bound)) ==> r == Err::<(), GpuError>(GpuError::InvalidBinding) && *final(self) == *old(self),
            (old(self).state is Recording && !old(self).in_render_pass) && (old(self).bound_compute matches Some(cb) && (cb.binding_count == 0 || old(self).descriptor_bound)) ==> r == Ok::<(), GpuError>(()) && final(self).op_models() == old(self).op_models().push(OpModel::Dispatch { groups_x, groups_y, groups_z })
                && same_but_ops(*final(self), *old(self)),
    {
        if self.state != RecorderState::Recording || self.in_render_pass {
            return Err(GpuError::InvalidState);
        }
        let bound_ok: bool = match &self.bound_compute {
            Some(cb) => cb.binding_count == 0 || self.descriptor_bound,
            None => false,
        };
        if !bound_ok {
            return Err(GpuError::InvalidBinding);
        }
        self.push_op(Operation::Dispatch { groups_x, groups_y, groups_z });
        Ok(())
    }

    /// Appends a draw. Fails with `InvalidState` if and only if the
    /// recorder is not recording; otherwise with `InvalidBinding` if and
    /// only if no render pass is open, no graphics pipeline is bound, or no
    /// vertex buffer is bound.
    pub fn draw(
        &mut self,
        vertex_count: u32,
        instance_count: u32,
        first_vertex: u32,
        first_instance: u32,
    ) -> (r: Result<(), GpuError>)
        ensures
            !(old(self).state is Recording) ==> r == Err::<(), GpuError>(GpuError::InvalidState)
                && *final(self) == *old(self),
            old(self).state is Recording && !(old(self).in_render_pass && old(self).graphics_bound
                && old(self).vertex_bound) ==> r == Err::<(), GpuError>(GpuError::InvalidBinding)
                && *final(self) == *old(self),
            old(self).state is Recording && (old(self).in_render_pass && old(self).graphics_bound
                && old(self).vertex_bound) ==> r == Ok::<(), GpuError>(()) && final(self).op_models() == old(self).op_models().push(
                OpModel::Draw { vertex_count, instance_count, first_vertex, first_instance },
            ) && same_but_ops(*final(self), *old(self)),
    {
        if self.state != RecorderState::Recording {
            return Err(GpuError::InvalidState);
        }
        if !(self.in_render_pass && self.graphics_bound && self.vertex_bound) {
            return Err(GpuError::InvalidBinding);
        }
        self.push_op(Operation::Draw { vertex_count, instance_count, first_vertex, first_instance });
        Ok(())
    }

    /// Appends a copy of an image's tightly packed pixels into a
    /// buffer. Fails with `InvalidState` if and only if the recorder is not
    /// recording or a render pass is open; otherwise with `InvalidBinding`
    /// if and only if the resources do not fit
    /// (see `copy_image_to_buffer_fits`).
    pub fn copy_image_to_buffer(
        &mut self,
        alloc: &MemoryAllocator,
        image: usize,
        buffer: usize,
    ) -> (r: Result<(), GpuError>)
        ensures
            !(old(self).state is Recording && !old(self).in_render_pass) ==> r == Err::<
                (),
                GpuError,
            >(GpuError::InvalidState) && *final(self) == *old(self),
            (old(self).state is Recording && !old(self).in_render_pass) && !copy_image_to_buffer_fits(
                alloc.buffers@,
                alloc.images@,
                image as int,
                buffer as int,
            ) ==> r == Err::<(), GpuError>(GpuError::InvalidBinding) && *final(self) == *old(self),
            (old(self).state is Recording && !old(self).in_render_pass) && copy_image_to_buffer_fits(
                alloc.buffers@,
                alloc.images@,
                image as int,
                buffer as int,
            ) ==> r == Ok::<(), GpuError>(()) && final(self).op_models() == old(self).op_models().push(
                OpModel::CopyImageToBuffer { image: image as int, buffer: buffer as int },
            ) && same_but_ops(*final(self), *old(self)),
    {
        if self.state != RecorderState::Recording || self.in_render_pass {
            return Err(GpuError::InvalidState);
        }
        if !(image < alloc.image_count() && buffer < alloc.buffer_count()) {
            return Err(GpuError::InvalidBinding);
        }
        if !(alloc.image_usage(image).transfer_src && alloc.buffer_usage(buffer).transfer_dst) {
            return Err(GpuError::InvalidBinding);
        }
        if alloc.buffer_byte_len(buffer) != alloc.image_byte_len(image) {
            return Err(GpuError::InvalidBinding);
        }
        self.push_op(Operation::CopyImageToBuffer { image, buffer });
        Ok(())
    }

    /// Finalizes the recording into an immutable command unit. Fails with
    /// `InvalidState` if and only if the recorder is not recording or a
    /// render pass is still open. The recorder keeps no operations
    /// afterwards; every later append fails with `InvalidState`.
    pub fn finalize(&mut self) -> (r: Result<CommandUnit, GpuError>)
        ensures
            !(old(self).state is Recording && !old(self).in_render_pass) ==> (r matches Err(e) && e
                == GpuError::InvalidState) && *final(self) == *old(self),
            (old(self).state is Recording && !old(self).in_render_pass) ==> (r matches Ok(unit)
                && unit.queue_family_index == old(self).queue_family_index && unit.op_models()
                == old(self).op_models() && final(self).state == RecorderState::Finalized && final(self).ops@.len() == 0),
    {
        if self.state != RecorderState::Recording || self.in_render_pass {
            return Err(GpuError::InvalidState);
        }
        self.state = RecorderState::Finalized;
        let mut taken: Vec<Operation> = Vec::new();
        core::mem::swap(&mut self.ops, &mut taken);
        Ok(CommandUnit { queue_family_index: self.queue_family_index, ops: taken })
    }

    /// Appends one operation; recording must be under way.
    fn push_op(&mut self, op: Operation)
        requires
            old(self).state is Recording,
        ensures
            final(self).op_models() == old(self).op_models().push(op@),
            final(self).ops@ == old(self).ops@.push(op),
            same_but_ops(*final(self), *old(self)),
    {
        self.ops.push(op);
        proof {
            assert(self.op_models() =~= old(self).op_models().push(self.ops@.last()@));
        }
    }
}

} // verus!
