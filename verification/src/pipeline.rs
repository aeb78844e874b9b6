//! Pipelines and descriptor sets.
//!
//! A shader module arrives precompiled and already validated; the layer
//! only needs its declared interface: whether the requested entry point was
//! found, how many resource bindings it declares, and — where the work it
//! does can be stated — what it leaves in the resources bound to it. A
//! pipeline is immutable once built and may serve any number of command
//! units. The descriptor-set binding schema is derived from the shader's
//! declared interface, never supplied independently by the caller.

use vstd::prelude::*;

use crate::error::GpuError;
use crate::device::DeviceContext;

verus! {

/// What a compute shader leaves in the storage buffer bound at binding 0.
#[derive(Clone, Copy, Debug, PartialEq, Eq, Structural)]
pub enum ShaderEffect {
    /// One invocation per global index `i` multiplies the `i`-th 32-bit
    /// word by `factor` (modulo 2^32); `local_size` invocations per
    /// workgroup. Indices at or past the end of the buffer write nothing.
    ScaleWords { factor: u32, local_size: u32 },
    /// Work the layer does not model; whatever the shader touched counts
    /// as device-written afterwards.
    Opaque,
}

/// The declared interface of a precompiled shader module, as the external
/// shader compiler reports it.
#[derive(Clone, Copy, Debug, PartialEq, Eq, Structural)]
pub struct ShaderInterface {
    /// Whether the requested entry point exists in the module.
    pub entry_point_found: bool,
    /// How many descriptor bindings the shader declares.
    pub binding_count: usize,
    /// What the shader computes, where that can be stated.
    pub effect: ShaderEffect,
}

/// An immutable pipeline object; reusable across command units.
#[derive(Clone, Copy, Debug, PartialEq, Eq, Structural)]
pub enum Pipeline {
    /// A compute pipeline: its descriptor-set schema and its effect.
    Compute { binding_count: usize, effect: ShaderEffect },
    /// A graphics pipeline: vertex and fragment stages plus fixed-function
    /// state. What a draw rasterises is the device's work, not modelled.
    Graphics { viewport_width: u32, viewport_height: u32 },
}

/// Builds a compute pipeline from a shader interface. Fails with
/// `PipelineCreationFailed` if and only if the requested entry point was
/// not found. The descriptor-set layout is the shader's declared one.
pub fn build_compute_pipeline(ctx: &DeviceContext, shader: &ShaderInterface) -> (r: Result<
    Pipeline,
    GpuError,
>)
    ensures
        shader.entry_point_found ==> r == Ok::<Pipeline, GpuError>(
            Pipeline::Compute { binding_count: shader.binding_count, effect: shader.effect },
        ),
        !shader.entry_point_found ==> r == Err::<Pipeline, GpuError>(
            GpuError::PipelineCreationFailed,
        ),
{
    if shader.entry_point_found {
        Ok(Pipeline::Compute { binding_count: shader.binding_count, effect: shader.effect })
    } else {
        Err(GpuError::PipelineCreationFailed)
    }
}

/// Builds a graphics pipeline from a vertex and a fragment stage and a
/// fixed viewport. Fails with `PipelineCreationFailed` if and only if an
/// entry point is missing in either stage, or the device rejects the
/// fixed-function state: a viewport with zero width or height.
pub fn build_graphics_pipeline(
    ctx: &DeviceContext,
    vertex_shader: &ShaderInterface,
    fragment_shader: &ShaderInterface,
    viewport_width: u32,
    viewport_height: u32,
) -> (r: Result<Pipeline, GpuError>)
    ensures
        (vertex_shader.entry_point_found && fragment_shader.entry_point_found && viewport_width > 0
            && viewport_height > 0) ==> r == Ok::<Pipeline, GpuError>(
            Pipeline::Graphics { viewport_width, viewport_height },
        ),
        !(vertex_shader.entry_point_found && fragment_shader.entry_point_found && viewport_width
            > 0 && viewport_height > 0) ==> r == Err::<Pipeline, GpuError>(
            GpuError::PipelineCreationFailed,
        ),
{
    if vertex_shader.entry_point_found && fragment_shader.entry_point_found && viewport_width > 0
        && viewport_height > 0 {
        Ok(Pipeline::Graphics { viewport_width, viewport_height })
    } else {
        Err(GpuError::PipelineCreationFailed)
    }
}

/// A resource a descriptor binding points at.
#[derive(Clone, Copy, Debug, PartialEq, Eq, Structural)]
pub enum BoundResource {
    /// A buffer of the allocator, by index.
    Buffer(usize),
    /// An image view over an image of the allocator, by index.
    ImageView(usize),
}

/// One (binding index, resource) pair of a descriptor set.
#[derive(Clone, Copy, Debug, PartialEq, Eq, Structural)]
pub struct DescriptorWrite {
    pub binding: usize,
    pub resource: BoundResource,
}

/// A descriptor set: concrete resources bound to a compute pipeline's
/// declared bindings.
pub struct DescriptorSet {
    /// How many bindings the layout declares.
    pub binding_count: usize,
    /// The writes, one per declared binding, in binding order.
    pub writes: Vec<DescriptorWrite>,
}

impl DescriptorSet {
    /// The set covers the layout exactly: one write per declared binding,
    /// in order.
    pub open spec fn matches_layout(writes: Seq<DescriptorWrite>, binding_count: nat) -> bool {
        writes.len() == binding_count && (forall|i: int|
            0 <= i < writes.len() ==> writes[i].binding == i)
    }

    /// Builds a descriptor set from a pipeline's layout and a list of
    /// (binding index, resource) writes. Fails with `InvalidBinding` if and
    /// only if the pipeline is not a compute pipeline or the writes do not
    /// cover its declared bindings exactly, in order.
    pub fn new(pipeline: &Pipeline, writes: Vec<DescriptorWrite>) -> (r: Result<
        DescriptorSet,
        GpuError,
    >)
        ensures
            (pipeline is Compute && Self::matches_layout(
                writes@,
                pipeline->Compute_binding_count as nat,
            )) ==> (r matches Ok(s) && s.writes@ == writes@ && s.binding_count
                == pipeline->Compute_binding_count),
            !(pipeline is Compute && Self::matches_layout(
                writes@,
                pipeline->Compute_binding_count as nat,
            )) ==> r == Err::<DescriptorSet, GpuError>(GpuError::InvalidBinding),
    {
        match pipeline {
            Pipeline::Compute { binding_count, .. } => {
                let expected: usize = *binding_count;
                if writes.len() != expected {
                    return Err(GpuError::InvalidBinding);
                }
                let mut i: usize = 0;
                while i < writes.len()
                    invariant
                        i <= writes@.len(),
                        forall|j: int| 0 <= j < i ==> writes@[j].binding == j,
                    decreases writes@.len() - i,
                {
                    if writes[i].binding != i {
                        return Err(GpuError::InvalidBinding);
                    }
                    i = i + 1;
                }
                Ok(DescriptorSet { binding_count: expected, writes })
            },
            Pipeline::Graphics { .. } => Err(GpuError::InvalidBinding),
        }
    }
}

} // verus!
