//! Device context: instance creation, device selection, queue-family search
//! and logical-device creation.
//!
//! The host is described by plain values (is a backend present, which
//! devices it enumerates, what each queue family reports), so the selection
//! policy is verified for every host the layer can meet. The policy is
//! "first match wins": the first enumerated device and the first queue
//! family whose capability flags are a superset of the requested capability.

use vstd::prelude::*;

use crate::error::GpuError;

verus! {

/// The capability flags a queue family reports.
#[derive(Clone, Copy, Debug, PartialEq, Eq, Structural)]
pub struct QueueCaps {
    pub graphics: bool,
    pub compute: bool,
    pub transfer: bool,
}

impl QueueCaps {
    /// Whether a family reporting `self` can serve transfers. A family that
    /// reports graphics or compute work serves transfers as well, whether or
    /// not it sets the transfer flag.
    pub open spec fn can_transfer(self) -> bool {
        self.transfer || self.graphics || self.compute
    }

    /// Whether a family reporting `self` covers everything `req` asks for.
    pub open spec fn covers(self, req: QueueCaps) -> bool {
        &&& req.graphics ==> self.graphics
        &&& req.compute ==> self.compute
        &&& req.transfer ==> self.can_transfer()
    }

    /// Runtime check of `covers`.
    pub fn satisfies(&self, req: &QueueCaps) -> (r: bool)
        ensures
            r == self.covers(*req),
    {
        (!req.graphics || self.graphics) && (!req.compute || self.compute) && (!req.transfer
            || self.transfer || self.graphics || self.compute)
    }

    /// A request for graphics work.
    pub fn graphics_only() -> (r: QueueCaps)
        ensures
            r == (QueueCaps { graphics: true, compute: false, transfer: false }),
    {
        QueueCaps { graphics: true, compute: false, transfer: false }
    }

    /// A request for compute work.
    pub fn compute_only() -> (r: QueueCaps)
        ensures
            r == (QueueCaps { graphics: false, compute: true, transfer: false }),
    {
        QueueCaps { graphics: false, compute: true, transfer: false }
    }
}

/// What one enumerated physical device reports: its queue families and its
/// memory properties.
pub struct PhysicalDeviceInfo {
    /// The capability flags of each queue family, in enumeration order.
    pub queue_families: Vec<QueueCaps>,
    /// Whether some memory type is host-visible (mappable by the host).
    pub host_visible_memory: bool,
    /// Whether some memory type is device-local.
    pub device_local_memory: bool,
    /// How many bytes of memory the device will still hand out.
    pub memory_budget: u64,
}

/// What probing the host found: whether a backend is present at all, and
/// the physical devices the instance enumerates.
pub struct HostDescription {
    pub backend_present: bool,
    pub devices: Vec<PhysicalDeviceInfo>,
}

/// An instance: the entry point that owns the enumerated devices.
pub struct Instance {
    pub devices: Vec<PhysicalDeviceInfo>,
}

/// Creates the instance. Fails with `NoBackend` if and only if no
/// compatible driver or runtime is present on the host.
pub fn create_instance(host: HostDescription) -> (r: Result<Instance, GpuError>)
    ensures
        host.backend_present ==> (r matches Ok(i) && i.devices@ == host.devices@),
        !host.backend_present ==> r == Err::<Instance, GpuError>(GpuError::NoBackend),
{
    if host.backend_present {
        Ok(Instance { devices: host.devices })
    } else {
        Err(GpuError::NoBackend)
    }
}

/// Selects a physical device: the first enumerated one, with no scoring.
/// Fails with `NoDevice` if and only if the instance enumerated none.
pub fn select_device(instance: &Instance) -> (r: Result<usize, GpuError>)
    ensures
        instance.devices@.len() > 0 ==> r == Ok::<usize, GpuError>(0usize),
        instance.devices@.len() == 0 ==> r == Err::<usize, GpuError>(GpuError::NoDevice),
{
    if instance.devices.len() > 0 {
        Ok(0)
    } else {
        Err(GpuError::NoDevice)
    }
}

/// Scans the queue families of a device and returns the first index whose
/// reported capability flags cover `required`. Fails with `NoCapableQueue`
/// if and only if no family does.
pub fn find_queue_family(device: &PhysicalDeviceInfo, required: QueueCaps) -> (r: Result<
    usize,
    GpuError,
>)
    ensures
        r matches Ok(i) ==> i < device.queue_families@.len()
            && device.queue_families@[i as int].covers(required) && (forall|j: int|
            0 <= j < i ==> !device.queue_families@[j].covers(required)),
        r matches Err(e) ==> e == GpuError::NoCapableQueue && (forall|j: int|
            0 <= j < device.queue_families@.len() ==> !device.queue_families@[j].covers(
                required,
            )),
{
    let n = device.queue_families.len();
    let mut i: usize = 0;
    while i < n
        invariant
            i <= n,
            n == device.queue_families@.len(),
            forall|j: int| 0 <= j < i ==> !device.queue_families@[j].covers(required),
        decreases n - i,
    {
        if device.queue_families[i].satisfies(&required) {
            return Ok(i);
        }
        i = i + 1;
    }
    Err(GpuError::NoCapableQueue)
}

/// A logical device opened on one queue of one family, together with what
/// the allocator and the submission path need to know about it.
pub struct DeviceContext {
    /// The index of the family the single queue was requested from.
    pub queue_family_index: usize,
    /// What that family reported.
    pub queue_caps: QueueCaps,
    /// Whether some memory type is host-visible.
    pub host_visible_memory: bool,
    /// Whether some memory type is device-local.
    pub device_local_memory: bool,
    /// How many bytes of memory the device will still hand out.
    pub memory_budget: u64,
    /// Whether the device has been lost; terminal for this context.
    pub lost: bool,
}

/// Opens the logical device with exactly one queue from `family_index`.
/// The driver rejects a request for a family the device did not report;
/// that is `DeviceCreationFailed`, if and only if the index is out of
/// range.
pub fn create_logical_device(device: &PhysicalDeviceInfo, family_index: usize) -> (r: Result<
    DeviceContext,
    GpuError,
>)
    ensures
        family_index < device.queue_families@.len() ==> (r matches Ok(ctx) && ctx
            == (DeviceContext {
            queue_family_index: family_index,
            queue_caps: device.queue_families@[family_index as int],
            host_visible_memory: device.host_visible_memory,
            device_local_memory: device.device_local_memory,
            memory_budget: device.memory_budget,
            lost: false,
        })),
        family_index >= device.queue_families@.len() ==> r == Err::<DeviceContext, GpuError>(
            GpuError::DeviceCreationFailed,
        ),
{
    if family_index < device.queue_families.len() {
        Ok(
            DeviceContext {
                queue_family_index: family_index,
                queue_caps: device.queue_families[family_index],
                host_visible_memory: device.host_visible_memory,
                device_local_memory: device.device_local_memory,
                memory_budget: device.memory_budget,
                lost: false,
            },
        )
    } else {
        Err(GpuError::DeviceCreationFailed)
    }
}

impl DeviceContext {
    /// Records that the device was lost. Every later submission or wait
    /// against this context fails; recovery takes a new instance and
    /// device.
    pub fn mark_lost(&mut self)
        ensures
            *final(self) == (DeviceContext { lost: true, ..*old(self) }),
    {
        self.lost = true;
    }
}

} // verus!
