//! The memory allocator: typed buffer and image resources with a declared
//! usage and access pattern.
//!
//! The allocator owns every resource it hands out and is the one place the
//! recorder and the post-wait reader meet: both name resources by the index
//! the allocator returned. A resource written by an in-flight command unit
//! carries a flag that forbids host reads until the unit's completion token
//! has been waited on.

use vstd::prelude::*;

use crate::device::DeviceContext;
use crate::error::GpuError;

verus! {

/// The usage flags a buffer is created with.
#[derive(Clone, Copy, Debug, PartialEq, Eq, Structural)]
pub struct BufferUsage {
    pub transfer_src: bool,
    pub transfer_dst: bool,
    pub storage: bool,
    pub vertex: bool,
}

impl BufferUsage {
    /// A buffer must be created for at least one use.
    pub open spec fn nonempty(self) -> bool {
        self.transfer_src || self.transfer_dst || self.storage || self.vertex
    }

    /// A transfer source.
    pub fn for_transfer_src() -> (r: BufferUsage)
        ensures
            r == (BufferUsage {
                transfer_src: true,
                transfer_dst: false,
                storage: false,
                vertex: false,
            }),
    {
        BufferUsage { transfer_src: true, transfer_dst: false, storage: false, vertex: false }
    }

    /// A transfer destination.
    pub fn for_transfer_dst() -> (r: BufferUsage)
        ensures
            r == (BufferUsage {
                transfer_src: false,
                transfer_dst: true,
                storage: false,
                vertex: false,
            }),
    {
        BufferUsage { transfer_src: false, transfer_dst: true, storage: false, vertex: false }
    }

    /// A storage buffer a compute shader reads and writes.
    pub fn for_storage() -> (r: BufferUsage)
        ensures
            r == (BufferUsage {
                transfer_src: false,
                transfer_dst: false,
                storage: true,
                vertex: false,
            }),
    {
        BufferUsage { transfer_src: false, transfer_dst: false, storage: true, vertex: false }
    }

    /// A vertex buffer.
    pub fn for_vertex() -> (r: BufferUsage)
        ensures
            r == (BufferUsage {
                transfer_src: false,
                transfer_dst: false,
                storage: false,
                vertex: true,
            }),
    {
        BufferUsage { transfer_src: false, transfer_dst: false, storage: false, vertex: true }
    }
}

/// How the host and the device reach an allocation.
#[derive(Clone, Copy, Debug, PartialEq, Eq, Structural)]
pub enum AccessPattern {
    /// Host-writable, device-readable; initial contents are written into
    /// host-visible memory at allocation time.
    Upload,
    /// Device-writable, host-readable after a successful wait.
    Download,
    /// Only the device touches it.
    DeviceOnly,
}

/// What a buffer holds. The layer tracks contents exactly where it models
/// the producing operations; what only the device computed is carried as an
/// opaque block of known byte length.
pub enum BufferData {
    /// 32-bit words, e.g. integer work data.
    Words(Vec<u32>),
    /// Raw bytes, e.g. tightly packed pixels.
    Bytes(Vec<u8>),
    /// Contents the device wrote and the model does not predict; the byte
    /// length is known.
    DeviceWritten(u128),
}

impl BufferData {
    /// The byte length of the contents; every modelled operation preserves
    /// it.
    pub open spec fn byte_len(&self) -> nat {
        self@.byte_len()
    }
}

/// The mathematical shape of a buffer's contents.
#[verifier::ext_equal]
pub enum DataModel {
    Words(Seq<u32>),
    Bytes(Seq<u8>),
    Device(nat),
}

impl DataModel {
    /// The byte length of the contents.
    pub open spec fn byte_len(&self) -> nat {
        match self {
            DataModel::Words(w) => w.len() * 4,
            DataModel::Bytes(b) => b.len(),
            DataModel::Device(n) => *n,
        }
    }
}

impl View for BufferData {
    type V = DataModel;

    open spec fn view(&self) -> DataModel {
        match self {
            BufferData::Words(w) => DataModel::Words(w@),
            BufferData::Bytes(b) => DataModel::Bytes(b@),
            BufferData::DeviceWritten(n) => DataModel::Device(*n as nat),
        }
    }
}

/// One buffer resource.
pub struct BufferResource {
    pub usage: BufferUsage,
    pub access: AccessPattern,
    pub data: BufferData,
    /// Whether an in-flight command unit may still write this buffer.
    pub in_flight: bool,
}

/// The usage flags an image is created with.
#[derive(Clone, Copy, Debug, PartialEq, Eq, Structural)]
pub struct ImageUsage {
    pub transfer_src: bool,
    pub transfer_dst: bool,
    pub storage: bool,
    pub color_attachment: bool,
}

impl ImageUsage {
    /// An image must be created for at least one use.
    pub open spec fn nonempty(self) -> bool {
        self.transfer_src || self.transfer_dst || self.storage || self.color_attachment
    }

    /// A general-purpose image: source and destination of transfers,
    /// shader storage, and colour attachment.
    pub fn general_purpose() -> (r: ImageUsage)
        ensures
            r == (ImageUsage {
                transfer_src: true,
                transfer_dst: true,
                storage: true,
                color_attachment: true,
            }),
    {
        ImageUsage { transfer_src: true, transfer_dst: true, storage: true, color_attachment: true }
    }
}

/// The pixel format of an image: four 8-bit channels per pixel, in the
/// byte order the format names.
#[derive(Clone, Copy, Debug, PartialEq, Eq, Structural)]
pub enum ImageFormat {
    /// Bytes in the order red, green, blue, alpha.
    Rgba8Unorm,
    /// Bytes in the order blue, green, red, alpha.
    Bgra8Unorm,
}

/// What an image holds, pixel-wise.
#[derive(Clone, Copy, Debug, PartialEq, Eq, Structural)]
pub enum ImageContent {
    /// Every pixel equals this RGBA value (8-bit channels).
    Solid(ClearColor),
    /// Contents the device computed (an attachment after a draw, an image a
    /// shader wrote) or never defined; the model does not predict them.
    DeviceWritten,
}

/// An RGBA clear value in 8-bit unnormalised channels.
#[derive(Clone, Copy, Debug, PartialEq, Eq, Structural)]
pub struct ClearColor {
    pub r: u8,
    pub g: u8,
    pub b: u8,
    pub a: u8,
}

/// One two-dimensional image resource with four 8-bit channels per pixel.
pub struct ImageResource {
    pub width: u32,
    pub height: u32,
    pub usage: ImageUsage,
    pub access: AccessPattern,
    pub format: ImageFormat,
    pub content: ImageContent,
    /// Whether an in-flight command unit may still write this image.
    pub in_flight: bool,
}

impl ImageResource {
    /// Tightly packed pixels of four 8-bit channels take four bytes each.
    pub open spec fn byte_len(&self) -> nat {
        (self.width as nat) * (self.height as nat) * 4
    }
}

/// The mathematical shape of one buffer resource.
#[verifier::ext_equal]
pub struct BufModel {
    pub usage: BufferUsage,
    pub access: AccessPattern,
    pub data: DataModel,
    pub in_flight: bool,
}

impl BufModel {
    /// The byte length of the buffer's contents.
    pub open spec fn byte_len(&self) -> nat {
        self.data.byte_len()
    }
}

impl View for BufferResource {
    type V = BufModel;

    open spec fn view(&self) -> BufModel {
        BufModel {
            usage: self.usage,
            access: self.access,
            data: self.data@,
            in_flight: self.in_flight,
        }
    }
}

/// The mathematical shape of one image resource.
#[verifier::ext_equal]
pub struct ImgModel {
    pub width: u32,
    pub height: u32,
    pub usage: ImageUsage,
    pub access: AccessPattern,
    pub format: ImageFormat,
    pub content: ImageContent,
    pub in_flight: bool,
}

impl ImgModel {
    /// Tightly packed pixels of four 8-bit channels take four bytes each.
    pub open spec fn byte_len(&self) -> nat {
        (self.width as nat) * (self.height as nat) * 4
    }
}

impl View for ImageResource {
    type V = ImgModel;

    open spec fn view(&self) -> ImgModel {
        ImgModel {
            width: self.width,
            height: self.height,
            usage: self.usage,
            access: self.access,
            format: self.format,
            content: self.content,
            in_flight: self.in_flight,
        }
    }
}

/// Everything of the allocator's resources a submitted command unit can
/// observe or change: the state the modelled device runs on.
#[verifier::ext_equal]
pub struct MachineState {
    pub buffers: Seq<BufModel>,
    pub images: Seq<ImgModel>,
}

/// The allocator: owns the buffers and images of one device context and
/// hands them out by index.
pub struct MemoryAllocator {
    pub buffers: Vec<BufferResource>,
    pub images: Vec<ImageResource>,
    /// Whether some memory type is host-visible.
    pub host_visible_memory: bool,
    /// Whether some memory type is device-local.
    pub device_local_memory: bool,
    /// Bytes the device will still hand out.
    pub remaining: u64,
}

impl MemoryAllocator {
    /// The machine state of the allocator's resources: what a submitted
    /// command unit runs on.
    pub open spec fn machine_state(&self) -> MachineState {
        MachineState {
            buffers: self.buffers@.map_values(|b: BufferResource| b@),
            images: self.images@.map_values(|i: ImageResource| i@),
        }
    }

    /// Whether some memory type satisfies `access`: upload and download
    /// memory must be host-visible, device-only memory device-local.
    pub open spec fn access_supported(&self, access: AccessPattern) -> bool {
        match access {
            AccessPattern::Upload => self.host_visible_memory,
            AccessPattern::Download => self.host_visible_memory,
            AccessPattern::DeviceOnly => self.device_local_memory,
        }
    }

    /// Whether a buffer request can be satisfied at all: the usage must not
    /// be empty, some memory type must fit the access pattern, and the byte
    /// size must be within what is left.
    pub open spec fn buffer_request_ok(
        &self,
        usage: BufferUsage,
        access: AccessPattern,
        byte_len: nat,
    ) -> bool {
        usage.nonempty() && self.access_supported(access) && byte_len <= self.remaining
    }

    /// Runtime check of `access_supported`.
    fn access_check(&self, access: &AccessPattern) -> (r: bool)
        ensures
            r == self.access_supported(*access),
    {
        match access {
            AccessPattern::Upload => self.host_visible_memory,
            AccessPattern::Download => self.host_visible_memory,
            AccessPattern::DeviceOnly => self.device_local_memory,
        }
    }

    /// A fresh allocator for a device context: no resources yet, the
    /// context's memory properties and budget.
    pub fn new(ctx: &DeviceContext) -> (r: MemoryAllocator)
        ensures
            r.buffers@.len() == 0,
            r.images@.len() == 0,
            r.host_visible_memory == ctx.host_visible_memory,
            r.device_local_memory == ctx.device_local_memory,
            r.remaining == ctx.memory_budget,
    {
        MemoryAllocator {
            buffers: Vec::new(),
            images: Vec::new(),
            host_visible_memory: ctx.host_visible_memory,
            device_local_memory: ctx.device_local_memory,
            remaining: ctx.memory_budget,
        }
    }

    /// Allocates a buffer over a sequence of 32-bit words; the words are
    /// its initial contents, written synchronously for host-visible memory.
    /// Fails with `AllocationFailed` if and only if the usage+access
    /// combination is unsupported or the bytes are not left. Zero words are
    /// allowed.
    pub fn allocate_buffer_from_words(
        &mut self,
        usage: BufferUsage,
        access: AccessPattern,
        words: Vec<u32>,
    ) -> (r: Result<usize, GpuError>)
        ensures
            old(self).buffer_request_ok(usage, access, words@.len() * 4) ==> (r matches Ok(id)
                && id == old(self).buffers@.len() && final(self).buffers@ == old(self).buffers@.push(
                BufferResource {
                    usage,
                    access,
                    data: BufferData::Words(words),
                    in_flight: false,
                },
            ) && final(self).images@ == old(self).images@ && final(self).remaining == old(self).remaining - words@.len() * 4 && final(self).host_visible_memory == old(self).host_visible_memory && final(self).device_local_memory == old(self).device_local_memory),
            !old(self).buffer_request_ok(usage, access, words@.len() * 4) ==> (r == Err::<
                usize,
                GpuError,
            >(GpuError::AllocationFailed) && *final(self) == *old(self)),
    {
        let byte_len_wide: u128 = (words.len() as u128) * 4;
        if !(usage.transfer_src || usage.transfer_dst || usage.storage || usage.vertex) {
            return Err(GpuError::AllocationFailed);
        }
        if !self.access_check(&access) {
            return Err(GpuError::AllocationFailed);
        }
        if byte_len_wide > self.remaining as u128 {
            return Err(GpuError::AllocationFailed);
        }
        let id = self.buffers.len();
        self.remaining = self.remaining - (words.len() as u64) * 4;
        self.buffers.push(
            BufferResource { usage, access, data: BufferData::Words(words), in_flight: false },
        );
        Ok(id)
    }

    /// Allocates a buffer over a sequence of raw bytes; otherwise exactly
    /// like `allocate_buffer_from_words`.
    pub fn allocate_buffer_from_bytes(
        &mut self,
        usage: BufferUsage,
        access: AccessPattern,
        bytes: Vec<u8>,
    ) -> (r: Result<usize, GpuError>)
        ensures
            old(self).buffer_request_ok(usage, access, bytes@.len()) ==> (r matches Ok(id) && id
                == old(self).buffers@.len() && final(self).buffers@ == old(self).buffers@.push(
                BufferResource {
                    usage,
                    access,
                    data: BufferData::Bytes(bytes),
                    in_flight: false,
                },
            ) && final(self).images@ == old(self).images@ && final(self).remaining == old(self).remaining - bytes@.len() && final(self).host_visible_memory == old(self).host_visible_memory && final(self).device_local_memory == old(self).device_local_memory),
            !old(self).buffer_request_ok(usage, access, bytes@.len()) ==> (r == Err::<
                usize,
                GpuError,
            >(GpuError::AllocationFailed) && *final(self) == *old(self)),
    {
        if !(usage.transfer_src || usage.transfer_dst || usage.storage || usage.vertex) {
            return Err(GpuError::AllocationFailed);
        }
        if !self.access_check(&access) {
            return Err(GpuError::AllocationFailed);
        }
        if bytes.len() as u128 > self.remaining as u128 {
            return Err(GpuError::AllocationFailed);
        }
        let id = self.buffers.len();
        self.remaining = self.remaining - bytes.len() as u64;
        self.buffers.push(
            BufferResource { usage, access, data: BufferData::Bytes(bytes), in_flight: false },
        );
        Ok(id)
    }

    /// The single-object allocation flavour: one 32-bit value.
    pub fn allocate_buffer_value(
        &mut self,
        usage: BufferUsage,
        access: AccessPattern,
        value: u32,
    ) -> (r: Result<usize, GpuError>)
        ensures
            old(self).buffer_request_ok(usage, access, 4) ==> (r matches Ok(id) && id == old(self).buffers@.len() && final(self).buffers@.len() == old(self).buffers@.len() + 1
                && (final(self).buffers@[id as int].data matches BufferData::Words(w) && w@
                =~= seq![value]) && final(self).buffers@[id as int].usage == usage && final(self).buffers@[id as int].access == access && !final(self).buffers@[id as int].in_flight
                && final(self).buffers@.subrange(0, id as int) == old(self).buffers@ && final(self).images@ == old(self).images@ && final(self).remaining == old(self).remaining - 4),
            !old(self).buffer_request_ok(usage, access, 4) ==> (r == Err::<usize, GpuError>(
                GpuError::AllocationFailed,
            ) && *final(self) == *old(self)),
    {
        let mut words: Vec<u32> = Vec::new();
        words.push(value);
        let r = self.allocate_buffer_from_words(usage, access, words);
        proof {
            if old(self).buffer_request_ok(usage, access, 4) {
                assert(self.buffers@.subrange(0, old(self).buffers@.len() as int) =~= old(self).buffers@);
            }
        }
        r
    }

    /// Whether an image request can be satisfied at all: the usage must
    /// not be empty, some memory type must fit the access pattern, and the
    /// bytes of the tightly packed pixels must be within what is left.
    pub open spec fn image_request_ok(
        &self,
        usage: ImageUsage,
        access: AccessPattern,
        width: u32,
        height: u32,
    ) -> bool {
        usage.nonempty() && self.access_supported(access) && (width as nat) * (height as nat) * 4
            <= self.remaining
    }

    /// Allocates a `width` x `height` image of four 8-bit channels per
    /// pixel, laid out in the requested format's byte order. Its contents
    /// are whatever the device left there until a recorded operation
    /// defines them. Fails with `AllocationFailed` if and only if the
    /// usage is empty, no memory type fits the access pattern, or the
    /// bytes are not left.
    pub fn allocate_image(
        &mut self,
        usage: ImageUsage,
        access: AccessPattern,
        width: u32,
        height: u32,
        pixel_format: ImageFormat,
    ) -> (r: Result<usize, GpuError>)
        ensures
            old(self).image_request_ok(usage, access, width, height) ==> (r matches Ok(id) && id
                == old(self).images@.len() && final(self).images@ == old(self).images@.push(
                ImageResource {
                    width,
                    height,
                    usage,
                    access,
                    format: pixel_format,
                    content: ImageContent::DeviceWritten,
                    in_flight: false,
                },
            ) && final(self).buffers@ == old(self).buffers@ && final(self).remaining == old(self).remaining - (width as nat) * (height as nat) * 4 && final(self).host_visible_memory
                == old(self).host_visible_memory && final(self).device_local_memory == old(self).device_local_memory),
            !old(self).image_request_ok(usage, access, width, height) ==> (r == Err::<
                usize,
                GpuError,
            >(GpuError::AllocationFailed) && *final(self) == *old(self)),
    {
        if !(usage.transfer_src || usage.transfer_dst || usage.storage || usage.color_attachment) {
            return Err(GpuError::AllocationFailed);
        }
        if !self.access_check(&access) {
            return Err(GpuError::AllocationFailed);
        }
        proof {
            assert((width as int) * (height as int) <= 0xffff_ffff * 0xffff_ffff)
                by (nonlinear_arith)
                requires
                    0 <= width as int <= 0xffff_ffff,
                    0 <= height as int <= 0xffff_ffff,
            ;
        }
        let byte_len_wide: u128 = (width as u128) * (height as u128) * 4;
        if byte_len_wide > self.remaining as u128 {
            return Err(GpuError::AllocationFailed);
        }
        let id = self.images.len();
        self.remaining = self.remaining - (byte_len_wide as u64);
        self.images.push(
            ImageResource {
                width,
                height,
                usage,
                access,
                format: pixel_format,
                content: ImageContent::DeviceWritten,
                in_flight: false,
            },
        );
        Ok(id)
    }

    /// Reads a word buffer back on the host. The producing submission must
    /// have been waited on: a resource still referenced by an in-flight
    /// command unit must not be read. Returns the words if and only if the
    /// buffer holds modelled 32-bit words.
    pub fn read_buffer_words(&self, id: usize) -> (r: Option<&Vec<u32>>)
        requires
            id < self.buffers@.len(),
            !self.buffers@[id as int].in_flight,
        ensures
            (r matches Some(w) ==> self.buffers@[id as int].data == BufferData::Words(*w)),
            (r is None <==> !(self.buffers@[id as int].data is Words)),
    {
        match &self.buffers[id].data {
            BufferData::Words(w) => Some(w),
            _ => None,
        }
    }

    /// Reads a byte buffer back on the host; the counterpart of
    /// `read_buffer_words` for raw bytes.
    pub fn read_buffer_bytes(&self, id: usize) -> (r: Option<&Vec<u8>>)
        requires
            id < self.buffers@.len(),
            !self.buffers@[id as int].in_flight,
        ensures
            (r matches Some(b) ==> self.buffers@[id as int].data == BufferData::Bytes(*b)),
            (r is None <==> !(self.buffers@[id as int].data is Bytes)),
    {
        match &self.buffers[id].data {
            BufferData::Bytes(b) => Some(b),
            _ => None,
        }
    }

    /// The usage flags a buffer was created with.
    pub fn buffer_usage(&self, id: usize) -> (r: BufferUsage)
        requires
            id < self.buffers@.len(),
        ensures
            r == self.buffers@[id as int].usage,
    {
        self.buffers[id].usage
    }

    /// The byte length of a buffer's contents; every modelled operation
    /// preserves it.
    pub fn buffer_byte_len(&self, id: usize) -> (r: u128)
        requires
            id < self.buffers@.len(),
        ensures
            r as nat == self.buffers@[id as int].data.byte_len(),
    {
        match &self.buffers[id].data {
            BufferData::Words(w) => (w.len() as u128) * 4,
            BufferData::Bytes(b) => b.len() as u128,
            BufferData::DeviceWritten(n) => *n,
        }
    }

    /// The usage flags an image was created with.
    pub fn image_usage(&self, id: usize) -> (r: ImageUsage)
        requires
            id < self.images@.len(),
        ensures
            r == self.images@[id as int].usage,
    {
        self.images[id].usage
    }

    /// The byte length of an image's tightly packed pixels.
    pub fn image_byte_len(&self, id: usize) -> (r: u128)
        requires
            id < self.images@.len(),
        ensures
            r as nat == self.images@[id as int].byte_len(),
    {
        let img = &self.images[id];
        proof {
            assert((img.width as int) * (img.height as int) <= 0xffff_ffff * 0xffff_ffff)
                by (nonlinear_arith)
                requires
                    0 <= img.width as int <= 0xffff_ffff,
                    0 <= img.height as int <= 0xffff_ffff,
            ;
        }
        (img.width as u128) * (img.height as u128) * 4
    }

    /// How many buffers have been allocated.
    pub fn buffer_count(&self) -> (r: usize)
        ensures
            r == self.buffers@.len(),
    {
        self.buffers.len()
    }

    /// How many images have been allocated.
    pub fn image_count(&self) -> (r: usize)
        ensures
            r == self.images@.len(),
    {
        self.images.len()
    }
}

} // verus!
