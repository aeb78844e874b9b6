use gpucmd::device::{create_logical_device, PhysicalDeviceInfo, QueueCaps};
use gpucmd::error::GpuError;
use gpucmd::memory::{AccessPattern, BufferUsage, ClearColor, ImageFormat, ImageUsage, MemoryAllocator};
use gpucmd::pipeline::{
    build_compute_pipeline, build_graphics_pipeline, BoundResource, DescriptorSet,
    DescriptorWrite, ShaderEffect, ShaderInterface,
};
use gpucmd::recorder::CommandRecorder;

fn context() -> gpucmd::device::DeviceContext {
    let device = PhysicalDeviceInfo {
        queue_families: vec![QueueCaps {
            graphics: true,
            compute: true,
            transfer: true,
        }],
        host_visible_memory: true,
        device_local_memory: true,
        memory_budget: 1 << 30,
    };
    create_logical_device(&device, 0).unwrap()
}

fn scale_shader(factor: u32) -> ShaderInterface {
    ShaderInterface {
        entry_point_found: true,
        binding_count: 1,
        effect: ShaderEffect::ScaleWords {
            factor,
            local_size: 64,
        },
    }
}

#[test]
fn finalize_before_begin_is_invalid_state() {
    let mut rec = CommandRecorder::new();
    assert_eq!(rec.finalize().err(), Some(GpuError::InvalidState));
}

#[test]
fn append_before_begin_is_invalid_state() {
    let ctx = context();
    let mut alloc = MemoryAllocator::new(&ctx);
    let src = alloc
        .allocate_buffer_from_words(
            BufferUsage::for_transfer_src(),
            AccessPattern::Upload,
            vec![1],
        )
        .unwrap();
    let dst = alloc
        .allocate_buffer_from_words(
            BufferUsage::for_transfer_dst(),
            AccessPattern::Download,
            vec![0],
        )
        .unwrap();
    let mut rec = CommandRecorder::new();
    assert_eq!(
        rec.copy_buffer(&alloc, src, dst).err(),
        Some(GpuError::InvalidState)
    );
}

#[test]
fn begin_twice_is_invalid_state() {
    let mut rec = CommandRecorder::new();
    rec.begin_recording(0).unwrap();
    assert_eq!(rec.begin_recording(0).err(), Some(GpuError::InvalidState));
}

#[test]
fn append_after_finalize_is_invalid_state() {
    let ctx = context();
    let mut alloc = MemoryAllocator::new(&ctx);
    let src = alloc
        .allocate_buffer_from_words(
            BufferUsage::for_transfer_src(),
            AccessPattern::Upload,
            vec![1],
        )
        .unwrap();
    let dst = alloc
        .allocate_buffer_from_words(
            BufferUsage::for_transfer_dst(),
            AccessPattern::Download,
            vec![0],
        )
        .unwrap();
    let mut rec = CommandRecorder::new();
    rec.begin_recording(0).unwrap();
    rec.copy_buffer(&alloc, src, dst).unwrap();
    let _unit = rec.finalize().unwrap();
    assert_eq!(
        rec.copy_buffer(&alloc, src, dst).err(),
        Some(GpuError::InvalidState)
    );
}

#[test]
fn finalize_twice_is_invalid_state() {
    let mut rec = CommandRecorder::new();
    rec.begin_recording(0).unwrap();
    let _unit = rec.finalize().unwrap();
    assert_eq!(rec.finalize().err(), Some(GpuError::InvalidState));
}

#[test]
fn dispatch_without_pipeline_is_invalid_binding() {
    let mut rec = CommandRecorder::new();
    rec.begin_recording(0).unwrap();
    assert_eq!(rec.dispatch(1, 1, 1).err(), Some(GpuError::InvalidBinding));
}

#[test]
fn dispatch_without_descriptor_set_is_invalid_binding() {
    let ctx = context();
    let pipeline = build_compute_pipeline(&ctx, &scale_shader(2)).unwrap();
    let mut rec = CommandRecorder::new();
    rec.begin_recording(0).unwrap();
    rec.bind_compute_pipeline(&pipeline).unwrap();
    assert_eq!(rec.dispatch(1, 1, 1).err(), Some(GpuError::InvalidBinding));
}

#[test]
fn draw_outside_render_pass_is_invalid_binding() {
    let mut rec = CommandRecorder::new();
    rec.begin_recording(0).unwrap();
    assert_eq!(rec.draw(3, 1, 0, 0).err(), Some(GpuError::InvalidBinding));
}

#[test]
fn draw_without_vertex_buffer_is_invalid_binding() {
    let ctx = context();
    let mut alloc = MemoryAllocator::new(&ctx);
    let image = alloc
        .allocate_image(
            ImageUsage::general_purpose(),
            AccessPattern::DeviceOnly,
            4,
            4,
            ImageFormat::Rgba8Unorm,
        )
        .unwrap();
    let vs = ShaderInterface {
        entry_point_found: true,
        binding_count: 0,
        effect: ShaderEffect::Opaque,
    };
    let pipeline = build_graphics_pipeline(&ctx, &vs, &vs, 4, 4).unwrap();
    let mut rec = CommandRecorder::new();
    rec.begin_recording(0).unwrap();
    rec.begin_render_pass(
        &alloc,
        image,
        ClearColor {
            r: 0,
            g: 0,
            b: 0,
            a: 0,
        },
    )
    .unwrap();
    rec.bind_graphics_pipeline(&pipeline).unwrap();
    assert_eq!(rec.draw(3, 1, 0, 0).err(), Some(GpuError::InvalidBinding));
}

#[test]
fn finalize_with_open_render_pass_is_invalid_state() {
    let ctx = context();
    let mut alloc = MemoryAllocator::new(&ctx);
    let image = alloc
        .allocate_image(
            ImageUsage::general_purpose(),
            AccessPattern::DeviceOnly,
            4,
            4,
            ImageFormat::Rgba8Unorm,
        )
        .unwrap();
    let mut rec = CommandRecorder::new();
    rec.begin_recording(0).unwrap();
    rec.begin_render_pass(
        &alloc,
        image,
        ClearColor {
            r: 0,
            g: 0,
            b: 0,
            a: 0,
        },
    )
    .unwrap();
    assert_eq!(rec.finalize().err(), Some(GpuError::InvalidState));
}

#[test]
fn copy_of_mismatched_lengths_is_invalid_binding() {
    let ctx = context();
    let mut alloc = MemoryAllocator::new(&ctx);
    let src = alloc
        .allocate_buffer_from_words(
            BufferUsage::for_transfer_src(),
            AccessPattern::Upload,
            vec![1, 2],
        )
        .unwrap();
    let dst = alloc
        .allocate_buffer_from_words(
            BufferUsage::for_transfer_dst(),
            AccessPattern::Download,
            vec![0],
        )
        .unwrap();
    let mut rec = CommandRecorder::new();
    rec.begin_recording(0).unwrap();
    assert_eq!(
        rec.copy_buffer(&alloc, src, dst).err(),
        Some(GpuError::InvalidBinding)
    );
}

#[test]
fn descriptor_set_of_wrong_layout_is_invalid_binding() {
    let ctx = context();
    let mut alloc = MemoryAllocator::new(&ctx);
    let data = alloc
        .allocate_buffer_from_words(BufferUsage::for_storage(), AccessPattern::Upload, vec![1])
        .unwrap();
    let pipeline = build_compute_pipeline(&ctx, &scale_shader(2)).unwrap();
    // Two writes against a layout that declares one binding.
    let writes = vec![
        DescriptorWrite {
            binding: 0,
            resource: BoundResource::Buffer(data),
        },
        DescriptorWrite {
            binding: 1,
            resource: BoundResource::Buffer(data),
        },
    ];
    assert_eq!(
        DescriptorSet::new(&pipeline, writes).err(),
        Some(GpuError::InvalidBinding)
    );
}

#[test]
fn clear_of_non_transfer_dst_image_is_invalid_binding() {
    let ctx = context();
    let mut alloc = MemoryAllocator::new(&ctx);
    let attachment_only = ImageUsage {
        transfer_src: false,
        transfer_dst: false,
        storage: false,
        color_attachment: true,
    };
    let image = alloc
        .allocate_image(
            attachment_only,
            AccessPattern::DeviceOnly,
            4,
            4,
            ImageFormat::Rgba8Unorm,
        )
        .unwrap();
    let mut rec = CommandRecorder::new();
    rec.begin_recording(0).unwrap();
    let black = ClearColor {
        r: 0,
        g: 0,
        b: 0,
        a: 0,
    };
    assert_eq!(
        rec.clear_image(&alloc, image, black).err(),
        Some(GpuError::InvalidBinding)
    );
}

#[test]
fn descriptor_write_on_non_storage_buffer_is_invalid_binding() {
    let ctx = context();
    let mut alloc = MemoryAllocator::new(&ctx);
    let plain = alloc
        .allocate_buffer_from_words(
            BufferUsage::for_transfer_src(),
            AccessPattern::Upload,
            vec![1],
        )
        .unwrap();
    let pipeline = build_compute_pipeline(&ctx, &scale_shader(2)).unwrap();
    let set = DescriptorSet::new(
        &pipeline,
        vec![DescriptorWrite {
            binding: 0,
            resource: BoundResource::Buffer(plain),
        }],
    )
    .unwrap();
    let mut rec = CommandRecorder::new();
    rec.begin_recording(0).unwrap();
    rec.bind_compute_pipeline(&pipeline).unwrap();
    assert_eq!(
        rec.bind_descriptor_set(&alloc, &set).err(),
        Some(GpuError::InvalidBinding)
    );
}

#[test]
fn zero_viewport_fails_pipeline_creation() {
    let ctx = context();
    let stage = ShaderInterface {
        entry_point_found: true,
        binding_count: 0,
        effect: ShaderEffect::Opaque,
    };
    assert_eq!(
        build_graphics_pipeline(&ctx, &stage, &stage, 0, 64).err(),
        Some(GpuError::PipelineCreationFailed)
    );
    assert_eq!(
        build_graphics_pipeline(&ctx, &stage, &stage, 64, 0).err(),
        Some(GpuError::PipelineCreationFailed)
    );
}

#[test]
fn missing_entry_point_fails_pipeline_creation() {
    let ctx = context();
    let missing = ShaderInterface {
        entry_point_found: false,
        binding_count: 1,
        effect: ShaderEffect::Opaque,
    };
    assert_eq!(
        build_compute_pipeline(&ctx, &missing).err(),
        Some(GpuError::PipelineCreationFailed)
    );
    let ok = ShaderInterface {
        entry_point_found: true,
        binding_count: 0,
        effect: ShaderEffect::Opaque,
    };
    assert_eq!(
        build_graphics_pipeline(&ctx, &ok, &missing, 4, 4).err(),
        Some(GpuError::PipelineCreationFailed)
    );
}
