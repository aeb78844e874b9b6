use gpucmd::device::{
    create_instance, create_logical_device, find_queue_family, select_device, DeviceContext,
    HostDescription, PhysicalDeviceInfo, QueueCaps,
};
use gpucmd::error::GpuError;
use gpucmd::fence::submit;
use gpucmd::memory::{AccessPattern, BufferUsage, ClearColor, ImageFormat, ImageUsage, MemoryAllocator};
use gpucmd::pipeline::{
    build_compute_pipeline, build_graphics_pipeline, BoundResource, DescriptorSet,
    DescriptorWrite, ShaderEffect, ShaderInterface,
};
use gpucmd::recorder::CommandRecorder;

fn full_context() -> DeviceContext {
    let host = HostDescription {
        backend_present: true,
        devices: vec![PhysicalDeviceInfo {
            queue_families: vec![QueueCaps {
                graphics: true,
                compute: true,
                transfer: true,
            }],
            host_visible_memory: true,
            device_local_memory: true,
            memory_budget: 64 << 20,
        }],
    };
    let instance = create_instance(host).unwrap();
    let chosen = select_device(&instance).unwrap();
    let family = find_queue_family(&instance.devices[chosen], QueueCaps::graphics_only()).unwrap();
    create_logical_device(&instance.devices[chosen], family).unwrap()
}

#[test]
fn copy_sixty_four_integers() {
    // source = [0, 1, ..., 63], destination = 64 zeros; after
    // copy + submit + wait the destination equals the source.
    let ctx = full_context();
    let mut alloc = MemoryAllocator::new(&ctx);
    let source_content: Vec<u32> = (0..64).collect();
    let source = alloc
        .allocate_buffer_from_words(
            BufferUsage::for_transfer_src(),
            AccessPattern::Upload,
            source_content.clone(),
        )
        .unwrap();
    let destination = alloc
        .allocate_buffer_from_words(
            BufferUsage::for_transfer_dst(),
            AccessPattern::Download,
            (0..64).map(|_| 0).collect(),
        )
        .unwrap();
    let mut rec = CommandRecorder::new();
    rec.begin_recording(ctx.queue_family_index).unwrap();
    rec.copy_buffer(&alloc, source, destination).unwrap();
    let unit = rec.finalize().unwrap();
    let token = submit(&ctx, unit, &mut alloc).unwrap();
    token.wait(&ctx, &mut alloc, None).unwrap();
    assert_eq!(alloc.read_buffer_words(destination).unwrap(), &source_content);
    assert_eq!(alloc.read_buffer_words(source).unwrap(), &source_content);
}

#[test]
fn empty_round_trip_copies_nothing() {
    // Content length zero: the round trip succeeds and is a no-op.
    let ctx = full_context();
    let mut alloc = MemoryAllocator::new(&ctx);
    let source = alloc
        .allocate_buffer_from_bytes(
            BufferUsage::for_transfer_src(),
            AccessPattern::Upload,
            vec![],
        )
        .unwrap();
    let destination = alloc
        .allocate_buffer_from_bytes(
            BufferUsage::for_transfer_dst(),
            AccessPattern::Download,
            vec![],
        )
        .unwrap();
    let mut rec = CommandRecorder::new();
    rec.begin_recording(ctx.queue_family_index).unwrap();
    rec.copy_buffer(&alloc, source, destination).unwrap();
    let unit = rec.finalize().unwrap();
    let token = submit(&ctx, unit, &mut alloc).unwrap();
    token.wait(&ctx, &mut alloc, None).unwrap();
    assert_eq!(alloc.read_buffer_bytes(destination).unwrap().len(), 0);
}

#[test]
fn dispatch_multiplies_by_twelve() {
    // data = [0, 1, ..., 65535], multiplied by 12 in 1024 workgroups of
    // 64 invocations; after the wait, data[i] == i * 12 for all i.
    let ctx = full_context();
    let mut alloc = MemoryAllocator::new(&ctx);
    let data: Vec<u32> = (0..65536).collect();
    let buffer = alloc
        .allocate_buffer_from_words(BufferUsage::for_storage(), AccessPattern::Upload, data)
        .unwrap();
    let shader = ShaderInterface {
        entry_point_found: true,
        binding_count: 1,
        effect: ShaderEffect::ScaleWords {
            factor: 12,
            local_size: 64,
        },
    };
    let pipeline = build_compute_pipeline(&ctx, &shader).unwrap();
    let set = DescriptorSet::new(
        &pipeline,
        vec![DescriptorWrite {
            binding: 0,
            resource: BoundResource::Buffer(buffer),
        }],
    )
    .unwrap();
    let mut rec = CommandRecorder::new();
    rec.begin_recording(ctx.queue_family_index).unwrap();
    rec.bind_compute_pipeline(&pipeline).unwrap();
    rec.bind_descriptor_set(&alloc, &set).unwrap();
    rec.dispatch(1024, 1, 1).unwrap();
    let unit = rec.finalize().unwrap();
    let token = submit(&ctx, unit, &mut alloc).unwrap();
    token.wait(&ctx, &mut alloc, None).unwrap();
    let content = alloc.read_buffer_words(buffer).unwrap();
    assert_eq!(content.len(), 65536);
    for (n, val) in content.iter().enumerate() {
        assert_eq!(*val, n as u32 * 12);
    }
}

#[test]
fn dispatch_wraps_modulo_two_to_the_thirty_two() {
    let ctx = full_context();
    let mut alloc = MemoryAllocator::new(&ctx);
    let buffer = alloc
        .allocate_buffer_from_words(
            BufferUsage::for_storage(),
            AccessPattern::Upload,
            vec![0x8000_0000, 3],
        )
        .unwrap();
    let shader = ShaderInterface {
        entry_point_found: true,
        binding_count: 1,
        effect: ShaderEffect::ScaleWords {
            factor: 2,
            local_size: 2,
        },
    };
    let pipeline = build_compute_pipeline(&ctx, &shader).unwrap();
    let set = DescriptorSet::new(
        &pipeline,
        vec![DescriptorWrite {
            binding: 0,
            resource: BoundResource::Buffer(buffer),
        }],
    )
    .unwrap();
    let mut rec = CommandRecorder::new();
    rec.begin_recording(ctx.queue_family_index).unwrap();
    rec.bind_compute_pipeline(&pipeline).unwrap();
    rec.bind_descriptor_set(&alloc, &set).unwrap();
    rec.dispatch(1, 1, 1).unwrap();
    let unit = rec.finalize().unwrap();
    let token = submit(&ctx, unit, &mut alloc).unwrap();
    token.wait(&ctx, &mut alloc, None).unwrap();
    assert_eq!(alloc.read_buffer_words(buffer).unwrap(), &vec![0, 6]);
}

#[test]
fn resubmission_of_equivalent_unit_gives_same_content() {
    // Two runs from the same initial state, with equivalently recorded
    // units, end in the same final content.
    let mut finals: Vec<Vec<u32>> = Vec::new();
    for _ in 0..2 {
        let ctx = full_context();
        let mut alloc = MemoryAllocator::new(&ctx);
        let source = alloc
            .allocate_buffer_from_words(
                BufferUsage::for_transfer_src(),
                AccessPattern::Upload,
                (5..15).collect(),
            )
            .unwrap();
        let destination = alloc
            .allocate_buffer_from_words(
                BufferUsage::for_transfer_dst(),
                AccessPattern::Download,
                (0..10).map(|_| 0).collect(),
            )
            .unwrap();
        let mut rec = CommandRecorder::new();
        rec.begin_recording(ctx.queue_family_index).unwrap();
        rec.copy_buffer(&alloc, source, destination).unwrap();
        let unit = rec.finalize().unwrap();
        let token = submit(&ctx, unit, &mut alloc).unwrap();
        token.wait(&ctx, &mut alloc, None).unwrap();
        finals.push(alloc.read_buffer_words(destination).unwrap().clone());
    }
    assert_eq!(finals[0], finals[1]);
}

#[test]
fn cleared_image_downloads_as_solid_pixels() {
    // A 1024x1024 RGBA8 image cleared to (0, 0, 1, 1) — (0, 0, 255, 255)
    // in 8-bit channels — and copied to a download buffer yields a buffer
    // where every pixel equals (0, 0, 255, 255).
    let ctx = full_context();
    let mut alloc = MemoryAllocator::new(&ctx);
    let image = alloc
        .allocate_image(
            ImageUsage::general_purpose(),
            AccessPattern::DeviceOnly,
            1024,
            1024,
            ImageFormat::Rgba8Unorm,
        )
        .unwrap();
    let buffer = alloc
        .allocate_buffer_from_bytes(
            BufferUsage::for_transfer_dst(),
            AccessPattern::Download,
            (0..1024 * 1024 * 4).map(|_| 0u8).collect(),
        )
        .unwrap();
    let blue = ClearColor {
        r: 0,
        g: 0,
        b: 255,
        a: 255,
    };
    let mut rec = CommandRecorder::new();
    rec.begin_recording(ctx.queue_family_index).unwrap();
    rec.clear_image(&alloc, image, blue).unwrap();
    rec.copy_image_to_buffer(&alloc, image, buffer).unwrap();
    let unit = rec.finalize().unwrap();
    let token = submit(&ctx, unit, &mut alloc).unwrap();
    token.wait(&ctx, &mut alloc, None).unwrap();
    let content = alloc.read_buffer_bytes(buffer).unwrap();
    assert_eq!(content.len(), 1024 * 1024 * 4);
    for pixel in content.chunks(4) {
        assert_eq!(pixel, &[0, 0, 255, 255]);
    }
}

#[test]
fn drawn_attachment_downloads_as_device_written() {
    // A draw's rasterisation is the device's work: after a render pass
    // with a draw, the downloaded buffer holds device-written contents the
    // layer does not predict.
    let ctx = full_context();
    let mut alloc = MemoryAllocator::new(&ctx);
    let image = alloc
        .allocate_image(
            ImageUsage::general_purpose(),
            AccessPattern::DeviceOnly,
            64,
            64,
            ImageFormat::Rgba8Unorm,
        )
        .unwrap();
    let vertices = alloc
        .allocate_buffer_from_words(
            BufferUsage::for_vertex(),
            AccessPattern::Upload,
            vec![0; 6],
        )
        .unwrap();
    let buffer = alloc
        .allocate_buffer_from_bytes(
            BufferUsage::for_transfer_dst(),
            AccessPattern::Download,
            (0..64 * 64 * 4).map(|_| 0u8).collect(),
        )
        .unwrap();
    let stage = ShaderInterface {
        entry_point_found: true,
        binding_count: 0,
        effect: ShaderEffect::Opaque,
    };
    let pipeline = build_graphics_pipeline(&ctx, &stage, &stage, 64, 64).unwrap();
    let clear = ClearColor {
        r: 0,
        g: 0,
        b: 255,
        a: 255,
    };
    let mut rec = CommandRecorder::new();
    rec.begin_recording(ctx.queue_family_index).unwrap();
    rec.begin_render_pass(&alloc, image, clear).unwrap();
    rec.bind_graphics_pipeline(&pipeline).unwrap();
    rec.bind_vertex_buffer(&alloc, vertices).unwrap();
    rec.draw(3, 1, 0, 0).unwrap();
    rec.end_render_pass().unwrap();
    rec.copy_image_to_buffer(&alloc, image, buffer).unwrap();
    let unit = rec.finalize().unwrap();
    let token = submit(&ctx, unit, &mut alloc).unwrap();
    token.wait(&ctx, &mut alloc, None).unwrap();
    assert!(alloc.read_buffer_bytes(buffer).is_none());
}

#[test]
fn submission_to_wrong_family_fails() {
    let ctx = full_context();
    let mut alloc = MemoryAllocator::new(&ctx);
    let mut rec = CommandRecorder::new();
    rec.begin_recording(ctx.queue_family_index + 1).unwrap();
    let unit = rec.finalize().unwrap();
    assert_eq!(
        submit(&ctx, unit, &mut alloc).err(),
        Some(GpuError::SubmissionFailed)
    );
}

#[test]
fn submission_on_incapable_family_fails() {
    // A transfer-only family rejects a unit that dispatches compute work.
    let device = PhysicalDeviceInfo {
        queue_families: vec![QueueCaps {
            graphics: false,
            compute: false,
            transfer: true,
        }],
        host_visible_memory: true,
        device_local_memory: true,
        memory_budget: 1 << 20,
    };
    let ctx = create_logical_device(&device, 0).unwrap();
    let mut alloc = MemoryAllocator::new(&ctx);
    let buffer = alloc
        .allocate_buffer_from_words(BufferUsage::for_storage(), AccessPattern::Upload, vec![1])
        .unwrap();
    let shader = ShaderInterface {
        entry_point_found: true,
        binding_count: 1,
        effect: ShaderEffect::ScaleWords {
            factor: 2,
            local_size: 1,
        },
    };
    let pipeline = build_compute_pipeline(&ctx, &shader).unwrap();
    let set = DescriptorSet::new(
        &pipeline,
        vec![DescriptorWrite {
            binding: 0,
            resource: BoundResource::Buffer(buffer),
        }],
    )
    .unwrap();
    let mut rec = CommandRecorder::new();
    rec.begin_recording(0).unwrap();
    rec.bind_compute_pipeline(&pipeline).unwrap();
    rec.bind_descriptor_set(&alloc, &set).unwrap();
    rec.dispatch(1, 1, 1).unwrap();
    let unit = rec.finalize().unwrap();
    assert_eq!(
        submit(&ctx, unit, &mut alloc).err(),
        Some(GpuError::SubmissionFailed)
    );
}

#[test]
fn lost_device_fails_submission_and_wait() {
    let mut ctx = full_context();
    let mut alloc = MemoryAllocator::new(&ctx);
    let mut rec = CommandRecorder::new();
    rec.begin_recording(ctx.queue_family_index).unwrap();
    let unit = rec.finalize().unwrap();
    let token = submit(&ctx, unit, &mut alloc).unwrap();
    ctx.mark_lost();
    assert_eq!(
        token.wait(&ctx, &mut alloc, None).err(),
        Some(GpuError::DeviceLost)
    );
    let mut rec = CommandRecorder::new();
    rec.begin_recording(ctx.queue_family_index).unwrap();
    let unit = rec.finalize().unwrap();
    assert_eq!(
        submit(&ctx, unit, &mut alloc).err(),
        Some(GpuError::SubmissionFailed)
    );
}

#[test]
fn unmodelled_shader_leaves_device_written_contents() {
    let ctx = full_context();
    let mut alloc = MemoryAllocator::new(&ctx);
    let buffer = alloc
        .allocate_buffer_from_words(
            BufferUsage::for_storage(),
            AccessPattern::Upload,
            vec![1, 2, 3],
        )
        .unwrap();
    let shader = ShaderInterface {
        entry_point_found: true,
        binding_count: 1,
        effect: ShaderEffect::Opaque,
    };
    let pipeline = build_compute_pipeline(&ctx, &shader).unwrap();
    let set = DescriptorSet::new(
        &pipeline,
        vec![DescriptorWrite {
            binding: 0,
            resource: BoundResource::Buffer(buffer),
        }],
    )
    .unwrap();
    let mut rec = CommandRecorder::new();
    rec.begin_recording(ctx.queue_family_index).unwrap();
    rec.bind_compute_pipeline(&pipeline).unwrap();
    rec.bind_descriptor_set(&alloc, &set).unwrap();
    rec.dispatch(1, 1, 1).unwrap();
    let unit = rec.finalize().unwrap();
    let token = submit(&ctx, unit, &mut alloc).unwrap();
    token.wait(&ctx, &mut alloc, None).unwrap();
    assert!(alloc.read_buffer_words(buffer).is_none());
}

#[test]
fn shader_written_image_downloads_as_device_written() {
    // A compute shader writing an image through a descriptor view is not
    // modelled: the image, and a buffer the image is then copied into,
    // hold device-written contents.
    let ctx = full_context();
    let mut alloc = MemoryAllocator::new(&ctx);
    let image = alloc
        .allocate_image(
            ImageUsage::general_purpose(),
            AccessPattern::DeviceOnly,
            32,
            32,
            ImageFormat::Rgba8Unorm,
        )
        .unwrap();
    let buffer = alloc
        .allocate_buffer_from_bytes(
            BufferUsage::for_transfer_dst(),
            AccessPattern::Download,
            (0..32 * 32 * 4).map(|_| 0u8).collect(),
        )
        .unwrap();
    let shader = ShaderInterface {
        entry_point_found: true,
        binding_count: 1,
        effect: ShaderEffect::Opaque,
    };
    let pipeline = build_compute_pipeline(&ctx, &shader).unwrap();
    let set = DescriptorSet::new(
        &pipeline,
        vec![DescriptorWrite {
            binding: 0,
            resource: BoundResource::ImageView(image),
        }],
    )
    .unwrap();
    let mut rec = CommandRecorder::new();
    rec.begin_recording(ctx.queue_family_index).unwrap();
    rec.bind_compute_pipeline(&pipeline).unwrap();
    rec.bind_descriptor_set(&alloc, &set).unwrap();
    rec.dispatch(32 / 8, 32 / 8, 1).unwrap();
    rec.copy_image_to_buffer(&alloc, image, buffer).unwrap();
    let unit = rec.finalize().unwrap();
    let token = submit(&ctx, unit, &mut alloc).unwrap();
    token.wait(&ctx, &mut alloc, None).unwrap();
    assert!(alloc.read_buffer_bytes(buffer).is_none());
    assert!(alloc.read_buffer_words(buffer).is_none());
}

#[test]
fn bgra_image_downloads_in_bgra_byte_order() {
    // The same clear colour, downloaded from a BGRA8 image, lands in
    // blue, green, red, alpha byte order.
    let ctx = full_context();
    let mut alloc = MemoryAllocator::new(&ctx);
    let image = alloc
        .allocate_image(
            ImageUsage::general_purpose(),
            AccessPattern::DeviceOnly,
            8,
            8,
            ImageFormat::Bgra8Unorm,
        )
        .unwrap();
    let buffer = alloc
        .allocate_buffer_from_bytes(
            BufferUsage::for_transfer_dst(),
            AccessPattern::Download,
            (0..8 * 8 * 4).map(|_| 0u8).collect(),
        )
        .unwrap();
    let colour = ClearColor {
        r: 10,
        g: 20,
        b: 30,
        a: 255,
    };
    let mut rec = CommandRecorder::new();
    rec.begin_recording(ctx.queue_family_index).unwrap();
    rec.clear_image(&alloc, image, colour).unwrap();
    rec.copy_image_to_buffer(&alloc, image, buffer).unwrap();
    let unit = rec.finalize().unwrap();
    let token = submit(&ctx, unit, &mut alloc).unwrap();
    token.wait(&ctx, &mut alloc, None).unwrap();
    let content = alloc.read_buffer_bytes(buffer).unwrap();
    for pixel in content.chunks(4) {
        assert_eq!(pixel, &[30, 20, 10, 255]);
    }
}

#[test]
fn waiting_one_token_releases_only_its_submission() {
    // Two submissions are in flight at once; waiting the first token
    // releases exactly the first unit's resources, not the second's.
    let ctx = full_context();
    let mut alloc = MemoryAllocator::new(&ctx);
    let src_a = alloc
        .allocate_buffer_from_words(
            BufferUsage::for_transfer_src(),
            AccessPattern::Upload,
            vec![1, 2],
        )
        .unwrap();
    let dst_a = alloc
        .allocate_buffer_from_words(
            BufferUsage::for_transfer_dst(),
            AccessPattern::Download,
            vec![0, 0],
        )
        .unwrap();
    let src_b = alloc
        .allocate_buffer_from_words(
            BufferUsage::for_transfer_src(),
            AccessPattern::Upload,
            vec![3, 4],
        )
        .unwrap();
    let dst_b = alloc
        .allocate_buffer_from_words(
            BufferUsage::for_transfer_dst(),
            AccessPattern::Download,
            vec![0, 0],
        )
        .unwrap();
    let mut rec_a = CommandRecorder::new();
    rec_a.begin_recording(ctx.queue_family_index).unwrap();
    rec_a.copy_buffer(&alloc, src_a, dst_a).unwrap();
    let unit_a = rec_a.finalize().unwrap();
    let mut rec_b = CommandRecorder::new();
    rec_b.begin_recording(ctx.queue_family_index).unwrap();
    rec_b.copy_buffer(&alloc, src_b, dst_b).unwrap();
    let unit_b = rec_b.finalize().unwrap();
    let token_a = submit(&ctx, unit_a, &mut alloc).unwrap();
    let token_b = submit(&ctx, unit_b, &mut alloc).unwrap();
    assert!(alloc.buffers[dst_a].in_flight);
    assert!(alloc.buffers[dst_b].in_flight);
    token_a.wait(&ctx, &mut alloc, None).unwrap();
    // The first unit's destination is released; the second's stays in
    // flight until its own token is waited.
    assert!(!alloc.buffers[dst_a].in_flight);
    assert!(alloc.buffers[dst_b].in_flight);
    assert_eq!(alloc.read_buffer_words(dst_a).unwrap(), &vec![1, 2]);
    token_b.wait(&ctx, &mut alloc, None).unwrap();
    assert!(!alloc.buffers[dst_b].in_flight);
    assert_eq!(alloc.read_buffer_words(dst_b).unwrap(), &vec![3, 4]);
}

#[test]
fn wrapping_multiplication_matches_expected_values() {
    assert_eq!(gpucmd::mul_wrap(3, 5), 15);
    assert_eq!(gpucmd::mul_wrap(0x8000_0000, 2), 0);
    assert_eq!(gpucmd::mul_wrap(u32::MAX, u32::MAX), 1);
}
