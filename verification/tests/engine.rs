use rose::command::Command;
use rose::device::{find_memory_type, queue_create_requests, Device};
use rose::error::{InitError, RenderError, TextureError};
use rose::frame::PerFrameResources;
use rose::renderer::{DeviceDescription, FramePhase, Renderer, ShaderCode};
use rose::resource::MBB;
use rose::target::{create_render_pass, image_count, select_extent};
use rose::vk;

fn device() -> Device {
    Device {
        handle: 1,
        queue_family_indices: [0, 0, 0],
        next_id: 2,
    }
}

fn memory_properties() -> vk::PhysicalDeviceMemoryProperties {
    vk::PhysicalDeviceMemoryProperties {
        memory_types: vec![
            vk::MemoryType {
                property_flags: vk::MemoryPropertyFlagBits::DeviceLocal.bits(),
                heap_index: 0,
            },
            vk::MemoryType {
                property_flags: vk::MemoryPropertyFlagBits::DeviceLocal.bits()
                    | vk::MemoryPropertyFlagBits::HostVisible.bits()
                    | vk::MemoryPropertyFlagBits::HostCoherent.bits(),
                heap_index: 0,
            },
        ],
        memory_heaps: vec![vk::MemoryHeap {
            size: 1 << 30,
            flags: vk::MemoryHeapFlagBits::DeviceLocal.bits(),
        }],
    }
}

fn capabilities() -> vk::SurfaceCapabilitiesKHR {
    vk::SurfaceCapabilitiesKHR {
        min_image_count: 2,
        max_image_count: 2,
        current_extent: vk::Extent2D {
            width: vk::EXTENT_UNDEFINED,
            height: vk::EXTENT_UNDEFINED,
        },
        min_image_extent: vk::Extent2D { width: 1, height: 1 },
        max_image_extent: vk::Extent2D { width: 4096, height: 4096 },
        max_image_array_layers: 1,
        supported_transforms: 1,
        current_transform: vk::SurfaceTransformFlagBitsKHR::Identity,
        supported_composite_alpha: vk::CompositeAlphaFlagsKHR::Opaque,
        supported_usage_flags: vk::ImageUsageFlagBits::ColorAttachment.bits(),
    }
}

fn description() -> DeviceDescription {
    DeviceDescription {
        queue_families: vec![vk::QueueFamilyProperties {
            queue_flags: vk::QueueFlagBits::Graphics.bits() | vk::QueueFlagBits::Transfer.bits(),
            queue_count: 1,
            timestamp_valid_bits: 0,
            min_image_transfer_granularity: vk::Extent3D { width: 1, height: 1, depth: 1 },
        }],
        present_support: vec![true],
        memory: memory_properties(),
        capabilities: capabilities(),
        formats: vec![vk::SurfaceFormatKHR {
            format: vk::Format::B8G8R8A8UNORM,
            color_space: vk::ColorSpaceKHR::SRGBNonlinearKHR,
        }],
    }
}

fn shaders() -> ShaderCode {
    ShaderCode {
        sprite_fragment: vec![1, 2, 3, 4],
        sprite_vertex: vec![5, 6, 7, 8],
        text_fragment: vec![9, 10, 11, 12],
        text_vertex: vec![13, 14, 15, 16],
    }
}

fn renderer() -> Renderer {
    Renderer::init(
        &description(),
        vk::Extent2D { width: 800, height: 600 },
        &shaders(),
    )
    .unwrap()
}

fn encode_png(width: u32, height: u32, value: u8) -> Vec<u8> {
    let mut encoded = Vec::new();
    {
        let mut encoder = png::Encoder::new(&mut encoded, width, height);
        encoder.set_color(png::ColorType::Rgba);
        encoder.set_depth(png::BitDepth::Eight);
        let mut writer = encoder.write_header().unwrap();
        let pixels = vec![value; (width * height * 4) as usize];
        writer.write_image_data(&pixels).unwrap();
    }
    encoded
}

#[test]
fn select_extent_clamps_when_surface_defers() {
    let capabilities = capabilities();
    let below = select_extent(capabilities, vk::Extent2D { width: 0, height: 0 });
    assert_eq!(below, vk::Extent2D { width: 1, height: 1 });

    let above = select_extent(capabilities, vk::Extent2D { width: 10000, height: 9000 });
    assert_eq!(above, vk::Extent2D { width: 4096, height: 4096 });

    let within = select_extent(capabilities, vk::Extent2D { width: 800, height: 600 });
    assert_eq!(within, vk::Extent2D { width: 800, height: 600 });
}

#[test]
fn select_extent_obeys_concrete_extent() {
    let mut capabilities = capabilities();
    capabilities.current_extent = vk::Extent2D { width: 640, height: 480 };
    let extent = select_extent(capabilities, vk::Extent2D { width: 800, height: 600 });
    assert_eq!(extent, vk::Extent2D { width: 640, height: 480 });
}

#[test]
fn select_extent_idempotent() {
    let capabilities = capabilities();
    let first = select_extent(capabilities, vk::Extent2D { width: 12000, height: 3 });
    let second = select_extent(capabilities, first);
    assert_eq!(first, second);
}

#[test]
fn image_count_prefers_double_buffering() {
    let mut capabilities = capabilities();
    capabilities.min_image_count = 2;
    capabilities.max_image_count = 3;
    assert_eq!(image_count(capabilities), 2);

    capabilities.min_image_count = 1;
    capabilities.max_image_count = 1;
    assert_eq!(image_count(capabilities), 1);
}

#[test]
fn memory_type_selection_respects_flags() {
    let properties = memory_properties();
    let host_flags = vk::MemoryPropertyFlagBits::HostVisible.bits()
        | vk::MemoryPropertyFlagBits::HostCoherent.bits();
    assert_eq!(find_memory_type(&properties, 0xFFFF_FFFF, host_flags), Some(1));
    assert_eq!(
        find_memory_type(&properties, 0xFFFF_FFFF,
            vk::MemoryPropertyFlagBits::DeviceLocal.bits()),
        Some(0)
    );
    assert_eq!(
        find_memory_type(&properties, 0xFFFF_FFFF,
            vk::MemoryPropertyFlagBits::Protected.bits()),
        None
    );
}

#[test]
fn mbb_allocation_satisfies_requirements() {
    let mut device = device();
    let properties = memory_properties();
    let host_flags = vk::MemoryPropertyFlagBits::HostVisible.bits()
        | vk::MemoryPropertyFlagBits::HostCoherent.bits();
    let mbb = MBB::create(&mut device, &properties, 64,
        vk::BufferUsageFlagBits::VertexBuffer.bits(), host_flags).unwrap();
    assert_eq!(mbb.size, 64);
    assert!(mbb.memory.size >= 64);
    assert_eq!(mbb.memory.type_index, 1);
    let selected = properties.memory_types[mbb.memory.type_index as usize].property_flags;
    assert_eq!(selected & host_flags, host_flags);
}

#[test]
fn write_region_round_trip() {
    let mut device = device();
    let properties = memory_properties();
    let host_flags = vk::MemoryPropertyFlagBits::HostVisible.bits()
        | vk::MemoryPropertyFlagBits::HostCoherent.bits();
    let mut mbb = MBB::create(&mut device, &properties, 16,
        vk::BufferUsageFlagBits::TransferSource.bits(), host_flags).unwrap();

    mbb.write_region(5, 4, &[0xAA, 0xBB, 0xCC, 0xDD]);
    assert_eq!(mbb.read_region(5, 4), vec![0xAA, 0xBB, 0xCC, 0xDD]);
    // Bytes outside the region keep their values.
    assert_eq!(mbb.read_region(0, 5), vec![0; 5]);
    assert_eq!(mbb.read_region(9, 7), vec![0; 7]);
}

#[test]
fn render_pass_clears_and_presents() {
    let mut device = device();
    let (_, info) = create_render_pass(&mut device, vk::Format::B8G8R8A8UNORM);
    assert_eq!(info.attachments.len(), 1);
    assert_eq!(info.attachments[0].format, vk::Format::B8G8R8A8UNORM);
    assert_eq!(info.attachments[0].load_op, vk::AttachmentLoadOp::Clear);
    assert_eq!(info.attachments[0].store_op, vk::AttachmentStoreOp::Store);
    assert_eq!(info.attachments[0].initial_layout, vk::ImageLayout::Undefined);
    assert_eq!(info.attachments[0].final_layout, vk::ImageLayout::PresentSourceKHR);
    assert_eq!(info.dependencies.len(), 1);
    assert_eq!(info.dependencies[0].source_subpass, vk::SUBPASS_EXTERNAL);
}

#[test]
fn frame_pool_reset_and_fresh_allocation() {
    let mut device = device();
    let mut resources = PerFrameResources::create(&mut device, 0);

    let first = resources
        .allocate_descriptors_and_secondaries(&mut device, 100, 2)
        .unwrap();
    assert_eq!(first, vec![0, 1]);
    let before: Vec<u64> = resources.descriptor_sets.iter().map(|s| s.handle).collect();

    resources.reset();
    assert_eq!(resources.secondaries.len(), 0);
    assert_eq!(resources.descriptor_sets.len(), 0);

    let second = resources
        .allocate_descriptors_and_secondaries(&mut device, 100, 2)
        .unwrap();
    assert_eq!(second, vec![0, 1]);
    let after: Vec<u64> = resources.descriptor_sets.iter().map(|s| s.handle).collect();

    assert_eq!(before.len(), 2);
    assert_eq!(after.len(), 2);
    for handle in &after {
        assert!(!before.contains(handle));
    }
}

#[test]
fn frame_pool_capacity_is_enforced() {
    let mut device = device();
    let mut resources = PerFrameResources::create(&mut device, 0);
    assert!(resources
        .allocate_descriptors_and_secondaries(&mut device, 100, 5)
        .is_none());
    assert!(resources
        .allocate_descriptors_and_secondaries(&mut device, 100, 4)
        .is_some());
}

#[test]
fn init_selects_queues_and_extent() {
    let renderer = renderer();
    assert_eq!(renderer.device.queue_family_indices, [0, 0, 0]);
    assert_eq!(renderer.presentation_sync.num_images, 2);
    assert_eq!(renderer.presentation_sync.current_frame, 0);
    assert_eq!(
        renderer.render_target.extent,
        vk::Extent2D { width: 800, height: 600 }
    );
    assert_eq!(renderer.render_target.framebuffers.len(), 2);
}

#[test]
fn init_reports_missing_graphics_queue() {
    let mut description = description();
    description.queue_families[0].queue_flags = vk::QueueFlagBits::Transfer.bits();
    let result = Renderer::init(&description, vk::Extent2D { width: 800, height: 600 },
        &shaders());
    assert!(matches!(result, Err(InitError::NoGraphicsQueue)));
}

#[test]
fn init_reports_missing_surface_format() {
    let mut description = description();
    description.formats.clear();
    let result = Renderer::init(&description, vk::Extent2D { width: 800, height: 600 },
        &shaders());
    assert!(matches!(result, Err(InitError::NoSurfaceFormat)));
}

#[test]
fn init_reports_missing_host_visible_memory() {
    let mut description = description();
    description.memory.memory_types = vec![vk::MemoryType {
        property_flags: vk::MemoryPropertyFlagBits::DeviceLocal.bits(),
        heap_index: 0,
    }];
    let result = Renderer::init(&description, vk::Extent2D { width: 800, height: 600 },
        &shaders());
    assert!(matches!(result, Err(InitError::NoSuitableMemoryType)));
}

#[test]
fn materials_pack_vertices_tightly() {
    let renderer = renderer();
    assert_eq!(renderer.material_sprite.desc.vertex_binding.stride, 16);
    assert_eq!(renderer.material_sprite.desc.vertex_attributes[0].offset, 0);
    assert_eq!(renderer.material_sprite.desc.vertex_attributes[1].offset, 8);
    assert_eq!(renderer.material_text.desc.vertex_binding.stride, 32);
    assert_eq!(renderer.material_text.desc.vertex_attributes[2].offset, 16);
    assert_eq!(
        renderer.material_sprite.desc.topology,
        vk::PrimitiveTopology::TriangleList
    );
    assert_eq!(
        renderer.material_sprite.desc.cull_mode,
        vk::CullModeBits::Back.bits()
    );
}

#[test]
fn format_length_of_vertex_formats() {
    assert_eq!(rose::material::format_length(vk::Format::R32G32SFLOAT), 8);
    assert_eq!(rose::material::format_length(vk::Format::R32G32B32A32SFLOAT), 16);
}

#[test]
fn full_frame_advances_frame_index() {
    let mut renderer = renderer();
    let encoded = encode_png(64, 64, 0xFF);
    let sprite = renderer.create_sprite(&encoded).unwrap();
    assert_eq!(sprite, 0);
    assert_eq!(renderer.textures.len(), 1);
    assert_eq!(renderer.textures[0].image.extent, vk::Extent2D { width: 64, height: 64 });

    let vertices = vec![0u8; 96];
    let index = renderer.begin_scene(10, 20, 30).unwrap();
    assert_eq!(index, 0);
    renderer.draw(sprite, &vertices);
    renderer.end_scene().unwrap();
    renderer.present(index);

    assert_eq!(renderer.presentation_sync.current_frame, 1);
    assert!(matches!(renderer.phase, FramePhase::Idle));
}

#[test]
fn frame_index_cycles_round_robin() {
    let mut renderer = renderer();
    let slots = renderer.presentation_sync.num_images;
    for step in 1..=2 * slots {
        let index = renderer.begin_scene(0, 0, 0).unwrap();
        renderer.end_scene().unwrap();
        renderer.present(index);
        assert_eq!(renderer.presentation_sync.current_frame, step % slots);
    }
}

#[test]
fn end_scene_records_one_secondary_per_draw() {
    let mut renderer = renderer();
    let encoded = encode_png(2, 2, 0x7F);
    let sprite = renderer.create_sprite(&encoded).unwrap();

    let index = renderer.begin_scene(0, 0, 0).unwrap();
    renderer.draw(sprite, &[1, 2, 3, 4]);
    renderer.draw(sprite, &[5, 6, 7, 8]);
    renderer.end_scene().unwrap();

    let current = 0;
    let resources = &renderer.frame_resources[current];
    assert_eq!(resources.secondaries.len(), 2);
    assert_eq!(resources.descriptor_sets.len(), 2);
    // The second draw binds the vertex buffer at its own byte offset.
    let commands = &resources.secondaries[1].commands;
    assert_eq!(commands.len(), 6);
    assert!(matches!(commands[0], Command::SetViewport { .. }));
    assert!(matches!(commands[1], Command::SetScissor { .. }));
    assert!(matches!(commands[2], Command::BindPipeline { .. }));
    assert!(matches!(commands[3], Command::BindDescriptorSet { .. }));
    match commands[4] {
        Command::BindVertexBuffer { offset, .. } => assert_eq!(offset, 4),
        _ => panic!("expected a vertex-buffer bind"),
    }
    match commands[5] {
        Command::Draw { vertex_count, instance_count, .. } => {
            assert_eq!(vertex_count, 6);
            assert_eq!(instance_count, 1);
        }
        _ => panic!("expected a draw"),
    }
    // The frame's vertex buffer holds both draws' bytes back to back.
    assert_eq!(renderer.vertex_buffer.read_region(0, 8), vec![1, 2, 3, 4, 5, 6, 7, 8]);
    renderer.present(index);
}

#[test]
fn end_scene_without_begin_is_rejected() {
    let mut renderer = renderer();
    assert!(matches!(renderer.end_scene(), Err(RenderError::NotRecording)));
}

#[test]
fn descriptor_pool_exhaustion_is_reported() {
    let mut renderer = renderer();
    let encoded = encode_png(1, 1, 0x11);
    let sprite = renderer.create_sprite(&encoded).unwrap();

    renderer.begin_scene(0, 0, 0).unwrap();
    for _ in 0..5 {
        renderer.draw(sprite, &[0; 4]);
    }
    assert!(matches!(
        renderer.end_scene(),
        Err(RenderError::DescriptorPoolExhausted)
    ));
}

#[test]
fn out_of_date_surface_stops_acquisition() {
    let mut renderer = renderer();
    renderer.surface_changed(capabilities());
    assert!(renderer.begin_scene(0, 0, 0).is_none());
}

#[test]
fn resize_recreates_target_with_fresh_framebuffers() {
    let mut renderer = renderer();
    let old_framebuffers = renderer.render_target.framebuffers.clone();

    renderer.surface_changed(capabilities());
    assert!(renderer.begin_scene(0, 0, 0).is_none());
    renderer.resize(vk::Extent2D { width: 400, height: 300 }).unwrap();

    assert_eq!(
        renderer.render_target.extent,
        vk::Extent2D { width: 400, height: 300 }
    );
    assert!(!renderer.render_target.out_of_date);
    for framebuffer in &renderer.render_target.framebuffers {
        assert!(!old_framebuffers.contains(framebuffer));
    }

    // Rendering proceeds against the recreated target.
    let index = renderer.begin_scene(0, 0, 0).unwrap();
    renderer.end_scene().unwrap();
    renderer.present(index);
}

#[test]
fn texture_upload_stages_and_transitions() {
    let mut renderer = renderer();
    let pixels = vec![0xFFu8; 64 * 64 * 4];
    let index = renderer
        .load_texture(64, 64, (64 * 64 * 4) as u64, &pixels, vk::Format::R8G8B8A8UNORM)
        .unwrap();
    assert_eq!(index, 0);
    assert_eq!(renderer.textures.len(), 1);
    assert_eq!(renderer.textures[0].image.format, vk::Format::R8G8B8A8UNORM);
    assert!(renderer.textures[0].memory.size >= 64 * 64 * 4);
}

#[test]
fn unload_texture_keeps_later_indices_valid() {
    let mut renderer = renderer();
    let pixels = vec![0x55u8; 4];
    renderer.load_texture(1, 1, 4, &pixels, vk::Format::R8G8B8A8UNORM).unwrap();
    renderer.load_texture(1, 1, 4, &pixels, vk::Format::R8G8B8A8UNORM).unwrap();

    renderer.unload_texture(0);
    assert_eq!(renderer.textures.len(), 2);
    assert_eq!(renderer.textures[0].sampler, 0);
    assert_ne!(renderer.textures[1].sampler, 0);
}

#[test]
fn load_png_rejects_undecodable_bytes() {
    let mut renderer = renderer();
    let result = renderer.load_png(&[0, 1, 2, 3, 4, 5, 6, 7]);
    assert!(matches!(result, Err(TextureError::Decode)));
}

#[test]
fn load_png_decodes_dimensions_and_pixels() {
    let mut renderer = renderer();
    let encoded = encode_png(3, 2, 0xAB);
    let (index, width, height) = renderer.load_png(&encoded).unwrap();
    assert_eq!((index, width, height), (0, 3, 2));
    assert_eq!(renderer.textures.len(), 1);
    assert_eq!(renderer.textures[0].image.extent, vk::Extent2D { width: 3, height: 2 });
}

#[test]
fn upload_protocol_places_both_barriers() {
    let mut device = device();
    let pool = rose::command::create_command_pool(&mut device, 0, 0);
    let mut transfer = rose::command::allocate_command_buffer(
        &mut device,
        &pool,
        vk::CommandBufferLevel::Primary,
    );
    rose::renderer::record_texture_upload(&mut transfer, 7, 9, 64, 64);
    assert_eq!(transfer.commands.len(), 3);
    match &transfer.commands[0] {
        Command::PipelineBarrier { barrier, .. } => {
            assert_eq!(barrier.old_layout, vk::ImageLayout::Undefined);
            assert_eq!(barrier.new_layout, vk::ImageLayout::TransferDestinationOptimal);
        }
        _ => panic!("expected the acquire barrier"),
    }
    match &transfer.commands[1] {
        Command::CopyBufferToImage { buffer, image, .. } => {
            assert_eq!(*buffer, 7);
            assert_eq!(*image, 9);
        }
        _ => panic!("expected the copy"),
    }
    match &transfer.commands[2] {
        Command::PipelineBarrier { barrier, .. } => {
            assert_eq!(barrier.old_layout, vk::ImageLayout::TransferDestinationOptimal);
            assert_eq!(barrier.new_layout, vk::ImageLayout::ShaderReadOnlyOptimal);
        }
        _ => panic!("expected the release barrier"),
    }
}

#[test]
fn queue_requests_are_deduplicated() {
    let requests = queue_create_requests(&[0, 0, 0]);
    assert_eq!(requests.len(), 1);
    assert_eq!(requests[0].queue_family_index, 0);
    assert_eq!(requests[0].queue_count, 1);

    let requests = queue_create_requests(&[2, 0, 2]);
    assert_eq!(requests.len(), 2);
    assert_eq!(requests[0].queue_family_index, 2);
    assert_eq!(requests[1].queue_family_index, 0);

    let requests = queue_create_requests(&[1, 2, 3]);
    assert_eq!(requests.len(), 3);
}

#[test]
fn swapchain_request_records_the_engine_choices() {
    let renderer = renderer();
    let info = renderer.render_target.swapchain_info;
    assert_eq!(info.min_image_count, 2);
    assert_eq!(info.image_format, vk::Format::B8G8R8A8UNORM);
    assert_eq!(info.image_color_space, vk::ColorSpaceKHR::SRGBNonlinearKHR);
    assert_eq!(info.image_extent, vk::Extent2D { width: 800, height: 600 });
    assert_eq!(info.image_array_layers, 1);
    assert_eq!(info.image_sharing_mode, vk::SharingMode::Exclusive);
    assert_eq!(info.present_mode, vk::PresentModeKHR::Fifo);
    assert_eq!(info.composite_alpha, vk::CompositeAlphaFlagsKHR::Opaque);
    assert_eq!(info.pre_transform, vk::SurfaceTransformFlagBitsKHR::Identity);
    assert_eq!(info.clipped, 1);
    assert_eq!(info.old_swapchain, 0);
}

#[test]
fn framebuffers_cover_one_view_each() {
    let renderer = renderer();
    let target = &renderer.render_target;
    assert_eq!(target.framebuffer_infos.len(), target.framebuffers.len());
    for (i, info) in target.framebuffer_infos.iter().enumerate() {
        assert_eq!(info.render_pass, target.render_pass);
        assert_eq!(info.attachments, vec![target.views[i]]);
        assert_eq!(info.width, 800);
        assert_eq!(info.height, 600);
        assert_eq!(info.layers, 1);
    }
}

#[test]
fn frame_pool_destroy_nulls_the_primary() {
    let mut device = device();
    let mut resources = PerFrameResources::create(&mut device, 0);
    assert_ne!(resources.primary.handle, 0);
    resources.destroy();
    assert_eq!(resources.primary.handle, 0);
    assert!(resources.primary.commands.is_empty());
    assert_eq!(resources.secondaries.len(), 0);
    assert_eq!(resources.descriptor_sets.len(), 0);
}

#[test]
fn memory_type_selection_is_minimal() {
    let mut properties = memory_properties();
    // Both types satisfy device-local; the first suitable index wins.
    properties.memory_types[0].property_flags = vk::MemoryPropertyFlagBits::DeviceLocal.bits()
        | vk::MemoryPropertyFlagBits::HostVisible.bits()
        | vk::MemoryPropertyFlagBits::HostCoherent.bits();
    assert_eq!(
        find_memory_type(&properties, 0xFFFF_FFFF,
            vk::MemoryPropertyFlagBits::DeviceLocal.bits()),
        Some(0)
    );
}
