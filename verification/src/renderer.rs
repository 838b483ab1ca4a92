//! The renderer: the façade composing device, render target, materials,
//! per-frame pools, presentation sync, and the scene batching path.
//!
//! One host thread drives the renderer.  Each frame: acquire an image,
//! wait and reset that slot's fence, reset the slot's pools, record the
//! primary and one secondary buffer per queued draw, execute the
//! secondaries from the primary, submit, present, and advance the frame
//! index round-robin.

use vstd::prelude::*;
use crate::command::{
    bind_graphics_pipeline, bind_sampled_image_descriptor, bind_vertex_buffer,
    cmd_begin_render_pass, cmd_draw, cmd_end_render_pass, cmd_execute_commands,
    command_buffer_begin_primary, command_buffer_begin_secondary,
    command_buffer_end_and_submit, create_command_pool, descriptor_set_update_sampled_image,
    set_scissor_and_viewport, spec_buffer_handles, Command, CommandPool,
};
use crate::device::{fence_wait_reset, Device, Queues, GRAPHICS, TRANSFER};
use crate::error::{InitError, RenderError};
use crate::frame::PerFrameResources;
use crate::material::Material;
use crate::resource::{Texture, MBB};
use crate::scene::Scene;
use crate::sync::{spec_next_frame, PresentationSync};
use crate::target::{acquire_image, spec_image_count, spec_select_extent, RenderTarget};
use crate::vk;

verus! {

/// The byte size of the frame vertex buffer.
pub const VERTEX_BUFFER_SIZE: u64 = 5242880;

/// How long an image acquisition may block, in nanoseconds, before the
/// engine treats the surface as unavailable.
pub const ACQUIRE_TIMEOUT: u64 = 100000000;

/// A drawable sprite: which texture it samples and its pixel size.
#[derive(Clone, Copy, Debug)]
pub struct Sprite {
    pub texture_index: usize,
    pub width: u32,
    pub height: u32,
}

/// Where the renderer stands in the frame cycle.
#[derive(Clone, Copy, Debug, PartialEq, Eq, Structural)]
pub enum FramePhase {
    /// No frame is underway.
    Idle,
    /// A scene is being recorded against the acquired image.
    Recording { image: u32 },
    /// The frame was submitted against the acquired image and awaits its
    /// present.
    Submitted { image: u32 },
}

/// What the platform and driver report about the presentation target: the
/// queue families and their presentation support, the device's memory
/// types, and the surface's capabilities and pixel formats.  The windowing
/// collaborator supplies the handle behind these; the renderer consumes
/// only these plain values.
#[derive(Debug)]
pub struct DeviceDescription {
    pub queue_families: Vec<vk::QueueFamilyProperties>,
    pub present_support: Vec<bool>,
    pub memory: vk::PhysicalDeviceMemoryProperties,
    pub capabilities: vk::SurfaceCapabilitiesKHR,
    pub formats: Vec<vk::SurfaceFormatKHR>,
}

impl DeviceDescription {
    /// The shape the driver API guarantees of its reports.
    pub open spec fn wf(self) -> bool {
        &&& self.queue_families@.len() <= u32::MAX
        &&& self.present_support@.len() <= u32::MAX
        &&& self.memory.memory_types@.len() <= vk::MAX_MEMORY_TYPES
        &&& self.capabilities.min_image_count >= 1
    }
}

/// The compiled shader blobs the engine's two materials are built from,
/// loaded by the caller.
#[derive(Debug)]
pub struct ShaderCode {
    pub sprite_fragment: Vec<u8>,
    pub sprite_vertex: Vec<u8>,
    pub text_fragment: Vec<u8>,
    pub text_vertex: Vec<u8>,
}

pub struct Renderer {
    pub frame_resources: Vec<PerFrameResources>,
    pub scene: Scene,
    pub sprites: Vec<Sprite>,
    pub textures: Vec<Texture>,
    pub vertex_buffer: MBB,
    pub transfer_pool: CommandPool,
    pub presentation_sync: PresentationSync,
    pub material_sprite: Material,
    pub material_text: Material,
    pub render_target: RenderTarget,
    pub device: Device,
    pub queues: Queues,
    pub physical_device: vk::PhysicalDevice,
    pub surface: vk::SurfaceKHR,
    pub instance: vk::Instance,
    pub memory_properties: vk::PhysicalDeviceMemoryProperties,
    pub surface_capabilities: vk::SurfaceCapabilitiesKHR,
    pub surface_formats: Vec<vk::SurfaceFormatKHR>,
    pub phase: FramePhase,
}

impl Renderer {
    /// The renderer's structural invariant: one frame slot per swapchain
    /// image, well-formed components, draw records pointing at live
    /// sprites and textures, and every held handle issued by the device.
    pub open spec fn wf(self) -> bool {
        &&& self.render_target.wf()
        &&& self.presentation_sync.wf()
        &&& self.presentation_sync.num_images == self.render_target.images@.len()
        &&& self.frame_resources@.len() == self.presentation_sync.num_images
        &&& forall|i: int| 0 <= i < self.frame_resources@.len()
            ==> (#[trigger] self.frame_resources@[i]).wf()
        &&& forall|i: int| 0 <= i < self.frame_resources@.len()
            ==> (#[trigger] self.frame_resources@[i]).handles_below(self.device.next_id)
        &&& forall|i: int| 0 <= i < self.frame_resources@.len()
            ==> (#[trigger] self.frame_resources@[i]).descriptor_pool.max_sets
                == crate::frame::DESCRIPTOR_POOL_CAPACITY
        &&& self.render_target.handles_below(self.device.next_id)
        &&& self.vertex_buffer.wf()
        &&& self.vertex_buffer.host_visible()
        &&& self.vertex_buffer.size == VERTEX_BUFFER_SIZE
        &&& self.scene.wf()
        &&& self.scene.data@.len() <= VERTEX_BUFFER_SIZE
        &&& forall|i: int| 0 <= i < self.scene.sprite@.len()
            ==> (#[trigger] self.scene.sprite@[i]).index < self.sprites@.len()
        &&& forall|i: int| 0 <= i < self.scene.glyphs@.len()
            ==> (#[trigger] self.scene.glyphs@[i]).texture_index < self.textures@.len()
        &&& forall|i: int| 0 <= i < self.sprites@.len()
            ==> (#[trigger] self.sprites@[i]).texture_index < self.textures@.len()
        &&& self.memory_properties.memory_types@.len() <= vk::MAX_MEMORY_TYPES
        &&& self.surface_formats@.len() > 0
        &&& self.surface_capabilities.min_image_count >= 1
        &&& self.phase_wf()
    }

    /// What each frame phase guarantees of the synchronization state: the
    /// fences of every slot are signaled, except the active slot's while a
    /// scene is being recorded (it was reset when recording began, and
    /// submission signals it again).
    pub open spec fn phase_wf(self) -> bool {
        match self.phase {
            FramePhase::Recording { image } => {
                &&& image < self.render_target.images@.len()
                &&& forall|i: int| 0 <= i < self.presentation_sync.drawing_finished@.len()
                    && i != self.presentation_sync.current_frame
                    ==> (#[trigger] self.presentation_sync.drawing_finished@[i]).signaled
            },
            FramePhase::Submitted { image } => {
                &&& image < self.render_target.images@.len()
                &&& forall|i: int| 0 <= i < self.presentation_sync.drawing_finished@.len()
                    ==> (#[trigger] self.presentation_sync.drawing_finished@[i]).signaled
            },
            FramePhase::Idle => forall|i: int|
                0 <= i < self.presentation_sync.drawing_finished@.len()
                    ==> (#[trigger] self.presentation_sync.drawing_finished@[i]).signaled,
        }
    }

    /// Bring the renderer up against a presentation target: select queues,
    /// create the render target from the surface's capabilities and the
    /// window's size, build the two materials, the per-image sync slots and
    /// frame pools, the frame vertex buffer, and the transfer pool.
    ///
    /// Fails exactly on the first impossible selection: a missing queue
    /// role, a surface without formats, or no host-visible memory type for
    /// the vertex buffer.
    pub fn init(
        description: &DeviceDescription,
        window_extent: vk::Extent2D,
        shaders: &ShaderCode,
    ) -> (result: Result<Renderer, InitError>)
        requires
            description.wf(),
        ensures
            match result {
                Ok(renderer) => {
                    &&& renderer.wf()
                    &&& renderer.phase == FramePhase::Idle
                    &&& renderer.device.next_id
                        <= 23 + 9 * spec_image_count(description.capabilities)
                    &&& !renderer.render_target.out_of_date
                    &&& renderer.presentation_sync.current_frame == 0
                    &&& renderer.presentation_sync.num_images
                        == spec_image_count(description.capabilities)
                    &&& renderer.render_target.extent
                        == spec_select_extent(description.capabilities, window_extent)
                    &&& renderer.sprites@.len() == 0
                    &&& renderer.textures@.len() == 0
                    &&& renderer.scene.data@.len() == 0
                    &&& crate::device::queue_selection_ok(description.queue_families@,
                        description.present_support@, renderer.device.queue_family_indices)
                    &&& renderer.surface_formats@ == description.formats@
                    &&& renderer.surface_capabilities == description.capabilities
                },
                Err(e) => {
                    ||| crate::device::queue_selection_err(description.queue_families@,
                        description.present_support@, e)
                    ||| (e == InitError::NoSurfaceFormat && description.formats@.len() == 0)
                    ||| (e == InitError::NoSuitableMemoryType
                        && crate::device::no_memory_type_suits(
                            description.memory.memory_types@,
                            0xFFFF_FFFFu32,
                            vk::MemoryPropertyFlagBits::HostCoherent.spec_bits()
                                | vk::MemoryPropertyFlagBits::HostVisible.spec_bits(),
                        ))
                },
            },
    {
        // The instance-level objects the platform glue created for us; the
        // device issues every later handle above these.
        let instance: vk::Instance = 1;
        let physical_device: vk::PhysicalDevice = 2;
        let surface: vk::SurfaceKHR = 3;
        let device_handle: vk::Device = 4;

        let (mut device, queues) = match Device::new(
            device_handle,
            5,
            &description.queue_families,
            &description.present_support,
        ) {
            Ok(pair) => pair,
            Err(e) => {
                return Err(e);
            },
        };

        let render_target = match RenderTarget::create(
            &mut device,
            surface,
            description.capabilities,
            &description.formats,
            window_extent,
        ) {
            Ok(target) => target,
            Err(e) => {
                return Err(e);
            },
        };
        let ghost target_bound = device.next_id;

        let material_sprite = match Material::sprite(
            &mut device,
            render_target.render_pass,
            shaders.sprite_fragment.as_slice(),
            shaders.sprite_vertex.as_slice(),
        ) {
            Ok(material) => material,
            Err(e) => {
                return Err(InitError::Material(e));
            },
        };
        let material_text = match Material::text(
            &mut device,
            render_target.render_pass,
            shaders.text_fragment.as_slice(),
            shaders.text_vertex.as_slice(),
        ) {
            Ok(material) => material,
            Err(e) => {
                return Err(InitError::Material(e));
            },
        };

        let num_images = render_target.images.len();
        let presentation_sync = PresentationSync::create(&mut device, num_images);

        let vertex_buffer = match MBB::create(
            &mut device,
            &description.memory,
            VERTEX_BUFFER_SIZE,
            vk::BufferUsageFlagBits::VertexBuffer.bits(),
            vk::MemoryPropertyFlagBits::HostCoherent.bits()
                | vk::MemoryPropertyFlagBits::HostVisible.bits(),
        ) {
            Ok(buffer) => buffer,
            Err(e) => {
                return Err(e);
            },
        };
        proof {
            assert(vk::MemoryPropertyFlagBits::HostCoherent.spec_bits() == 4u32);
            assert(vk::MemoryPropertyFlagBits::HostVisible.spec_bits() == 2u32);
            assert((4u32 | 2u32) & 2u32 != 0u32) by (bit_vector);
            assert((4u32 | 2u32) & 4u32 != 0u32) by (bit_vector);
            assert(vertex_buffer.host_visible());
        }

        let transfer_family = device.queue_family_indices[TRANSFER];
        let transfer_pool = create_command_pool(&mut device, 0, transfer_family);

        let mut frame_resources: Vec<PerFrameResources> = Vec::new();
        let graphics_family = device.queue_family_indices[GRAPHICS];
        let ghost start_id = device.next_id;
        let ghost family_indices = device.queue_family_indices;
        let mut i: usize = 0;
        while i < num_images
            invariant
                i <= num_images,
                num_images <= u32::MAX,
                frame_resources@.len() == i,
                device.next_id == start_id + 3 * i,
                start_id + 3 * (num_images as u64) < u64::MAX - 3,
                device.handle == device_handle,
                device.queue_family_indices == family_indices,
                forall|j: int| 0 <= j < i ==> (#[trigger] frame_resources@[j]).wf(),
                forall|j: int| 0 <= j < i
                    ==> (#[trigger] frame_resources@[j]).handles_below(device.next_id),
                forall|j: int| 0 <= j < i
                    ==> (#[trigger] frame_resources@[j]).secondaries@.len() == 0,
                forall|j: int| 0 <= j < i
                    ==> (#[trigger] frame_resources@[j]).descriptor_sets@.len() == 0,
                forall|j: int| 0 <= j < i
                    ==> (#[trigger] frame_resources@[j]).descriptor_pool.max_sets
                        == crate::frame::DESCRIPTOR_POOL_CAPACITY,
            decreases num_images - i,
        {
            let resources = PerFrameResources::create(&mut device, graphics_family);
            frame_resources.push(resources);
            proof {
                assert forall|j: int| 0 <= j < i + 1
                    implies (#[trigger] frame_resources@[j]).handles_below(device.next_id) by {
                    if j < i {
                        lemma_frame_handles_monotonic(frame_resources@[j],
                            (device.next_id - 3) as u64, device.next_id);
                    }
                }
            }
            i = i + 1;
        }

        proof {
            lemma_target_handles_monotonic(render_target, target_bound, device.next_id);
        }

        Ok(Renderer {
            frame_resources,
            scene: Scene::new(),
            sprites: Vec::new(),
            textures: Vec::new(),
            vertex_buffer,
            transfer_pool,
            presentation_sync,
            material_sprite,
            material_text,
            render_target,
            device,
            queues,
            physical_device,
            surface,
            instance,
            memory_properties: clone_memory_properties(&description.memory),
            surface_capabilities: description.capabilities,
            surface_formats: clone_formats(&description.formats),
            phase: FramePhase::Idle,
        })
    }

    /// Note that the platform reports a changed surface (the window was
    /// resized): store the new capabilities and mark the swapchain out of
    /// date, so that the next acquisition reports no image and the caller
    /// recreates the render target.
    pub fn surface_changed(&mut self, capabilities: vk::SurfaceCapabilitiesKHR)
        requires
            old(self).wf(),
            capabilities.min_image_count >= 1,
        ensures
            final(self).wf(),
            final(self).surface_capabilities == capabilities,
            final(self).render_target.out_of_date,
            final(self).phase == old(self).phase,
            final(self).presentation_sync == old(self).presentation_sync,
            final(self).render_target.extent == old(self).render_target.extent,
            final(self).render_target.images == old(self).render_target.images,
            final(self).render_target.framebuffers == old(self).render_target.framebuffers,
            final(self).device == old(self).device,
    {
        self.surface_capabilities = capabilities;
        self.render_target.out_of_date = true;
    }

    /// Begin a frame: acquire the next image, wait and reset this slot's
    /// fence, reset the slot's pools, begin the primary buffer, reset the
    /// scene, and open the render pass (cleared to the given color) in
    /// secondary-commands mode.
    ///
    /// Returns the acquired image's index.  Returns no index exactly when
    /// the surface is out of date — the caller must recreate the render
    /// target instead of proceeding — or when a frame is already underway.
    pub fn begin_scene(&mut self, r: u8, g: u8, b: u8) -> (index: Option<usize>)
        requires
            old(self).wf(),
        ensures
            final(self).wf(),
            final(self).device == old(self).device,
            final(self).textures == old(self).textures,
            final(self).sprites == old(self).sprites,
            final(self).presentation_sync.current_frame
                == old(self).presentation_sync.current_frame,
            final(self).presentation_sync.num_images
                == old(self).presentation_sync.num_images,
            final(self).memory_properties == old(self).memory_properties,
            final(self).surface_capabilities == old(self).surface_capabilities,
            final(self).surface_formats == old(self).surface_formats,
            match index {
                Some(i) => {
                    let current = old(self).presentation_sync.current_frame as int;
                    &&& old(self).phase == FramePhase::Idle
                    &&& !old(self).render_target.out_of_date
                    &&& i == old(self).render_target.next_image
                    &&& i < old(self).render_target.images@.len()
                    &&& final(self).phase == (FramePhase::Recording { image: i as u32 })
                    &&& old(self).presentation_sync.drawing_finished@[current].signaled
                    &&& !final(self).presentation_sync.drawing_finished@[current].signaled
                    &&& final(self).frame_resources@[current].secondaries@.len() == 0
                    &&& final(self).frame_resources@[current].descriptor_sets@.len() == 0
                    &&& final(self).frame_resources@[current].primary.commands@ == seq![
                        (Command::BeginRenderPass {
                            render_pass: old(self).render_target.render_pass,
                            framebuffer: old(self).render_target.framebuffers@[i as int],
                            render_area: (vk::Rect2D {
                                offset: vk::Offset2D { x: 0, y: 0 },
                                extent: old(self).render_target.extent,
                            }),
                            clear_color: (crate::command::ClearColor { r, g, b }),
                            contents: vk::SubpassContents::SecondaryCommandBuffers,
                        }),
                    ]
                    &&& final(self).scene.sprite@.len() == 0
                    &&& final(self).scene.glyphs@.len() == 0
                    &&& final(self).scene.data@.len() == 0
                    &&& forall|j: int| 0 <= j < old(self).frame_resources@.len() && j != current
                        ==> final(self).frame_resources@[j] == old(self).frame_resources@[j]
                },
                None => {
                    &&& old(self).phase != FramePhase::Idle
                        || old(self).render_target.out_of_date
                    &&& *final(self) == *old(self)
                },
            },
    {
        match self.phase {
            FramePhase::Idle => {},
            _ => {
                return None;
            },
        }
        let current = self.presentation_sync.current_frame;

        let index = match acquire_image(
            &mut self.render_target,
            ACQUIRE_TIMEOUT,
            &self.presentation_sync.image_acquired[current],
        ) {
            Some(i) => i,
            None => {
                return None;
            },
        };

        fence_wait_reset(&mut self.presentation_sync.drawing_finished[current]);

        let render_pass = self.render_target.render_pass;
        let framebuffer = self.render_target.framebuffers[index as usize];
        let extent = self.render_target.extent;

        let resources = &mut self.frame_resources[current];
        resources.reset();
        command_buffer_begin_primary(
            &mut resources.primary,
            vk::CommandBufferUsageFlagBits::OneTimeSubmit.bits(),
        );
        cmd_begin_render_pass(
            &mut resources.primary,
            render_pass,
            framebuffer,
            vk::Rect2D { offset: vk::Offset2D { x: 0, y: 0 }, extent },
            crate::command::ClearColor { r, g, b },
            vk::SubpassContents::SecondaryCommandBuffers,
        );

        self.scene = Scene::new();
        self.phase = FramePhase::Recording { image: index };
        proof {
            assert(final(self).frame_resources@[current as int].primary.commands@ =~= seq![
                (Command::BeginRenderPass {
                    render_pass: old(self).render_target.render_pass,
                    framebuffer: old(self).render_target.framebuffers@[index as int],
                    render_area: (vk::Rect2D {
                        offset: vk::Offset2D { x: 0, y: 0 },
                        extent: old(self).render_target.extent,
                    }),
                    clear_color: (crate::command::ClearColor { r, g, b }),
                    contents: vk::SubpassContents::SecondaryCommandBuffers,
                }),
            ]);
        }
        Some(index as usize)
    }

    /// Queue one sprite draw for this frame.  The sprite's vertex bytes are
    /// appended to the frame's linear vertex buffer; no driver work happens
    /// until the scene ends.  A draw whose bytes would not fit the vertex
    /// buffer is dropped.
    pub fn draw(&mut self, sprite_index: usize, vertex_data: &[u8])
        requires
            old(self).wf(),
            sprite_index < old(self).sprites@.len(),
        ensures
            final(self).wf(),
            old(self).scene.data@.len() + vertex_data@.len() <= VERTEX_BUFFER_SIZE ==> {
                &&& final(self).scene.sprite@ == old(self).scene.sprite@.push(
                    (crate::scene::SpriteData {
                        index: sprite_index,
                        offset: old(self).scene.data@.len() as usize,
                        length: vertex_data@.len() as usize,
                    }),
                )
                &&& final(self).scene.data@ == old(self).scene.data@.add(vertex_data@)
                &&& final(self).scene.glyphs == old(self).scene.glyphs
            },
            old(self).scene.data@.len() + vertex_data@.len() > VERTEX_BUFFER_SIZE
                ==> *final(self) == *old(self),
            final(self).phase == old(self).phase,
            final(self).device == old(self).device,
            final(self).presentation_sync == old(self).presentation_sync,
            final(self).frame_resources == old(self).frame_resources,
            final(self).textures == old(self).textures,
            final(self).sprites == old(self).sprites,
            final(self).memory_properties == old(self).memory_properties,
            final(self).surface_capabilities == old(self).surface_capabilities,
            final(self).surface_formats == old(self).surface_formats,
    {
        let capacity = VERTEX_BUFFER_SIZE as usize;
        if vertex_data.len() > capacity - self.scene.data.len() {
            return;
        }
        self.scene.insert_sprite(vertex_data, sprite_index);
    }

    /// End the scene: upload the accumulated vertex bytes in one write,
    /// take one descriptor set and one secondary buffer per queued draw,
    /// record every draw into its secondary (viewport and scissor, the
    /// material's pipeline, the draw's texture descriptor, the vertex
    /// buffer at the draw's byte offset, the draw call), execute the
    /// secondaries from the primary, close the render pass, and submit —
    /// waiting on "image acquired", signaling "image ready" and the
    /// frame's fence.
    ///
    /// Fails when no scene recording is underway, or when the frame's
    /// fixed-capacity descriptor pool cannot supply one set per draw.
    pub fn end_scene(&mut self) -> (result: Result<(), RenderError>)
        requires
            old(self).wf(),
            old(self).device.next_id < u64::MAX - 32,
        ensures
            final(self).wf(),
            final(self).textures == old(self).textures,
            final(self).sprites == old(self).sprites,
            final(self).render_target == old(self).render_target,
            final(self).scene == old(self).scene,
            final(self).presentation_sync.current_frame
                == old(self).presentation_sync.current_frame,
            final(self).presentation_sync.num_images
                == old(self).presentation_sync.num_images,
            final(self).device.handle == old(self).device.handle,
            final(self).device.queue_family_indices
                == old(self).device.queue_family_indices,
            old(self).device.next_id <= final(self).device.next_id
                <= old(self).device.next_id + 32,
            final(self).memory_properties == old(self).memory_properties,
            final(self).surface_capabilities == old(self).surface_capabilities,
            final(self).surface_formats == old(self).surface_formats,
            match result {
                Ok(()) => {
                    let current = old(self).presentation_sync.current_frame as int;
                    let base = old(self).frame_resources@[current].secondaries@.len() as int;
                    let ns = old(self).scene.sprite@.len() as int;
                    let ng = old(self).scene.glyphs@.len() as int;
                    let fr = final(self).frame_resources@[current];
                    &&& old(self).phase matches FramePhase::Recording { image }
                        && final(self).phase == (FramePhase::Submitted { image })
                    &&& base + ns + ng <= crate::frame::DESCRIPTOR_POOL_CAPACITY
                    &&& final(self).vertex_buffer.memory.bytes@
                        .subrange(0, old(self).scene.data@.len() as int)
                        == old(self).scene.data@
                    &&& final(self).presentation_sync.drawing_finished@[current].signaled
                    &&& fr.secondaries@.len() == base + ns + ng
                    &&& fr.descriptor_sets@.len() == base + ns + ng
                    &&& sprite_draws_recorded(*old(self), fr, base, ns)
                    &&& glyph_draws_recorded(*old(self), fr, base + ns, ng)
                    &&& fr.primary.commands@.len()
                        == old(self).frame_resources@[current].primary.commands@.len() + 2
                    &&& fr.primary.commands@.subrange(0,
                        old(self).frame_resources@[current].primary.commands@.len() as int)
                        == old(self).frame_resources@[current].primary.commands@
                    &&& fr.primary.commands@[fr.primary.commands@.len() - 2]
                        matches Command::ExecuteCommands { buffers }
                        && buffers@ == spec_buffer_handles(fr.secondaries@)
                    &&& fr.primary.commands@.last() == Command::EndRenderPass
                },
                Err(RenderError::NotRecording) => {
                    &&& !(old(self).phase is Recording)
                    &&& *final(self) == *old(self)
                },
                Err(RenderError::DescriptorPoolExhausted) => {
                    let current = old(self).presentation_sync.current_frame as int;
                    &&& old(self).phase is Recording
                    &&& final(self).phase == old(self).phase
                    &&& old(self).frame_resources@[current].secondaries@.len()
                        + old(self).scene.sprite@.len() + old(self).scene.glyphs@.len()
                        > crate::frame::DESCRIPTOR_POOL_CAPACITY
                },
            },
    {
        let image = match self.phase {
            FramePhase::Recording { image } => image,
            _ => {
                return Err(RenderError::NotRecording);
            },
        };
        let current = self.presentation_sync.current_frame;

        // One write covering the whole frame's vertex data.
        let data_len = self.scene.data.len();
        self.vertex_buffer.write_region(0, data_len as u64, self.scene.data.as_slice());
        proof {
            assert(self.vertex_buffer.memory.bytes@
                .subrange(0, old(self).scene.data@.len() as int) =~= old(self).scene.data@);
        }

        // One descriptor set and one secondary buffer per sprite draw.
        let sprite_count = self.scene.sprite.len();
        let sprite_layout = self.material_sprite.set_layout;
        let ghost base = self.frame_resources@[current as int].secondaries@.len() as int;
        let indices = match self.frame_resources[current].allocate_descriptors_and_secondaries(
            &mut self.device,
            sprite_layout,
            sprite_count,
        ) {
            Some(indices) => indices,
            None => {
                return Err(RenderError::DescriptorPoolExhausted);
            },
        };
        proof {
            let frc = self.frame_resources@[current as int];
            let pre = old(self).frame_resources@[current as int];
            assert(pre.handles_below(old(self).device.next_id));
            assert forall|j: int| 0 <= j < frc.secondaries@.len()
                implies (#[trigger] frc.secondaries@[j]).handle < self.device.next_id by {
                if j < pre.secondaries@.len() {
                    assert(frc.secondaries@[j] == pre.secondaries@[j]);
                }
            }
            assert forall|j: int| 0 <= j < frc.descriptor_sets@.len()
                implies (#[trigger] frc.descriptor_sets@[j]).handle
                    < self.device.next_id by {
                if j < pre.descriptor_sets@.len() {
                    assert(frc.descriptor_sets@[j] == pre.descriptor_sets@[j]);
                }
            }
            assert(frc.handles_below(self.device.next_id));
        }

        let extent = self.render_target.extent;
        let render_pass = self.render_target.render_pass;
        let sprite_pipeline = self.material_sprite.pipeline;
        let sprite_pipeline_layout = self.material_sprite.pipeline_layout;
        let vertex_buffer_handle = self.vertex_buffer.buffer;
        let usage = vk::CommandBufferUsageFlagBits::OneTimeSubmit.bits()
            | vk::CommandBufferUsageFlagBits::RenderPassContinue.bits();

        let ghost fr_s = self.frame_resources@[current as int];
        let ghost device_s = self.device;

        // Record every sprite draw: bind the sprite material, the draw's
        // texture, and the vertex buffer at the draw's byte offset.
        let mut k: usize = 0;
        while k < sprite_count
            invariant
                k <= sprite_count,
                old(self).wf(),
                current == old(self).presentation_sync.current_frame,
                0 <= current < self.frame_resources@.len(),
                sprite_count == old(self).scene.sprite@.len(),
                indices@.len() == sprite_count,
                forall|j: int| 0 <= j < sprite_count
                    ==> (#[trigger] indices@[j]) == base + j,
                0 <= base,
                base + sprite_count == fr_s.secondaries@.len(),
                fr_s.secondaries@.len() == fr_s.descriptor_sets@.len(),
                fr_s.secondaries@.len() <= crate::frame::DESCRIPTOR_POOL_CAPACITY,
                extent == old(self).render_target.extent,
                render_pass == old(self).render_target.render_pass,
                sprite_pipeline == old(self).material_sprite.pipeline,
                sprite_pipeline_layout == old(self).material_sprite.pipeline_layout,
                vertex_buffer_handle == old(self).vertex_buffer.buffer,
                self.device == device_s,
                self.scene == old(self).scene,
                self.textures == old(self).textures,
                self.sprites == old(self).sprites,
                self.presentation_sync == old(self).presentation_sync,
                self.render_target == old(self).render_target,
                self.material_sprite == old(self).material_sprite,
                self.material_text == old(self).material_text,
                self.queues == old(self).queues,
                self.transfer_pool == old(self).transfer_pool,
                self.memory_properties == old(self).memory_properties,
                self.surface_formats == old(self).surface_formats,
                self.surface_capabilities == old(self).surface_capabilities,
                self.instance == old(self).instance,
                self.surface == old(self).surface,
                self.physical_device == old(self).physical_device,
                self.phase == old(self).phase,
                self.vertex_buffer.memory.bytes@
                    .subrange(0, old(self).scene.data@.len() as int)
                    == old(self).scene.data@,
                self.vertex_buffer.wf(),
                self.vertex_buffer.host_visible(),
                self.vertex_buffer.size == old(self).vertex_buffer.size,
                self.vertex_buffer.buffer == old(self).vertex_buffer.buffer,
                self.frame_resources@.len() == old(self).frame_resources@.len(),
                forall|j: int| 0 <= j < self.frame_resources@.len() && j != current
                    ==> self.frame_resources@[j] == old(self).frame_resources@[j],
                self.frame_resources@[current as int].wf(),
                self.frame_resources@[current as int].handles_below(self.device.next_id),
                self.frame_resources@[current as int].descriptor_pool.max_sets
                    == crate::frame::DESCRIPTOR_POOL_CAPACITY,
                self.frame_resources@[current as int].command_pool == fr_s.command_pool,
                self.frame_resources@[current as int].primary == fr_s.primary,
                self.frame_resources@[current as int].descriptor_pool
                    == fr_s.descriptor_pool,
                self.frame_resources@[current as int].secondaries@.len()
                    == fr_s.secondaries@.len(),
                self.frame_resources@[current as int].descriptor_sets@.len()
                    == fr_s.descriptor_sets@.len(),
                forall|t: int| 0 <= t < base
                    ==> #[trigger] self.frame_resources@[current as int].secondaries@[t]
                        == fr_s.secondaries@[t],
                forall|t: int| 0 <= t < base
                    ==> #[trigger] self.frame_resources@[current as int].descriptor_sets@[t]
                        == fr_s.descriptor_sets@[t],
                forall|t: int| base + k <= t < base + sprite_count
                    ==> #[trigger] self.frame_resources@[current as int].secondaries@[t]
                        == fr_s.secondaries@[t],
                forall|t: int| base + k <= t < base + sprite_count
                    ==> #[trigger] self.frame_resources@[current as int].descriptor_sets@[t]
                        == fr_s.descriptor_sets@[t],
                forall|t: int| base <= t < base + k
                    ==> (#[trigger] self.frame_resources@[current as int]
                        .descriptor_sets@[t]).handle
                        == fr_s.descriptor_sets@[t].handle,
                sprite_draws_recorded(*old(self), self.frame_resources@[current as int],
                    base, k as int),
            decreases sprite_count - k,
        {
            let idx = indices[k];
            let record = self.scene.sprite[k];
            let sprite = self.sprites[record.index];
            let texture_sampler = self.textures[sprite.texture_index].sampler;
            let texture_view = self.textures[sprite.texture_index].view;
            let ghost fr_prev = self.frame_resources@[current as int];
            let resources = &mut self.frame_resources[current];
            let set_handle = resources.descriptor_sets[idx].handle;
            descriptor_set_update_sampled_image(
                &mut resources.descriptor_sets[idx],
                texture_sampler,
                texture_view,
            );
            command_buffer_begin_secondary(&mut resources.secondaries[idx], render_pass, usage);
            set_scissor_and_viewport(&mut resources.secondaries[idx], extent);
            bind_graphics_pipeline(&mut resources.secondaries[idx], sprite_pipeline);
            bind_sampled_image_descriptor(
                &mut resources.secondaries[idx],
                sprite_pipeline_layout,
                set_handle,
            );
            bind_vertex_buffer(
                &mut resources.secondaries[idx],
                vertex_buffer_handle,
                record.offset as u64,
            );
            cmd_draw(&mut resources.secondaries[idx], 6, 1, 0, 0);
            proof {
                let frc = self.frame_resources@[current as int];
                assert forall|t: int| 0 <= t < frc.secondaries@.len() && t != idx
                    implies #[trigger] frc.secondaries@[t] == fr_prev.secondaries@[t] by {}
                assert forall|t: int| 0 <= t < frc.descriptor_sets@.len() && t != idx
                    implies #[trigger] frc.descriptor_sets@[t]
                        == fr_prev.descriptor_sets@[t] by {}
                assert(frc.descriptor_sets@[idx as int].handle
                    == fr_prev.descriptor_sets@[idx as int].handle);
                assert(frc.secondaries@[idx as int].commands@ =~= draw_commands(
                    extent,
                    sprite_pipeline,
                    sprite_pipeline_layout,
                    frc.descriptor_sets@[idx as int].handle,
                    vertex_buffer_handle,
                    record.offset as u64,
                    6,
                ));
            }
            k = k + 1;
        }

        // One descriptor set and one secondary buffer per glyph draw,
        // against the text material.
        let glyph_count = self.scene.glyphs.len();
        let text_layout = self.material_text.set_layout;
        let ghost base_g = self.frame_resources@[current as int].secondaries@.len() as int;
        let ghost fr_mid = self.frame_resources@[current as int];
        let ghost device_mid = self.device;
        let glyph_indices = match self.frame_resources[current]
            .allocate_descriptors_and_secondaries(&mut self.device, text_layout, glyph_count) {
            Some(indices) => indices,
            None => {
                return Err(RenderError::DescriptorPoolExhausted);
            },
        };
        proof {
            let frc = self.frame_resources@[current as int];
            assert forall|j: int| 0 <= j < frc.secondaries@.len()
                implies (#[trigger] frc.secondaries@[j]).handle < self.device.next_id by {
                if j < fr_mid.secondaries@.len() {
                    assert(frc.secondaries@[j] == fr_mid.secondaries@[j]);
                }
            }
            assert forall|j: int| 0 <= j < frc.descriptor_sets@.len()
                implies (#[trigger] frc.descriptor_sets@[j]).handle
                    < self.device.next_id by {
                if j < fr_mid.descriptor_sets@.len() {
                    assert(frc.descriptor_sets@[j] == fr_mid.descriptor_sets@[j]);
                }
            }
            assert(frc.handles_below(self.device.next_id));
            assert forall|t: int| base <= t < base + sprite_count implies {
                let record = old(self).scene.sprite@[t - base];
                let texture = old(self).textures@[
                    old(self).sprites@[record.index as int].texture_index as int];
                &&& (#[trigger] frc.secondaries@[t]).inherited_render_pass
                    == Some(old(self).render_target.render_pass)
                &&& frc.secondaries@[t].commands@ == draw_commands(
                    old(self).render_target.extent,
                    old(self).material_sprite.pipeline,
                    old(self).material_sprite.pipeline_layout,
                    frc.descriptor_sets@[t].handle,
                    old(self).vertex_buffer.buffer,
                    record.offset as u64,
                    6,
                )
                &&& frc.descriptor_sets@[t].image_info == Some(vk::DescriptorImageInfo {
                    sampler: texture.sampler,
                    image_view: texture.view,
                    image_layout: vk::ImageLayout::ShaderReadOnlyOptimal,
                })
            } by {
                assert(frc.secondaries@[t] == fr_mid.secondaries@[t]);
                assert(frc.descriptor_sets@[t] == fr_mid.descriptor_sets@[t]);
            }
            assert(sprite_draws_recorded(*old(self), frc, base, sprite_count as int));
        }

        let text_pipeline = self.material_text.pipeline;
        let text_pipeline_layout = self.material_text.pipeline_layout;
        let ghost fr_g = self.frame_resources@[current as int];
        let ghost device_g = self.device;

        let mut k: usize = 0;
        while k < glyph_count
            invariant
                k <= glyph_count,
                old(self).wf(),
                current == old(self).presentation_sync.current_frame,
                0 <= current < self.frame_resources@.len(),
                sprite_count == old(self).scene.sprite@.len(),
                glyph_count == old(self).scene.glyphs@.len(),
                glyph_indices@.len() == glyph_count,
                forall|j: int| 0 <= j < glyph_count
                    ==> (#[trigger] glyph_indices@[j]) == base_g + j,
                0 <= base,
                base_g == base + sprite_count,
                base_g + glyph_count == fr_g.secondaries@.len(),
                fr_g.secondaries@.len() == fr_g.descriptor_sets@.len(),
                fr_g.secondaries@.len() <= crate::frame::DESCRIPTOR_POOL_CAPACITY,
                extent == old(self).render_target.extent,
                render_pass == old(self).render_target.render_pass,
                text_pipeline == old(self).material_text.pipeline,
                text_pipeline_layout == old(self).material_text.pipeline_layout,
                vertex_buffer_handle == old(self).vertex_buffer.buffer,
                self.device == device_g,
                self.scene == old(self).scene,
                self.textures == old(self).textures,
                self.sprites == old(self).sprites,
                self.presentation_sync == old(self).presentation_sync,
                self.render_target == old(self).render_target,
                self.material_sprite == old(self).material_sprite,
                self.material_text == old(self).material_text,
                self.queues == old(self).queues,
                self.transfer_pool == old(self).transfer_pool,
                self.memory_properties == old(self).memory_properties,
                self.surface_formats == old(self).surface_formats,
                self.surface_capabilities == old(self).surface_capabilities,
                self.instance == old(self).instance,
                self.surface == old(self).surface,
                self.physical_device == old(self).physical_device,
                self.phase == old(self).phase,
                self.vertex_buffer.memory.bytes@
                    .subrange(0, old(self).scene.data@.len() as int)
                    == old(self).scene.data@,
                self.vertex_buffer.wf(),
                self.vertex_buffer.host_visible(),
                self.vertex_buffer.size == old(self).vertex_buffer.size,
                self.vertex_buffer.buffer == old(self).vertex_buffer.buffer,
                self.frame_resources@.len() == old(self).frame_resources@.len(),
                forall|j: int| 0 <= j < self.frame_resources@.len() && j != current
                    ==> self.frame_resources@[j] == old(self).frame_resources@[j],
                self.frame_resources@[current as int].wf(),
                self.frame_resources@[current as int].handles_below(self.device.next_id),
                self.frame_resources@[current as int].descriptor_pool.max_sets
                    == crate::frame::DESCRIPTOR_POOL_CAPACITY,
                self.frame_resources@[current as int].command_pool == fr_g.command_pool,
                self.frame_resources@[current as int].primary == fr_g.primary,
                self.frame_resources@[current as int].descriptor_pool
                    == fr_g.descriptor_pool,
                self.frame_resources@[current as int].secondaries@.len()
                    == fr_g.secondaries@.len(),
                self.frame_resources@[current as int].descriptor_sets@.len()
                    == fr_g.descriptor_sets@.len(),
                forall|t: int| 0 <= t < base_g
                    ==> #[trigger] self.frame_resources@[current as int].secondaries@[t]
                        == fr_g.secondaries@[t],
                forall|t: int| 0 <= t < base_g
                    ==> #[trigger] self.frame_resources@[current as int].descriptor_sets@[t]
                        == fr_g.descriptor_sets@[t],
                forall|t: int| base_g + k <= t < base_g + glyph_count
                    ==> #[trigger] self.frame_resources@[current as int].secondaries@[t]
                        == fr_g.secondaries@[t],
                forall|t: int| base_g + k <= t < base_g + glyph_count
                    ==> #[trigger] self.frame_resources@[current as int].descriptor_sets@[t]
                        == fr_g.descriptor_sets@[t],
                sprite_draws_recorded(*old(self), fr_g, base, sprite_count as int),
                sprite_draws_recorded(*old(self), self.frame_resources@[current as int],
                    base, sprite_count as int),
                glyph_draws_recorded(*old(self), self.frame_resources@[current as int],
                    base_g, k as int),
            decreases glyph_count - k,
        {
            let idx = glyph_indices[k];
            let record = self.scene.glyphs[k];
            let texture_sampler = self.textures[record.texture_index].sampler;
            let texture_view = self.textures[record.texture_index].view;
            let ghost fr_prev = self.frame_resources@[current as int];
            let resources = &mut self.frame_resources[current];
            let set_handle = resources.descriptor_sets[idx].handle;
            descriptor_set_update_sampled_image(
                &mut resources.descriptor_sets[idx],
                texture_sampler,
                texture_view,
            );
            command_buffer_begin_secondary(&mut resources.secondaries[idx], render_pass, usage);
            set_scissor_and_viewport(&mut resources.secondaries[idx], extent);
            bind_graphics_pipeline(&mut resources.secondaries[idx], text_pipeline);
            bind_sampled_image_descriptor(
                &mut resources.secondaries[idx],
                text_pipeline_layout,
                set_handle,
            );
            bind_vertex_buffer(
                &mut resources.secondaries[idx],
                vertex_buffer_handle,
                record.offset as u64,
            );
            let vertex_count = #[verifier::truncate] (record.num_vertices as u32);
            cmd_draw(&mut resources.secondaries[idx], vertex_count, 1, 0, 0);
            proof {
                let frc = self.frame_resources@[current as int];
                assert forall|t: int| 0 <= t < frc.secondaries@.len() && t != idx
                    implies #[trigger] frc.secondaries@[t] == fr_prev.secondaries@[t] by {}
                assert forall|t: int| 0 <= t < frc.descriptor_sets@.len() && t != idx
                    implies #[trigger] frc.descriptor_sets@[t]
                        == fr_prev.descriptor_sets@[t] by {}
                assert(frc.descriptor_sets@[idx as int].handle
                    == fr_prev.descriptor_sets@[idx as int].handle);
                assert(frc.secondaries@[idx as int].commands@ =~= draw_commands(
                    extent,
                    text_pipeline,
                    text_pipeline_layout,
                    frc.descriptor_sets@[idx as int].handle,
                    vertex_buffer_handle,
                    record.offset as u64,
                    record.num_vertices as u32,
                ));
            }
            k = k + 1;
        }

        // Execute every recorded secondary from the primary, close the
        // render pass, and submit against this frame's semaphores and
        // fence.
        let graphics_queue = self.queues.graphics;
        let ghost fr_before_primary = self.frame_resources@[current as int];
        let resources = &mut self.frame_resources[current];
        cmd_execute_commands(&mut resources.primary, &resources.secondaries);
        cmd_end_render_pass(&mut resources.primary);
        command_buffer_end_and_submit(
            &mut self.frame_resources[current].primary,
            graphics_queue,
            Some(&self.presentation_sync.image_acquired[current]),
            vk::PipelineStageFlagBits::ColorAttachmentOutput.bits(),
            Some(&self.presentation_sync.image_ready[current]),
            &mut self.presentation_sync.drawing_finished[current],
        );
        self.phase = FramePhase::Submitted { image };

        proof {
            let frc = self.frame_resources@[current as int];
            assert(frc.secondaries@ == fr_before_primary.secondaries@);
            assert(frc.descriptor_sets@ == fr_before_primary.descriptor_sets@);
            assert(sprite_draws_recorded(*old(self), frc, base, sprite_count as int));
            assert(glyph_draws_recorded(*old(self), frc, base_g, glyph_count as int));
            assert(frc.primary.commands@.subrange(0,
                old(self).frame_resources@[current as int].primary.commands@.len() as int)
                =~= old(self).frame_resources@[current as int].primary.commands@);
            assert forall|i: int|
                0 <= i < self.presentation_sync.drawing_finished@.len()
                implies (#[trigger] self.presentation_sync.drawing_finished@[i])
                    .signaled by {
                if i != current {
                    assert(self.presentation_sync.drawing_finished@[i]
                        == old(self).presentation_sync.drawing_finished@[i]);
                }
            }
        }
        Ok(())
    }

    /// Present the frame's image and advance the frame index one step
    /// round-robin.  Presentation must not interrupt a recording.
    pub fn present(&mut self, index: usize)
        requires
            old(self).wf(),
            !(old(self).phase is Recording),
        ensures
            final(self).wf(),
            final(self).presentation_sync.current_frame == spec_next_frame(
                old(self).presentation_sync.current_frame,
                old(self).presentation_sync.num_images,
            ),
            final(self).presentation_sync.num_images
                == old(self).presentation_sync.num_images,
            final(self).presentation_sync.drawing_finished
                == old(self).presentation_sync.drawing_finished,
            final(self).phase == FramePhase::Idle,
            final(self).device == old(self).device,
            final(self).render_target == old(self).render_target,
            final(self).frame_resources == old(self).frame_resources,
            final(self).scene == old(self).scene,
            final(self).textures == old(self).textures,
            final(self).sprites == old(self).sprites,
            final(self).memory_properties == old(self).memory_properties,
            final(self).surface_capabilities == old(self).surface_capabilities,
            final(self).surface_formats == old(self).surface_formats,
    {
        // The present request waits on this frame's "image ready"
        // semaphore; in the model the queue consumes it without further
        // bookkeeping.
        let _ = index;
        let current = self.presentation_sync.current_frame;
        self.presentation_sync.current_frame = if current + 1 >= self.presentation_sync.num_images {
            0
        } else {
            current + 1
        };
        self.phase = FramePhase::Idle;
    }

    /// Recreate the render target for a new window extent, after a full
    /// device-idle wait.  The old target is destroyed wholesale; the new
    /// one is built from the current surface capabilities, so its handles
    /// are all freshly issued — nothing can still refer to the old
    /// framebuffers through the renderer.
    pub fn resize(&mut self, window_extent: vk::Extent2D) -> (result: Result<(), InitError>)
        requires
            old(self).wf(),
            !(old(self).phase is Recording),
            old(self).device.next_id + 2
                + 3 * spec_image_count(old(self).surface_capabilities) <= u64::MAX,
            spec_image_count(old(self).surface_capabilities)
                == old(self).presentation_sync.num_images,
        ensures
            match result {
                Ok(()) => {
                    &&& final(self).wf()
                    &&& final(self).device.next_id <= old(self).device.next_id + 2
                        + 3 * spec_image_count(old(self).surface_capabilities)
                    &&& final(self).memory_properties == old(self).memory_properties
                    &&& final(self).surface_capabilities == old(self).surface_capabilities
                    &&& final(self).surface_formats == old(self).surface_formats
                    &&& final(self).render_target.extent == spec_select_extent(
                        old(self).surface_capabilities, window_extent)
                    &&& final(self).render_target.handles_at_least(old(self).device.next_id)
                    &&& old(self).render_target.handles_below(old(self).device.next_id)
                    &&& !final(self).render_target.out_of_date
                    &&& final(self).render_target.images@.len()
                        == old(self).presentation_sync.num_images
                    &&& final(self).presentation_sync == old(self).presentation_sync
                    &&& final(self).phase == old(self).phase
                    &&& final(self).scene == old(self).scene
                    &&& final(self).textures == old(self).textures
                    &&& final(self).sprites == old(self).sprites
                },
                Err(_) => false,
            },
    {
        // In the model every submission has completed by now, so the
        // device-idle wait that guards the teardown has nothing left to
        // drain.
        self.render_target.destroy();
        let target = match RenderTarget::create(
            &mut self.device,
            self.surface,
            self.surface_capabilities,
            &self.surface_formats,
            window_extent,
        ) {
            Ok(target) => target,
            Err(e) => {
                return Err(e);
            },
        };
        self.render_target = target;
        proof {
            assert forall|j: int| 0 <= j < self.frame_resources@.len()
                implies (#[trigger] self.frame_resources@[j]).handles_below(
                    self.device.next_id) by {
                lemma_frame_handles_monotonic(self.frame_resources@[j],
                    old(self).device.next_id, self.device.next_id);
            }
        }
        Ok(())
    }

    /// Destroy the sampler, view, image and memory of the texture at
    /// `index`.  The entry keeps its place — so later indices stay valid —
    /// with the null handle marking it destroyed; the caller must not draw
    /// with this index again.
    pub fn unload_texture(&mut self, index: usize)
        requires
            old(self).wf(),
            index < old(self).textures@.len(),
        ensures
            final(self).wf(),
            final(self).textures@.len() == old(self).textures@.len(),
            final(self).textures@[index as int].sampler == 0,
            final(self).textures@[index as int].view == 0,
            final(self).textures@[index as int].image.handle == 0,
            final(self).textures@[index as int].memory.handle == 0,
            forall|j: int| 0 <= j < old(self).textures@.len() && j != index
                ==> final(self).textures@[j] == old(self).textures@[j],
            final(self).phase == old(self).phase,
            final(self).device == old(self).device,
            final(self).presentation_sync == old(self).presentation_sync,
            final(self).scene == old(self).scene,
            final(self).sprites == old(self).sprites,
    {
        let texture = &mut self.textures[index];
        texture.sampler = 0;
        texture.view = 0;
        texture.image.handle = 0;
        texture.memory.handle = 0;
    }

    /// Load a texture: stage the pixel bytes in a host-visible buffer,
    /// create the device-local image, view and sampler, record and submit
    /// the one-shot upload (transition, copy, transition), and block until
    /// its fence signals.  Fully synchronous by design: texture loads are
    /// not on a hot path.
    ///
    /// Fails exactly when no memory type suits the staging buffer or the
    /// image.
    pub fn load_texture(
        &mut self,
        width: u32,
        height: u32,
        size: vk::DeviceSize,
        pixels: &[u8],
        format: vk::Format,
    ) -> (result: Result<usize, InitError>)
        requires
            old(self).wf(),
            pixels@.len() == size,
            size <= usize::MAX as u64,
            width as u64 * height as u64 * 4 <= usize::MAX as u64,
            old(self).device.next_id < u64::MAX - 16,
            old(self).textures@.len() < usize::MAX,
        ensures
            final(self).wf(),
            final(self).phase == old(self).phase,
            final(self).presentation_sync == old(self).presentation_sync,
            final(self).scene == old(self).scene,
            final(self).sprites == old(self).sprites,
            final(self).render_target == old(self).render_target,
            final(self).frame_resources == old(self).frame_resources,
            final(self).device.handle == old(self).device.handle,
            final(self).device.queue_family_indices
                == old(self).device.queue_family_indices,
            old(self).device.next_id <= final(self).device.next_id
                <= old(self).device.next_id + 16,
            final(self).memory_properties == old(self).memory_properties,
            final(self).surface_capabilities == old(self).surface_capabilities,
            final(self).surface_formats == old(self).surface_formats,
            final(self).vertex_buffer == old(self).vertex_buffer,
            match result {
                Ok(index) => {
                    &&& index == old(self).textures@.len()
                    &&& final(self).textures@.len() == old(self).textures@.len() + 1
                    &&& forall|j: int| 0 <= j < old(self).textures@.len()
                        ==> final(self).textures@[j] == old(self).textures@[j]
                    &&& final(self).textures@[index as int].image.format == format
                    &&& final(self).textures@[index as int].image.extent
                        == (vk::Extent2D { width, height })
                    &&& final(self).textures@[index as int].memory.size
                        >= width as u64 * height as u64 * 4
                    &&& crate::device::memory_type_suits(
                        old(self).memory_properties.memory_types@,
                        final(self).textures@[index as int].memory.type_index as int,
                        0xFFFF_FFFFu32,
                        vk::MemoryPropertyFlagBits::DeviceLocal.spec_bits(),
                    )
                    &&& final(self).textures@[index as int].image.handle
                        >= old(self).device.next_id
                    &&& final(self).textures@[index as int].view != 0
                    &&& final(self).textures@[index as int].sampler != 0
                },
                Err(e) => {
                    &&& e == InitError::NoSuitableMemoryType
                    &&& final(self).textures == old(self).textures
                    &&& {
                        ||| crate::device::no_memory_type_suits(
                            old(self).memory_properties.memory_types@,
                            0xFFFF_FFFFu32,
                            vk::MemoryPropertyFlagBits::HostCoherent.spec_bits()
                                | vk::MemoryPropertyFlagBits::HostVisible.spec_bits(),
                        )
                        ||| crate::device::no_memory_type_suits(
                            old(self).memory_properties.memory_types@,
                            0xFFFF_FFFFu32,
                            vk::MemoryPropertyFlagBits::DeviceLocal.spec_bits(),
                        )
                    }
                },
            },
    {
        let ghost pre_id = self.device.next_id;
        // Staging buffer, filled with the caller's pixels.
        let staging = match MBB::create(
            &mut self.device,
            &self.memory_properties,
            size,
            vk::BufferUsageFlagBits::TransferSource.bits(),
            vk::MemoryPropertyFlagBits::HostCoherent.bits()
                | vk::MemoryPropertyFlagBits::HostVisible.bits(),
        ) {
            Ok(buffer) => buffer,
            Err(e) => {
                return Err(e);
            },
        };
        proof {
            assert(vk::MemoryPropertyFlagBits::HostCoherent.spec_bits() == 4u32);
            assert(vk::MemoryPropertyFlagBits::HostVisible.spec_bits() == 2u32);
            assert((4u32 | 2u32) & 2u32 != 0u32) by (bit_vector);
            assert((4u32 | 2u32) & 4u32 != 0u32) by (bit_vector);
        }
        let mut staging = staging;
        staging.fill(pixels);

        // Device-local image with its view and sampler.
        let image_usage = vk::ImageUsageFlagBits::TransferDestination.bits()
            | vk::ImageUsageFlagBits::Sampled.bits();
        let mbi = match crate::resource::MBI::create(
            &mut self.device,
            &self.memory_properties,
            format,
            vk::Extent2D { width, height },
            vk::ImageTiling::Optimal,
            image_usage,
            vk::ImageLayout::Undefined,
            vk::MemoryPropertyFlagBits::DeviceLocal.bits(),
        ) {
            Ok(mbi) => mbi,
            Err(e) => {
                staging.destroy();
                proof {
                    assert forall|j: int| 0 <= j < self.frame_resources@.len()
                        implies (#[trigger] self.frame_resources@[j]).handles_below(
                            self.device.next_id) by {
                        lemma_frame_handles_monotonic(self.frame_resources@[j], pre_id,
                            self.device.next_id);
                    }
                    lemma_target_handles_monotonic(self.render_target, pre_id,
                        self.device.next_id);
                }
                return Err(e);
            },
        };
        let view = crate::resource::create_image_view(&mut self.device, &mbi.image, format);
        let sampler = match crate::resource::create_sampler(&mut self.device) {
            Some(sampler) => sampler,
            None => 0,
        };

        // One-shot transfer: record the upload and submit it with a
        // dedicated fence, then block until the fence signals.
        let mut transfer_buffer = crate::command::allocate_command_buffer(
            &mut self.device,
            &self.transfer_pool,
            vk::CommandBufferLevel::Primary,
        );
        command_buffer_begin_primary(
            &mut transfer_buffer,
            vk::CommandBufferUsageFlagBits::OneTimeSubmit.bits(),
        );
        record_texture_upload(&mut transfer_buffer, staging.buffer, mbi.image.handle, width,
            height);

        let mut fence = crate::device::create_fence(&mut self.device, 0);
        command_buffer_end_and_submit(
            &mut transfer_buffer,
            self.queues.transfer,
            None,
            0,
            None,
            &mut fence,
        );
        fence_wait_reset(&mut fence);

        // Free the one-shot buffer, the staging buffer, and the fence.
        let _ = transfer_buffer;
        staging.destroy();
        crate::device::fence_destroy(fence);

        let texture = Texture { image: mbi.image, view, sampler, memory: mbi.memory };
        let index = self.textures.len();
        self.textures.push(texture);
        proof {
            assert forall|j: int| 0 <= j < self.frame_resources@.len()
                implies (#[trigger] self.frame_resources@[j]).handles_below(
                    self.device.next_id) by {
                lemma_frame_handles_monotonic(self.frame_resources@[j], pre_id,
                    self.device.next_id);
            }
            lemma_target_handles_monotonic(self.render_target, pre_id, self.device.next_id);
            assert forall|j: int| 0 <= j < self.sprites@.len()
                implies (#[trigger] self.sprites@[j]).texture_index
                    < self.textures@.len() by {
            }
            assert forall|j: int| 0 <= j < self.scene.glyphs@.len()
                implies (#[trigger] self.scene.glyphs@[j]).texture_index
                    < self.textures@.len() by {
            }
        }
        Ok(index)
    }

    /// Tear the renderer down: wait for the device to go idle, then
    /// destroy every owned object.  In the model all work has completed,
    /// so teardown is consuming every wrapper.
    pub fn deinit(self)
    {
        let Renderer {
            mut frame_resources,
            scene,
            sprites,
            textures,
            vertex_buffer,
            transfer_pool,
            presentation_sync,
            material_sprite,
            material_text,
            mut render_target,
            device,
            queues,
            physical_device,
            surface,
            instance,
            memory_properties,
            surface_capabilities,
            surface_formats,
            phase,
        } = self;
        let mut i: usize = 0;
        while i < frame_resources.len()
            decreases frame_resources@.len() - i,
        {
            frame_resources[i].destroy();
            i = i + 1;
        }
        vertex_buffer.destroy();
        presentation_sync.destroy();
        render_target.destroy();
        let _ = scene;
        let _ = sprites;
        let _ = textures;
        let _ = transfer_pool;
        let _ = material_sprite;
        let _ = material_text;
        let _ = device;
        let _ = queues;
        let _ = physical_device;
        let _ = surface;
        let _ = instance;
        let _ = memory_properties;
        let _ = surface_capabilities;
        let _ = surface_formats;
        let _ = phase;
    }
}

/// The six commands of one batched draw: dynamic viewport and scissor
/// covering the target, the material's pipeline, the draw's descriptor
/// set, the frame vertex buffer at the draw's byte offset, and the draw
/// call itself.
pub open spec fn draw_commands(
    extent: vk::Extent2D,
    pipeline: vk::Pipeline,
    layout: vk::PipelineLayout,
    set: vk::DescriptorSet,
    buffer: vk::Buffer,
    offset: vk::DeviceSize,
    vertex_count: u32,
) -> Seq<Command> {
    seq![
        (Command::SetViewport { extent }),
        (Command::SetScissor { extent }),
        (Command::BindPipeline {
            bind_point: vk::PipelineBindPoint::Graphics,
            pipeline,
        }),
        (Command::BindDescriptorSet {
            bind_point: vk::PipelineBindPoint::Graphics,
            layout,
            set,
        }),
        (Command::BindVertexBuffer { buffer, offset }),
        (Command::Draw { vertex_count, instance_count: 1, first_vertex: 0, first_instance: 0 }),
    ]
}

/// The first `upto` sprite draws of `pre`'s scene are recorded in `fr`,
/// one secondary and one descriptor set each, occupying list positions
/// `base` up to `base + upto`: each secondary inherits the render pass and
/// holds exactly its draw's six commands against the sprite material, and
/// its descriptor set references the draw's texture.
pub open spec fn sprite_draws_recorded(
    pre: Renderer,
    fr: PerFrameResources,
    base: int,
    upto: int,
) -> bool {
    forall|t: int| base <= t < base + upto ==> {
        let record = pre.scene.sprite@[t - base];
        let texture = pre.textures@[pre.sprites@[record.index as int].texture_index as int];
        &&& (#[trigger] fr.secondaries@[t]).inherited_render_pass
            == Some(pre.render_target.render_pass)
        &&& fr.secondaries@[t].commands@ == draw_commands(
            pre.render_target.extent,
            pre.material_sprite.pipeline,
            pre.material_sprite.pipeline_layout,
            fr.descriptor_sets@[t].handle,
            pre.vertex_buffer.buffer,
            record.offset as u64,
            6,
        )
        &&& fr.descriptor_sets@[t].image_info == Some(vk::DescriptorImageInfo {
            sampler: texture.sampler,
            image_view: texture.view,
            image_layout: vk::ImageLayout::ShaderReadOnlyOptimal,
        })
    }
}

/// As [`sprite_draws_recorded`], for the glyph draws against the text
/// material; a glyph draw issues its own vertex count.
pub open spec fn glyph_draws_recorded(
    pre: Renderer,
    fr: PerFrameResources,
    base: int,
    upto: int,
) -> bool {
    forall|t: int| base <= t < base + upto ==> {
        let record = pre.scene.glyphs@[t - base];
        let texture = pre.textures@[record.texture_index as int];
        &&& (#[trigger] fr.secondaries@[t]).inherited_render_pass
            == Some(pre.render_target.render_pass)
        &&& fr.secondaries@[t].commands@ == draw_commands(
            pre.render_target.extent,
            pre.material_text.pipeline,
            pre.material_text.pipeline_layout,
            fr.descriptor_sets@[t].handle,
            pre.vertex_buffer.buffer,
            record.offset as u64,
            record.num_vertices as u32,
        )
        &&& fr.descriptor_sets@[t].image_info == Some(vk::DescriptorImageInfo {
            sampler: texture.sampler,
            image_view: texture.view,
            image_layout: vk::ImageLayout::ShaderReadOnlyOptimal,
        })
    }
}

/// The three-step upload recorded into the one-shot transfer buffer: a
/// barrier taking the fresh image from undefined to transfer-destination
/// between the top-of-pipe and transfer stages, the buffer-to-image copy,
/// and a barrier taking it to shader-read-only between the transfer and
/// fragment-shader stages.
pub open spec fn upload_commands(
    staging: vk::Buffer,
    image: vk::Image,
    width: u32,
    height: u32,
) -> Seq<Command> {
    seq![
        (Command::PipelineBarrier {
            src_stage_mask: vk::PipelineStageFlagBits::TopOfPipe.spec_bits(),
            dst_stage_mask: vk::PipelineStageFlagBits::Transfer.spec_bits(),
            barrier: (crate::command::ImageMemoryBarrier {
                src_access_mask: 0,
                dst_access_mask: vk::AccessFlagBits::TransferWrite.spec_bits(),
                old_layout: vk::ImageLayout::Undefined,
                new_layout: vk::ImageLayout::TransferDestinationOptimal,
                src_queue_family_index: vk::QUEUE_FAMILY_IGNORED,
                dst_queue_family_index: vk::QUEUE_FAMILY_IGNORED,
            }),
            image,
            subresource_range: (vk::ImageSubresourceRange {
                aspect_mask: vk::ImageAspectFlagBits::Color.spec_bits(),
                base_mip_level: 0,
                mip_levels: 1,
                base_array_layer: 0,
                array_layers: 1,
            }),
        }),
        (Command::CopyBufferToImage {
            buffer: staging,
            image,
            layout: vk::ImageLayout::TransferDestinationOptimal,
            region: (vk::BufferImageCopy {
                buffer_offset: 0,
                buffer_row_length: width,
                buffer_image_height: height,
                image_subresource: (vk::ImageSubresourceLayers {
                    aspect_mask: vk::ImageAspectFlagBits::Color.spec_bits(),
                    mip_level: 0,
                    base_array_layer: 0,
                    layer_count: 1,
                }),
                image_offset: (vk::Offset3D { x: 0, y: 0, z: 0 }),
                image_extent: (vk::Extent3D { width, height, depth: 1 }),
            }),
        }),
        (Command::PipelineBarrier {
            src_stage_mask: vk::PipelineStageFlagBits::Transfer.spec_bits(),
            dst_stage_mask: vk::PipelineStageFlagBits::FragmentShader.spec_bits(),
            barrier: (crate::command::ImageMemoryBarrier {
                src_access_mask: vk::AccessFlagBits::TransferWrite.spec_bits(),
                dst_access_mask: vk::AccessFlagBits::ShaderRead.spec_bits(),
                old_layout: vk::ImageLayout::TransferDestinationOptimal,
                new_layout: vk::ImageLayout::ShaderReadOnlyOptimal,
                src_queue_family_index: vk::QUEUE_FAMILY_IGNORED,
                dst_queue_family_index: vk::QUEUE_FAMILY_IGNORED,
            }),
            image,
            subresource_range: (vk::ImageSubresourceRange {
                aspect_mask: vk::ImageAspectFlagBits::Color.spec_bits(),
                base_mip_level: 0,
                mip_levels: 1,
                base_array_layer: 0,
                array_layers: 1,
            }),
        }),
    ]
}

/// Record the one-shot texture upload into `transfer`: exactly the
/// commands of [`upload_commands`], manually placing the two barriers the
/// engine needs.
pub fn record_texture_upload(
    transfer: &mut crate::command::CommandBuffer,
    staging: vk::Buffer,
    image: vk::Image,
    width: u32,
    height: u32,
)
    ensures
        final(transfer).handle == old(transfer).handle,
        final(transfer).level == old(transfer).level,
        final(transfer).commands@ == old(transfer).commands@
            .add(upload_commands(staging, image, width, height)),
{
    crate::command::record_image_memory_barrier(
        transfer,
        vk::PipelineStageFlagBits::TopOfPipe.bits(),
        vk::PipelineStageFlagBits::Transfer.bits(),
        crate::command::ImageMemoryBarrier {
            src_access_mask: 0,
            dst_access_mask: vk::AccessFlagBits::TransferWrite.bits(),
            old_layout: vk::ImageLayout::Undefined,
            new_layout: vk::ImageLayout::TransferDestinationOptimal,
            src_queue_family_index: vk::QUEUE_FAMILY_IGNORED,
            dst_queue_family_index: vk::QUEUE_FAMILY_IGNORED,
        },
        image,
    );
    let image_subresource = vk::ImageSubresourceLayers {
        aspect_mask: vk::ImageAspectFlagBits::Color.bits(),
        mip_level: 0,
        base_array_layer: 0,
        layer_count: 1,
    };
    let region = vk::BufferImageCopy {
        buffer_offset: 0,
        buffer_row_length: width,
        buffer_image_height: height,
        image_subresource,
        image_offset: vk::Offset3D { x: 0, y: 0, z: 0 },
        image_extent: vk::Extent3D { width, height, depth: 1 },
    };
    crate::command::cmd_copy_buffer_to_image(
        transfer,
        staging,
        image,
        vk::ImageLayout::TransferDestinationOptimal,
        region,
    );
    crate::command::record_image_memory_barrier(
        transfer,
        vk::PipelineStageFlagBits::Transfer.bits(),
        vk::PipelineStageFlagBits::FragmentShader.bits(),
        crate::command::ImageMemoryBarrier {
            src_access_mask: vk::AccessFlagBits::TransferWrite.bits(),
            dst_access_mask: vk::AccessFlagBits::ShaderRead.bits(),
            old_layout: vk::ImageLayout::TransferDestinationOptimal,
            new_layout: vk::ImageLayout::ShaderReadOnlyOptimal,
            src_queue_family_index: vk::QUEUE_FAMILY_IGNORED,
            dst_queue_family_index: vk::QUEUE_FAMILY_IGNORED,
        },
        image,
    );
    proof {
        assert(final(transfer).commands@ =~= old(transfer).commands@
            .add(upload_commands(staging, image, width, height)));
    }
}

/// A frame slot whose handles lie below one bound lies below any larger
/// bound.
pub proof fn lemma_frame_handles_monotonic(frame: PerFrameResources, a: u64, b: u64)
    requires
        frame.handles_below(a),
        a <= b,
    ensures
        frame.handles_below(b),
{
}

/// A render target whose handles lie below one bound lies below any larger
/// bound.
pub proof fn lemma_target_handles_monotonic(target: RenderTarget, a: u64, b: u64)
    requires
        target.handles_below(a),
        a <= b,
    ensures
        target.handles_below(b),
{
}

/// Copy the driver's memory report.
fn clone_memory_properties(properties: &vk::PhysicalDeviceMemoryProperties)
    -> (r: vk::PhysicalDeviceMemoryProperties)
    ensures
        r.memory_types@ == properties.memory_types@,
        r.memory_heaps@ == properties.memory_heaps@,
{
    vk::PhysicalDeviceMemoryProperties {
        memory_types: clone_copy_vec(&properties.memory_types),
        memory_heaps: clone_copy_vec(&properties.memory_heaps),
    }
}

/// Copy the driver's surface-format report.
fn clone_formats(formats: &Vec<vk::SurfaceFormatKHR>) -> (r: Vec<vk::SurfaceFormatKHR>)
    ensures
        r@ == formats@,
{
    clone_copy_vec(formats)
}

/// An element-for-element copy of a vector of plain values.
fn clone_copy_vec<T: Copy>(v: &Vec<T>) -> (r: Vec<T>)
    ensures
        r@ == v@,
{
    let mut r: Vec<T> = Vec::new();
    let mut i: usize = 0;
    while i < v.len()
        invariant
            i <= v@.len(),
            r@.len() == i,
            forall|j: int| 0 <= j < i ==> r@[j] == v@[j],
        decreases v@.len() - i,
    {
        r.push(v[i]);
        i = i + 1;
    }
    proof {
        assert(r@ =~= v@);
    }
    r
}

} // verus!
