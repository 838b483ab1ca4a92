//! Command recording and submission.
//!
//! A command buffer carries the sequence of commands recorded into it, so a
//! contract can state exactly what a recording pass produced.  Submission
//! completes by the time the host can observe anything — the engine's
//! blocking points are its fence waits — so submitting with a fence leaves
//! that fence signaled.

use vstd::prelude::*;
use crate::device::{Device, Fence, Semaphore};
use crate::vk;

verus! {

/// The color a render pass clears its attachment to, as 8-bit channels.
#[derive(Clone, Copy, Debug, PartialEq, Eq, Structural)]
pub struct ClearColor {
    pub r: u8,
    pub g: u8,
    pub b: u8,
}

/// One recorded command.
#[derive(Clone, Debug)]
pub enum Command {
    BeginRenderPass {
        render_pass: vk::RenderPass,
        framebuffer: vk::Framebuffer,
        render_area: vk::Rect2D,
        clear_color: ClearColor,
        contents: vk::SubpassContents,
    },
    EndRenderPass,
    BindPipeline { bind_point: vk::PipelineBindPoint, pipeline: vk::Pipeline },
    BindDescriptorSet {
        bind_point: vk::PipelineBindPoint,
        layout: vk::PipelineLayout,
        set: vk::DescriptorSet,
    },
    BindVertexBuffer { buffer: vk::Buffer, offset: vk::DeviceSize },
    SetViewport { extent: vk::Extent2D },
    SetScissor { extent: vk::Extent2D },
    Draw {
        vertex_count: u32,
        instance_count: u32,
        first_vertex: u32,
        first_instance: u32,
    },
    ExecuteCommands { buffers: Vec<vk::CommandBuffer> },
    PipelineBarrier {
        src_stage_mask: vk::PipelineStageFlags,
        dst_stage_mask: vk::PipelineStageFlags,
        barrier: ImageMemoryBarrier,
        image: vk::Image,
        subresource_range: vk::ImageSubresourceRange,
    },
    CopyBufferToImage {
        buffer: vk::Buffer,
        image: vk::Image,
        layout: vk::ImageLayout,
        region: vk::BufferImageCopy,
    },
}

/// The layout transition and access scopes of an image barrier.
#[derive(Clone, Copy, Debug, PartialEq, Eq, Structural)]
pub struct ImageMemoryBarrier {
    pub src_access_mask: vk::AccessFlags,
    pub dst_access_mask: vk::AccessFlags,
    pub old_layout: vk::ImageLayout,
    pub new_layout: vk::ImageLayout,
    pub src_queue_family_index: u32,
    pub dst_queue_family_index: u32,
}

/// A command buffer and what has been recorded into it.
#[derive(Debug)]
pub struct CommandBuffer {
    pub handle: vk::CommandBuffer,
    pub level: vk::CommandBufferLevel,
    /// The render pass a secondary buffer inherits, set when recording
    /// begins.
    pub inherited_render_pass: Option<vk::RenderPass>,
    pub commands: Vec<Command>,
}

/// A pool that command buffers are allocated from.
#[derive(Clone, Copy, Debug)]
pub struct CommandPool {
    pub handle: vk::CommandPool,
    pub queue_family_index: u32,
}

/// A pool of descriptor sets with fixed capacity; `allocated` counts the
/// sets currently taken from it.
#[derive(Clone, Copy, Debug)]
pub struct DescriptorPool {
    pub handle: vk::DescriptorPool,
    pub max_sets: u32,
    pub allocated: u32,
}

/// A descriptor set and the resource reference written into it.
#[derive(Clone, Copy, Debug)]
pub struct DescriptorSet {
    pub handle: vk::DescriptorSet,
    pub image_info: Option<vk::DescriptorImageInfo>,
}

pub fn create_command_pool(
    device: &mut Device,
    flags: vk::CommandPoolCreateFlags,
    queue_family_index: u32,
) -> (pool: CommandPool)
    requires
        old(device).next_id < u64::MAX,
    ensures
        pool.handle == old(device).next_id,
        pool.queue_family_index == queue_family_index,
        final(device).next_id == old(device).next_id + 1,
        final(device).handle == old(device).handle,
        final(device).queue_family_indices == old(device).queue_family_indices,
{
    let _ = flags;
    let handle = device.issue();
    CommandPool { handle, queue_family_index }
}

pub fn allocate_command_buffer(
    device: &mut Device,
    pool: &CommandPool,
    level: vk::CommandBufferLevel,
) -> (buffer: CommandBuffer)
    requires
        old(device).next_id < u64::MAX,
    ensures
        buffer.handle == old(device).next_id,
        buffer.level == level,
        buffer.commands@.len() == 0,
        buffer.inherited_render_pass is None,
        final(device).next_id == old(device).next_id + 1,
        final(device).handle == old(device).handle,
        final(device).queue_family_indices == old(device).queue_family_indices,
{
    let _ = pool;
    let handle = device.issue();
    CommandBuffer { handle, level, inherited_render_pass: None, commands: Vec::new() }
}

pub fn allocate_command_buffers(
    device: &mut Device,
    pool: &CommandPool,
    level: vk::CommandBufferLevel,
    count: usize,
) -> (buffers: Option<Vec<CommandBuffer>>)
    requires
        old(device).next_id + count <= u64::MAX,
    ensures
        match buffers {
            Some(buffers) => {
                &&& buffers@.len() == count
                &&& forall|i: int| 0 <= i < count ==> {
                    &&& (#[trigger] buffers@[i]).handle == old(device).next_id + i
                    &&& buffers@[i].level == level
                    &&& buffers@[i].commands@.len() == 0
                }
                &&& final(device).next_id == old(device).next_id + count
                &&& final(device).handle == old(device).handle
                &&& final(device).queue_family_indices == old(device).queue_family_indices
            },
            None => false,
        },
{
    let _ = pool;
    let mut buffers: Vec<CommandBuffer> = Vec::new();
    let mut i: usize = 0;
    while i < count
        invariant
            i <= count,
            buffers@.len() == i,
            device.next_id == old(device).next_id + i,
            old(device).next_id + count <= u64::MAX,
            device.handle == old(device).handle,
            device.queue_family_indices == old(device).queue_family_indices,
            forall|j: int| 0 <= j < i ==> {
                &&& (#[trigger] buffers@[j]).handle == old(device).next_id + j
                &&& buffers@[j].level == level
                &&& buffers@[j].commands@.len() == 0
            },
        decreases count - i,
    {
        let handle = device.issue();
        buffers.push(CommandBuffer {
            handle,
            level,
            inherited_render_pass: None,
            commands: Vec::new(),
        });
        i = i + 1;
    }
    Some(buffers)
}

pub fn descriptor_pool_create(
    device: &mut Device,
    max_sets: u32,
    pool_sizes: &Vec<vk::DescriptorPoolSize>,
) -> (pool: DescriptorPool)
    requires
        old(device).next_id < u64::MAX,
    ensures
        pool.handle == old(device).next_id,
        pool.max_sets == max_sets,
        pool.allocated == 0,
        final(device).next_id == old(device).next_id + 1,
        final(device).handle == old(device).handle,
        final(device).queue_family_indices == old(device).queue_family_indices,
{
    let _ = pool_sizes;
    let handle = device.issue();
    DescriptorPool { handle, max_sets, allocated: 0 }
}

/// Take `count` sets from the pool.  The pool's capacity is fixed at
/// creation, so the allocation fails exactly when the request does not fit
/// in what remains.
pub fn allocate_descriptor_sets(
    device: &mut Device,
    pool: &mut DescriptorPool,
    set_layout: vk::DescriptorSetLayout,
    count: usize,
) -> (sets: Option<Vec<DescriptorSet>>)
    requires
        old(device).next_id + count <= u64::MAX,
    ensures
        final(pool).handle == old(pool).handle,
        final(pool).max_sets == old(pool).max_sets,
        match sets {
            Some(sets) => {
                &&& count + old(pool).allocated <= old(pool).max_sets
                &&& sets@.len() == count
                &&& forall|i: int| 0 <= i < count ==> {
                    &&& (#[trigger] sets@[i]).handle == old(device).next_id + i
                    &&& sets@[i].image_info is None
                }
                &&& final(pool).allocated == old(pool).allocated + count
                &&& final(device).next_id == old(device).next_id + count
                &&& final(device).handle == old(device).handle
                &&& final(device).queue_family_indices == old(device).queue_family_indices
            },
            None => {
                &&& count + old(pool).allocated > old(pool).max_sets
                &&& *final(pool) == *old(pool)
                &&& *final(device) == *old(device)
            },
        },
{
    let _ = set_layout;
    if pool.allocated > pool.max_sets {
        return None;
    }
    if count > (pool.max_sets - pool.allocated) as usize {
        return None;
    }
    let mut sets: Vec<DescriptorSet> = Vec::new();
    let mut i: usize = 0;
    while i < count
        invariant
            i <= count,
            sets@.len() == i,
            device.next_id == old(device).next_id + i,
            old(device).next_id + count <= u64::MAX,
            device.handle == old(device).handle,
            device.queue_family_indices == old(device).queue_family_indices,
            forall|j: int| 0 <= j < i ==> {
                &&& (#[trigger] sets@[j]).handle == old(device).next_id + j
                &&& sets@[j].image_info is None
            },
        decreases count - i,
    {
        let handle = device.issue();
        sets.push(DescriptorSet { handle, image_info: None });
        i = i + 1;
    }
    pool.allocated = pool.allocated + count as u32;
    Some(sets)
}

/// Begin recording a primary buffer, discarding anything recorded before.
pub fn command_buffer_begin_primary(buffer: &mut CommandBuffer, usage: vk::CommandBufferUsageFlags)
    requires
        old(buffer).level == vk::CommandBufferLevel::Primary,
    ensures
        final(buffer).handle == old(buffer).handle,
        final(buffer).level == old(buffer).level,
        final(buffer).inherited_render_pass is None,
        final(buffer).commands@.len() == 0,
{
    let _ = usage;
    buffer.inherited_render_pass = None;
    buffer.commands = Vec::new();
}

/// Begin recording a secondary buffer that will execute inside an instance
/// of `render_pass`, discarding anything recorded before.
pub fn command_buffer_begin_secondary(
    buffer: &mut CommandBuffer,
    render_pass: vk::RenderPass,
    usage: vk::CommandBufferUsageFlags,
)
    requires
        old(buffer).level == vk::CommandBufferLevel::Secondary,
    ensures
        final(buffer).handle == old(buffer).handle,
        final(buffer).level == old(buffer).level,
        final(buffer).inherited_render_pass == Some(render_pass),
        final(buffer).commands@.len() == 0,
{
    let _ = usage;
    buffer.inherited_render_pass = Some(render_pass);
    buffer.commands = Vec::new();
}

pub fn cmd_begin_render_pass(
    buffer: &mut CommandBuffer,
    render_pass: vk::RenderPass,
    framebuffer: vk::Framebuffer,
    render_area: vk::Rect2D,
    clear_color: ClearColor,
    contents: vk::SubpassContents,
)
    ensures
        final(buffer).handle == old(buffer).handle,
        final(buffer).level == old(buffer).level,
        final(buffer).inherited_render_pass == old(buffer).inherited_render_pass,
        final(buffer).commands@ == old(buffer).commands@.push(
            (Command::BeginRenderPass {
                render_pass,
                framebuffer,
                render_area,
                clear_color,
                contents,
            }),
        ),
{
    buffer.commands.push(Command::BeginRenderPass {
        render_pass,
        framebuffer,
        render_area,
        clear_color,
        contents,
    });
}

pub fn cmd_end_render_pass(buffer: &mut CommandBuffer)
    ensures
        final(buffer).handle == old(buffer).handle,
        final(buffer).level == old(buffer).level,
        final(buffer).inherited_render_pass == old(buffer).inherited_render_pass,
        final(buffer).commands@ == old(buffer).commands@.push(Command::EndRenderPass),
{
    buffer.commands.push(Command::EndRenderPass);
}

pub fn bind_graphics_pipeline(buffer: &mut CommandBuffer, pipeline: vk::Pipeline)
    ensures
        final(buffer).handle == old(buffer).handle,
        final(buffer).level == old(buffer).level,
        final(buffer).inherited_render_pass == old(buffer).inherited_render_pass,
        final(buffer).commands@ == old(buffer).commands@.push(
            (Command::BindPipeline {
                bind_point: vk::PipelineBindPoint::Graphics,
                pipeline,
            }),
        ),
{
    buffer.commands.push(Command::BindPipeline {
        bind_point: vk::PipelineBindPoint::Graphics,
        pipeline,
    });
}

/// Bind one descriptor set for the fragment stage's sampled image.
pub fn bind_sampled_image_descriptor(
    buffer: &mut CommandBuffer,
    layout: vk::PipelineLayout,
    set: vk::DescriptorSet,
)
    ensures
        final(buffer).handle == old(buffer).handle,
        final(buffer).level == old(buffer).level,
        final(buffer).inherited_render_pass == old(buffer).inherited_render_pass,
        final(buffer).commands@ == old(buffer).commands@.push(
            (Command::BindDescriptorSet {
                bind_point: vk::PipelineBindPoint::Graphics,
                layout,
                set,
            }),
        ),
{
    buffer.commands.push(Command::BindDescriptorSet {
        bind_point: vk::PipelineBindPoint::Graphics,
        layout,
        set,
    });
}

pub fn bind_vertex_buffer(
    buffer: &mut CommandBuffer,
    vertex_buffer: vk::Buffer,
    offset: vk::DeviceSize,
)
    ensures
        final(buffer).handle == old(buffer).handle,
        final(buffer).level == old(buffer).level,
        final(buffer).inherited_render_pass == old(buffer).inherited_render_pass,
        final(buffer).commands@ == old(buffer).commands@.push(
            (Command::BindVertexBuffer { buffer: vertex_buffer, offset }),
        ),
{
    buffer.commands.push(Command::BindVertexBuffer { buffer: vertex_buffer, offset });
}

/// Set the dynamic viewport and scissor to cover the whole target extent.
pub fn set_scissor_and_viewport(buffer: &mut CommandBuffer, extent: vk::Extent2D)
    ensures
        final(buffer).handle == old(buffer).handle,
        final(buffer).level == old(buffer).level,
        final(buffer).inherited_render_pass == old(buffer).inherited_render_pass,
        final(buffer).commands@ == old(buffer).commands@
            .push((Command::SetViewport { extent }))
            .push((Command::SetScissor { extent })),
{
    buffer.commands.push(Command::SetViewport { extent });
    buffer.commands.push(Command::SetScissor { extent });
}

pub fn cmd_draw(
    buffer: &mut CommandBuffer,
    vertex_count: u32,
    instance_count: u32,
    first_vertex: u32,
    first_instance: u32,
)
    ensures
        final(buffer).handle == old(buffer).handle,
        final(buffer).level == old(buffer).level,
        final(buffer).inherited_render_pass == old(buffer).inherited_render_pass,
        final(buffer).commands@ == old(buffer).commands@.push(
            (Command::Draw { vertex_count, instance_count, first_vertex, first_instance }),
        ),
{
    buffer.commands.push(Command::Draw {
        vertex_count,
        instance_count,
        first_vertex,
        first_instance,
    });
}

/// The handles of a sequence of command buffers, in order.
pub open spec fn spec_buffer_handles(buffers: Seq<CommandBuffer>) -> Seq<vk::CommandBuffer> {
    buffers.map_values(|b: CommandBuffer| b.handle)
}

/// Execute the given secondary buffers from a primary buffer.
pub fn cmd_execute_commands(buffer: &mut CommandBuffer, secondaries: &Vec<CommandBuffer>)
    ensures
        final(buffer).handle == old(buffer).handle,
        final(buffer).level == old(buffer).level,
        final(buffer).inherited_render_pass == old(buffer).inherited_render_pass,
        final(buffer).commands@.len() == old(buffer).commands@.len() + 1,
        final(buffer).commands@.subrange(0, old(buffer).commands@.len() as int)
            == old(buffer).commands@,
        final(buffer).commands@.last() matches Command::ExecuteCommands { buffers }
            && buffers@ == spec_buffer_handles(secondaries@),
{
    let mut handles: Vec<vk::CommandBuffer> = Vec::new();
    let mut i: usize = 0;
    while i < secondaries.len()
        invariant
            i <= secondaries@.len(),
            handles@.len() == i,
            forall|j: int| 0 <= j < i ==> handles@[j] == secondaries@[j].handle,
        decreases secondaries@.len() - i,
    {
        handles.push(secondaries[i].handle);
        i = i + 1;
    }
    proof {
        assert(handles@ =~= spec_buffer_handles(secondaries@));
    }
    buffer.commands.push(Command::ExecuteCommands { buffers: handles });
    proof {
        assert(final(buffer).commands@.subrange(0, old(buffer).commands@.len() as int)
            =~= old(buffer).commands@);
    }
}

/// Record an image layout-transition barrier between two pipeline stages,
/// covering the image's single color subresource.
pub fn record_image_memory_barrier(
    buffer: &mut CommandBuffer,
    src_stage_mask: vk::PipelineStageFlags,
    dst_stage_mask: vk::PipelineStageFlags,
    barrier: ImageMemoryBarrier,
    image: vk::Image,
)
    ensures
        final(buffer).handle == old(buffer).handle,
        final(buffer).level == old(buffer).level,
        final(buffer).inherited_render_pass == old(buffer).inherited_render_pass,
        final(buffer).commands@ == old(buffer).commands@.push(
            (Command::PipelineBarrier {
                src_stage_mask,
                dst_stage_mask,
                barrier,
                image,
                subresource_range: vk::ImageSubresourceRange {
                    aspect_mask: vk::ImageAspectFlagBits::Color.spec_bits(),
                    base_mip_level: 0,
                    mip_levels: 1,
                    base_array_layer: 0,
                    array_layers: 1,
                },
            }),
        ),
{
    let subresource_range = vk::ImageSubresourceRange {
        aspect_mask: vk::ImageAspectFlagBits::Color.bits(),
        base_mip_level: 0,
        mip_levels: 1,
        base_array_layer: 0,
        array_layers: 1,
    };
    buffer.commands.push(Command::PipelineBarrier {
        src_stage_mask,
        dst_stage_mask,
        barrier,
        image,
        subresource_range,
    });
}

pub fn cmd_copy_buffer_to_image(
    buffer: &mut CommandBuffer,
    src: vk::Buffer,
    image: vk::Image,
    layout: vk::ImageLayout,
    region: vk::BufferImageCopy,
)
    ensures
        final(buffer).handle == old(buffer).handle,
        final(buffer).level == old(buffer).level,
        final(buffer).inherited_render_pass == old(buffer).inherited_render_pass,
        final(buffer).commands@ == old(buffer).commands@.push(
            (Command::CopyBufferToImage { buffer: src, image, layout, region }),
        ),
{
    buffer.commands.push(Command::CopyBufferToImage { buffer: src, image, layout, region });
}

/// End recording and submit to a queue.  The submission waits on
/// `wait_semaphore`, signals `signal_semaphore`, and signals `fence` on
/// completion; the host only ever observes completed work, so the fence is
/// signaled on return.
pub fn command_buffer_end_and_submit(
    buffer: &mut CommandBuffer,
    queue: vk::Queue,
    wait_semaphore: Option<&Semaphore>,
    wait_dst_stage_mask: vk::PipelineStageFlags,
    signal_semaphore: Option<&Semaphore>,
    fence: &mut Fence,
)
    ensures
        final(buffer).handle == old(buffer).handle,
        final(buffer).level == old(buffer).level,
        final(buffer).commands@ == old(buffer).commands@,
        final(fence).handle == old(fence).handle,
        final(fence).signaled,
{
    let _ = queue;
    let _ = wait_semaphore;
    let _ = wait_dst_stage_mask;
    let _ = signal_semaphore;
    fence.signaled = true;
}

/// Write the sampled-image reference into a descriptor set: the texture's
/// sampler and view, in the shader-read-only layout.
pub fn descriptor_set_update_sampled_image(
    set: &mut DescriptorSet,
    sampler: vk::Sampler,
    image_view: vk::ImageView,
)
    ensures
        final(set).handle == old(set).handle,
        final(set).image_info == Some(vk::DescriptorImageInfo {
            sampler,
            image_view,
            image_layout: vk::ImageLayout::ShaderReadOnlyOptimal,
        }),
{
    set.image_info = Some(vk::DescriptorImageInfo {
        sampler,
        image_view,
        image_layout: vk::ImageLayout::ShaderReadOnlyOptimal,
    });
}

} // verus!
