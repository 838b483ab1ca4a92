//! Render-target sizing rules.

use vstd::prelude::*;
use crate::device::{Device, Semaphore};
use crate::error::InitError;
use crate::vk;

verus! {

/// The extent the swapchain is created with, given the surface's
/// capabilities and the window's drawable size.
///
/// When the surface reports a concrete current extent, that extent is
/// mandatory.  When it reports the undefined sentinel instead, the window
/// extent is clamped into the supported range.
pub open spec fn spec_select_extent(
    capabilities: vk::SurfaceCapabilitiesKHR,
    window_extent: vk::Extent2D,
) -> vk::Extent2D {
    vk::Extent2D {
        width: if capabilities.current_extent.width == vk::EXTENT_UNDEFINED {
            clamp_u32(
                capabilities.min_image_extent.width,
                capabilities.max_image_extent.width,
                window_extent.width,
            )
        } else {
            capabilities.current_extent.width
        },
        height: if capabilities.current_extent.height == vk::EXTENT_UNDEFINED {
            clamp_u32(
                capabilities.min_image_extent.height,
                capabilities.max_image_extent.height,
                window_extent.height,
            )
        } else {
            capabilities.current_extent.height
        },
    }
}

/// `max(lo, min(hi, x))`: the clamp the driver specification prescribes for
/// swapchain extents.  When `lo > hi` the lower bound wins, as that
/// composition of `max` and `min` evaluates.
pub open spec fn clamp_u32(lo: u32, hi: u32, x: u32) -> u32 {
    if (if x < hi { x } else { hi }) < lo {
        lo
    } else {
        if x < hi { x } else { hi }
    }
}

pub fn select_extent(
    capabilities: vk::SurfaceCapabilitiesKHR,
    window_extent: vk::Extent2D,
) -> (extent: vk::Extent2D)
    ensures
        extent == spec_select_extent(capabilities, window_extent),
{
    let width: u32 = if capabilities.current_extent.width == vk::EXTENT_UNDEFINED {
        u32_max(
            capabilities.min_image_extent.width,
            u32_min(capabilities.max_image_extent.width, window_extent.width),
        )
    } else {
        capabilities.current_extent.width
    };

    let height: u32 = if capabilities.current_extent.height == vk::EXTENT_UNDEFINED {
        u32_max(
            capabilities.min_image_extent.height,
            u32_min(capabilities.max_image_extent.height, window_extent.height),
        )
    } else {
        capabilities.current_extent.height
    };

    vk::Extent2D { width, height }
}

fn u32_min(a: u32, b: u32) -> (r: u32)
    ensures
        r == if a < b { a } else { b },
{
    if a < b { a } else { b }
}

fn u32_max(a: u32, b: u32) -> (r: u32)
    ensures
        r == if a > b { a } else { b },
{
    if a > b { a } else { b }
}

/// Selecting an extent is idempotent: feeding the selected extent back in as
/// the window extent selects the same extent again.
pub proof fn lemma_select_extent_idempotent(
    capabilities: vk::SurfaceCapabilitiesKHR,
    window_extent: vk::Extent2D,
)
    ensures
        spec_select_extent(capabilities, spec_select_extent(capabilities, window_extent))
            == spec_select_extent(capabilities, window_extent),
{
}

/// The clamp rule, spelled out.  With an undefined current extent the result
/// lies in the supported range and is the supported value closest to the
/// request; with a concrete current extent the result is exactly that extent.
pub proof fn lemma_select_extent_clamps(
    capabilities: vk::SurfaceCapabilitiesKHR,
    window_extent: vk::Extent2D,
)
    requires
        capabilities.min_image_extent.width <= capabilities.max_image_extent.width,
        capabilities.min_image_extent.height <= capabilities.max_image_extent.height,
    ensures
        capabilities.current_extent.width == vk::EXTENT_UNDEFINED ==> {
            let w = spec_select_extent(capabilities, window_extent).width;
            &&& capabilities.min_image_extent.width <= w <= capabilities.max_image_extent.width
            &&& window_extent.width < capabilities.min_image_extent.width
                ==> w == capabilities.min_image_extent.width
            &&& window_extent.width > capabilities.max_image_extent.width
                ==> w == capabilities.max_image_extent.width
            &&& capabilities.min_image_extent.width <= window_extent.width
                <= capabilities.max_image_extent.width ==> w == window_extent.width
        },
        capabilities.current_extent.height == vk::EXTENT_UNDEFINED ==> {
            let h = spec_select_extent(capabilities, window_extent).height;
            &&& capabilities.min_image_extent.height <= h <= capabilities.max_image_extent.height
            &&& window_extent.height < capabilities.min_image_extent.height
                ==> h == capabilities.min_image_extent.height
            &&& window_extent.height > capabilities.max_image_extent.height
                ==> h == capabilities.max_image_extent.height
            &&& capabilities.min_image_extent.height <= window_extent.height
                <= capabilities.max_image_extent.height ==> h == window_extent.height
        },
        capabilities.current_extent.width != vk::EXTENT_UNDEFINED
            ==> spec_select_extent(capabilities, window_extent).width
                == capabilities.current_extent.width,
        capabilities.current_extent.height != vk::EXTENT_UNDEFINED
            ==> spec_select_extent(capabilities, window_extent).height
                == capabilities.current_extent.height,
{
}


/// How many swapchain images the engine asks for: double buffering when the
/// surface allows it, bounded by what it requires.
pub open spec fn spec_image_count(capabilities: vk::SurfaceCapabilitiesKHR) -> u32 {
    let preferred: u32 = if 2 > capabilities.max_image_count {
        2
    } else {
        capabilities.max_image_count
    };
    if capabilities.min_image_count < preferred {
        capabilities.min_image_count
    } else {
        preferred
    }
}

/// The swapchain-backed render target: the swapchain and its driver-owned
/// images, one view and one framebuffer per image, and the render pass they
/// serve.  It is destroyed and recreated wholesale on resize, never
/// partially mutated.
#[derive(Debug)]
pub struct RenderTarget {
    pub extent: vk::Extent2D,
    pub framebuffers: Vec<vk::Framebuffer>,
    pub views: Vec<vk::ImageView>,
    pub images: Vec<vk::Image>,
    pub render_pass: vk::RenderPass,
    pub render_pass_info: vk::RenderPassCreateInfo,
    pub swapchain: vk::SwapchainKHR,
    /// The request the swapchain was created with.
    pub swapchain_info: vk::SwapchainCreateInfoKHR,
    /// The request each framebuffer was created with, one per image.
    pub framebuffer_infos: Vec<vk::FramebufferCreateInfo>,
    pub surface_format: vk::SurfaceFormatKHR,
    /// The image index the swapchain will hand out next.
    pub next_image: usize,
    /// Whether the surface has changed since the swapchain was created;
    /// an out-of-date swapchain can no longer acquire images.
    pub out_of_date: bool,
}

impl RenderTarget {
    /// One view and one framebuffer per image, and a usable acquire
    /// cursor.
    pub open spec fn wf(self) -> bool {
        &&& self.views@.len() == self.images@.len()
        &&& self.framebuffers@.len() == self.images@.len()
        &&& self.images@.len() > 0
        &&& self.images@.len() <= u32::MAX
        &&& self.next_image < self.images@.len()
    }

    /// Every handle the target holds is below `bound`.
    pub open spec fn handles_below(self, bound: u64) -> bool {
        &&& self.swapchain < bound
        &&& self.render_pass < bound
        &&& forall|i: int| 0 <= i < self.images@.len()
            ==> (#[trigger] self.images@[i]) < bound
        &&& forall|i: int| 0 <= i < self.views@.len()
            ==> (#[trigger] self.views@[i]) < bound
        &&& forall|i: int| 0 <= i < self.framebuffers@.len()
            ==> (#[trigger] self.framebuffers@[i]) < bound
    }

    /// Every handle the target holds is at least `bound`.
    pub open spec fn handles_at_least(self, bound: u64) -> bool {
        &&& self.swapchain >= bound
        &&& self.render_pass >= bound
        &&& forall|i: int| 0 <= i < self.images@.len()
            ==> (#[trigger] self.images@[i]) >= bound
        &&& forall|i: int| 0 <= i < self.views@.len()
            ==> (#[trigger] self.views@[i]) >= bound
        &&& forall|i: int| 0 <= i < self.framebuffers@.len()
            ==> (#[trigger] self.framebuffers@[i]) >= bound
    }

    /// Create the render target: clamp the window extent against the
    /// capabilities, take the first reported surface format, create the
    /// swapchain with the preferred image count, and build one view and
    /// one framebuffer per image around one render pass.  Fails exactly
    /// when the surface reports no format.
    pub fn create(
        device: &mut Device,
        surface: vk::SurfaceKHR,
        capabilities: vk::SurfaceCapabilitiesKHR,
        surface_formats: &Vec<vk::SurfaceFormatKHR>,
        window_extent: vk::Extent2D,
    ) -> (result: Result<RenderTarget, InitError>)
        requires
            capabilities.min_image_count >= 1,
            old(device).next_id + 2 + 3 * spec_image_count(capabilities) <= u64::MAX,
        ensures
            final(device).handle == old(device).handle,
            final(device).queue_family_indices == old(device).queue_family_indices,
            final(device).next_id >= old(device).next_id,
            final(device).next_id
                <= old(device).next_id + 2 + 3 * spec_image_count(capabilities),
            match result {
                Ok(target) => {
                    &&& target.wf()
                    &&& target.extent == spec_select_extent(capabilities, window_extent)
                    &&& target.images@.len() == spec_image_count(capabilities)
                    &&& surface_formats@.len() > 0
                    &&& target.surface_format == surface_formats@[0]
                    &&& target.next_image == 0
                    &&& !target.out_of_date
                    &&& render_pass_protocol(target.render_pass_info,
                        surface_formats@[0].format)
                    &&& target.swapchain_info == swapchain_request(surface, capabilities,
                        surface_formats@[0], spec_select_extent(capabilities, window_extent))
                    &&& target.framebuffer_infos@.len() == target.framebuffers@.len()
                    &&& forall|i: int| 0 <= i < target.framebuffer_infos@.len() ==> {
                        &&& (#[trigger] target.framebuffer_infos@[i]).render_pass
                            == target.render_pass
                        &&& target.framebuffer_infos@[i].attachments@
                            == seq![target.views@[i]]
                        &&& target.framebuffer_infos@[i].width == target.extent.width
                        &&& target.framebuffer_infos@[i].height == target.extent.height
                        &&& target.framebuffer_infos@[i].layers == 1
                    }
                    &&& target.handles_at_least(old(device).next_id)
                    &&& target.handles_below(final(device).next_id)
                },
                Err(e) => {
                    &&& e == InitError::NoSurfaceFormat
                    &&& surface_formats@.len() == 0
                    &&& *final(device) == *old(device)
                },
            },
    {
        if surface_formats.len() == 0 {
            return Err(InitError::NoSurfaceFormat);
        }
        let image_extent = select_extent(capabilities, window_extent);
        let surface_format = surface_formats[0];
        let (swapchain, swapchain_info) = create_swapchain(
            device,
            surface,
            capabilities,
            surface_format,
            image_extent,
        );
        let count_u32 = image_count(capabilities);
        let count = count_u32 as usize;
        let images = issue_handles(device, count);
        let views = issue_handles(device, count);
        let (render_pass, render_pass_info) = create_render_pass(device, surface_format.format);

        let mut framebuffers: Vec<vk::Framebuffer> = Vec::new();
        let mut framebuffer_infos: Vec<vk::FramebufferCreateInfo> = Vec::new();
        let ghost framebuffer_base = device.next_id;
        let mut i: usize = 0;
        while i < count
            invariant
                i <= count,
                count == views@.len(),
                framebuffers@.len() == i,
                framebuffer_infos@.len() == i,
                framebuffer_base + count <= u64::MAX,
                device.next_id == framebuffer_base + i,
                device.handle == old(device).handle,
                device.queue_family_indices == old(device).queue_family_indices,
                forall|j: int| 0 <= j < i
                    ==> (#[trigger] framebuffers@[j]) == framebuffer_base + j,
                forall|j: int| 0 <= j < i ==> {
                    &&& (#[trigger] framebuffer_infos@[j]).render_pass == render_pass
                    &&& framebuffer_infos@[j].attachments@ == seq![views@[j]]
                    &&& framebuffer_infos@[j].width == image_extent.width
                    &&& framebuffer_infos@[j].height == image_extent.height
                    &&& framebuffer_infos@[j].layers == 1
                },
            decreases count - i,
        {
            let (framebuffer, info) = create_framebuffer(
                device,
                render_pass,
                views[i],
                image_extent,
            );
            framebuffers.push(framebuffer);
            framebuffer_infos.push(info);
            i = i + 1;
        }

        Ok(RenderTarget {
            extent: image_extent,
            framebuffers,
            views,
            images,
            render_pass,
            render_pass_info,
            swapchain,
            swapchain_info,
            framebuffer_infos,
            surface_format,
            next_image: 0,
            out_of_date: false,
        })
    }

    /// Tear down framebuffers, render pass, views and swapchain, in that
    /// dependency order.  The caller must have made sure no in-flight
    /// frame still references the framebuffers.
    pub fn destroy(&mut self)
        ensures
            final(self).framebuffers@.len() == 0,
            final(self).framebuffer_infos@.len() == 0,
            final(self).views@.len() == 0,
            final(self).images@.len() == 0,
    {
        self.framebuffers = Vec::new();
        self.framebuffer_infos = Vec::new();
        self.views = Vec::new();
        self.images = Vec::new();
    }
}

/// The engine's one render pass shape: a single color attachment, cleared
/// on load and stored on end, handed over in the presentable layout, with
/// one graphics subpass writing it and one external dependency ordering
/// color-attachment output.
pub open spec fn render_pass_protocol(info: vk::RenderPassCreateInfo, format: vk::Format)
    -> bool {
    &&& info.attachments@.len() == 1
    &&& info.attachments@[0].format == format
    &&& info.attachments@[0].load_op == vk::AttachmentLoadOp::Clear
    &&& info.attachments@[0].store_op == vk::AttachmentStoreOp::Store
    &&& info.attachments@[0].stencil_load_op == vk::AttachmentLoadOp::DontCare
    &&& info.attachments@[0].stencil_store_op == vk::AttachmentStoreOp::DontCare
    &&& info.attachments@[0].initial_layout == vk::ImageLayout::Undefined
    &&& info.attachments@[0].final_layout == vk::ImageLayout::PresentSourceKHR
    &&& info.subpasses@.len() == 1
    &&& info.subpasses@[0].pipeline_bind_point == vk::PipelineBindPoint::Graphics
    &&& info.subpasses@[0].color_attachments@.len() == 1
    &&& info.subpasses@[0].color_attachments@[0] == (vk::AttachmentReference {
        attachment: 0,
        layout: vk::ImageLayout::ColorAttachmentOptimal,
    })
    &&& info.subpasses@[0].input_attachments@.len() == 0
    &&& info.subpasses@[0].depth_stencil_attachment is None
    &&& info.dependencies@.len() == 1
    &&& info.dependencies@[0].source_subpass == vk::SUBPASS_EXTERNAL
    &&& info.dependencies@[0].destination_subpass == 0
    &&& info.dependencies@[0].source_stage_mask
        == vk::PipelineStageFlagBits::ColorAttachmentOutput.spec_bits()
    &&& info.dependencies@[0].destination_stage_mask
        == vk::PipelineStageFlagBits::ColorAttachmentOutput.spec_bits()
    &&& info.dependencies@[0].source_access_mask == 0
    &&& info.dependencies@[0].destination_access_mask
        == vk::AccessFlagBits::ColorAttachmentWrite.spec_bits()
}

/// The request the engine submits to create a swapchain: the preferred
/// image count, the chosen format and extent, one layer of color
/// attachment, exclusive sharing, the surface's current transform, opaque
/// composition, and FIFO presentation.
pub open spec fn swapchain_request(
    surface: vk::SurfaceKHR,
    capabilities: vk::SurfaceCapabilitiesKHR,
    surface_format: vk::SurfaceFormatKHR,
    image_extent: vk::Extent2D,
) -> vk::SwapchainCreateInfoKHR {
    vk::SwapchainCreateInfoKHR {
        surface,
        min_image_count: spec_image_count(capabilities),
        image_format: surface_format.format,
        image_color_space: surface_format.color_space,
        image_extent,
        image_array_layers: 1,
        image_usage: vk::ImageUsageFlagBits::ColorAttachment.spec_bits(),
        image_sharing_mode: vk::SharingMode::Exclusive,
        pre_transform: capabilities.current_transform,
        composite_alpha: vk::CompositeAlphaFlagsKHR::Opaque,
        present_mode: vk::PresentModeKHR::Fifo,
        clipped: 1,
        old_swapchain: 0,
    }
}

/// The image count the swapchain is asked for.
pub fn image_count(capabilities: vk::SurfaceCapabilitiesKHR) -> (count: u32)
    ensures
        count == spec_image_count(capabilities),
{
    let preferred: u32 = if 2 > capabilities.max_image_count {
        2
    } else {
        capabilities.max_image_count
    };
    if capabilities.min_image_count < preferred {
        capabilities.min_image_count
    } else {
        preferred
    }
}

/// Create the swapchain for the surface, submitting exactly the request
/// of [`swapchain_request`].
pub fn create_swapchain(
    device: &mut Device,
    surface: vk::SurfaceKHR,
    capabilities: vk::SurfaceCapabilitiesKHR,
    surface_format: vk::SurfaceFormatKHR,
    image_extent: vk::Extent2D,
) -> (result: (vk::SwapchainKHR, vk::SwapchainCreateInfoKHR))
    requires
        old(device).next_id < u64::MAX,
    ensures
        result.0 == old(device).next_id,
        result.1 == swapchain_request(surface, capabilities, surface_format, image_extent),
        final(device).next_id == old(device).next_id + 1,
        final(device).handle == old(device).handle,
        final(device).queue_family_indices == old(device).queue_family_indices,
{
    let info = vk::SwapchainCreateInfoKHR {
        surface,
        min_image_count: image_count(capabilities),
        image_format: surface_format.format,
        image_color_space: surface_format.color_space,
        image_extent,
        image_array_layers: 1,
        image_usage: vk::ImageUsageFlagBits::ColorAttachment.bits(),
        image_sharing_mode: vk::SharingMode::Exclusive,
        pre_transform: capabilities.current_transform,
        composite_alpha: vk::CompositeAlphaFlagsKHR::Opaque,
        present_mode: vk::PresentModeKHR::Fifo,
        clipped: 1,
        old_swapchain: 0,
    };
    (device.issue(), info)
}

/// The render pass described by [`render_pass_protocol`].
pub fn create_render_pass(device: &mut Device, format: vk::Format)
    -> (result: (vk::RenderPass, vk::RenderPassCreateInfo))
    requires
        old(device).next_id < u64::MAX,
    ensures
        result.0 == old(device).next_id,
        final(device).next_id == old(device).next_id + 1,
        final(device).handle == old(device).handle,
        final(device).queue_family_indices == old(device).queue_family_indices,
        render_pass_protocol(result.1, format),
{
    let attachment = vk::AttachmentDescription {
        flags: 0,
        format,
        samples: vk::SampleCountFlagBits::One,
        load_op: vk::AttachmentLoadOp::Clear,
        store_op: vk::AttachmentStoreOp::Store,
        stencil_load_op: vk::AttachmentLoadOp::DontCare,
        stencil_store_op: vk::AttachmentStoreOp::DontCare,
        initial_layout: vk::ImageLayout::Undefined,
        final_layout: vk::ImageLayout::PresentSourceKHR,
    };
    let color_attachment = vk::AttachmentReference {
        attachment: 0,
        layout: vk::ImageLayout::ColorAttachmentOptimal,
    };
    let mut color_attachments: Vec<vk::AttachmentReference> = Vec::new();
    color_attachments.push(color_attachment);
    let subpass = vk::SubpassDescription {
        flags: 0,
        pipeline_bind_point: vk::PipelineBindPoint::Graphics,
        input_attachments: Vec::new(),
        color_attachments,
        resolve_attachments: Vec::new(),
        depth_stencil_attachment: None,
        preserve_attachments: Vec::new(),
    };
    let dependency = vk::SubpassDependency {
        source_subpass: vk::SUBPASS_EXTERNAL,
        destination_subpass: 0,
        source_stage_mask: vk::PipelineStageFlagBits::ColorAttachmentOutput.bits(),
        destination_stage_mask: vk::PipelineStageFlagBits::ColorAttachmentOutput.bits(),
        source_access_mask: 0,
        destination_access_mask: vk::AccessFlagBits::ColorAttachmentWrite.bits(),
        dependency_flags: 0,
    };
    let mut attachments: Vec<vk::AttachmentDescription> = Vec::new();
    attachments.push(attachment);
    let mut subpasses: Vec<vk::SubpassDescription> = Vec::new();
    subpasses.push(subpass);
    let mut dependencies: Vec<vk::SubpassDependency> = Vec::new();
    dependencies.push(dependency);
    let info = vk::RenderPassCreateInfo {
        flags: 0,
        attachments,
        subpasses,
        dependencies,
    };
    (device.issue(), info)
}

/// Create a framebuffer over one image view, sized to the target extent:
/// one attachment, one layer.
pub fn create_framebuffer(
    device: &mut Device,
    render_pass: vk::RenderPass,
    view: vk::ImageView,
    image_extent: vk::Extent2D,
) -> (result: (vk::Framebuffer, vk::FramebufferCreateInfo))
    requires
        old(device).next_id < u64::MAX,
    ensures
        result.0 == old(device).next_id,
        result.1.render_pass == render_pass,
        result.1.attachments@ == seq![view],
        result.1.width == image_extent.width,
        result.1.height == image_extent.height,
        result.1.layers == 1,
        final(device).next_id == old(device).next_id + 1,
        final(device).handle == old(device).handle,
        final(device).queue_family_indices == old(device).queue_family_indices,
{
    let mut attachments: Vec<vk::ImageView> = Vec::new();
    attachments.push(view);
    proof {
        assert(attachments@ =~= seq![view]);
    }
    let info = vk::FramebufferCreateInfo {
        render_pass,
        attachments,
        width: image_extent.width,
        height: image_extent.height,
        layers: 1,
    };
    (device.issue(), info)
}

/// `count` fresh consecutive handles.
fn issue_handles(device: &mut Device, count: usize) -> (handles: Vec<u64>)
    requires
        old(device).next_id + count <= u64::MAX,
    ensures
        handles@.len() == count,
        forall|i: int| 0 <= i < count
            ==> (#[trigger] handles@[i]) == old(device).next_id + i,
        final(device).next_id == old(device).next_id + count,
        final(device).handle == old(device).handle,
        final(device).queue_family_indices == old(device).queue_family_indices,
{
    let mut handles: Vec<u64> = Vec::new();
    let mut i: usize = 0;
    while i < count
        invariant
            i <= count,
            handles@.len() == i,
            old(device).next_id + count <= u64::MAX,
            device.next_id == old(device).next_id + i,
            device.handle == old(device).handle,
            device.queue_family_indices == old(device).queue_family_indices,
            forall|j: int| 0 <= j < i
                ==> (#[trigger] handles@[j]) == old(device).next_id + j,
        decreases count - i,
    {
        handles.push(device.issue());
        i = i + 1;
    }
    handles
}

/// Acquire the next presentable image, signaling `semaphore` when it is
/// ready.  Reports no index exactly when the surface has gone out of date;
/// the caller must then recreate the render target.
pub fn acquire_image(
    target: &mut RenderTarget,
    timeout: u64,
    semaphore: &Semaphore,
) -> (index: Option<u32>)
    requires
        old(target).wf(),
    ensures
        final(target).wf(),
        final(target).extent == old(target).extent,
        final(target).framebuffers == old(target).framebuffers,
        final(target).views == old(target).views,
        final(target).images == old(target).images,
        final(target).render_pass == old(target).render_pass,
        final(target).render_pass_info == old(target).render_pass_info,
        final(target).swapchain == old(target).swapchain,
        final(target).swapchain_info == old(target).swapchain_info,
        final(target).framebuffer_infos == old(target).framebuffer_infos,
        final(target).surface_format == old(target).surface_format,
        final(target).out_of_date == old(target).out_of_date,
        match index {
            Some(i) => {
                &&& !old(target).out_of_date
                &&& i == old(target).next_image
                &&& i < old(target).images@.len()
            },
            None => {
                &&& old(target).out_of_date
                &&& *final(target) == *old(target)
            },
        },
{
    let _ = timeout;
    let _ = semaphore;
    if target.out_of_date {
        return None;
    }
    let index = target.next_image;
    target.next_image = if index + 1 >= target.images.len() {
        0
    } else {
        index + 1
    };
    Some(index as u32)
}


/// A recreated render target shares no handle with the one it replaced:
/// every handle of the old target was issued below the device's counter,
/// and every handle of the new one at or above it.  Nothing reachable
/// through the renderer can therefore still name a pre-resize framebuffer.
pub proof fn lemma_recreated_target_fresh(
    old_target: RenderTarget,
    new_target: RenderTarget,
    bound: u64,
)
    requires
        old_target.handles_below(bound),
        new_target.handles_at_least(bound),
    ensures
        new_target.swapchain != old_target.swapchain,
        new_target.render_pass != old_target.render_pass,
        forall|i: int, j: int|
            0 <= i < old_target.framebuffers@.len() && 0 <= j < new_target.framebuffers@.len()
                ==> (#[trigger] old_target.framebuffers@[i])
                    != (#[trigger] new_target.framebuffers@[j]),
        forall|i: int, j: int|
            0 <= i < old_target.views@.len() && 0 <= j < new_target.views@.len()
                ==> (#[trigger] old_target.views@[i]) != (#[trigger] new_target.views@[j]),
        forall|i: int, j: int|
            0 <= i < old_target.images@.len() && 0 <= j < new_target.images@.len()
                ==> (#[trigger] old_target.images@[i]) != (#[trigger] new_target.images@[j]),
{
}

} // verus!
