//! Memory-backed resources: buffers, images, textures.
//!
//! Each resource pairs a driver object with one dedicated allocation, sized
//! and typed to its reported requirements and the caller's property flags.
//! The memory is bound once, at creation, before any use.  A host-visible
//! buffer's mapped contents are the allocation's bytes, so writing and
//! reading regions has an exact byte-level contract.

use vstd::prelude::*;
use crate::device::{allocate_memory, Device, Memory};
use crate::error::InitError;
use crate::vk;

verus! {

/// A memory-backed buffer: a buffer handle with its own allocation.
#[derive(Debug)]
pub struct MBB {
    pub buffer: vk::Buffer,
    pub memory: Memory,
    pub size: vk::DeviceSize,
    pub flags: vk::MemoryPropertyFlags,
}

/// An image and what it was created as.
#[derive(Clone, Copy, Debug)]
pub struct Image {
    pub handle: vk::Image,
    pub format: vk::Format,
    pub extent: vk::Extent2D,
    pub layout: vk::ImageLayout,
}

/// A memory-backed image.
#[derive(Debug)]
pub struct MBI {
    pub image: Image,
    pub memory: Memory,
}

/// A sampled texture: image, view, sampler, and backing memory.
#[derive(Debug)]
pub struct Texture {
    pub image: Image,
    pub view: vk::ImageView,
    pub sampler: vk::Sampler,
    pub memory: Memory,
}

impl MBB {
    /// The buffer's allocation matches it: one dedicated allocation of
    /// exactly the buffer's size, with the bytes the host sees through a
    /// mapping.
    pub open spec fn wf(self) -> bool {
        &&& self.memory.size == self.size
        &&& self.memory.bytes@.len() == self.size
        &&& self.size <= usize::MAX
    }

    /// Whether the buffer may be mapped: it was created host-visible and
    /// host-coherent.
    pub open spec fn host_visible(self) -> bool {
        &&& self.flags & vk::MemoryPropertyFlagBits::HostVisible.spec_bits() != 0
        &&& self.flags & vk::MemoryPropertyFlagBits::HostCoherent.spec_bits() != 0
    }

    /// Create a buffer and bind a dedicated allocation to it, sized to the
    /// reported requirements (the buffer's own size; any memory type
    /// admitted) in the first memory type with the requested property
    /// flags.  Fails exactly when no memory type has those flags.
    pub fn create(
        device: &mut Device,
        properties: &vk::PhysicalDeviceMemoryProperties,
        size: vk::DeviceSize,
        usage: vk::BufferUsageFlags,
        flags: vk::MemoryPropertyFlags,
    ) -> (result: Result<MBB, InitError>)
        requires
            old(device).next_id < u64::MAX - 2,
            properties.memory_types@.len() <= vk::MAX_MEMORY_TYPES,
            size <= usize::MAX as u64,
        ensures
            final(device).handle == old(device).handle,
            final(device).queue_family_indices == old(device).queue_family_indices,
            final(device).next_id >= old(device).next_id,
            final(device).next_id <= old(device).next_id + 2,
            match result {
                Ok(mbb) => {
                    &&& mbb.wf()
                    &&& mbb.size == size
                    &&& mbb.flags == flags
                    &&& mbb.memory.size >= size
                    &&& crate::device::memory_type_suits(properties.memory_types@,
                        mbb.memory.type_index as int, 0xFFFF_FFFFu32, flags)
                    &&& mbb.memory.type_index < properties.memory_types@.len()
                    &&& forall|i: int| 0 <= i < mbb.memory.bytes@.len()
                        ==> mbb.memory.bytes@[i] == 0u8
                    &&& mbb.buffer == old(device).next_id
                    &&& mbb.memory.handle == old(device).next_id + 1
                    &&& final(device).next_id == old(device).next_id + 2
                },
                Err(e) => {
                    &&& e == InitError::NoSuitableMemoryType
                    &&& crate::device::no_memory_type_suits(properties.memory_types@,
                        0xFFFF_FFFFu32, flags)
                },
            },
    {
        let _ = usage;
        let buffer = device.issue();
        // The driver reports the buffer's memory requirements; a plain
        // buffer needs its own size and may live in any memory type.
        let requirements = vk::MemoryRequirements {
            size,
            alignment: 1,
            memory_type_bits: 0xFFFF_FFFFu32,
        };
        let memory = match allocate_memory(device, properties, requirements, flags) {
            Some(memory) => memory,
            None => {
                return Err(InitError::NoSuitableMemoryType);
            },
        };
        Ok(MBB { buffer, memory, size, flags })
    }

    /// Copy `data`, which must fill the buffer exactly, into the mapped
    /// allocation.
    pub fn fill(&mut self, data: &[u8])
        requires
            old(self).wf(),
            old(self).host_visible(),
            data@.len() == old(self).size,
        ensures
            final(self).wf(),
            final(self).buffer == old(self).buffer,
            final(self).size == old(self).size,
            final(self).flags == old(self).flags,
            final(self).memory.handle == old(self).memory.handle,
            final(self).memory.size == old(self).memory.size,
            final(self).memory.type_index == old(self).memory.type_index,
            final(self).memory.bytes@ == data@,
    {
        self.write_region(0, self.size, data);
        proof {
            assert(final(self).memory.bytes@ =~= data@);
        }
    }

    /// Map the region `[offset, offset + size)` and overwrite it with
    /// `data`; every byte outside the region keeps its value.
    pub fn write_region(&mut self, offset: vk::DeviceSize, size: vk::DeviceSize, data: &[u8])
        requires
            old(self).wf(),
            old(self).host_visible(),
            offset + size <= old(self).size,
            data@.len() == size,
        ensures
            final(self).wf(),
            final(self).buffer == old(self).buffer,
            final(self).size == old(self).size,
            final(self).flags == old(self).flags,
            final(self).memory.handle == old(self).memory.handle,
            final(self).memory.size == old(self).memory.size,
            final(self).memory.type_index == old(self).memory.type_index,
            final(self).memory.bytes@ == old(self).memory.bytes@
                .subrange(0, offset as int)
                .add(data@)
                .add(old(self).memory.bytes@.subrange(
                    offset + size,
                    old(self).memory.bytes@.len() as int,
                )),
    {
        let base = offset as usize;
        let count = size as usize;
        let total = self.memory.bytes.len();
        let mut i: usize = 0;
        while i < count
            invariant
                i <= count,
                base + count <= total,
                self.memory.bytes@.len() == total,
                data@.len() == count,
                self.memory.bytes@.len() == old(self).memory.bytes@.len(),
                self.buffer == old(self).buffer,
                self.size == old(self).size,
                self.flags == old(self).flags,
                self.memory.handle == old(self).memory.handle,
                self.memory.size == old(self).memory.size,
                self.memory.type_index == old(self).memory.type_index,
                forall|j: int| 0 <= j < i
                    ==> self.memory.bytes@[base + j] == data@[j],
                forall|j: int| 0 <= j < self.memory.bytes@.len()
                    && !(base <= j < base + i)
                    ==> self.memory.bytes@[j] == old(self).memory.bytes@[j],
            decreases count - i,
        {
            self.memory.bytes[base + i] = data[i];
            i = i + 1;
        }
        proof {
            assert(final(self).memory.bytes@ =~= old(self).memory.bytes@
                .subrange(0, offset as int)
                .add(data@)
                .add(old(self).memory.bytes@.subrange(
                    offset + size,
                    old(self).memory.bytes@.len() as int,
                )));
        }
    }

    /// Map the region `[offset, offset + size)` and copy its bytes out.
    pub fn read_region(&self, offset: vk::DeviceSize, size: vk::DeviceSize) -> (data: Vec<u8>)
        requires
            self.wf(),
            self.host_visible(),
            offset + size <= self.size,
        ensures
            data@ == self.memory.bytes@.subrange(offset as int, offset + size),
    {
        let base = offset as usize;
        let count = size as usize;
        let total = self.memory.bytes.len();
        let mut data: Vec<u8> = Vec::new();
        let mut i: usize = 0;
        while i < count
            invariant
                i <= count,
                base + count <= total,
                self.memory.bytes@.len() == total,
                data@.len() == i,
                forall|j: int| 0 <= j < i ==> data@[j] == self.memory.bytes@[base + j],
            decreases count - i,
        {
            data.push(self.memory.bytes[base + i]);
            i = i + 1;
        }
        proof {
            assert(data@ =~= self.memory.bytes@.subrange(offset as int, offset + size));
        }
        data
    }

    /// Free the allocation and destroy the buffer.
    pub fn destroy(self)
    {
        let _ = self;
    }
}

/// Create an image.  The driver only accepts the two initial layouts that
/// carry no device data; any other request is rejected.
pub fn create_image(
    device: &mut Device,
    format: vk::Format,
    extent: vk::Extent2D,
    tiling: vk::ImageTiling,
    usage: vk::ImageUsageFlags,
    initial_layout: vk::ImageLayout,
) -> (result: Option<Image>)
    requires
        old(device).next_id < u64::MAX,
    ensures
        final(device).handle == old(device).handle,
        final(device).queue_family_indices == old(device).queue_family_indices,
        match result {
            Some(image) => {
                &&& initial_layout == vk::ImageLayout::Undefined
                    || initial_layout == vk::ImageLayout::Preinitialized
                &&& image.handle == old(device).next_id
                &&& image.format == format
                &&& image.extent == extent
                &&& image.layout == initial_layout
                &&& final(device).next_id == old(device).next_id + 1
            },
            None => {
                &&& initial_layout != vk::ImageLayout::Undefined
                &&& initial_layout != vk::ImageLayout::Preinitialized
                &&& *final(device) == *old(device)
            },
        },
{
    let _ = tiling;
    let _ = usage;
    match initial_layout {
        vk::ImageLayout::Preinitialized | vk::ImageLayout::Undefined => {},
        _ => {
            return None;
        },
    }
    let handle = device.issue();
    Some(Image { handle, format, extent, layout: initial_layout })
}

/// Create a color view of the image's single mip level and layer.
pub fn create_image_view(device: &mut Device, image: &Image, format: vk::Format)
    -> (view: vk::ImageView)
    requires
        old(device).next_id < u64::MAX,
    ensures
        view == old(device).next_id,
        final(device).next_id == old(device).next_id + 1,
        final(device).handle == old(device).handle,
        final(device).queue_family_indices == old(device).queue_family_indices,
{
    let _ = image;
    let _ = format;
    device.issue()
}

/// Create the engine's one sampler kind: linear filtering, clamp to
/// border.
pub fn create_sampler(device: &mut Device) -> (sampler: Option<vk::Sampler>)
    requires
        old(device).next_id < u64::MAX,
    ensures
        sampler == Some(old(device).next_id),
        final(device).next_id == old(device).next_id + 1,
        final(device).handle == old(device).handle,
        final(device).queue_family_indices == old(device).queue_family_indices,
{
    Some(device.issue())
}

impl MBI {
    /// Create an image and bind a dedicated allocation to it, as
    /// [`MBB::create`] does for buffers.  The initial layout must be one of
    /// the two the driver accepts.
    pub fn create(
        device: &mut Device,
        properties: &vk::PhysicalDeviceMemoryProperties,
        format: vk::Format,
        extent: vk::Extent2D,
        tiling: vk::ImageTiling,
        usage: vk::ImageUsageFlags,
        layout: vk::ImageLayout,
        flags: vk::MemoryPropertyFlags,
    ) -> (result: Result<MBI, InitError>)
        requires
            old(device).next_id < u64::MAX - 2,
            properties.memory_types@.len() <= vk::MAX_MEMORY_TYPES,
            layout == vk::ImageLayout::Undefined || layout == vk::ImageLayout::Preinitialized,
            extent.width as u64 * extent.height as u64 * 4 <= usize::MAX as u64,
        ensures
            final(device).handle == old(device).handle,
            final(device).queue_family_indices == old(device).queue_family_indices,
            final(device).next_id >= old(device).next_id,
            final(device).next_id <= old(device).next_id + 2,
            match result {
                Ok(mbi) => {
                    &&& mbi.image.handle == old(device).next_id
                    &&& mbi.image.format == format
                    &&& mbi.image.extent == extent
                    &&& mbi.image.layout == layout
                    &&& mbi.memory.handle == old(device).next_id + 1
                    &&& mbi.memory.size >= extent.width as u64 * extent.height as u64 * 4
                    &&& crate::device::memory_type_suits(properties.memory_types@,
                        mbi.memory.type_index as int, 0xFFFF_FFFFu32, flags)
                    &&& mbi.memory.type_index < properties.memory_types@.len()
                    &&& final(device).next_id == old(device).next_id + 2
                },
                Err(e) => {
                    &&& e == InitError::NoSuitableMemoryType
                    &&& crate::device::no_memory_type_suits(properties.memory_types@,
                        0xFFFF_FFFFu32, flags)
                },
            },
    {
        let image = match create_image(device, format, extent, tiling, usage, layout) {
            Some(image) => image,
            None => {
                // Unreachable: the accepted layouts are required above.
                return Err(InitError::NoSuitableMemoryType);
            },
        };
        // The driver reports the image's memory requirements: four bytes per
        // texel for the formats the engine uses, any memory type admitted.
        let requirements = vk::MemoryRequirements {
            size: extent.width as u64 * extent.height as u64 * 4,
            alignment: 1,
            memory_type_bits: 0xFFFF_FFFFu32,
        };
        let memory = match allocate_memory(device, properties, requirements, flags) {
            Some(memory) => memory,
            None => {
                return Err(InitError::NoSuitableMemoryType);
            },
        };
        Ok(MBI { image, memory })
    }
}


/// Round trip through a mapped buffer: writing `data` over the region
/// `[offset, offset + size)` and reading the same range back yields `data`
/// unchanged, for any region inside the buffer.  `pre` and `post` are the
/// buffer's allocation bytes before and after the write, related as
/// [`MBB::write_region`] ensures; the range read is what
/// [`MBB::read_region`] returns.
pub proof fn lemma_write_read_round_trip(pre: Seq<u8>, post: Seq<u8>, offset: int, size: int, data: Seq<u8>)
    requires
        0 <= offset,
        0 <= size,
        offset + size <= pre.len(),
        data.len() == size,
        post == pre.subrange(0, offset).add(data).add(pre.subrange(offset + size, pre.len() as int)),
    ensures
        post.subrange(offset, offset + size) == data,
        post.len() == pre.len(),
        forall|i: int| 0 <= i < offset ==> post[i] == pre[i],
        forall|i: int| offset + size <= i < pre.len() ==> post[i] == pre[i],
{
    assert(post.subrange(offset, offset + size) =~= data);
}

} // verus!
