//! Per-frame command and descriptor pooling.
//!
//! One instance per frame slot: a command pool with one primary buffer, a
//! growable list of secondary buffers, and a descriptor pool with a
//! growable list of descriptor sets.  The two lists grow in lockstep — one
//! descriptor set per secondary draw — and are cleared together on reset.

use vstd::prelude::*;
use crate::command::{
    allocate_command_buffer, allocate_descriptor_sets, create_command_pool,
    descriptor_pool_create, CommandBuffer, CommandPool, DescriptorPool, DescriptorSet,
};
use crate::command::allocate_command_buffers;
use crate::device::Device;
use crate::vk;

verus! {

/// How many descriptor sets each frame's pool is created with.  The pool's
/// capacity is fixed, so this bounds the draws recorded per frame.
pub const DESCRIPTOR_POOL_CAPACITY: u32 = 4;

pub struct PerFrameResources {
    pub command_pool: CommandPool,
    pub primary: CommandBuffer,
    pub secondaries: Vec<CommandBuffer>,
    pub descriptor_pool: DescriptorPool,
    pub descriptor_sets: Vec<DescriptorSet>,
}

impl PerFrameResources {
    /// The lockstep invariant: one descriptor set per secondary, the
    /// descriptor pool's count of taken sets equal to the list's length,
    /// and the buffers at their proper levels.
    pub open spec fn wf(self) -> bool {
        &&& self.secondaries@.len() == self.descriptor_sets@.len()
        &&& self.descriptor_pool.allocated == self.descriptor_sets@.len()
        &&& self.descriptor_pool.allocated <= self.descriptor_pool.max_sets
        &&& self.primary.level == vk::CommandBufferLevel::Primary
        &&& forall|i: int| 0 <= i < self.secondaries@.len()
            ==> (#[trigger] self.secondaries@[i]).level == vk::CommandBufferLevel::Secondary
    }

    /// Every handle the frame's resources hold is below `bound`.
    pub open spec fn handles_below(self, bound: u64) -> bool {
        &&& self.command_pool.handle < bound
        &&& self.primary.handle < bound
        &&& self.descriptor_pool.handle < bound
        &&& forall|i: int| 0 <= i < self.secondaries@.len()
            ==> (#[trigger] self.secondaries@[i]).handle < bound
        &&& forall|i: int| 0 <= i < self.descriptor_sets@.len()
            ==> (#[trigger] self.descriptor_sets@[i]).handle < bound
    }

    /// One command pool with its primary buffer, and a fixed-capacity
    /// descriptor pool; both lists start empty.
    pub fn create(device: &mut Device, graphics_family_index: u32) -> (resources: Self)
        requires
            old(device).next_id < u64::MAX - 3,
        ensures
            resources.wf(),
            resources.secondaries@.len() == 0,
            resources.descriptor_sets@.len() == 0,
            resources.descriptor_pool.max_sets == DESCRIPTOR_POOL_CAPACITY,
            resources.command_pool.queue_family_index == graphics_family_index,
            resources.primary.commands@.len() == 0,
            resources.handles_below(final(device).next_id),
            final(device).next_id == old(device).next_id + 3,
            final(device).handle == old(device).handle,
            final(device).queue_family_indices == old(device).queue_family_indices,
    {
        let command_pool = create_command_pool(device, 0, graphics_family_index);
        let primary = allocate_command_buffer(
            device,
            &command_pool,
            vk::CommandBufferLevel::Primary,
        );

        let descriptor_count = DESCRIPTOR_POOL_CAPACITY;
        let mut pool_sizes: Vec<vk::DescriptorPoolSize> = Vec::new();
        pool_sizes.push(vk::DescriptorPoolSize {
            dtype: vk::DescriptorType::CombinedImageSampler,
            descriptor_count,
        });
        let descriptor_pool = descriptor_pool_create(device, descriptor_count, &pool_sizes);

        PerFrameResources {
            command_pool,
            primary,
            secondaries: Vec::new(),
            descriptor_pool,
            descriptor_sets: Vec::new(),
        }
    }

    /// Reset the frame's pools: the command-pool reset frees every
    /// secondary at once, and the descriptor-pool reset returns every set.
    /// Both lists are empty afterwards.
    pub fn reset(&mut self)
        ensures
            old(self).wf() ==> final(self).wf(),
            final(self).secondaries@.len() == 0,
            final(self).descriptor_sets@.len() == 0,
            final(self).descriptor_pool.allocated == 0,
            final(self).descriptor_pool.handle == old(self).descriptor_pool.handle,
            final(self).descriptor_pool.max_sets == old(self).descriptor_pool.max_sets,
            final(self).command_pool == old(self).command_pool,
            final(self).primary == old(self).primary,
    {
        self.secondaries = Vec::new();
        self.descriptor_pool.allocated = 0;
        self.descriptor_sets = Vec::new();
    }

    /// Grow both lists by `count`, returning the indices of the new
    /// entries.  Fails exactly when the descriptor pool cannot supply
    /// `count` more sets; nothing changes then.
    pub fn allocate_descriptors_and_secondaries(
        &mut self,
        device: &mut Device,
        set_layout: vk::DescriptorSetLayout,
        count: usize,
    ) -> (result: Option<Vec<usize>>)
        requires
            old(self).wf(),
            old(device).next_id + 2 * (old(self).descriptor_pool.max_sets as u64)
                <= u64::MAX,
        ensures
            final(self).command_pool == old(self).command_pool,
            final(self).primary == old(self).primary,
            final(self).descriptor_pool.handle == old(self).descriptor_pool.handle,
            final(self).descriptor_pool.max_sets == old(self).descriptor_pool.max_sets,
            match result {
                Some(indices) => {
                    &&& final(self).wf()
                    &&& count + old(self).descriptor_sets@.len()
                        <= old(self).descriptor_pool.max_sets
                    &&& indices@.len() == count
                    &&& forall|k: int| 0 <= k < count
                        ==> (#[trigger] indices@[k]) == old(self).secondaries@.len() + k
                    &&& final(self).secondaries@.len()
                        == old(self).secondaries@.len() + count
                    &&& final(self).descriptor_sets@.len()
                        == old(self).descriptor_sets@.len() + count
                    &&& forall|j: int| 0 <= j < old(self).secondaries@.len()
                        ==> final(self).secondaries@[j] == old(self).secondaries@[j]
                    &&& forall|j: int| 0 <= j < old(self).descriptor_sets@.len()
                        ==> final(self).descriptor_sets@[j] == old(self).descriptor_sets@[j]
                    &&& forall|t: int| old(self).secondaries@.len() <= t
                        < old(self).secondaries@.len() + count ==> {
                        &&& (#[trigger] final(self).secondaries@[t]).handle
                            == old(device).next_id + (t - old(self).secondaries@.len())
                        &&& final(self).secondaries@[t].level
                            == vk::CommandBufferLevel::Secondary
                        &&& final(self).secondaries@[t].commands@.len() == 0
                    }
                    &&& forall|t: int| old(self).descriptor_sets@.len() <= t
                        < old(self).descriptor_sets@.len() + count ==> {
                        &&& (#[trigger] final(self).descriptor_sets@[t]).handle
                            == old(device).next_id + count
                                + (t - old(self).descriptor_sets@.len())
                        &&& final(self).descriptor_sets@[t].image_info is None
                    }
                    &&& final(device).next_id == old(device).next_id + 2 * count
                    &&& final(device).handle == old(device).handle
                    &&& final(device).queue_family_indices
                        == old(device).queue_family_indices
                },
                None => {
                    &&& count + old(self).descriptor_sets@.len()
                        > old(self).descriptor_pool.max_sets
                    &&& *final(self) == *old(self)
                    &&& *final(device) == *old(device)
                },
            },
    {
        let offset = self.secondaries.len();

        if count > self.descriptor_pool.max_sets as usize - self.descriptor_pool.allocated as usize
        {
            return None;
        }

        let secondaries = match allocate_command_buffers(
            device,
            &self.command_pool,
            vk::CommandBufferLevel::Secondary,
            count,
        ) {
            Some(buffers) => buffers,
            None => {
                return None;
            },
        };
        let descriptor_sets = match allocate_descriptor_sets(
            device,
            &mut self.descriptor_pool,
            set_layout,
            count,
        ) {
            Some(sets) => sets,
            None => {
                return None;
            },
        };

        let mut indices: Vec<usize> = Vec::new();
        let mut k: usize = 0;
        let mut secondaries = secondaries;
        let mut descriptor_sets = descriptor_sets;

        proof {
            assert(offset + count <= old(self).descriptor_pool.max_sets);
        }

        while k < count
            invariant
                k <= count,
                indices@.len() == k,
                offset + count <= usize::MAX,
                forall|j: int| 0 <= j < k ==> (#[trigger] indices@[j]) == offset + j,
            decreases count - k,
        {
            indices.push(offset + k);
            k = k + 1;
        }

        let ghost new_buffers = secondaries@;
        let ghost new_sets = descriptor_sets@;
        let ghost buffer_base = self.secondaries@.len();
        let ghost set_base = self.descriptor_sets@.len();
        append_buffers(&mut self.secondaries, secondaries);
        append_sets(&mut self.descriptor_sets, descriptor_sets);
        proof {
            assert forall|t: int| buffer_base <= t < buffer_base + count implies {
                &&& (#[trigger] self.secondaries@[t]).handle
                    == old(device).next_id + (t - buffer_base)
                &&& self.secondaries@[t].level == vk::CommandBufferLevel::Secondary
                &&& self.secondaries@[t].commands@.len() == 0
            } by {
                let k = t - buffer_base;
                assert(self.secondaries@[t] == new_buffers[k]);
                assert((new_buffers[k]).handle == old(device).next_id + k
                    && new_buffers[k].level == vk::CommandBufferLevel::Secondary
                    && new_buffers[k].commands@.len() == 0);
            }
            assert forall|t: int| set_base <= t < set_base + count implies {
                &&& (#[trigger] self.descriptor_sets@[t]).handle
                    == old(device).next_id + count + (t - set_base)
                &&& self.descriptor_sets@[t].image_info is None
            } by {
                let k = t - set_base;
                assert(self.descriptor_sets@[t] == new_sets[k]);
                assert((new_sets[k]).handle == old(device).next_id + count + k
                    && new_sets[k].image_info is None);
            }
            assert forall|i: int| 0 <= i < self.secondaries@.len()
                implies (#[trigger] self.secondaries@[i]).level
                    == vk::CommandBufferLevel::Secondary by {
                if i < buffer_base {
                    assert(self.secondaries@[i] == old(self).secondaries@[i]);
                } else {
                    assert(self.secondaries@[i] == new_buffers[i - buffer_base]);
                }
            }
        }
        Some(indices)
    }

    /// Destroy the pools.  Destroying the command pool frees the primary
    /// and every secondary with it — the primary's handle becomes the null
    /// handle — and destroying the descriptor pool frees the sets.
    pub fn destroy(&mut self)
        ensures
            final(self).secondaries@.len() == 0,
            final(self).descriptor_sets@.len() == 0,
            final(self).descriptor_pool.allocated == 0,
            final(self).primary.handle == 0,
            final(self).primary.commands@.len() == 0,
    {
        self.secondaries = Vec::new();
        self.descriptor_sets = Vec::new();
        self.descriptor_pool.allocated = 0;
        self.primary.handle = 0;
        self.primary.commands = Vec::new();
    }
}

/// Move every buffer of `src` onto the end of `dst`, in order.
fn append_buffers(dst: &mut Vec<CommandBuffer>, src: Vec<CommandBuffer>)
    requires
        old(dst)@.len() + src@.len() <= usize::MAX,
    ensures
        final(dst)@.len() == old(dst)@.len() + src@.len(),
        forall|j: int| 0 <= j < old(dst)@.len() ==> final(dst)@[j] == old(dst)@[j],
        forall|j: int| 0 <= j < src@.len()
            ==> final(dst)@[old(dst)@.len() + j] == src@[j],
{
    let mut src = src;
    let ghost src0 = src@;
    let total = src.len();
    let mut moved: usize = 0;
    while src.len() > 0
        invariant
            moved + src@.len() == total,
            src0.len() == total,
            moved + src@.len() == src0.len(),
            dst@.len() == old(dst)@.len() + moved,
            forall|j: int| 0 <= j < old(dst)@.len() ==> dst@[j] == old(dst)@[j],
            forall|j: int| 0 <= j < moved ==> dst@[old(dst)@.len() + j] == src0[j],
            forall|j: int| 0 <= j < src@.len() ==> src@[j] == src0[moved + j],
        decreases src@.len(),
    {
        let buffer = src.remove(0);
        dst.push(buffer);
        moved = moved + 1;
    }
}

/// Move every set of `src` onto the end of `dst`, in order.
fn append_sets(dst: &mut Vec<DescriptorSet>, src: Vec<DescriptorSet>)
    requires
        old(dst)@.len() + src@.len() <= usize::MAX,
    ensures
        final(dst)@.len() == old(dst)@.len() + src@.len(),
        forall|j: int| 0 <= j < old(dst)@.len() ==> final(dst)@[j] == old(dst)@[j],
        forall|j: int| 0 <= j < src@.len()
            ==> final(dst)@[old(dst)@.len() + j] == src@[j],
{
    let mut src = src;
    let ghost src0 = src@;
    let total = src.len();
    let mut moved: usize = 0;
    while src.len() > 0
        invariant
            moved + src@.len() == total,
            src0.len() == total,
            moved + src@.len() == src0.len(),
            dst@.len() == old(dst)@.len() + moved,
            forall|j: int| 0 <= j < old(dst)@.len() ==> dst@[j] == old(dst)@[j],
            forall|j: int| 0 <= j < moved ==> dst@[old(dst)@.len() + j] == src0[j],
            forall|j: int| 0 <= j < src@.len() ==> src@[j] == src0[moved + j],
        decreases src@.len(),
    {
        let set = src.remove(0);
        dst.push(set);
        moved = moved + 1;
    }
}


/// Freshness across a reset: the sets and secondaries a frame slot held
/// before its pools were reset were all issued below the device's handle
/// counter, and everything a later allocation hands out is issued at or
/// above it — so no new entry can alias a pre-reset one.
pub proof fn lemma_post_reset_entries_fresh(
    pre: PerFrameResources,
    post: PerFrameResources,
    bound: u64,
)
    requires
        pre.handles_below(bound),
        forall|t: int| 0 <= t < post.descriptor_sets@.len()
            ==> (#[trigger] post.descriptor_sets@[t]).handle >= bound,
        forall|t: int| 0 <= t < post.secondaries@.len()
            ==> (#[trigger] post.secondaries@[t]).handle >= bound,
    ensures
        forall|i: int, j: int|
            0 <= i < pre.descriptor_sets@.len() && 0 <= j < post.descriptor_sets@.len()
                ==> (#[trigger] pre.descriptor_sets@[i]).handle
                    != (#[trigger] post.descriptor_sets@[j]).handle,
        forall|i: int, j: int|
            0 <= i < pre.secondaries@.len() && 0 <= j < post.secondaries@.len()
                ==> (#[trigger] pre.secondaries@[i]).handle
                    != (#[trigger] post.secondaries@[j]).handle,
{
}

} // verus!
