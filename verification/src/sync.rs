//! Host/device synchronization for presentation.
//!
//! One slot per swapchain image, each holding a fence ("drawing finished")
//! and two semaphores ("image acquired", "image ready").  A cycling
//! `current_frame` index selects the active slot; the fences start signaled
//! so that the first wait on each slot never blocks.

use vstd::prelude::*;
use crate::device::{create_fence, create_semaphore, Device, Fence, Semaphore};
use crate::vk;

verus! {

pub struct PresentationSync {
    pub drawing_finished: Vec<Fence>,
    pub image_acquired: Vec<Semaphore>,
    pub image_ready: Vec<Semaphore>,
    pub current_frame: usize,
    pub num_images: usize,
}

impl PresentationSync {
    /// One entry of each array per swapchain image slot, and an in-range
    /// frame index.
    pub open spec fn wf(self) -> bool {
        &&& self.drawing_finished@.len() == self.num_images
        &&& self.image_acquired@.len() == self.num_images
        &&& self.image_ready@.len() == self.num_images
        &&& self.num_images > 0
        &&& self.current_frame < self.num_images
    }

    /// Build `num_images` signaled fences and `2 * num_images` unsignaled
    /// semaphores; the frame index starts at zero.
    pub fn create(device: &mut Device, num_images: usize) -> (sync: PresentationSync)
        requires
            num_images > 0,
            old(device).next_id + 3 * num_images <= u64::MAX,
        ensures
            sync.wf(),
            sync.num_images == num_images,
            sync.current_frame == 0,
            forall|i: int| 0 <= i < num_images
                ==> (#[trigger] sync.drawing_finished@[i]).signaled,
            forall|i: int| 0 <= i < num_images
                ==> (#[trigger] sync.drawing_finished@[i]).handle
                    == old(device).next_id + 3 * i,
            forall|i: int| 0 <= i < num_images
                ==> (#[trigger] sync.image_acquired@[i]).handle
                    == old(device).next_id + 3 * i + 1,
            forall|i: int| 0 <= i < num_images
                ==> (#[trigger] sync.image_ready@[i]).handle
                    == old(device).next_id + 3 * i + 2,
            final(device).next_id == old(device).next_id + 3 * num_images,
            final(device).handle == old(device).handle,
            final(device).queue_family_indices == old(device).queue_family_indices,
    {
        let mut drawing_finished: Vec<Fence> = Vec::new();
        let mut image_acquired: Vec<Semaphore> = Vec::new();
        let mut image_ready: Vec<Semaphore> = Vec::new();
        let mut i: usize = 0;
        while i < num_images
            invariant
                i <= num_images,
                old(device).next_id + 3 * num_images <= u64::MAX,
                device.next_id == old(device).next_id + 3 * i,
                device.handle == old(device).handle,
                device.queue_family_indices == old(device).queue_family_indices,
                drawing_finished@.len() == i,
                image_acquired@.len() == i,
                image_ready@.len() == i,
                forall|j: int| 0 <= j < i
                    ==> (#[trigger] drawing_finished@[j]).signaled,
                forall|j: int| 0 <= j < i
                    ==> (#[trigger] drawing_finished@[j]).handle
                        == old(device).next_id + 3 * j,
                forall|j: int| 0 <= j < i
                    ==> (#[trigger] image_acquired@[j]).handle
                        == old(device).next_id + 3 * j + 1,
                forall|j: int| 0 <= j < i
                    ==> (#[trigger] image_ready@[j]).handle
                        == old(device).next_id + 3 * j + 2,
            decreases num_images - i,
        {
            let fence = create_fence(device, vk::FenceCreateFlagBits::Signaled.bits());
            proof {
                assert(vk::FenceCreateFlagBits::Signaled.spec_bits() == 1u32);
                assert(1u32 & 1u32 != 0u32) by (bit_vector);
            }
            drawing_finished.push(fence);
            image_acquired.push(create_semaphore(device, 0));
            image_ready.push(create_semaphore(device, 0));
            i = i + 1;
        }
        PresentationSync {
            drawing_finished,
            image_acquired,
            image_ready,
            current_frame: 0,
            num_images,
        }
    }

    /// Destroy every fence and semaphore.  The wrappers own their handles
    /// exclusively, so consuming the slots ends their lifetimes.
    pub fn destroy(self)
    {
        let _ = self;
    }
}

/// The frame index after a present: one step round-robin through
/// `[0, num_images)`.
pub open spec fn spec_next_frame(current: usize, num_images: usize) -> usize
    recommends
        num_images > 0,
{
    if current + 1 >= num_images {
        0
    } else {
        (current + 1) as usize
    }
}

/// Round-robin is a cycle: from any in-range slot, `num_images` steps lead
/// back to the same slot, and no earlier step does.
pub proof fn lemma_round_robin_cycles(start: usize, num_images: usize, steps: nat)
    requires
        num_images > 0,
        start < num_images,
    ensures
        spec_frame_after(start, num_images, steps) as int
            == (start + steps) % (num_images as int),
    decreases steps,
{
    if steps > 0 {
        lemma_round_robin_cycles(start, num_images, (steps - 1) as nat);
        let n = num_images as int;
        let a = (start + steps - 1) as int;
        let prev = spec_frame_after(start, num_images, (steps - 1) as nat);
        assert(prev as int == a % n);
        vstd::arithmetic::div_mod::lemma_mod_bound(a, n);
        vstd::arithmetic::div_mod::lemma_add_mod_noop(a, 1, n);
        if n == 1 {
            vstd::arithmetic::div_mod::lemma_mod_self_0(1);
            vstd::arithmetic::div_mod::lemma_small_mod(0, 1);
        } else {
            vstd::arithmetic::div_mod::lemma_small_mod(1, num_images as nat);
            if prev + 1 >= num_images {
                assert(prev + 1 == num_images);
                vstd::arithmetic::div_mod::lemma_mod_self_0(n);
            } else {
                vstd::arithmetic::div_mod::lemma_small_mod((prev + 1) as nat,
                    num_images as nat);
            }
        }
    } else {
        vstd::arithmetic::div_mod::lemma_small_mod(start as nat, num_images as nat);
    }
}

/// The frame index after `steps` presents from `start`.
pub open spec fn spec_frame_after(start: usize, num_images: usize, steps: nat) -> usize
    recommends
        num_images > 0,
    decreases steps,
{
    if steps == 0 {
        start
    } else {
        spec_next_frame(spec_frame_after(start, num_images, (steps - 1) as nat), num_images)
    }
}

} // verus!
