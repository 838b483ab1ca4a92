//! The logical device: queue selection, handle issue, and memory allocation.
//!
//! Driver objects are opaque to the engine; what matters is that every
//! object the driver hands out is distinct from every other.  The device
//! therefore issues handles from a strictly increasing counter, and each
//! wrapper records beside its handle the state the engine relies on: a
//! fence's signaled flag, an allocation's size, type and — for host-visible
//! memory — its bytes.

use vstd::prelude::*;
use crate::error::InitError;
use crate::vk;

verus! {

pub const GRAPHICS: usize = 0;
pub const PRESENTATION: usize = 1;
pub const TRANSFER: usize = 2;

/// A host-waitable completion signal.  `signaled` is the state the engine
/// may rely on: waiting on an unsignaled fence would block forever, so
/// waiting requires it.
#[derive(Clone, Copy, Debug)]
pub struct Fence {
    pub handle: vk::Fence,
    pub signaled: bool,
}

/// A queue-to-queue ordering signal.  It carries no host-visible state.
#[derive(Clone, Copy, Debug)]
pub struct Semaphore {
    pub handle: vk::Semaphore,
}

/// One dedicated memory allocation.  `bytes` holds the allocation's
/// contents as the host sees them through mapping; only host-visible
/// allocations are ever read or written through it.
#[derive(Debug)]
pub struct Memory {
    pub handle: vk::DeviceMemory,
    pub size: vk::DeviceSize,
    pub type_index: u32,
    pub bytes: Vec<u8>,
}

#[derive(Clone, Copy, Debug)]
pub struct Queues {
    pub graphics: vk::Queue,
    pub presentation: vk::Queue,
    pub transfer: vk::Queue,
}

/// The logical device, owning the handle counter.  Every handle issued is
/// the counter's value at the time, so handles never repeat.
#[derive(Debug)]
pub struct Device {
    pub handle: vk::Device,
    pub queue_family_indices: [u32; 3],
    /// The next handle this device will issue.  Every handle issued so far
    /// is smaller.
    pub next_id: u64,
}

impl Device {
    /// Issue one fresh handle.
    pub fn issue(&mut self) -> (id: u64)
        requires
            old(self).next_id < u64::MAX,
        ensures
            id == old(self).next_id,
            final(self).next_id == old(self).next_id + 1,
            final(self).handle == old(self).handle,
            final(self).queue_family_indices == old(self).queue_family_indices,
    {
        let id = self.next_id;
        self.next_id = self.next_id + 1;
        id
    }

    /// Bring up the logical device: select the three queue family indices
    /// against the reported families and presentation support, then retrieve
    /// one queue per role.  Creation submits one queue-create request per
    /// distinct selected family, as [`queue_create_requests`] builds them.
    pub fn new(
        device_handle: vk::Device,
        first_id: u64,
        properties: &Vec<vk::QueueFamilyProperties>,
        present_support: &Vec<bool>,
    ) -> (result: Result<(Device, Queues), InitError>)
        requires
            first_id < u64::MAX - 3,
            properties@.len() <= u32::MAX,
            present_support@.len() <= u32::MAX,
        ensures
            match result {
                Ok((device, queues)) => {
                    &&& queue_selection_ok(properties@, present_support@,
                        device.queue_family_indices)
                    &&& device.handle == device_handle
                    &&& device.next_id == first_id + 3
                    &&& queues.graphics == first_id
                    &&& queues.presentation == first_id + 1
                    &&& queues.transfer == first_id + 2
                },
                Err(e) => queue_selection_err(properties@, present_support@, e),
            },
    {
        let queue_family_indices = match select_queue_family_indices(properties, present_support) {
            Ok(indices) => indices,
            Err(e) => {
                return Err(e);
            },
        };
        let mut device = Device {
            handle: device_handle,
            queue_family_indices,
            next_id: first_id,
        };
        let queues = Queues::retrieve(&mut device, queue_family_indices);
        Ok((device, queues))
    }
}

impl Queues {
    /// Retrieve one queue per selected family.  In the driver the same
    /// family yields the same queue object; the engine never compares queue
    /// handles, so each role simply receives a fresh handle here.
    pub fn retrieve(device: &mut Device, queue_family_indices: [u32; 3]) -> (queues: Queues)
        requires
            old(device).next_id < u64::MAX - 2,
        ensures
            queues.graphics == old(device).next_id,
            queues.presentation == old(device).next_id + 1,
            queues.transfer == old(device).next_id + 2,
            final(device).next_id == old(device).next_id + 3,
            final(device).handle == old(device).handle,
            final(device).queue_family_indices == old(device).queue_family_indices,
    {
        let graphics = device.issue();
        let presentation = device.issue();
        let transfer = device.issue();
        Queues { graphics, presentation, transfer }
    }
}

/// Whether queue family `i` of `properties` offers every capability in
/// `mask`.
pub open spec fn queue_matches(
    properties: Seq<vk::QueueFamilyProperties>,
    i: int,
    mask: u32,
) -> bool {
    properties[i].queue_flags & mask == mask
}

/// The first queue family offering every capability in `bit`.
pub fn find_queue(properties: &Vec<vk::QueueFamilyProperties>, bit: vk::QueueFlagBits)
    -> (found: Option<u32>)
    requires
        properties@.len() <= u32::MAX,
    ensures
        match found {
            Some(i) => {
                &&& i < properties@.len()
                &&& queue_matches(properties@, i as int, bit.spec_bits())
                &&& forall|j: int| 0 <= j < i
                    ==> !queue_matches(properties@, j, bit.spec_bits())
            },
            None => forall|j: int| 0 <= j < properties@.len()
                ==> !queue_matches(properties@, j, bit.spec_bits()),
        },
{
    let value = bit.bits();
    let mut i: usize = 0;
    while i < properties.len()
        invariant
            i <= properties@.len(),
            properties@.len() <= u32::MAX,
            value == bit.spec_bits(),
            forall|j: int| 0 <= j < i ==> !queue_matches(properties@, j, bit.spec_bits()),
        decreases properties@.len() - i,
    {
        if properties[i].queue_flags & value == value {
            return Some(i as u32);
        }
        i = i + 1;
    }
    None
}

/// The first queue family that can present to the surface, given the
/// per-family support the driver reported.
pub fn find_presentation_queue(present_support: &Vec<bool>) -> (found: Option<u32>)
    requires
        present_support@.len() <= u32::MAX,
    ensures
        match found {
            Some(i) => {
                &&& i < present_support@.len()
                &&& present_support@[i as int]
                &&& forall|j: int| 0 <= j < i ==> !present_support@[j]
            },
            None => forall|j: int| 0 <= j < present_support@.len() ==> !present_support@[j],
        },
{
    let mut i: usize = 0;
    while i < present_support.len()
        invariant
            i <= present_support@.len(),
            present_support@.len() <= u32::MAX,
            forall|j: int| 0 <= j < i ==> !present_support@[j],
        decreases present_support@.len() - i,
    {
        if present_support[i] {
            return Some(i as u32);
        }
        i = i + 1;
    }
    None
}

/// The queue family selection the engine makes: each role resolves to the
/// first family that offers it.
pub open spec fn queue_selection_ok(
    properties: Seq<vk::QueueFamilyProperties>,
    present_support: Seq<bool>,
    indices: [u32; 3],
) -> bool {
    &&& indices@[0] < properties.len()
    &&& queue_matches(properties, indices@[0] as int, vk::QueueFlagBits::Graphics.spec_bits())
    &&& forall|j: int| 0 <= j < indices@[0]
        ==> !queue_matches(properties, j, vk::QueueFlagBits::Graphics.spec_bits())
    &&& indices@[1] < present_support.len()
    &&& present_support[indices@[1] as int]
    &&& forall|j: int| 0 <= j < indices@[1] ==> !present_support[j]
    &&& indices@[2] < properties.len()
    &&& queue_matches(properties, indices@[2] as int, vk::QueueFlagBits::Transfer.spec_bits())
    &&& forall|j: int| 0 <= j < indices@[2]
        ==> !queue_matches(properties, j, vk::QueueFlagBits::Transfer.spec_bits())
}

/// Which selection failure is reported: the roles are tried in the order
/// graphics, presentation, transfer, and the first one without a family
/// decides.
pub open spec fn queue_selection_err(
    properties: Seq<vk::QueueFamilyProperties>,
    present_support: Seq<bool>,
    e: InitError,
) -> bool {
    match e {
        InitError::NoGraphicsQueue => forall|j: int| 0 <= j < properties.len()
            ==> !queue_matches(properties, j, vk::QueueFlagBits::Graphics.spec_bits()),
        InitError::NoPresentationQueue => {
            &&& exists|i: int| 0 <= i < properties.len()
                && queue_matches(properties, i, vk::QueueFlagBits::Graphics.spec_bits())
            &&& forall|j: int| 0 <= j < present_support.len() ==> !present_support[j]
        },
        InitError::NoTransferQueue => {
            &&& exists|i: int| 0 <= i < properties.len()
                && queue_matches(properties, i, vk::QueueFlagBits::Graphics.spec_bits())
            &&& exists|i: int| 0 <= i < present_support.len() && present_support[i]
            &&& forall|j: int| 0 <= j < properties.len()
                ==> !queue_matches(properties, j, vk::QueueFlagBits::Transfer.spec_bits())
        },
        _ => false,
    }
}

pub fn select_queue_family_indices(
    properties: &Vec<vk::QueueFamilyProperties>,
    present_support: &Vec<bool>,
) -> (result: Result<[u32; 3], InitError>)
    requires
        properties@.len() <= u32::MAX,
        present_support@.len() <= u32::MAX,
    ensures
        match result {
            Ok(indices) => queue_selection_ok(properties@, present_support@, indices),
            Err(e) => queue_selection_err(properties@, present_support@, e),
        },
{
    let graphics = match find_queue(properties, vk::QueueFlagBits::Graphics) {
        Some(i) => i,
        None => {
            return Err(InitError::NoGraphicsQueue);
        },
    };
    let presentation = match find_presentation_queue(present_support) {
        Some(i) => i,
        None => {
            return Err(InitError::NoPresentationQueue);
        },
    };
    let transfer = match find_queue(properties, vk::QueueFlagBits::Transfer) {
        Some(i) => i,
        None => {
            return Err(InitError::NoTransferQueue);
        },
    };
    Ok([graphics, presentation, transfer])
}


/// Whether memory type `i` is allowed by `memory_type_bits` and offers
/// every property in `flags`.
pub open spec fn memory_type_suits(
    types: Seq<vk::MemoryType>,
    i: int,
    memory_type_bits: u32,
    flags: vk::MemoryPropertyFlags,
) -> bool {
    &&& memory_type_bits & (1u32 << i) == (1u32 << i)
    &&& types[i].property_flags & flags == flags
}

/// No memory type is both allowed by `memory_type_bits` and offering every
/// property in `flags`.
pub open spec fn no_memory_type_suits(
    types: Seq<vk::MemoryType>,
    memory_type_bits: u32,
    flags: vk::MemoryPropertyFlags,
) -> bool {
    forall|j: int| 0 <= j < types.len()
        ==> !memory_type_suits(types, j, memory_type_bits, flags)
}

/// The first memory type allowed by the resource's `memory_type_bits` whose
/// property flags include every requested flag.
pub fn find_memory_type(
    properties: &vk::PhysicalDeviceMemoryProperties,
    memory_type_bits: u32,
    flags: vk::MemoryPropertyFlags,
) -> (found: Option<u32>)
    requires
        properties.memory_types@.len() <= vk::MAX_MEMORY_TYPES,
    ensures
        match found {
            Some(i) => {
                &&& i < properties.memory_types@.len()
                &&& memory_type_suits(properties.memory_types@, i as int, memory_type_bits,
                    flags)
                &&& forall|j: int| 0 <= j < i
                    ==> !memory_type_suits(properties.memory_types@, j, memory_type_bits,
                        flags)
            },
            None => no_memory_type_suits(properties.memory_types@, memory_type_bits, flags),
        },
{
    let count = properties.memory_types.len();
    let mut i: usize = 0;
    while i < count
        invariant
            i <= count,
            count == properties.memory_types@.len(),
            count <= vk::MAX_MEMORY_TYPES,
            forall|j: int| 0 <= j < i
                ==> !memory_type_suits(properties.memory_types@, j, memory_type_bits, flags),
        decreases count - i,
    {
        let bit: u32 = 1u32 << (i as u32);
        if memory_type_bits & bit == bit {
            if properties.memory_types[i].property_flags & flags == flags {
                return Some(i as u32);
            }
        }
        i = i + 1;
    }
    None
}

/// A vector of `n` zero bytes: what a fresh allocation reads as through a
/// mapping.
fn zero_bytes(n: usize) -> (bytes: Vec<u8>)
    ensures
        bytes@.len() == n,
        forall|i: int| 0 <= i < n ==> bytes@[i] == 0u8,
{
    let mut bytes: Vec<u8> = Vec::new();
    let mut i: usize = 0;
    while i < n
        invariant
            i <= n,
            bytes@.len() == i,
            forall|j: int| 0 <= j < i ==> bytes@[j] == 0u8,
        decreases n - i,
    {
        bytes.push(0u8);
        i = i + 1;
    }
    bytes
}

/// One dedicated allocation for a resource's reported requirements: exactly
/// the reported size, in the first memory type that satisfies both the
/// requirements' type bits and the requested property flags.  Fails exactly
/// when no such type exists.
pub fn allocate_memory(
    device: &mut Device,
    properties: &vk::PhysicalDeviceMemoryProperties,
    requirements: vk::MemoryRequirements,
    flags: vk::MemoryPropertyFlags,
) -> (result: Option<Memory>)
    requires
        old(device).next_id < u64::MAX,
        properties.memory_types@.len() <= vk::MAX_MEMORY_TYPES,
        requirements.size <= usize::MAX as u64,
    ensures
        final(device).handle == old(device).handle,
        final(device).queue_family_indices == old(device).queue_family_indices,
        final(device).next_id >= old(device).next_id,
        match result {
            Some(memory) => {
                &&& memory.size >= requirements.size
                &&& memory.size == requirements.size
                &&& memory.type_index < properties.memory_types@.len()
                &&& memory_type_suits(properties.memory_types@, memory.type_index as int,
                    requirements.memory_type_bits, flags)
                &&& forall|j: int| 0 <= j < memory.type_index
                    ==> !memory_type_suits(properties.memory_types@, j,
                        requirements.memory_type_bits, flags)
                &&& memory.bytes@.len() == requirements.size
                &&& forall|i: int| 0 <= i < memory.bytes@.len() ==> memory.bytes@[i] == 0u8
                &&& memory.handle == old(device).next_id
                &&& final(device).next_id == old(device).next_id + 1
            },
            None => {
                &&& no_memory_type_suits(properties.memory_types@,
                    requirements.memory_type_bits, flags)
                &&& final(device).next_id == old(device).next_id
            },
        },
{
    let type_index = match find_memory_type(properties, requirements.memory_type_bits, flags) {
        Some(i) => i,
        None => {
            return None;
        },
    };
    let handle = device.issue();
    let bytes = zero_bytes(requirements.size as usize);
    Some(Memory { handle, size: requirements.size, type_index, bytes })
}

/// A fresh fence; it starts signaled exactly when the create flags say so.
pub fn create_fence(device: &mut Device, flags: vk::FenceCreateFlags) -> (fence: Fence)
    requires
        old(device).next_id < u64::MAX,
    ensures
        fence.handle == old(device).next_id,
        fence.signaled == (flags & vk::FenceCreateFlagBits::Signaled.spec_bits() != 0),
        final(device).next_id == old(device).next_id + 1,
        final(device).handle == old(device).handle,
        final(device).queue_family_indices == old(device).queue_family_indices,
{
    let handle = device.issue();
    let signaled = flags & vk::FenceCreateFlagBits::Signaled.bits() != 0;
    Fence { handle, signaled }
}

/// A fresh semaphore.
pub fn create_semaphore(device: &mut Device, flags: vk::SemaphoreCreateFlags)
    -> (semaphore: Semaphore)
    requires
        old(device).next_id < u64::MAX,
    ensures
        semaphore.handle == old(device).next_id,
        final(device).next_id == old(device).next_id + 1,
        final(device).handle == old(device).handle,
        final(device).queue_family_indices == old(device).queue_family_indices,
{
    let handle = device.issue();
    let _ = flags;
    Semaphore { handle }
}

/// Wait until the fence signals, then reset it.  The wait has no timeout,
/// so it must only be entered when the submission guarding the fence has
/// been made: the fence must be signaled.
pub fn fence_wait_reset(fence: &mut Fence)
    requires
        old(fence).signaled,
    ensures
        final(fence).handle == old(fence).handle,
        !final(fence).signaled,
{
    fence.signaled = false;
}

/// Destroy a fence.  The wrapper owns its handle exclusively, so consuming
/// it ends the object's lifetime.
pub fn fence_destroy(fence: Fence)
{
    let _ = fence;
}


/// One queue-create request submitted at device creation.
#[derive(Clone, Copy, Debug, PartialEq, Eq, Structural)]
pub struct QueueRequest {
    pub queue_family_index: u32,
    pub queue_count: u32,
}

/// Whether some request in the list names `family`.
pub open spec fn has_family(requests: Seq<QueueRequest>, family: u32) -> bool {
    exists|i: int| 0 <= i < requests.len()
        && (#[trigger] requests[i]).queue_family_index == family
}

/// The queue-create requests device creation submits for the three
/// selected roles: the indices are deduplicated — one request per distinct
/// family, in order of first occurrence — and each family asks for one
/// queue.
pub fn queue_create_requests(queue_family_indices: &[u32; 3]) -> (requests: Vec<QueueRequest>)
    ensures
        1 <= requests@.len() <= 3,
        forall|i: int| 0 <= i < requests@.len()
            ==> (#[trigger] requests@[i]).queue_count == 1,
        // Every request names one of the selected families.
        forall|i: int| 0 <= i < requests@.len()
            ==> {
                ||| (#[trigger] requests@[i]).queue_family_index == queue_family_indices@[0]
                ||| requests@[i].queue_family_index == queue_family_indices@[1]
                ||| requests@[i].queue_family_index == queue_family_indices@[2]
            },
        // Every selected family has a request.
        has_family(requests@, queue_family_indices@[0]),
        has_family(requests@, queue_family_indices@[1]),
        has_family(requests@, queue_family_indices@[2]),
        // No family is requested twice.
        forall|i: int, j: int| 0 <= i < j < requests@.len()
            ==> (#[trigger] requests@[i]).queue_family_index
                != (#[trigger] requests@[j]).queue_family_index,
{
    let mut requests: Vec<QueueRequest> = Vec::new();
    let mut k: usize = 0;
    while k < 3
        invariant
            k <= 3,
            requests@.len() <= k,
            forall|i: int| 0 <= i < requests@.len()
                ==> (#[trigger] requests@[i]).queue_count == 1,
            forall|i: int| 0 <= i < requests@.len()
                ==> {
                    ||| (#[trigger] requests@[i]).queue_family_index
                        == queue_family_indices@[0]
                    ||| requests@[i].queue_family_index == queue_family_indices@[1]
                    ||| requests@[i].queue_family_index == queue_family_indices@[2]
                },
            forall|m: int| 0 <= m < k
                ==> has_family(requests@, #[trigger] queue_family_indices@[m]),
            forall|i: int, j: int| 0 <= i < j < requests@.len()
                ==> (#[trigger] requests@[i]).queue_family_index
                    != (#[trigger] requests@[j]).queue_family_index,
        decreases 3 - k,
    {
        let family = queue_family_indices[k];
        let ghost previous = requests@;
        let mut seen = false;
        let mut i: usize = 0;
        while i < requests.len()
            invariant
                i <= requests@.len(),
                requests@ == previous,
                seen <==> exists|j: int| 0 <= j < i
                    && (#[trigger] requests@[j]).queue_family_index == family,
            decreases requests@.len() - i,
        {
            if requests[i].queue_family_index == family {
                seen = true;
            }
            i = i + 1;
        }
        if !seen {
            requests.push(QueueRequest { queue_family_index: family, queue_count: 1 });
        }
        proof {
            assert forall|m: int| 0 <= m < k + 1
                implies has_family(requests@, #[trigger] queue_family_indices@[m]) by {
                if m < k {
                    let i0 = choose|i: int| 0 <= i < previous.len()
                        && (#[trigger] previous[i]).queue_family_index
                            == queue_family_indices@[m];
                    assert(requests@[i0].queue_family_index == queue_family_indices@[m]);
                } else {
                    if seen {
                        let j = choose|j: int| 0 <= j < previous.len()
                            && (#[trigger] previous[j]).queue_family_index == family;
                        assert(requests@[j].queue_family_index == queue_family_indices@[m]);
                    } else {
                        assert(requests@[requests@.len() - 1].queue_family_index
                            == queue_family_indices@[m]);
                    }
                }
            }
        }
        k = k + 1;
    }
    proof {
        let i0 = choose|i: int| 0 <= i < requests@.len()
            && (#[trigger] requests@[i]).queue_family_index == queue_family_indices@[0];
        assert(requests@.len() >= 1);
    }
    requests
}

} // verus!

