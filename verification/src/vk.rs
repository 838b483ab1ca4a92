//! Plain-value surface of the graphics driver API.
//!
//! The engine speaks to the driver in terms of these types: enumerations,
//! flag bits, and description records.  Driver objects themselves are opaque;
//! the library carries them as numeric handles.  Records that the C API
//! expresses through pointers and element counts hold their elements directly
//! here.

use vstd::prelude::*;

verus! {

// Sentinel values of the driver API.
pub const QUEUE_FAMILY_IGNORED: u32 = 0xFFFF_FFFF;
pub const SUBPASS_EXTERNAL: u32 = 0xFFFF_FFFF;
pub const WHOLE_SIZE: u64 = 0xFFFF_FFFF_FFFF_FFFF;
pub const MAX_MEMORY_HEAPS: usize = 16;
pub const MAX_MEMORY_TYPES: usize = 32;

/// The extent a surface reports when it leaves the choice of swapchain
/// extent to the application.
pub const EXTENT_UNDEFINED: u32 = 0xFFFF_FFFF;

// Sizes and masks.
pub type DeviceSize = u64;
pub type Flags = u32;
pub type Bool32 = u32;
pub type AccessFlags = Flags;
pub type BufferUsageFlags = Flags;
pub type ColorComponentFlags = Flags;
pub type CommandBufferUsageFlags = Flags;
pub type CommandPoolCreateFlags = Flags;
pub type CullModeFlags = Flags;
pub type FenceCreateFlags = Flags;
pub type ImageAspectFlags = Flags;
pub type ImageUsageFlags = Flags;
pub type MemoryHeapFlags = Flags;
pub type MemoryPropertyFlags = Flags;
pub type PipelineStageFlags = Flags;
pub type QueueFlags = Flags;
pub type SampleCountFlags = Flags;
pub type SemaphoreCreateFlags = Flags;
pub type ShaderStageFlags = Flags;
pub type SurfaceTransformFlagsKHR = Flags;

// Opaque driver objects, carried as numeric handles.  The null handle is 0.
pub type Buffer = u64;
pub type CommandBuffer = u64;
pub type CommandPool = u64;
pub type DescriptorPool = u64;
pub type DescriptorSet = u64;
pub type DescriptorSetLayout = u64;
pub type Device = u64;
pub type DeviceMemory = u64;
pub type Fence = u64;
pub type Framebuffer = u64;
pub type Image = u64;
pub type ImageView = u64;
pub type Instance = u64;
pub type PhysicalDevice = u64;
pub type Pipeline = u64;
pub type PipelineLayout = u64;
pub type Queue = u64;
pub type RenderPass = u64;
pub type Sampler = u64;
pub type Semaphore = u64;
pub type ShaderModule = u64;
pub type SurfaceKHR = u64;
pub type SwapchainKHR = u64;

#[derive(Clone, Copy, Debug, PartialEq, Eq, Structural)]
pub struct Extent2D {
    pub width: u32,
    pub height: u32,
}

#[derive(Clone, Copy, Debug, PartialEq, Eq, Structural)]
pub struct Extent3D {
    pub width: u32,
    pub height: u32,
    pub depth: u32,
}

#[derive(Clone, Copy, Debug, PartialEq, Eq, Structural)]
pub struct Offset2D {
    pub x: i32,
    pub y: i32,
}

#[derive(Clone, Copy, Debug, PartialEq, Eq, Structural)]
pub struct Offset3D {
    pub x: i32,
    pub y: i32,
    pub z: i32,
}

#[derive(Clone, Copy, Debug, PartialEq, Eq, Structural)]
pub struct Rect2D {
    pub offset: Offset2D,
    pub extent: Extent2D,
}

#[derive(Clone, Copy, Debug, PartialEq, Eq, Structural)]
pub struct SurfaceCapabilitiesKHR {
    pub min_image_count: u32,
    pub max_image_count: u32,
    pub current_extent: Extent2D,
    pub min_image_extent: Extent2D,
    pub max_image_extent: Extent2D,
    pub max_image_array_layers: u32,
    pub supported_transforms: SurfaceTransformFlagsKHR,
    pub current_transform: SurfaceTransformFlagBitsKHR,
    pub supported_composite_alpha: CompositeAlphaFlagsKHR,
    pub supported_usage_flags: ImageUsageFlags,
}

#[derive(Clone, Copy, Debug, PartialEq, Eq, Structural)]
pub struct SurfaceFormatKHR {
    pub format: Format,
    pub color_space: ColorSpaceKHR,
}

#[derive(Clone, Copy, Debug, PartialEq, Eq, Structural)]
pub enum Format {
    Undefined,
    R8UNORM,
    R8G8UNORM,
    R8G8B8UNORM,
    B8G8R8UNORM,
    R8G8B8A8UNORM,
    R8G8B8A8SRGB,
    B8G8R8A8UNORM,
    B8G8R8A8SRGB,
    R16G16SFLOAT,
    R16G16B16A16SFLOAT,
    R32SFLOAT,
    R32G32SFLOAT,
    R32G32B32SFLOAT,
    R32G32B32A32SFLOAT,
    D16UNORM,
    D32SFLOAT,
    D24UNORMS8UINT,
}

#[derive(Clone, Copy, Debug, PartialEq, Eq, Structural)]
pub enum ColorSpaceKHR {
    SRGBNonlinearKHR,
    DisplayP3NonlinearEXT,
    ExtendedSRGBLinearExt,
    DisplayP3LinearEXT,
    DCIP3NonlinearEXT,
    BT709LinearEXT,
    BT709NonlinearEXT,
    HDR10ST2084EXT,
    DolbyVisionEXT,
    HDR10HLGEXT,
    AdobeRGBLinearEXT,
    AdobeRGBNonlinearEXT,
    PassThroughEXT,
    ExtendedSRGBNonlinearEXT,
    DisplayNativeAMD,
}

#[derive(Clone, Copy, Debug, PartialEq, Eq, Structural)]
pub enum SurfaceTransformFlagBitsKHR {
    Identity,
    Rotate90,
    Rotate180,
    Rotate270,
    HorizontalMirror,
    HorizontalMirrorRotate90,
    HorizontalMirrorRotate180,
    HorizontalMirrorRotate270,
    Inherit,
}

#[derive(Clone, Copy, Debug, PartialEq, Eq, Structural)]
pub enum CompositeAlphaFlagsKHR {
    Opaque,
    PreMultiplied,
    PostMultiplied,
    Inherit,
}

#[derive(Clone, Copy, Debug, PartialEq, Eq, Structural)]
pub enum PresentModeKHR {
    Immediate,
    Mailbox,
    Fifo,
    FifoRelaxed,
}

#[derive(Clone, Copy, Debug, PartialEq, Eq, Structural)]
pub enum SharingMode {
    Exclusive,
    Concurrent,
}


#[derive(Clone, Copy, Debug, PartialEq, Eq, Structural)]
pub enum ImageLayout {
    Undefined,
    General,
    ColorAttachmentOptimal,
    DepthStencilAttachmentOptimal,
    DepthStencilReadOnlyOptimal,
    ShaderReadOnlyOptimal,
    TransferSourceOptimal,
    TransferDestinationOptimal,
    Preinitialized,
    PresentSourceKHR,
    SharedPresentKHR,
}

#[derive(Clone, Copy, Debug, PartialEq, Eq, Structural)]
pub enum ImageTiling {
    Optimal,
    Linear,
}

#[derive(Clone, Copy, Debug, PartialEq, Eq, Structural)]
pub enum ImageType {
    OneDimensional,
    TwoDimensional,
    ThreeDimensional,
}

#[derive(Clone, Copy, Debug, PartialEq, Eq, Structural)]
pub enum ImageViewType {
    OneDimensional,
    TwoDimensional,
    ThreeDimensional,
    Cube,
    Array1D,
    Array2D,
    ArrayCube,
}

pub type ImageViewCreateFlags = Flags;

#[derive(Clone, Copy, Debug, PartialEq, Eq, Structural)]
pub enum ComponentSwizzle {
    Identity,
    Zero,
    One,
    R,
    G,
    B,
    A,
}

#[derive(Clone, Copy, Debug, PartialEq, Eq, Structural)]
pub enum CommandBufferLevel {
    Primary,
    Secondary,
}

#[derive(Clone, Copy, Debug, PartialEq, Eq, Structural)]
pub enum DescriptorType {
    Sampler,
    CombinedImageSampler,
    SamplerImage,
    StorageImage,
    UniformTexelBuffer,
    StorageTexelBuffer,
    UniformBuffer,
    StorageBuffer,
    UniformBufferDynamic,
    StorageBufferDynamic,
    InputAttachment,
}

#[derive(Clone, Copy, Debug, PartialEq, Eq, Structural)]
pub enum AttachmentLoadOp {
    Load,
    Clear,
    DontCare,
}

#[derive(Clone, Copy, Debug, PartialEq, Eq, Structural)]
pub enum AttachmentStoreOp {
    Store,
    DontCare,
}

#[derive(Clone, Copy, Debug, PartialEq, Eq, Structural)]
pub enum PipelineBindPoint {
    Graphics,
    Compute,
}

#[derive(Clone, Copy, Debug, PartialEq, Eq, Structural)]
pub enum PrimitiveTopology {
    PointList,
    LineList,
    LineStrip,
    TriangleList,
    TriangleStrip,
    TriangleFan,
}

#[derive(Clone, Copy, Debug, PartialEq, Eq, Structural)]
pub enum PolygonMode {
    Fill,
    Line,
    Point,
}

#[derive(Clone, Copy, Debug, PartialEq, Eq, Structural)]
pub enum FrontFace {
    CounterClockwise,
    Clockwise,
}

#[derive(Clone, Copy, Debug, PartialEq, Eq, Structural)]
pub enum BlendFactor {
    Zero,
    One,
    SourceColor,
    OneMinusSourceColor,
    DestinationColor,
    OneMinusDestinationColor,
    SourceAlpha,
    OneMinusSourceAlpha,
    DestinationAlpha,
    OneMinusDestinationAlpha,
    ConstantColor,
    OneMinusConstantColor,
    ConstantAlpha,
    OneMinusConstantAlpha,
    SourceAlphaSaturate,
}

#[derive(Clone, Copy, Debug, PartialEq, Eq, Structural)]
pub enum BlendOp {
    Add,
    Subtract,
    ReverseSubtract,
    Min,
    Max,
}

#[derive(Clone, Copy, Debug, PartialEq, Eq, Structural)]
pub enum LogicOp {
    Clear,
    And,
    AndReverse,
    Copy,
    AndInverted,
    NoOp,
    Xor,
    Or,
    Nor,
    Equivalent,
    Invert,
    OrReverse,
    CopyInverted,
    OrInverted,
    Nand,
    SetAllOnes,
}

#[derive(Clone, Copy, Debug, PartialEq, Eq, Structural)]
pub enum DynamicState {
    Viewport,
    Scissor,
    LineWidth,
    DepthBias,
    BlendConstants,
    DepthBounds,
    StencilCompareMask,
    StencilWriteMask,
    StencilReference,
}

#[derive(Clone, Copy, Debug, PartialEq, Eq, Structural)]
pub enum VertexInputRate {
    Vertex,
    Instance,
}

#[derive(Clone, Copy, Debug, PartialEq, Eq, Structural)]
pub enum SubpassContents {
    Inline,
    SecondaryCommandBuffers,
}

#[derive(Clone, Copy, Debug, PartialEq, Eq, Structural)]
pub enum Filter {
    Nearest,
    Linear,
}

#[derive(Clone, Copy, Debug, PartialEq, Eq, Structural)]
pub enum SamplerAddressMode {
    Repeat,
    MirroredRepeat,
    ClampToEdge,
    ClampToBorder,
}

#[derive(Clone, Copy, Debug, PartialEq, Eq, Structural)]
pub enum SamplerMipmapMode {
    Nearest,
    Linear,
}

#[derive(Clone, Copy, Debug, PartialEq, Eq, Structural)]
pub enum MipmapMode {
    Nearest,
    Linear,
}

#[derive(Clone, Copy, Debug, PartialEq, Eq, Structural)]
pub enum BorderColor {
    FloatTransparentBlack,
    IntTransparentBlack,
    FloatOpaqueBlack,
    IntOpaqueBlack,
    FloatOpaqueWhite,
    IntOpaqueWhite,
}

#[derive(Clone, Copy, Debug, PartialEq, Eq, Structural)]
pub enum CompareOp {
    Never,
    Less,
    Equal,
    LessOrEqual,
    Greater,
    NotEqual,
    GreaterOrEqual,
    Always,
}

#[derive(Clone, Copy, Debug, PartialEq, Eq, Structural)]
pub enum StencilOp {
    Keep,
    Zero,
    Replace,
    IncrementAndClamp,
    DecrementAndClamp,
    Invert,
    IncrementAndWrap,
    DecrementAndWrap,
}

#[derive(Clone, Copy, Debug, PartialEq, Eq, Structural)]
pub enum IndexType {
    Uint16,
    Uint32,
}

#[derive(Clone, Copy, Debug, PartialEq, Eq, Structural)]
pub enum PhysicalDeviceType {
    Other,
    IntegratedGPU,
    DiscreteGPU,
    VirtualGPU,
    CPU,
}

#[derive(Clone, Copy, Debug, PartialEq, Eq, Structural)]
pub enum InternalAllocationType {
    Executable,
}

#[derive(Clone, Copy, Debug, PartialEq, Eq, Structural)]
pub enum SystemAllocationScope {
    Command,
    Object,
    Cache,
    Device,
    Instance,
}

/// The driver's call status codes.  Only the handful the engine inspects are
/// modeled.
#[derive(Clone, Copy, Debug, PartialEq, Eq, Structural)]
pub enum ResultCode {
    Success,
    NotReady,
    Timeout,
    Incomplete,
    ErrorOutOfHostMemory,
    ErrorOutOfDeviceMemory,
    ErrorInitializationFailed,
    ErrorDeviceLost,
    SuboptimalKHR,
    ErrorOutOfDateKHR,
    ErrorSurfaceLostKHR,
}

// Flag-bit enumerations.  Each carries its driver-defined mask value,
// returned by `bits`.

#[derive(Clone, Copy, Debug, PartialEq, Eq, Structural)]
pub enum MemoryPropertyFlagBits {
    DeviceLocal,
    HostVisible,
    HostCoherent,
    Cached,
    LazilyAllocated,
    Protected,
}

impl MemoryPropertyFlagBits {
    pub open spec fn spec_bits(self) -> u32 {
        match self {
            MemoryPropertyFlagBits::DeviceLocal => 0x0000_0001,
            MemoryPropertyFlagBits::HostVisible => 0x0000_0002,
            MemoryPropertyFlagBits::HostCoherent => 0x0000_0004,
            MemoryPropertyFlagBits::Cached => 0x0000_0008,
            MemoryPropertyFlagBits::LazilyAllocated => 0x0000_0010,
            MemoryPropertyFlagBits::Protected => 0x0000_0020,
        }
    }

    #[verifier::when_used_as_spec(spec_bits)]
    pub fn bits(self) -> (r: u32)
        ensures
            r == self.spec_bits(),
    {
        match self {
            MemoryPropertyFlagBits::DeviceLocal => 0x0000_0001,
            MemoryPropertyFlagBits::HostVisible => 0x0000_0002,
            MemoryPropertyFlagBits::HostCoherent => 0x0000_0004,
            MemoryPropertyFlagBits::Cached => 0x0000_0008,
            MemoryPropertyFlagBits::LazilyAllocated => 0x0000_0010,
            MemoryPropertyFlagBits::Protected => 0x0000_0020,
        }
    }
}

#[derive(Clone, Copy, Debug, PartialEq, Eq, Structural)]
pub enum MemoryHeapFlagBits {
    DeviceLocal,
    MultiInstance,
}

impl MemoryHeapFlagBits {
    pub open spec fn spec_bits(self) -> u32 {
        match self {
            MemoryHeapFlagBits::DeviceLocal => 0x0000_0001,
            MemoryHeapFlagBits::MultiInstance => 0x0000_0002,
        }
    }

    #[verifier::when_used_as_spec(spec_bits)]
    pub fn bits(self) -> (r: u32)
        ensures
            r == self.spec_bits(),
    {
        match self {
            MemoryHeapFlagBits::DeviceLocal => 0x0000_0001,
            MemoryHeapFlagBits::MultiInstance => 0x0000_0002,
        }
    }
}

#[derive(Clone, Copy, Debug, PartialEq, Eq, Structural)]
pub enum BufferUsageFlagBits {
    TransferSource,
    TransferDestination,
    UniformTexelBuffer,
    StorageTexelBuffer,
    UniformBuffer,
    StorageBuffer,
    IndexBuffer,
    VertexBuffer,
    IndirectBuffer,
}

impl BufferUsageFlagBits {
    pub open spec fn spec_bits(self) -> u32 {
        match self {
            BufferUsageFlagBits::TransferSource => 0x0000_0001,
            BufferUsageFlagBits::TransferDestination => 0x0000_0002,
            BufferUsageFlagBits::UniformTexelBuffer => 0x0000_0004,
            BufferUsageFlagBits::StorageTexelBuffer => 0x0000_0008,
            BufferUsageFlagBits::UniformBuffer => 0x0000_0010,
            BufferUsageFlagBits::StorageBuffer => 0x0000_0020,
            BufferUsageFlagBits::IndexBuffer => 0x0000_0040,
            BufferUsageFlagBits::VertexBuffer => 0x0000_0080,
            BufferUsageFlagBits::IndirectBuffer => 0x0000_0100,
        }
    }

    #[verifier::when_used_as_spec(spec_bits)]
    pub fn bits(self) -> (r: u32)
        ensures
            r == self.spec_bits(),
    {
        match self {
            BufferUsageFlagBits::TransferSource => 0x0000_0001,
            BufferUsageFlagBits::TransferDestination => 0x0000_0002,
            BufferUsageFlagBits::UniformTexelBuffer => 0x0000_0004,
            BufferUsageFlagBits::StorageTexelBuffer => 0x0000_0008,
            BufferUsageFlagBits::UniformBuffer => 0x0000_0010,
            BufferUsageFlagBits::StorageBuffer => 0x0000_0020,
            BufferUsageFlagBits::IndexBuffer => 0x0000_0040,
            BufferUsageFlagBits::VertexBuffer => 0x0000_0080,
            BufferUsageFlagBits::IndirectBuffer => 0x0000_0100,
        }
    }
}

#[derive(Clone, Copy, Debug, PartialEq, Eq, Structural)]
pub enum ImageUsageFlagBits {
    TransferSource,
    TransferDestination,
    Sampled,
    Storage,
    ColorAttachment,
    DepthStencilAttachment,
    TransientAttachment,
    InputAttachment,
}

impl ImageUsageFlagBits {
    pub open spec fn spec_bits(self) -> u32 {
        match self {
            ImageUsageFlagBits::TransferSource => 0x0000_0001,
            ImageUsageFlagBits::TransferDestination => 0x0000_0002,
            ImageUsageFlagBits::Sampled => 0x0000_0004,
            ImageUsageFlagBits::Storage => 0x0000_0008,
            ImageUsageFlagBits::ColorAttachment => 0x0000_0010,
            ImageUsageFlagBits::DepthStencilAttachment => 0x0000_0020,
            ImageUsageFlagBits::TransientAttachment => 0x0000_0040,
            ImageUsageFlagBits::InputAttachment => 0x0000_0080,
        }
    }

    #[verifier::when_used_as_spec(spec_bits)]
    pub fn bits(self) -> (r: u32)
        ensures
            r == self.spec_bits(),
    {
        match self {
            ImageUsageFlagBits::TransferSource => 0x0000_0001,
            ImageUsageFlagBits::TransferDestination => 0x0000_0002,
            ImageUsageFlagBits::Sampled => 0x0000_0004,
            ImageUsageFlagBits::Storage => 0x0000_0008,
            ImageUsageFlagBits::ColorAttachment => 0x0000_0010,
            ImageUsageFlagBits::DepthStencilAttachment => 0x0000_0020,
            ImageUsageFlagBits::TransientAttachment => 0x0000_0040,
            ImageUsageFlagBits::InputAttachment => 0x0000_0080,
        }
    }
}

#[derive(Clone, Copy, Debug, PartialEq, Eq, Structural)]
pub enum FenceCreateFlagBits {
    Signaled,
}

impl FenceCreateFlagBits {
    pub open spec fn spec_bits(self) -> u32 {
        match self {
            FenceCreateFlagBits::Signaled => 0x0000_0001,
        }
    }

    #[verifier::when_used_as_spec(spec_bits)]
    pub fn bits(self) -> (r: u32)
        ensures
            r == self.spec_bits(),
    {
        match self {
            FenceCreateFlagBits::Signaled => 0x0000_0001,
        }
    }
}

#[derive(Clone, Copy, Debug, PartialEq, Eq, Structural)]
pub enum CommandBufferUsageFlagBits {
    OneTimeSubmit,
    RenderPassContinue,
    SimultaneousUse,
}

impl CommandBufferUsageFlagBits {
    pub open spec fn spec_bits(self) -> u32 {
        match self {
            CommandBufferUsageFlagBits::OneTimeSubmit => 0x0000_0001,
            CommandBufferUsageFlagBits::RenderPassContinue => 0x0000_0002,
            CommandBufferUsageFlagBits::SimultaneousUse => 0x0000_0004,
        }
    }

    #[verifier::when_used_as_spec(spec_bits)]
    pub fn bits(self) -> (r: u32)
        ensures
            r == self.spec_bits(),
    {
        match self {
            CommandBufferUsageFlagBits::OneTimeSubmit => 0x0000_0001,
            CommandBufferUsageFlagBits::RenderPassContinue => 0x0000_0002,
            CommandBufferUsageFlagBits::SimultaneousUse => 0x0000_0004,
        }
    }
}

#[derive(Clone, Copy, Debug, PartialEq, Eq, Structural)]
pub enum CommandPoolCreateFlagBits {
    Transient,
    ResetCommandBuffer,
    Protected,
}

impl CommandPoolCreateFlagBits {
    pub open spec fn spec_bits(self) -> u32 {
        match self {
            CommandPoolCreateFlagBits::Transient => 0x0000_0001,
            CommandPoolCreateFlagBits::ResetCommandBuffer => 0x0000_0002,
            CommandPoolCreateFlagBits::Protected => 0x0000_0004,
        }
    }

    #[verifier::when_used_as_spec(spec_bits)]
    pub fn bits(self) -> (r: u32)
        ensures
            r == self.spec_bits(),
    {
        match self {
            CommandPoolCreateFlagBits::Transient => 0x0000_0001,
            CommandPoolCreateFlagBits::ResetCommandBuffer => 0x0000_0002,
            CommandPoolCreateFlagBits::Protected => 0x0000_0004,
        }
    }
}

#[derive(Clone, Copy, Debug, PartialEq, Eq, Structural)]
pub enum QueueFlagBits {
    Graphics,
    Compute,
    Transfer,
    SparseBinding,
    Protected,
}

impl QueueFlagBits {
    pub open spec fn spec_bits(self) -> u32 {
        match self {
            QueueFlagBits::Graphics => 0x0000_0001,
            QueueFlagBits::Compute => 0x0000_0002,
            QueueFlagBits::Transfer => 0x0000_0004,
            QueueFlagBits::SparseBinding => 0x0000_0008,
            QueueFlagBits::Protected => 0x0000_0010,
        }
    }

    #[verifier::when_used_as_spec(spec_bits)]
    pub fn bits(self) -> (r: u32)
        ensures
            r == self.spec_bits(),
    {
        match self {
            QueueFlagBits::Graphics => 0x0000_0001,
            QueueFlagBits::Compute => 0x0000_0002,
            QueueFlagBits::Transfer => 0x0000_0004,
            QueueFlagBits::SparseBinding => 0x0000_0008,
            QueueFlagBits::Protected => 0x0000_0010,
        }
    }
}

#[derive(Clone, Copy, Debug, PartialEq, Eq, Structural)]
pub enum AccessFlagBits {
    IndirectCommandRead,
    IndexRead,
    VertexAttributeRead,
    UniformRead,
    InputAttachmentRead,
    ShaderRead,
    ShaderWrite,
    ColorAttachmentRead,
    ColorAttachmentWrite,
    DepthStencilAttachmentRead,
    DepthStencilAttachmentWrite,
    TransferRead,
    TransferWrite,
    HostRead,
    HostWrite,
    MemoryRead,
    MemoryWrite,
}

impl AccessFlagBits {
    pub open spec fn spec_bits(self) -> u32 {
        match self {
            AccessFlagBits::IndirectCommandRead => 0x0000_0001,
            AccessFlagBits::IndexRead => 0x0000_0002,
            AccessFlagBits::VertexAttributeRead => 0x0000_0004,
            AccessFlagBits::UniformRead => 0x0000_0008,
            AccessFlagBits::InputAttachmentRead => 0x0000_0010,
            AccessFlagBits::ShaderRead => 0x0000_0020,
            AccessFlagBits::ShaderWrite => 0x0000_0040,
            AccessFlagBits::ColorAttachmentRead => 0x0000_0080,
            AccessFlagBits::ColorAttachmentWrite => 0x0000_0100,
            AccessFlagBits::DepthStencilAttachmentRead => 0x0000_0200,
            AccessFlagBits::DepthStencilAttachmentWrite => 0x0000_0400,
            AccessFlagBits::TransferRead => 0x0000_0800,
            AccessFlagBits::TransferWrite => 0x0000_1000,
            AccessFlagBits::HostRead => 0x0000_2000,
            AccessFlagBits::HostWrite => 0x0000_4000,
            AccessFlagBits::MemoryRead => 0x0000_8000,
            AccessFlagBits::MemoryWrite => 0x0001_0000,
        }
    }

    #[verifier::when_used_as_spec(spec_bits)]
    pub fn bits(self) -> (r: u32)
        ensures
            r == self.spec_bits(),
    {
        match self {
            AccessFlagBits::IndirectCommandRead => 0x0000_0001,
            AccessFlagBits::IndexRead => 0x0000_0002,
            AccessFlagBits::VertexAttributeRead => 0x0000_0004,
            AccessFlagBits::UniformRead => 0x0000_0008,
            AccessFlagBits::InputAttachmentRead => 0x0000_0010,
            AccessFlagBits::ShaderRead => 0x0000_0020,
            AccessFlagBits::ShaderWrite => 0x0000_0040,
            AccessFlagBits::ColorAttachmentRead => 0x0000_0080,
            AccessFlagBits::ColorAttachmentWrite => 0x0000_0100,
            AccessFlagBits::DepthStencilAttachmentRead => 0x0000_0200,
            AccessFlagBits::DepthStencilAttachmentWrite => 0x0000_0400,
            AccessFlagBits::TransferRead => 0x0000_0800,
            AccessFlagBits::TransferWrite => 0x0000_1000,
            AccessFlagBits::HostRead => 0x0000_2000,
            AccessFlagBits::HostWrite => 0x0000_4000,
            AccessFlagBits::MemoryRead => 0x0000_8000,
            AccessFlagBits::MemoryWrite => 0x0001_0000,
        }
    }
}

#[derive(Clone, Copy, Debug, PartialEq, Eq, Structural)]
pub enum PipelineStageFlagBits {
    TopOfPipe,
    DrawIndirect,
    VertexInput,
    VertexShader,
    TessellationControlShader,
    TessellationEvaluationShader,
    GeometryShader,
    FragmentShader,
    EarlyFragmentTests,
    LateFragmentTests,
    ColorAttachmentOutput,
    ComputeShader,
    Transfer,
    BottomOfPipe,
    Host,
    AllGraphics,
    AllCommands,
}

impl PipelineStageFlagBits {
    pub open spec fn spec_bits(self) -> u32 {
        match self {
            PipelineStageFlagBits::TopOfPipe => 0x0000_0001,
            PipelineStageFlagBits::DrawIndirect => 0x0000_0002,
            PipelineStageFlagBits::VertexInput => 0x0000_0004,
            PipelineStageFlagBits::VertexShader => 0x0000_0008,
            PipelineStageFlagBits::TessellationControlShader => 0x0000_0010,
            PipelineStageFlagBits::TessellationEvaluationShader => 0x0000_0020,
            PipelineStageFlagBits::GeometryShader => 0x0000_0040,
            PipelineStageFlagBits::FragmentShader => 0x0000_0080,
            PipelineStageFlagBits::EarlyFragmentTests => 0x0000_0100,
            PipelineStageFlagBits::LateFragmentTests => 0x0000_0200,
            PipelineStageFlagBits::ColorAttachmentOutput => 0x0000_0400,
            PipelineStageFlagBits::ComputeShader => 0x0000_0800,
            PipelineStageFlagBits::Transfer => 0x0000_1000,
            PipelineStageFlagBits::BottomOfPipe => 0x0000_2000,
            PipelineStageFlagBits::Host => 0x0000_4000,
            PipelineStageFlagBits::AllGraphics => 0x0000_8000,
            PipelineStageFlagBits::AllCommands => 0x0001_0000,
        }
    }

    #[verifier::when_used_as_spec(spec_bits)]
    pub fn bits(self) -> (r: u32)
        ensures
            r == self.spec_bits(),
    {
        match self {
            PipelineStageFlagBits::TopOfPipe => 0x0000_0001,
            PipelineStageFlagBits::DrawIndirect => 0x0000_0002,
            PipelineStageFlagBits::VertexInput => 0x0000_0004,
            PipelineStageFlagBits::VertexShader => 0x0000_0008,
            PipelineStageFlagBits::TessellationControlShader => 0x0000_0010,
            PipelineStageFlagBits::TessellationEvaluationShader => 0x0000_0020,
            PipelineStageFlagBits::GeometryShader => 0x0000_0040,
            PipelineStageFlagBits::FragmentShader => 0x0000_0080,
            PipelineStageFlagBits::EarlyFragmentTests => 0x0000_0100,
            PipelineStageFlagBits::LateFragmentTests => 0x0000_0200,
            PipelineStageFlagBits::ColorAttachmentOutput => 0x0000_0400,
            PipelineStageFlagBits::ComputeShader => 0x0000_0800,
            PipelineStageFlagBits::Transfer => 0x0000_1000,
            PipelineStageFlagBits::BottomOfPipe => 0x0000_2000,
            PipelineStageFlagBits::Host => 0x0000_4000,
            PipelineStageFlagBits::AllGraphics => 0x0000_8000,
            PipelineStageFlagBits::AllCommands => 0x0001_0000,
        }
    }
}

#[derive(Clone, Copy, Debug, PartialEq, Eq, Structural)]
pub enum ImageAspectFlagBits {
    Color,
    Depth,
    Stencil,
    Metadata,
}

impl ImageAspectFlagBits {
    pub open spec fn spec_bits(self) -> u32 {
        match self {
            ImageAspectFlagBits::Color => 0x0000_0001,
            ImageAspectFlagBits::Depth => 0x0000_0002,
            ImageAspectFlagBits::Stencil => 0x0000_0004,
            ImageAspectFlagBits::Metadata => 0x0000_0008,
        }
    }

    #[verifier::when_used_as_spec(spec_bits)]
    pub fn bits(self) -> (r: u32)
        ensures
            r == self.spec_bits(),
    {
        match self {
            ImageAspectFlagBits::Color => 0x0000_0001,
            ImageAspectFlagBits::Depth => 0x0000_0002,
            ImageAspectFlagBits::Stencil => 0x0000_0004,
            ImageAspectFlagBits::Metadata => 0x0000_0008,
        }
    }
}

#[derive(Clone, Copy, Debug, PartialEq, Eq, Structural)]
pub enum ColorComponentFlagBits {
    R,
    G,
    B,
    A,
}

impl ColorComponentFlagBits {
    pub open spec fn spec_bits(self) -> u32 {
        match self {
            ColorComponentFlagBits::R => 0x0000_0001,
            ColorComponentFlagBits::G => 0x0000_0002,
            ColorComponentFlagBits::B => 0x0000_0004,
            ColorComponentFlagBits::A => 0x0000_0008,
        }
    }

    #[verifier::when_used_as_spec(spec_bits)]
    pub fn bits(self) -> (r: u32)
        ensures
            r == self.spec_bits(),
    {
        match self {
            ColorComponentFlagBits::R => 0x0000_0001,
            ColorComponentFlagBits::G => 0x0000_0002,
            ColorComponentFlagBits::B => 0x0000_0004,
            ColorComponentFlagBits::A => 0x0000_0008,
        }
    }
}

#[derive(Clone, Copy, Debug, PartialEq, Eq, Structural)]
pub enum ShaderStageFlagBits {
    Vertex,
    Fragment,
    Compute,
    AllGraphics,
    All,
}

impl ShaderStageFlagBits {
    pub open spec fn spec_bits(self) -> u32 {
        match self {
            ShaderStageFlagBits::Vertex => 0x0000_0001,
            ShaderStageFlagBits::Fragment => 0x0000_0010,
            ShaderStageFlagBits::Compute => 0x0000_0020,
            ShaderStageFlagBits::AllGraphics => 0x0000_001F,
            ShaderStageFlagBits::All => 0x7FFF_FFFF,
        }
    }

    #[verifier::when_used_as_spec(spec_bits)]
    pub fn bits(self) -> (r: u32)
        ensures
            r == self.spec_bits(),
    {
        match self {
            ShaderStageFlagBits::Vertex => 0x0000_0001,
            ShaderStageFlagBits::Fragment => 0x0000_0010,
            ShaderStageFlagBits::Compute => 0x0000_0020,
            ShaderStageFlagBits::AllGraphics => 0x0000_001F,
            ShaderStageFlagBits::All => 0x7FFF_FFFF,
        }
    }
}

#[derive(Clone, Copy, Debug, PartialEq, Eq, Structural)]
pub enum CullModeBits {
    Disabled,
    Front,
    Back,
    FrontAndBack,
}

impl CullModeBits {
    pub open spec fn spec_bits(self) -> u32 {
        match self {
            CullModeBits::Disabled => 0x0000_0000,
            CullModeBits::Front => 0x0000_0001,
            CullModeBits::Back => 0x0000_0002,
            CullModeBits::FrontAndBack => 0x0000_0003,
        }
    }

    #[verifier::when_used_as_spec(spec_bits)]
    pub fn bits(self) -> (r: u32)
        ensures
            r == self.spec_bits(),
    {
        match self {
            CullModeBits::Disabled => 0x0000_0000,
            CullModeBits::Front => 0x0000_0001,
            CullModeBits::Back => 0x0000_0002,
            CullModeBits::FrontAndBack => 0x0000_0003,
        }
    }
}

#[derive(Clone, Copy, Debug, PartialEq, Eq, Structural)]
pub enum SampleCountFlagBits {
    One,
    Two,
    Four,
    Eight,
    Sixteen,
    ThirtyTwo,
    SixtyFour,
}

impl SampleCountFlagBits {
    pub open spec fn spec_bits(self) -> u32 {
        match self {
            SampleCountFlagBits::One => 0x0000_0001,
            SampleCountFlagBits::Two => 0x0000_0002,
            SampleCountFlagBits::Four => 0x0000_0004,
            SampleCountFlagBits::Eight => 0x0000_0008,
            SampleCountFlagBits::Sixteen => 0x0000_0010,
            SampleCountFlagBits::ThirtyTwo => 0x0000_0020,
            SampleCountFlagBits::SixtyFour => 0x0000_0040,
        }
    }

    #[verifier::when_used_as_spec(spec_bits)]
    pub fn bits(self) -> (r: u32)
        ensures
            r == self.spec_bits(),
    {
        match self {
            SampleCountFlagBits::One => 0x0000_0001,
            SampleCountFlagBits::Two => 0x0000_0002,
            SampleCountFlagBits::Four => 0x0000_0004,
            SampleCountFlagBits::Eight => 0x0000_0008,
            SampleCountFlagBits::Sixteen => 0x0000_0010,
            SampleCountFlagBits::ThirtyTwo => 0x0000_0020,
            SampleCountFlagBits::SixtyFour => 0x0000_0040,
        }
    }
}


// Description records.

#[derive(Clone, Copy, Debug, PartialEq, Eq, Structural)]
pub struct MemoryRequirements {
    pub size: DeviceSize,
    pub alignment: DeviceSize,
    pub memory_type_bits: u32,
}

#[derive(Clone, Copy, Debug, PartialEq, Eq, Structural)]
pub struct MemoryType {
    pub property_flags: MemoryPropertyFlags,
    pub heap_index: u32,
}

#[derive(Clone, Copy, Debug, PartialEq, Eq, Structural)]
pub struct MemoryHeap {
    pub size: DeviceSize,
    pub flags: MemoryHeapFlags,
}

/// The device's memory types and heaps.  The C record holds fixed-size
/// arrays with separate counts; here each list holds exactly its entries.
#[derive(Clone, Debug)]
pub struct PhysicalDeviceMemoryProperties {
    pub memory_types: Vec<MemoryType>,
    pub memory_heaps: Vec<MemoryHeap>,
}

#[derive(Clone, Copy, Debug, PartialEq, Eq, Structural)]
pub struct QueueFamilyProperties {
    pub queue_flags: QueueFlags,
    pub queue_count: u32,
    pub timestamp_valid_bits: u32,
    pub min_image_transfer_granularity: Extent3D,
}

#[derive(Clone, Copy, Debug, PartialEq, Eq, Structural)]
pub struct AttachmentDescription {
    pub flags: Flags,
    pub format: Format,
    pub samples: SampleCountFlagBits,
    pub load_op: AttachmentLoadOp,
    pub store_op: AttachmentStoreOp,
    pub stencil_load_op: AttachmentLoadOp,
    pub stencil_store_op: AttachmentStoreOp,
    pub initial_layout: ImageLayout,
    pub final_layout: ImageLayout,
}

#[derive(Clone, Copy, Debug, PartialEq, Eq, Structural)]
pub struct AttachmentReference {
    pub attachment: u32,
    pub layout: ImageLayout,
}

#[derive(Clone, Debug)]
pub struct SubpassDescription {
    pub flags: Flags,
    pub pipeline_bind_point: PipelineBindPoint,
    pub input_attachments: Vec<AttachmentReference>,
    pub color_attachments: Vec<AttachmentReference>,
    pub resolve_attachments: Vec<AttachmentReference>,
    pub depth_stencil_attachment: Option<AttachmentReference>,
    pub preserve_attachments: Vec<u32>,
}

#[derive(Clone, Copy, Debug, PartialEq, Eq, Structural)]
pub struct SubpassDependency {
    pub source_subpass: u32,
    pub destination_subpass: u32,
    pub source_stage_mask: PipelineStageFlags,
    pub destination_stage_mask: PipelineStageFlags,
    pub source_access_mask: AccessFlags,
    pub destination_access_mask: AccessFlags,
    pub dependency_flags: Flags,
}

/// Everything a render pass is created from.
#[derive(Clone, Debug)]
pub struct RenderPassCreateInfo {
    pub flags: Flags,
    pub attachments: Vec<AttachmentDescription>,
    pub subpasses: Vec<SubpassDescription>,
    pub dependencies: Vec<SubpassDependency>,
}

#[derive(Clone, Copy, Debug, PartialEq, Eq, Structural)]
pub struct PushConstantRange {
    pub stage_flags: ShaderStageFlags,
    pub offset: u32,
    pub size: u32,
}

#[derive(Clone, Copy, Debug, PartialEq, Eq, Structural)]
pub struct DescriptorSetLayoutBinding {
    pub binding: u32,
    pub descriptor_type: DescriptorType,
    pub descriptor_count: u32,
    pub stage_flags: ShaderStageFlags,
}

#[derive(Clone, Copy, Debug, PartialEq, Eq, Structural)]
pub struct DescriptorPoolSize {
    pub dtype: DescriptorType,
    pub descriptor_count: u32,
}

#[derive(Clone, Copy, Debug, PartialEq, Eq, Structural)]
pub struct DescriptorImageInfo {
    pub sampler: Sampler,
    pub image_view: ImageView,
    pub image_layout: ImageLayout,
}

#[derive(Clone, Copy, Debug, PartialEq, Eq, Structural)]
pub struct DescriptorBufferInfo {
    pub buffer: Buffer,
    pub offset: DeviceSize,
    pub range: DeviceSize,
}

#[derive(Clone, Copy, Debug, PartialEq, Eq, Structural)]
pub struct VertexInputAttributeDescription {
    pub location: u32,
    pub binding: u32,
    pub format: Format,
    pub offset: u32,
}

#[derive(Clone, Copy, Debug, PartialEq, Eq, Structural)]
pub struct VertexInputBindingDescription {
    pub binding: u32,
    pub stride: u32,
    pub input_rate: VertexInputRate,
}

#[derive(Clone, Copy, Debug, PartialEq, Eq, Structural)]
pub struct ComponentMapping {
    pub r: ComponentSwizzle,
    pub g: ComponentSwizzle,
    pub b: ComponentSwizzle,
    pub a: ComponentSwizzle,
}

#[derive(Clone, Copy, Debug, PartialEq, Eq, Structural)]
pub struct ImageSubresource {
    pub aspect_mask: ImageAspectFlags,
    pub mip_level: u32,
    pub array_layer: u32,
}

#[derive(Clone, Copy, Debug, PartialEq, Eq, Structural)]
pub struct ImageSubresourceLayers {
    pub aspect_mask: ImageAspectFlags,
    pub mip_level: u32,
    pub base_array_layer: u32,
    pub layer_count: u32,
}

#[derive(Clone, Copy, Debug, PartialEq, Eq, Structural)]
pub struct ImageSubresourceRange {
    pub aspect_mask: ImageAspectFlags,
    pub base_mip_level: u32,
    pub mip_levels: u32,
    pub base_array_layer: u32,
    pub array_layers: u32,
}

#[derive(Clone, Copy, Debug, PartialEq, Eq, Structural)]
pub struct BufferCopy {
    pub src_offset: DeviceSize,
    pub dst_offset: DeviceSize,
    pub size: DeviceSize,
}

#[derive(Clone, Copy, Debug, PartialEq, Eq, Structural)]
pub struct BufferImageCopy {
    pub buffer_offset: DeviceSize,
    pub buffer_row_length: u32,
    pub buffer_image_height: u32,
    pub image_subresource: ImageSubresourceLayers,
    pub image_offset: Offset3D,
    pub image_extent: Extent3D,
}

#[derive(Clone, Copy, Debug, PartialEq, Eq, Structural)]
pub struct ImageCopy {
    pub src_subresource: ImageSubresourceLayers,
    pub src_offset: Offset3D,
    pub dst_subresources: ImageSubresourceLayers,
    pub dst_offset: Offset3D,
    pub extent: Extent3D,
}

#[derive(Clone, Copy, Debug, PartialEq, Eq, Structural)]
pub struct ClearRect {
    pub rect: Rect2D,
    pub base_array_layer: u32,
    pub layer_count: u32,
}

#[derive(Clone, Copy, Debug, PartialEq, Eq, Structural)]
pub struct DispatchIndirectCommand {
    pub x: u32,
    pub y: u32,
    pub z: u32,
}

#[derive(Clone, Copy, Debug, PartialEq, Eq, Structural)]
pub struct DrawIndexedIndirectCommand {
    pub index_count: u32,
    pub instance_count: u32,
    pub first_index: u32,
    pub vertex_offset: u32,
    pub first_instance: u32,
}

#[derive(Clone, Copy, Debug, PartialEq, Eq, Structural)]
pub struct DrawIndirectCommand {
    pub vertex_count: u32,
    pub instance_count: u32,
    pub first_vertex: u32,
    pub first_instance: u32,
}

#[derive(Clone, Copy, Debug, PartialEq, Eq, Structural)]
pub struct PipelineColorBlendAttachmentState {
    pub blend_enable: Bool32,
    pub src_color_blend_factor: BlendFactor,
    pub dst_color_blend_factor: BlendFactor,
    pub color_blend_op: BlendOp,
    pub src_alpha_blend_factor: BlendFactor,
    pub dst_alpha_blend_factor: BlendFactor,
    pub alpha_blend_op: BlendOp,
    pub color_write_mask: ColorComponentFlags,
}

#[derive(Clone, Copy, Debug, PartialEq, Eq, Structural)]
pub struct StencilOpState {
    pub fail_op: StencilOp,
    pub pass_op: StencilOp,
    pub depth_fail_op: StencilOp,
    pub compare_op: CompareOp,
    pub compare_mask: u32,
    pub write_mask: u32,
    pub reference: u32,
}

#[derive(Clone, Copy, Debug, PartialEq, Eq, Structural)]
pub struct SpecializationMapEntry {
    pub constant_id: u32,
    pub offset: u32,
    pub size: usize,
}

#[derive(Clone, Copy, Debug, PartialEq, Eq, Structural)]
pub struct SubresourceLayout {
    pub offset: DeviceSize,
    pub size: DeviceSize,
    pub row_pitch: DeviceSize,
    pub array_pitch: DeviceSize,
    pub depth_pitch: DeviceSize,
}

#[derive(Clone, Copy, Debug, PartialEq, Eq, Structural)]
pub struct FormatProperties {
    pub max_extent: Extent3D,
    pub max_mip_levels: u32,
    pub max_array_layers: u32,
    pub sample_counts: SampleCountFlags,
    pub max_resource_size: DeviceSize,
}

#[derive(Clone, Copy, Debug, PartialEq, Eq, Structural)]
pub struct ImageFormatProperties {
    pub max_extent: Extent3D,
    pub max_mip_levels: u32,
    pub max_array_layers: u32,
    pub sample_counts: SampleCountFlags,
    pub max_resource_size: DeviceSize,
}

#[derive(Clone, Copy, Debug, PartialEq, Eq, Structural)]
pub struct PhysicalDeviceSparseProperties {
    pub residency_standard_2d_block_shape: Bool32,
    pub residency_standard_2d_multisample_block_shape: Bool32,
    pub residency_standard_3d_block_shape: Bool32,
    pub residency_aligned_mip_size: Bool32,
    pub residency_no_resident_strict: Bool32,
}

#[derive(Clone, Copy, Debug, PartialEq, Eq, Structural)]
pub struct PhysicalDeviceFeatures {
    pub robust_buffer_access: Bool32,
    pub full_draw_index_uint32: Bool32,
    pub image_cube_array: Bool32,
    pub independent_blend: Bool32,
    pub geometry_shader: Bool32,
    pub tessellation_shader: Bool32,
    pub sample_rate_shading: Bool32,
    pub dual_src_blend: Bool32,
    pub logic_op: Bool32,
    pub multi_draw_indirect: Bool32,
    pub draw_indirect_first_instance: Bool32,
    pub depth_clamp: Bool32,
    pub depth_bias_clamp: Bool32,
    pub fill_mode_non_solid: Bool32,
    pub depth_bounds: Bool32,
    pub wide_lines: Bool32,
    pub large_points: Bool32,
    pub alpha_to_one: Bool32,
    pub multi_viewport: Bool32,
    pub sampler_anisotropy: Bool32,
    pub texture_compression_etc2: Bool32,
    pub texture_compression_astc_ldr: Bool32,
    pub texture_compression_bc: Bool32,
    pub occlusion_query_precise: Bool32,
    pub pipeline_statistics_query: Bool32,
    pub vertex_pipeline_stores_and_atomics: Bool32,
    pub fragment_stores_and_atomics: Bool32,
    pub shader_tessellation_and_geometry_point_size: Bool32,
    pub shader_image_gather_extended: Bool32,
    pub shader_storage_image_extended_formats: Bool32,
    pub shader_storage_image_multisample: Bool32,
    pub shader_storage_image_read_without_format: Bool32,
    pub shader_storage_image_write_without_format: Bool32,
    pub shader_uniform_buffer_array_dynamic_indexing: Bool32,
    pub shader_sampled_image_array_dynamic_indexing: Bool32,
    pub shader_storage_buffer_array_dynamic_indexing: Bool32,
    pub shader_storage_image_array_dynamic_indexing: Bool32,
    pub shader_clip_distance: Bool32,
    pub shader_cull_distance: Bool32,
    pub shader_float64: Bool32,
    pub shader_int64: Bool32,
    pub shader_int16: Bool32,
    pub shader_resource_residency: Bool32,
    pub shader_resource_min_lod: Bool32,
    pub sparse_binding: Bool32,
    pub sparse_residency_buffer: Bool32,
    pub sparse_residency_image_2d: Bool32,
    pub sparse_residency_image_3d: Bool32,
    pub sparse_residency_2_samples: Bool32,
    pub sparse_residency_4_samples: Bool32,
    pub sparse_residency_8_samples: Bool32,
    pub sparse_residency_16_samples: Bool32,
    pub sparse_residency_aliased: Bool32,
    pub variable_multisample_rate: Bool32,
    pub inherited_queries: Bool32,
}


/// Everything a swapchain is created from.  Handles stand where the C
/// record holds pointers.
#[derive(Clone, Copy, Debug, PartialEq, Eq, Structural)]
pub struct SwapchainCreateInfoKHR {
    pub surface: SurfaceKHR,
    pub min_image_count: u32,
    pub image_format: Format,
    pub image_color_space: ColorSpaceKHR,
    pub image_extent: Extent2D,
    pub image_array_layers: u32,
    pub image_usage: ImageUsageFlags,
    pub image_sharing_mode: SharingMode,
    pub pre_transform: SurfaceTransformFlagBitsKHR,
    pub composite_alpha: CompositeAlphaFlagsKHR,
    pub present_mode: PresentModeKHR,
    pub clipped: Bool32,
    pub old_swapchain: SwapchainKHR,
}

/// Everything a framebuffer is created from.
#[derive(Clone, Debug)]
pub struct FramebufferCreateInfo {
    pub render_pass: RenderPass,
    pub attachments: Vec<ImageView>,
    pub width: u32,
    pub height: u32,
    pub layers: u32,
}

} // verus!


