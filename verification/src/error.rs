//! Failure conditions the engine reports instead of aborting.

use vstd::prelude::*;

verus! {

/// Why a material could not be constructed.
#[derive(Clone, Copy, Debug, PartialEq, Eq, Structural)]
pub enum MaterialError {
    DescriptorSet,
    PipelineLayout,
}

/// Why the renderer could not be brought up or a resource could not be
/// created.
#[derive(Clone, Copy, Debug, PartialEq, Eq, Structural)]
pub enum InitError {
    /// No queue family offers graphics work.
    NoGraphicsQueue,
    /// No queue family can present to the surface.
    NoPresentationQueue,
    /// No queue family offers transfer work.
    NoTransferQueue,
    /// The surface reports no pixel format.
    NoSurfaceFormat,
    /// No memory type satisfies a resource's requirements and the requested
    /// property flags.
    NoSuitableMemoryType,
    /// A material could not be constructed.
    Material(MaterialError),
}

/// Why a frame could not be recorded or submitted.
#[derive(Clone, Copy, Debug, PartialEq, Eq, Structural)]
pub enum RenderError {
    /// No scene recording is in progress.
    NotRecording,
    /// The frame's fixed-capacity descriptor pool cannot supply the
    /// requested sets.
    DescriptorPoolExhausted,
}

/// Why a texture could not be loaded from an encoded image.
#[derive(Clone, Copy, Debug, PartialEq, Eq, Structural)]
pub enum TextureError {
    /// The byte stream is not a decodable image.
    Decode,
    /// The decoded pixel buffer does not hold four bytes per pixel, or the
    /// image is too large to address.
    Size,
    /// No memory type suits the texture's staging or image allocation.
    Memory,
}

} // verus!
