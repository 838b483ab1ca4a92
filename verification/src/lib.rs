//! A minimal real-time rendering core.
//!
//! The library owns render-target management, memory-backed buffers and
//! images, per-frame command and descriptor pooling, presentation pacing,
//! and the batching path that turns queued draws into recorded command
//! buffers.  Driver objects are carried as opaque handles together with the
//! state the engine relies on (a fence's signaled flag, a host-visible
//! allocation's bytes), so every rule the engine depends on is stated in a
//! contract and proved.  The driver itself is modeled: handles issue from
//! a counter that never repeats, and submitted work completes by the
//! host's next observation point, which is where the real driver's fence
//! waits would block.  The platform edges that cannot be verified — the
//! window system, the font rasterizer's native calls, file reading — stay
//! outside the library and hand it plain values.
pub mod command;
pub mod device;
pub mod error;
pub mod font;
pub mod frame;
pub mod image;
pub mod material;
pub mod renderer;
pub mod resource;
pub mod scene;
pub mod slotmap;
pub mod sync;
pub mod target;
pub mod vk;
