//! Loading textures from encoded images.
//!
//! Image decoding is an external producer of raw pixel buffers.  The
//! decoder is called through one trusted wrapper; everything decided about
//! its result — the four-bytes-per-pixel check, sizing, and the upload —
//! is verified here.

use vstd::prelude::*;
use crate::error::TextureError;
use crate::renderer::{Renderer, Sprite};
use crate::vk;

verus! {

/// What decoding a PNG byte stream yields: the image's width and height
/// and its decoded pixel bytes — a function of the byte stream alone — or
/// nothing when the stream does not decode.
pub uninterp spec fn png_decode(bytes: Seq<u8>) -> Option<(u32, u32, Seq<u8>)>;

/// Relies on png::Decoder::read_info and png::Reader::next_frame: the
/// decoded dimensions and pixel buffer depend on the encoded bytes alone.
#[verifier::external_body]
fn decode_png(bytes: &[u8]) -> (result: Option<(u32, u32, Vec<u8>)>)
    ensures
        match result {
            Some(decoded) => png_decode(bytes@)
                == Some((decoded.0, decoded.1, decoded.2@)),
            None => png_decode(bytes@) is None,
        },
{
    let decoder = png::Decoder::new(std::io::Cursor::new(bytes));
    let mut reader = match decoder.read_info() {
        Ok(reader) => reader,
        Err(_) => return None,
    };
    let size = match reader.output_buffer_size() {
        Some(size) => size,
        None => return None,
    };
    let mut pixels = vec![0u8; size];
    match reader.next_frame(&mut pixels) {
        Ok(info) => Some((info.width, info.height, pixels)),
        Err(_) => None,
    }
}

impl Renderer {
    /// Decode a PNG byte stream and load it as a four-byte-per-pixel RGBA
    /// texture.  Returns the new texture's index and the image's pixel
    /// dimensions.
    ///
    /// Fails exactly when the stream does not decode, when the decoded
    /// buffer is not four bytes per pixel or cannot be addressed, or when
    /// no memory type suits the upload.
    pub fn load_png(&mut self, encoded: &[u8])
        -> (result: Result<(usize, u32, u32), TextureError>)
        requires
            old(self).wf(),
            old(self).device.next_id < u64::MAX - 16,
            old(self).textures@.len() < usize::MAX,
        ensures
            final(self).wf(),
            final(self).phase == old(self).phase,
            final(self).presentation_sync == old(self).presentation_sync,
            final(self).scene == old(self).scene,
            final(self).sprites == old(self).sprites,
            final(self).render_target == old(self).render_target,
            final(self).frame_resources == old(self).frame_resources,
            final(self).memory_properties == old(self).memory_properties,
            final(self).surface_capabilities == old(self).surface_capabilities,
            final(self).surface_formats == old(self).surface_formats,
            final(self).device.handle == old(self).device.handle,
            final(self).device.queue_family_indices
                == old(self).device.queue_family_indices,
            old(self).device.next_id <= final(self).device.next_id
                <= old(self).device.next_id + 16,
            match result {
                Ok((index, width, height)) => {
                    &&& png_decode(encoded@) matches Some(decoded)
                        && decoded.0 == width
                        && decoded.1 == height
                        && decoded.2.len() == (width as int) * (height as int) * 4
                    &&& index == old(self).textures@.len()
                    &&& final(self).textures@.len() == old(self).textures@.len() + 1
                    &&& forall|j: int| 0 <= j < old(self).textures@.len()
                        ==> final(self).textures@[j] == old(self).textures@[j]
                    &&& final(self).textures@[index as int].image.format
                        == vk::Format::R8G8B8A8UNORM
                    &&& final(self).textures@[index as int].image.extent
                        == (vk::Extent2D { width, height })
                },
                Err(TextureError::Decode) => {
                    &&& png_decode(encoded@) is None
                    &&& final(self).textures == old(self).textures
                },
                Err(TextureError::Size) => {
                    &&& png_decode(encoded@) matches Some(decoded)
                        && (decoded.2.len() != (decoded.0 as int) * (decoded.1 as int) * 4
                            || (decoded.0 as int) * (decoded.1 as int) * 4
                                > usize::MAX as int)
                    &&& final(self).textures == old(self).textures
                },
                Err(TextureError::Memory) => {
                    &&& final(self).textures == old(self).textures
                    &&& png_decode(encoded@) matches Some(decoded)
                        && decoded.2.len()
                            == (decoded.0 as int) * (decoded.1 as int) * 4
                        && (decoded.0 as int) * (decoded.1 as int) * 4
                            <= usize::MAX as int
                    &&& {
                        ||| crate::device::no_memory_type_suits(
                            old(self).memory_properties.memory_types@,
                            0xFFFF_FFFFu32,
                            vk::MemoryPropertyFlagBits::HostCoherent.spec_bits()
                                | vk::MemoryPropertyFlagBits::HostVisible.spec_bits(),
                        )
                        ||| crate::device::no_memory_type_suits(
                            old(self).memory_properties.memory_types@,
                            0xFFFF_FFFFu32,
                            vk::MemoryPropertyFlagBits::DeviceLocal.spec_bits(),
                        )
                    }
                },
            },
    {
        let decoded = match decode_png(encoded) {
            Some(decoded) => decoded,
            None => {
                return Err(TextureError::Decode);
            },
        };
        let (width, height, pixels) = decoded;
        proof {
            assert((width as u128) * (height as u128) * 4
                <= 0xFFFF_FFFFu128 * 0xFFFF_FFFFu128 * 4) by (nonlinear_arith)
                requires
                    width as u128 <= 0xFFFF_FFFFu128,
                    height as u128 <= 0xFFFF_FFFFu128,
            ;
        }
        let wide: u128 = (width as u128) * (height as u128) * 4;
        if wide > usize::MAX as u128 {
            return Err(TextureError::Size);
        }
        let byte_size = wide as u64;
        if pixels.len() as u64 != byte_size {
            return Err(TextureError::Size);
        }
        match self.load_texture(width, height, byte_size, pixels.as_slice(),
            vk::Format::R8G8B8A8UNORM) {
            Ok(index) => Ok((index, width, height)),
            Err(_) => Err(TextureError::Memory),
        }
    }

    /// Register a sprite drawn from a PNG image: load its texture and
    /// record the sprite with the image's pixel dimensions.  Returns the
    /// new sprite's index.
    pub fn create_sprite(&mut self, encoded: &[u8]) -> (result: Result<usize, TextureError>)
        requires
            old(self).wf(),
            old(self).device.next_id < u64::MAX - 16,
            old(self).textures@.len() < usize::MAX,
            old(self).sprites@.len() < usize::MAX,
        ensures
            final(self).wf(),
            final(self).phase == old(self).phase,
            final(self).presentation_sync == old(self).presentation_sync,
            final(self).scene == old(self).scene,
            final(self).render_target == old(self).render_target,
            final(self).frame_resources == old(self).frame_resources,
            final(self).memory_properties == old(self).memory_properties,
            final(self).surface_capabilities == old(self).surface_capabilities,
            final(self).surface_formats == old(self).surface_formats,
            final(self).device.handle == old(self).device.handle,
            final(self).device.queue_family_indices
                == old(self).device.queue_family_indices,
            old(self).device.next_id <= final(self).device.next_id
                <= old(self).device.next_id + 16,
            match result {
                Ok(index) => {
                    &&& png_decode(encoded@) matches Some(decoded)
                        && final(self).sprites@ == old(self).sprites@.push(
                            (Sprite {
                                texture_index: old(self).textures@.len() as usize,
                                width: decoded.0,
                                height: decoded.1,
                            }),
                        )
                    &&& index == old(self).sprites@.len()
                    &&& final(self).textures@.len() == old(self).textures@.len() + 1
                },
                Err(e) => {
                    &&& final(self).sprites == old(self).sprites
                    &&& final(self).textures == old(self).textures
                    &&& (e == TextureError::Decode ==> png_decode(encoded@) is None)
                    &&& (e == TextureError::Size ==> (png_decode(encoded@)
                        matches Some(decoded)
                        && (decoded.2.len()
                                != (decoded.0 as int) * (decoded.1 as int) * 4
                            || (decoded.0 as int) * (decoded.1 as int) * 4
                                > usize::MAX as int)))
                    &&& (e == TextureError::Memory ==> {
                        &&& png_decode(encoded@) matches Some(decoded)
                            && decoded.2.len()
                                == (decoded.0 as int) * (decoded.1 as int) * 4
                        &&& {
                            ||| crate::device::no_memory_type_suits(
                                old(self).memory_properties.memory_types@,
                                0xFFFF_FFFFu32,
                                vk::MemoryPropertyFlagBits::HostCoherent.spec_bits()
                                    | vk::MemoryPropertyFlagBits::HostVisible.spec_bits(),
                            )
                            ||| crate::device::no_memory_type_suits(
                                old(self).memory_properties.memory_types@,
                                0xFFFF_FFFFu32,
                                vk::MemoryPropertyFlagBits::DeviceLocal.spec_bits(),
                            )
                        }
                    })
                },
            },
    {
        let loaded = match self.load_png(encoded) {
            Ok(loaded) => loaded,
            Err(e) => {
                return Err(e);
            },
        };
        let (texture_index, width, height) = loaded;
        let sprite = Sprite { texture_index, width, height };
        let index = self.sprites.len();
        self.sprites.push(sprite);
        Ok(index)
    }
}

} // verus!
