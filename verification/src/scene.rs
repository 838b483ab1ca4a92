//! Per-frame draw batching.
//!
//! The scene exists to batch the CPU-side upload of all vertex data for the
//! frame into one write.  Each queued draw records a byte range into the
//! frame's one linear vertex-data buffer, plus which sprite or glyph
//! texture it samples.  The scene is reset every frame.

use vstd::prelude::*;

verus! {

/// One queued sprite draw: the sprite's index and its vertex bytes' range
/// in the frame's vertex data.
#[derive(Clone, Copy, Debug)]
pub struct SpriteData {
    pub index: usize,
    pub offset: usize,
    pub length: usize,
}

/// One queued glyph draw.
#[derive(Clone, Copy, Debug)]
pub struct Glyph {
    pub num_vertices: usize,
    pub texture_index: usize,
    pub offset: usize,
    pub length: usize,
}

#[derive(Debug)]
pub struct Scene {
    pub sprite: Vec<SpriteData>,
    pub glyphs: Vec<Glyph>,
    pub data: Vec<u8>,
}

impl Scene {
    /// Every queued draw's byte range lies inside the accumulated vertex
    /// data.
    pub open spec fn wf(self) -> bool {
        &&& forall|i: int| 0 <= i < self.sprite@.len()
            ==> (#[trigger] self.sprite@[i]).offset + self.sprite@[i].length
                <= self.data@.len()
        &&& forall|i: int| 0 <= i < self.glyphs@.len()
            ==> (#[trigger] self.glyphs@[i]).offset + self.glyphs@[i].length
                <= self.data@.len()
    }

    pub fn new() -> (scene: Scene)
        ensures
            scene.wf(),
            scene.sprite@.len() == 0,
            scene.glyphs@.len() == 0,
            scene.data@.len() == 0,
    {
        Scene { sprite: Vec::new(), glyphs: Vec::new(), data: Vec::new() }
    }

    /// Queue one sprite draw: append its vertex bytes to the frame's
    /// vertex data and record the range they landed in.
    pub fn insert_sprite(&mut self, sprite_data: &[u8], sprite_index: usize)
        requires
            old(self).wf(),
            old(self).data@.len() + sprite_data@.len() <= usize::MAX,
        ensures
            final(self).wf(),
            final(self).glyphs == old(self).glyphs,
            final(self).sprite@ == old(self).sprite@.push(
                (SpriteData {
                    index: sprite_index,
                    offset: old(self).data@.len() as usize,
                    length: sprite_data@.len() as usize,
                }),
            ),
            final(self).data@ == old(self).data@.add(sprite_data@),
    {
        let offset = self.data.len();
        let len = sprite_data.len();

        let record = SpriteData {
            index: sprite_index,
            offset,
            length: len,
        };
        self.sprite.push(record);

        let mut i: usize = 0;
        while i < len
            invariant
                i <= len,
                len == sprite_data@.len(),
                self.data@.len() == offset + i,
                offset + len <= usize::MAX,
                self.sprite@ == old(self).sprite@.push(record),
                self.glyphs == old(self).glyphs,
                forall|j: int| 0 <= j < offset ==> self.data@[j] == old(self).data@[j],
                forall|j: int| 0 <= j < i ==> self.data@[offset + j] == sprite_data@[j],
            decreases len - i,
        {
            self.data.push(sprite_data[i]);
            i = i + 1;
        }
        proof {
            assert(final(self).data@ =~= old(self).data@.add(sprite_data@));
            assert forall|k: int| 0 <= k < self.sprite@.len()
                implies (#[trigger] self.sprite@[k]).offset + self.sprite@[k].length
                    <= self.data@.len() by {
                if k < old(self).sprite@.len() {
                    assert(self.sprite@[k] == old(self).sprite@[k]);
                }
            }
        }
    }
}

impl Default for Scene {
    fn default() -> (scene: Scene)
        ensures
            scene.wf(),
            scene.sprite@.len() == 0,
            scene.glyphs@.len() == 0,
            scene.data@.len() == 0,
    {
        Scene::new()
    }
}

} // verus!
