//! The glyph coverage map.
//!
//! The font rasterizer is an external producer of per-glyph coverage
//! bitmaps and placement metrics.  What the engine owns is the atlas they
//! are blitted into: one row-major byte map, later uploaded as a texture.
//! Blitting is verified cell by cell: a glyph lands exactly in its
//! rectangle and disturbs nothing else.

use vstd::prelude::*;

verus! {

/// A rasterized glyph's size and its placement in the coverage map.
#[derive(Clone, Copy, Debug)]
pub struct Glyph {
    pub width: u32,
    pub height: u32,
    pub offset_x: i32,
    pub offset_y: i32,
}

/// A row-major map of 8-bit coverage values.
#[derive(Debug)]
pub struct CoverageMap {
    pub data: Vec<u8>,
    pub width: u32,
    pub height: u32,
}

impl CoverageMap {
    /// The byte map holds one cell per position.
    pub open spec fn wf(self) -> bool {
        self.data@.len() == (self.width as int) * (self.height as int)
    }

    /// The coverage value at `(row, col)`.
    pub open spec fn cell(self, row: int, col: int) -> u8 {
        self.data@[row * (self.width as int) + col]
    }

    /// An all-zero coverage map of the given size.
    pub fn new(width: u32, height: u32) -> (map: CoverageMap)
        requires
            (width as int) * (height as int) <= usize::MAX,
        ensures
            map.wf(),
            map.width == width,
            map.height == height,
            forall|row: int, col: int| 0 <= row < height && 0 <= col < width
                ==> #[trigger] map.cell(row, col) == 0u8,
    {
        proof {
            assert((width as int) * (height as int) >= 0) by (nonlinear_arith);
        }
        let count = (width as usize) * (height as usize);
        let mut data: Vec<u8> = Vec::new();
        let mut i: usize = 0;
        while i < count
            invariant
                i <= count,
                data@.len() == i,
                forall|j: int| 0 <= j < i ==> data@[j] == 0u8,
            decreases count - i,
        {
            data.push(0u8);
            i = i + 1;
        }
        let map = CoverageMap { data, width, height };
        proof {
            assert forall|row: int, col: int| 0 <= row < height && 0 <= col < width
                implies #[trigger] map.cell(row, col) == 0u8 by {
                lemma_cell_in_range(map.width as int, map.height as int, row, col);
            }
        }
        map
    }

    /// Blit one glyph's coverage bitmap into the map at the glyph's
    /// placement.  Every cell in the glyph's rectangle takes the bitmap's
    /// value; every other cell keeps its own.
    pub fn draw_glyph(&mut self, glyph: &Glyph, data: &[u8])
        requires
            old(self).wf(),
            glyph.offset_x >= 0,
            glyph.offset_y >= 0,
            glyph.offset_x + glyph.width <= old(self).width,
            glyph.offset_y + glyph.height <= old(self).height,
            data@.len() == (glyph.width as int) * (glyph.height as int),
        ensures
            final(self).wf(),
            final(self).width == old(self).width,
            final(self).height == old(self).height,
            forall|row: int, col: int|
                0 <= row < old(self).height && 0 <= col < old(self).width
                    ==> #[trigger] final(self).cell(row, col)
                        == if glyph.offset_y <= row < glyph.offset_y + glyph.height
                            && glyph.offset_x <= col < glyph.offset_x + glyph.width {
                            data@[(row - glyph.offset_y) * (glyph.width as int)
                                + (col - glyph.offset_x)]
                        } else {
                            old(self).cell(row, col)
                        },
    {
        let width_total = self.width as usize;
        let mut i: usize = 0;
        while i < glyph.height as usize
            invariant
                i <= glyph.height,
                self.wf(),
                self.width == old(self).width,
                self.height == old(self).height,
                width_total == self.width,
                glyph.offset_x >= 0,
                glyph.offset_y >= 0,
                glyph.offset_x + glyph.width <= self.width,
                glyph.offset_y + glyph.height <= self.height,
                data@.len() == (glyph.width as int) * (glyph.height as int),
                forall|row: int, col: int|
                    0 <= row < old(self).height && 0 <= col < old(self).width
                        ==> #[trigger] self.cell(row, col)
                            == if glyph.offset_y <= row < glyph.offset_y + i
                                && glyph.offset_x <= col < glyph.offset_x + glyph.width {
                                data@[(row - glyph.offset_y) * (glyph.width as int)
                                    + (col - glyph.offset_x)]
                            } else {
                                old(self).cell(row, col)
                            },
            decreases glyph.height - i,
        {
            let mut j: usize = 0;
            while j < glyph.width as usize
                invariant
                    i < glyph.height,
                    j <= glyph.width,
                    self.wf(),
                    self.width == old(self).width,
                    self.height == old(self).height,
                    width_total == self.width,
                    glyph.offset_x >= 0,
                    glyph.offset_y >= 0,
                    glyph.offset_x + glyph.width <= self.width,
                    glyph.offset_y + glyph.height <= self.height,
                    data@.len() == (glyph.width as int) * (glyph.height as int),
                    forall|row: int, col: int|
                        0 <= row < old(self).height && 0 <= col < old(self).width
                            ==> #[trigger] self.cell(row, col)
                                == if (glyph.offset_y <= row < glyph.offset_y + i
                                        && glyph.offset_x <= col
                                            < glyph.offset_x + glyph.width)
                                    || (row == glyph.offset_y + i
                                        && glyph.offset_x <= col < glyph.offset_x + j) {
                                    data@[(row - glyph.offset_y) * (glyph.width as int)
                                        + (col - glyph.offset_x)]
                                } else {
                                    old(self).cell(row, col)
                                },
                decreases glyph.width - j,
            {
                let row = glyph.offset_y as usize + i;
                let col = glyph.offset_x as usize + j;
                let glyph_total = data.len();
                let map_total = self.data.len();
                proof {
                    lemma_cell_in_range(self.width as int, self.height as int, row as int,
                        col as int);
                    lemma_cell_in_range(glyph.width as int, glyph.height as int, i as int,
                        j as int);
                    assert(map_total == (self.width as int) * (self.height as int));
                    assert(glyph_total == (glyph.width as int) * (glyph.height as int));
                }
                let src = i * glyph.width as usize + j;
                let dst = row * width_total + col;
                let ghost before = *self;
                self.data[dst] = data[src];
                proof {
                    assert forall|r: int, c: int|
                        0 <= r < old(self).height && 0 <= c < old(self).width
                            implies #[trigger] self.cell(r, c)
                                == if (glyph.offset_y <= r < glyph.offset_y + i
                                        && glyph.offset_x <= c
                                            < glyph.offset_x + glyph.width)
                                    || (r == glyph.offset_y + i
                                        && glyph.offset_x <= c < glyph.offset_x + j + 1) {
                                    data@[(r - glyph.offset_y) * (glyph.width as int)
                                        + (c - glyph.offset_x)]
                                } else {
                                    old(self).cell(r, c)
                                } by {
                        lemma_cell_in_range(self.width as int, self.height as int, r, c);
                        if r * (self.width as int) + c == dst {
                            lemma_cell_index_injective(self.width as int, r, c, row as int,
                                col as int);
                        } else {
                            assert(self.cell(r, c) == before.cell(r, c));
                        }
                    }
                }
                j = j + 1;
            }
            i = i + 1;
        }
    }
}

/// A row-major index stays inside the map.
proof fn lemma_cell_in_range(width: int, height: int, row: int, col: int)
    requires
        0 <= row < height,
        0 <= col < width,
    ensures
        0 <= row * width + col < width * height,
{
    assert(0 <= row * width + col < width * height) by (nonlinear_arith)
        requires
            0 <= row < height,
            0 <= col < width,
    ;
}

/// Row-major indexing is injective over in-range positions.
proof fn lemma_cell_index_injective(width: int, r1: int, c1: int, r2: int, c2: int)
    requires
        0 <= c1 < width,
        0 <= c2 < width,
        r1 >= 0,
        r2 >= 0,
        r1 * width + c1 == r2 * width + c2,
    ensures
        r1 == r2,
        c1 == c2,
{
    assert(r1 == r2 && c1 == c2) by (nonlinear_arith)
        requires
            0 <= c1 < width,
            0 <= c2 < width,
            r1 >= 0,
            r2 >= 0,
            r1 * width + c1 == r2 * width + c2,
    ;
}

} // verus!
