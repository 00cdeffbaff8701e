//! Sprite drawing taken one pixel at a time: the part of a sprite that has
//! been drawn so far, and how that part grows with each pixel.

use vstd::prelude::*;
use crate::machine::{bit_set, Machine};

verus! {

impl Machine {
    /// Whether the sprite has a set bit on pixel `(py, px)` in the part of it
    /// that comes before column `col` of row `row`, rows taken top to bottom
    /// and each row left to right.
    pub open spec fn painted(
        self,
        sx: int,
        sy: int,
        n: int,
        row: int,
        col: int,
        py: int,
        px: int,
    ) -> bool {
        let r = (py - sy) % 32;
        let c = (px - sx) % 64;
        self.sprite_hits(sx, sy, n, py, px) && (r < row || (r == row && c < col))
    }

    /// Whether that part of the sprite has a set bit on a lit pixel.
    pub open spec fn collides_before(self, sx: int, sy: int, n: int, row: int, col: int) -> bool {
        exists|py: int, px: int|
            0 <= py < 32 && 0 <= px < 64 && #[trigger] self.painted(sx, sy, n, row, col, py, px)
                && self.video[py][px]
    }

    /// Nothing is drawn before the first pixel.
    pub proof fn lemma_paint_none(self, sx: int, sy: int, n: int)
        ensures
            forall|py: int, px: int|
                0 <= py < 32 && 0 <= px < 64 ==> !#[trigger] self.painted(sx, sy, n, 0, 0, py, px),
            !self.collides_before(sx, sy, n, 0, 0),
    {
    }

    /// One more pixel drawn: the part grows by the pixel under column `col`
    /// of row `row`, where that bit is set.
    pub proof fn lemma_paint_pixel(self, sx: int, sy: int, n: int, row: int, col: int)
        requires
            0 <= sx < 64,
            0 <= sy < 32,
            0 <= row < n <= 32,
            0 <= col < 8,
        ensures
            forall|py: int, px: int|
                0 <= py < 32 && 0 <= px < 64 ==> #[trigger] self.painted(
                    sx,
                    sy,
                    n,
                    row,
                    col + 1,
                    py,
                    px,
                ) == (self.painted(sx, sy, n, row, col, py, px) || (py == (sy + row) % 32 && px == (
                sx + col) % 64 && bit_set(self.memory[self.index + row], col))),
            self.collides_before(sx, sy, n, row, col + 1) == (self.collides_before(
                sx,
                sy,
                n,
                row,
                col,
            ) || (bit_set(self.memory[self.index + row], col) && self.video[(sy + row) % 32][(sx
                + col) % 64])),
    {
        let py0 = (sy + row) % 32;
        let px0 = (sx + col) % 64;
        let bit = bit_set(self.memory[self.index + row], col);
        assert forall|py: int, px: int|
            0 <= py < 32 && 0 <= px < 64 implies #[trigger] self.painted(
            sx,
            sy,
            n,
            row,
            col + 1,
            py,
            px,
        ) == (self.painted(sx, sy, n, row, col, py, px) || (py == py0 && px == px0 && bit)) by {
            let r = (py - sy) % 32;
            let c = (px - sx) % 64;
            assert((r == row) == (py == py0));
            assert((c == col) == (px == px0));
        }
        if self.collides_before(sx, sy, n, row, col + 1) {
            let (py, px) = choose|py: int, px: int|
                0 <= py < 32 && 0 <= px < 64 && #[trigger] self.painted(
                    sx,
                    sy,
                    n,
                    row,
                    col + 1,
                    py,
                    px,
                ) && self.video[py][px];
            if self.painted(sx, sy, n, row, col, py, px) {
                assert(self.collides_before(sx, sy, n, row, col));
            }
        }
        if self.collides_before(sx, sy, n, row, col) {
            let (py, px) = choose|py: int, px: int|
                0 <= py < 32 && 0 <= px < 64 && #[trigger] self.painted(sx, sy, n, row, col, py, px)
                    && self.video[py][px];
            assert(self.painted(sx, sy, n, row, col + 1, py, px));
        }
        if bit && self.video[py0][px0] {
            assert(self.painted(sx, sy, n, row, col + 1, py0, px0));
        }
    }

    /// A row drawn to its end: the part is the same as at the start of the
    /// next row.
    pub proof fn lemma_paint_row(self, sx: int, sy: int, n: int, row: int)
        ensures
            forall|py: int, px: int|
                0 <= py < 32 && 0 <= px < 64 ==> #[trigger] self.painted(sx, sy, n, row, 8, py, px)
                    == self.painted(sx, sy, n, row + 1, 0, py, px),
            self.collides_before(sx, sy, n, row, 8) == self.collides_before(sx, sy, n, row + 1, 0),
    {
        if self.collides_before(sx, sy, n, row, 8) {
            let (py, px) = choose|py: int, px: int|
                0 <= py < 32 && 0 <= px < 64 && #[trigger] self.painted(sx, sy, n, row, 8, py, px)
                    && self.video[py][px];
            assert(self.painted(sx, sy, n, row + 1, 0, py, px));
        }
        if self.collides_before(sx, sy, n, row + 1, 0) {
            let (py, px) = choose|py: int, px: int|
                0 <= py < 32 && 0 <= px < 64 && #[trigger] self.painted(
                    sx,
                    sy,
                    n,
                    row + 1,
                    0,
                    py,
                    px,
                ) && self.video[py][px];
            assert(self.painted(sx, sy, n, row, 8, py, px));
        }
    }

    /// All rows drawn: the part is the whole sprite.
    pub proof fn lemma_paint_all(self, sx: int, sy: int, n: int)
        ensures
            forall|py: int, px: int|
                0 <= py < 32 && 0 <= px < 64 ==> #[trigger] self.painted(sx, sy, n, n, 0, py, px)
                    == self.sprite_hits(sx, sy, n, py, px),
            self.collides_before(sx, sy, n, n, 0) == self.sprite_collides(sx, sy, n),
    {
        if self.collides_before(sx, sy, n, n, 0) {
            let (py, px) = choose|py: int, px: int|
                0 <= py < 32 && 0 <= px < 64 && #[trigger] self.painted(sx, sy, n, n, 0, py, px)
                    && self.video[py][px];
            assert(self.sprite_hits(sx, sy, n, py, px));
        }
        if self.sprite_collides(sx, sy, n) {
            let (py, px) = choose|py: int, px: int|
                0 <= py < 32 && 0 <= px < 64 && #[trigger] self.sprite_hits(sx, sy, n, py, px)
                    && self.video[py][px];
            assert(self.painted(sx, sy, n, n, 0, py, px));
        }
    }
}

} // verus!
