use vstd::prelude::*;
use crate::machine::{SCREEN_HEIGHT, SCREEN_SIZE, SCREEN_WIDTH};

verus! {

/// Width of a sprite, in pixels: one byte per row.
pub const SPRITE_WIDTH: usize = 8;

/// The index in the frame buffer of the pixel in column `px` of row `py`.
pub open spec fn pixel_index(px: int, py: int) -> int {
    py * SCREEN_WIDTH as int + px
}

/// Whether column `col` of a sprite row is set. Column 0 is the leftmost
/// pixel and the most significant bit of the row's byte.
pub open spec fn sprite_bit(row: u8, col: int) -> bool {
    (row >> ((7 - col) as usize)) & 1 != 0
}

/// Where on the screen a sprite is placed and where it lies in memory.
pub struct Sprite {
    /// Column of the sprite's left edge, in `0..64`.
    pub left: int,
    /// Row of the sprite's top edge, in `0..32`.
    pub top: int,
    /// Number of rows.
    pub height: int,
    /// Address of the first row.
    pub addr: int,
}

impl Sprite {
    /// Whether the sprite's body reaches the pixel `(px, py)`. What lies
    /// beyond the right or the lower edge of the screen is cut off.
    pub open spec fn covers(self, px: int, py: int) -> bool {
        &&& self.left <= px < self.left + SPRITE_WIDTH
        &&& self.top <= py < self.top + self.height
        &&& px < SCREEN_WIDTH
        &&& py < SCREEN_HEIGHT
    }

    /// Whether the sprite has a set bit at the pixel `(px, py)`.
    pub open spec fn lit(self, memory: Seq<u8>, px: int, py: int) -> bool {
        self.covers(px, py) && sprite_bit(memory[self.addr + (py - self.top)], px - self.left)
    }

    /// The frame buffer after the sprite has been XORed into it.
    pub open spec fn drawn(self, memory: Seq<u8>, screen: Seq<bool>) -> Seq<bool> {
        Seq::new(
            SCREEN_SIZE as nat,
            |k: int| screen[k] ^ self.lit(memory, k % SCREEN_WIDTH as int, k / SCREEN_WIDTH as int),
        )
    }

    /// Whether drawing the sprite turns off a pixel that was on.
    pub open spec fn collides(self, memory: Seq<u8>, screen: Seq<bool>) -> bool {
        exists|px: int, py: int|
            0 <= px < SCREEN_WIDTH && 0 <= py < SCREEN_HEIGHT && #[trigger] self.lit(memory, px, py)
                && screen[pixel_index(px, py)]
    }
}

} // verus!
