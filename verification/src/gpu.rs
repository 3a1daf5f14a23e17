//! The framebuffer: a fixed 64x32 monochrome pixel grid. Sprites are blitted
//! by XOR, one bit per pixel, with coordinates wrapping modulo the grid
//! dimensions; a draw reports whether any pixel it touched went from on to
//! off (a collision).

use vstd::prelude::*;

verus! {

/// The monochrome display, one flag per pixel in row-major order:
/// pixel `(x, y)` lives at index `y * 64 + x`.
pub struct Gpu {
    /// Exactly 64 * 32 = 2048 pixel flags; `true` is lit.
    pub memory: Vec<bool>,
}

/// The row-major index of the pixel that logical coordinates `(x, y)` land
/// on, after wrapping modulo the grid dimensions.
pub open spec fn pixel_index(x: int, y: int) -> int {
    (y % 32) * 64 + (x % 64)
}

/// Bit `c` of a sprite row, counted from the leftmost (most significant) bit.
pub open spec fn sprite_bit(row: u8, c: int) -> bool {
    (row >> ((7 - c) as u8)) & 1 == 1
}

/// XOR one sprite bit into the pixel at `(x, y)`.
pub open spec fn xor_pixel(fb: Seq<bool>, x: int, y: int, bit: bool) -> Seq<bool> {
    if bit {
        fb.update(pixel_index(x, y), !fb[pixel_index(x, y)])
    } else {
        fb
    }
}

/// The framebuffer after the leftmost `c` bits of one sprite row have been
/// XORed in at `(x, y)`.
pub open spec fn blit_row_prefix(fb: Seq<bool>, x: int, y: int, row: u8, c: int) -> Seq<bool>
    decreases c,
{
    if c <= 0 {
        fb
    } else {
        xor_pixel(blit_row_prefix(fb, x, y, row, c - 1), x + (c - 1), y, sprite_bit(row, c - 1))
    }
}

/// Whether any of the leftmost `c` bits of one sprite row turned a lit pixel
/// off when XORed in at `(x, y)`.
pub open spec fn row_collision_prefix(fb: Seq<bool>, x: int, y: int, row: u8, c: int) -> bool
    decreases c,
{
    if c <= 0 {
        false
    } else {
        row_collision_prefix(fb, x, y, row, c - 1) || (sprite_bit(row, c - 1) && blit_row_prefix(
            fb,
            x,
            y,
            row,
            c - 1,
        )[pixel_index(x + (c - 1), y)])
    }
}

/// The framebuffer after one full 8-bit sprite row is XORed in at `(x, y)`.
pub open spec fn blit_row(fb: Seq<bool>, x: int, y: int, row: u8) -> Seq<bool> {
    blit_row_prefix(fb, x, y, row, 8)
}

/// Whether one full sprite row turned any lit pixel off.
pub open spec fn row_collision(fb: Seq<bool>, x: int, y: int, row: u8) -> bool {
    row_collision_prefix(fb, x, y, row, 8)
}

/// The framebuffer after the first `r` rows of a sprite are XORed in,
/// row `k` of the sprite landing at `(x, y + k)`.
pub open spec fn blit_prefix(fb: Seq<bool>, x: int, y: int, sprite: Seq<u8>, r: int) -> Seq<bool>
    decreases r,
{
    if r <= 0 {
        fb
    } else {
        blit_row(blit_prefix(fb, x, y, sprite, r - 1), x, y + (r - 1), sprite[r - 1])
    }
}

/// Whether the first `r` rows of a sprite turned any lit pixel off.
pub open spec fn collision_prefix(fb: Seq<bool>, x: int, y: int, sprite: Seq<u8>, r: int) -> bool
    decreases r,
{
    if r <= 0 {
        false
    } else {
        collision_prefix(fb, x, y, sprite, r - 1) || row_collision(
            blit_prefix(fb, x, y, sprite, r - 1),
            x,
            y + (r - 1),
            sprite[r - 1],
        )
    }
}

/// The framebuffer after a whole sprite is XOR-blitted at `(x, y)`.
pub open spec fn blit(fb: Seq<bool>, x: int, y: int, sprite: Seq<u8>) -> Seq<bool> {
    blit_prefix(fb, x, y, sprite, sprite.len() as int)
}

/// Whether XOR-blitting a whole sprite at `(x, y)` turned any lit pixel off.
pub open spec fn blit_collision(fb: Seq<bool>, x: int, y: int, sprite: Seq<u8>) -> bool {
    collision_prefix(fb, x, y, sprite, sprite.len() as int)
}

impl Gpu {
    /// The pixel grid holds exactly its 2048 one-bit pixels.
    pub open spec fn wf(self) -> bool {
        self.memory@.len() == 2048
    }

    /// A display with every pixel off.
    pub fn new() -> (g: Gpu)
        ensures
            g.wf(),
            forall|p: int| 0 <= p < 2048 ==> !g.memory@[p],
    {
        let mut memory: Vec<bool> = Vec::new();
        let mut k: usize = 0;
        while k < 2048
            invariant
                k <= 2048,
                memory@.len() == k,
                forall|p: int| 0 <= p < k ==> !memory@[p],
            decreases 2048 - k,
        {
            memory.push(false);
            k = k + 1;
        }
        Gpu { memory }
    }

    /// Switch every pixel off.
    pub fn clear_memory(&mut self)
        requires
            old(self).wf(),
        ensures
            final(self).wf(),
            forall|p: int| 0 <= p < 2048 ==> !final(self).memory@[p],
    {
        let mut k: usize = 0;
        while k < 2048
            invariant
                k <= 2048,
                self.memory@.len() == 2048,
                forall|p: int| 0 <= p < k ==> !self.memory@[p],
            decreases 2048 - k,
        {
            self.memory.set(k, false);
            k = k + 1;
        }
    }

    /// Whether the pixel at `(x, y)` is currently lit.
    pub fn pixel(&self, x: u8, y: u8) -> (r: bool)
        requires
            self.wf(),
            x < 64,
            y < 32,
        ensures
            r == self.memory@[pixel_index(x as int, y as int)],
    {
        let idx: usize = (y as usize) * 64 + (x as usize);
        self.memory[idx]
    }

    /// XOR-blit a sprite whose rows are the given bytes at `(x, y)`,
    /// wrapping coordinates modulo the grid dimensions, and report whether
    /// any lit pixel was turned off. A sprite holds at most 15 rows, the
    /// largest count an instruction can name.
    pub fn draw(&mut self, x: u8, y: u8, memory: &[u8]) -> (collision: bool)
        requires
            old(self).wf(),
            memory@.len() <= 15,
        ensures
            final(self).wf(),
            final(self).memory@ == blit(old(self).memory@, x as int, y as int, memory@),
            collision == blit_collision(old(self).memory@, x as int, y as int, memory@),
    {
        let ghost fb0 = self.memory@;
        let n: usize = memory.len();
        let mut collision = false;
        let mut r: usize = 0;
        while r < n
            invariant
                r <= n,
                n == memory@.len(),
                n <= 15,
                fb0.len() == 2048,
                self.memory@.len() == 2048,
                self.memory@ == blit_prefix(fb0, x as int, y as int, memory@, r as int),
                collision == collision_prefix(fb0, x as int, y as int, memory@, r as int),
            decreases n - r,
        {
            let row: u8 = memory[r];
            let ghost row_fb = self.memory@;
            let ghost row_y = y as int + r as int;
            let ghost col0 = collision;
            let mut c: usize = 0;
            while c < 8
                invariant
                    c <= 8,
                    r < n,
                    n == memory@.len(),
                    n <= 15,
                    row == memory@[r as int],
                    row_fb.len() == 2048,
                    self.memory@.len() == 2048,
                    row_y == y as int + r as int,
                    self.memory@ == blit_row_prefix(row_fb, x as int, row_y, row, c as int),
                    collision == (col0 || row_collision_prefix(
                        row_fb,
                        x as int,
                        row_y,
                        row,
                        c as int,
                    )),
                decreases 8 - c,
            {
                let sh: u8 = (7 - c) as u8;
                if (row >> sh) & 1 == 1 {
                    let px: usize = ((x as usize) + c) % 64;
                    let py: usize = ((y as usize) + r) % 32;
                    let idx: usize = py * 64 + px;
                    proof {
                        assert(idx == pixel_index(x as int + c as int, row_y));
                    }
                    let prev: bool = self.memory[idx];
                    if prev {
                        collision = true;
                    }
                    self.memory.set(idx, !prev);
                }
                c = c + 1;
            }
            r = r + 1;
        }
        collision
    }
}

} // verus!
