use vstd::prelude::*;
use crate::memory::Memory;

verus! {

/// Columns of the pixel grid.
pub const WIDTH: usize = 64;

/// Rows of the pixel grid.
pub const HEIGHT: usize = 32;

/// Number of pixels of the grid.
pub const NUM_PIXELS: usize = 2048;

/// Register that receives the collision flag.
pub const FLAG_REG: usize = 15;

/// Bit `j` of `b`, counting from the least significant bit.
pub open spec fn bit_at(b: u8, j: int) -> bool {
    (b >> (j as u8)) & 1u8 == 1u8
}

/// One pixel of a sprite: its grid cell and whether the sprite sets it.
#[derive(Clone, Copy, PartialEq, Eq, Structural, Debug)]
pub struct ScreenPixel {
    pub x: u8,
    pub y: u8,
    pub state: bool,
}

impl ScreenPixel {
    /// Row-major position of the pixel's cell in the grid.
    pub open spec fn index(self) -> int {
        self.y * WIDTH + self.x
    }

    /// The cell lies on the grid.
    pub open spec fn in_grid(self) -> bool {
        self.x < WIDTH && self.y < HEIGHT
    }

    pub fn new(x: u8, y: u8, state: bool) -> (r: ScreenPixel)
        ensures
            r == (ScreenPixel { x, y, state }),
    {
        ScreenPixel { x, y, state }
    }
}

/// The pixels of a sprite whose rows are `rows`, drawn with its top-left
/// corner at `(x, y)`: row `i` lands on grid row `(y + i) mod 32`, and bit
/// `j` of it (the most significant bit leftmost) on column
/// `(x + 7 - j) mod 64`. Listed row by row, bit 0 first.
pub open spec fn sprite_pixels(rows: Seq<u8>, x: int, y: int) -> Seq<ScreenPixel> {
    Seq::new(
        8 * rows.len(),
        |k: int|
            ScreenPixel {
                x: ((x + 7 - k % 8) % (WIDTH as int)) as u8,
                y: ((y + k / 8) % (HEIGHT as int)) as u8,
                state: bit_at(rows[k / 8], k % 8),
            },
    )
}

/// Whether the set pixels of `sp` land on cell `a` an odd number of times,
/// so that XOR-ing them all in flips that cell.
pub open spec fn flips(sp: Seq<ScreenPixel>, a: int) -> bool
    decreases sp.len(),
{
    if sp.len() == 0 {
        false
    } else {
        flips(sp.drop_last(), a) != (sp.last().state && sp.last().index() == a)
    }
}

/// The grid after XOR-ing the pixels of `sp` into `px`.
pub open spec fn composite(px: Seq<bool>, sp: Seq<ScreenPixel>) -> Seq<bool> {
    Seq::new(px.len(), |a: int| px[a] != flips(sp, a))
}

/// Whether XOR-ing the pixels of `sp` into `px`, one after another, turns
/// some cell from set to unset on the way.
pub open spec fn erases(px: Seq<bool>, sp: Seq<ScreenPixel>) -> bool
    decreases sp.len(),
{
    if sp.len() == 0 {
        false
    } else {
        let p = sp.last();
        erases(px, sp.drop_last()) || (p.state && (px[p.index()] != flips(sp.drop_last(), p.index())))
    }
}

/// The all-unset grid.
pub open spec fn blank() -> Seq<bool> {
    Seq::new(NUM_PIXELS as nat, |a: int| false)
}

/// If a cell is set and the pixels of `sp` flip it, XOR-ing them in one
/// after another unsets it at some step.
pub proof fn lemma_flipped_set_cell_erases(px: Seq<bool>, sp: Seq<ScreenPixel>, a: int)
    requires
        0 <= a < px.len(),
        px[a],
        flips(sp, a),
    ensures
        erases(px, sp),
    decreases sp.len(),
{
    if flips(sp.drop_last(), a) {
        lemma_flipped_set_cell_erases(px, sp.drop_last(), a);
    }
}

/// Clearing the grid (which leaves it `blank()`, as a new display is) and
/// then compositing a sprite gives the same cells as compositing it onto an
/// all-unset grid: exactly the cells that the sprite flips.
pub proof fn lemma_composite_after_clear(sp: Seq<ScreenPixel>)
    ensures
        composite(blank(), sp) == Seq::new(NUM_PIXELS as nat, |a: int| flips(sp, a)),
{
    assert(composite(blank(), sp) =~= Seq::new(NUM_PIXELS as nat, |a: int| flips(sp, a)));
}

/// Compositing the same sprite twice restores the grid, and the second
/// compositing reports a collision whenever the first one set some cell.
pub proof fn lemma_composite_twice(px: Seq<bool>, sp: Seq<ScreenPixel>)
    ensures
        composite(composite(px, sp), sp) == px,
        (exists|a: int| 0 <= a < px.len() && !px[a] && composite(px, sp)[a]) ==> erases(
            composite(px, sp),
            sp,
        ),
{
    assert(composite(composite(px, sp), sp) =~= px);
    if exists|a: int| 0 <= a < px.len() && !px[a] && composite(px, sp)[a] {
        let a = choose|a: int| 0 <= a < px.len() && !px[a] && composite(px, sp)[a];
        lemma_flipped_set_cell_erases(composite(px, sp), sp, a);
    }
}

/// A sprite ready to be composited: its pixels, each with its grid cell.
pub struct Sprite {
    pub pixels: Vec<ScreenPixel>,
    pub x: i32,
    pub y: i32,
}

impl Sprite {
    /// Every pixel lies on the grid.
    pub open spec fn wf(&self) -> bool {
        forall|k: int| 0 <= k < self.pixels@.len() ==> #[trigger] self.pixels@[k].in_grid()
    }

    /// Unpacks sprite rows, one byte per row of eight pixels, placed at
    /// `(x, y)` with toroidal wrap.
    pub fn new(sprite: Vec<u8>, x: i32, y: i32) -> (r: Sprite)
        requires
            sprite@.len() <= 15,
            0 <= x,
            0 <= y,
        ensures
            r.wf(),
            r.pixels@ == sprite_pixels(sprite@, x as int, y as int),
            r.x == x,
            r.y == y,
    {
        let ghost target = sprite_pixels(sprite@, x as int, y as int);
        let x0: u32 = (x % 64) as u32;
        let y0: u32 = (y % 32) as u32;
        let mut pixels: Vec<ScreenPixel> = Vec::new();
        let n = sprite.len();
        let mut i: usize = 0;
        while i < n
            invariant
                n == sprite@.len(),
                n <= 15,
                i <= n,
                0 <= x,
                0 <= y,
                x0 == x % 64,
                y0 == y % 32,
                target == sprite_pixels(sprite@, x as int, y as int),
                pixels@ == target.take(8 * i),
                forall|k: int| 0 <= k < pixels@.len() ==> #[trigger] pixels@[k].in_grid(),
            decreases n - i,
        {
            let line = sprite[i];
            let mut j: u32 = 0;
            while j < 8
                invariant
                    n == sprite@.len(),
                    n <= 15,
                    i < n,
                    j <= 8,
                    0 <= x,
                    0 <= y,
                    x0 == x % 64,
                    y0 == y % 32,
                    line == sprite@[i as int],
                    target == sprite_pixels(sprite@, x as int, y as int),
                    pixels@ == target.take(8 * i + j),
                    forall|k: int| 0 <= k < pixels@.len() ==> #[trigger] pixels@[k].in_grid(),
                decreases 8 - j,
            {
                let col = (x0 + 7 - j) % 64;
                let row = (y0 + i as u32) % 32;
                let bit = (line >> (j as u8)) & 1u8;
                let p = ScreenPixel::new(col as u8, row as u8, bit == 1);
                proof {
                    let k = 8 * i + j;
                    assert(k % 8 == j && k / 8 == i) by (nonlinear_arith)
                        requires k == 8 * i + j, 0 <= j < 8, 0 <= i;
                    assert((x0 + 7 - j) % 64 == (x + 7 - j) % 64) by (nonlinear_arith)
                        requires x0 == x % 64, 0 <= x, 0 <= j < 8;
                    assert((y0 + i) % 32 == (y + i) % 32) by (nonlinear_arith)
                        requires y0 == y % 32, 0 <= y, 0 <= i;
                    assert(p == target[k as int]);
                }
                pixels.push(p);
                assert(pixels@ =~= target.take(8 * i + j + 1));
                j = j + 1;
            }
            i = i + 1;
        }
        Sprite { pixels, x, y }
    }
}

/// The pixel grid, row-major, one flag per cell.
pub struct Display {
    pub pixels: [bool; 2048],
}

impl Display {
    /// A blank grid.
    pub fn new() -> (r: Display)
        ensures
            r.pixels@ == blank(),
    {
        let r = Display { pixels: [false; 2048] };
        assert(r.pixels@ =~= blank());
        r
    }

    /// Whether the cell at column `x`, row `y` is set.
    pub fn pixel(&self, x: usize, y: usize) -> (r: bool)
        requires
            x < WIDTH,
            y < HEIGHT,
        ensures
            r == self.pixels@[y * WIDTH + x],
    {
        self.pixels[y * WIDTH + x]
    }

    /// Unsets every cell.
    pub fn clear_disp(&mut self)
        ensures
            final(self).pixels@ == blank(),
    {
        let mut a: usize = 0;
        while a < NUM_PIXELS
            invariant
                a <= NUM_PIXELS,
                forall|b: int| 0 <= b < a ==> self.pixels@[b] == false,
            decreases NUM_PIXELS - a,
        {
            self.pixels[a] = false;
            a = a + 1;
        }
        assert(self.pixels@ =~= blank());
    }

    /// XORs the sprite's pixels into the grid, one after another, and sets
    /// the flag register to 1 if some cell went from set to unset on the
    /// way, to 0 otherwise.
    pub fn push_sprite(&mut self, sprite: Sprite, mem: &mut Memory)
        requires
            sprite.wf(),
        ensures
            final(self).pixels@ == composite(old(self).pixels@, sprite.pixels@),
            final(mem).v_regs@ == old(mem).v_regs@.update(
                FLAG_REG as int,
                if erases(old(self).pixels@, sprite.pixels@) { 1u8 } else { 0u8 },
            ),
            final(mem).mem == old(mem).mem,
            final(mem).i == old(mem).i,
            final(mem).sp == old(mem).sp,
            final(mem).stack == old(mem).stack,
    {
        let ghost before = self.pixels@;
        let ghost sp = sprite.pixels@;
        let mut draw_over_flag = false;
        let n = sprite.pixels.len();
        let mut k: usize = 0;
        while k < n
            invariant
                n == sp.len(),
                sp == sprite.pixels@,
                sprite.wf(),
                k <= n,
                before.len() == NUM_PIXELS,
                self.pixels@ == composite(before, sp.take(k as int)),
                draw_over_flag == erases(before, sp.take(k as int)),
            decreases n - k,
        {
            let p = sprite.pixels[k];
            assert(p.in_grid());
            let a = p.y as usize * WIDTH + p.x as usize;
            let prev = self.pixels[a];
            let now = prev != p.state;
            self.pixels[a] = now;
            if prev && !now {
                draw_over_flag = true;
            }
            proof {
                let s1 = sp.take(k + 1);
                assert(s1.drop_last() =~= sp.take(k as int));
                assert(s1.last() == p);
                assert(self.pixels@ =~= composite(before, s1));
            }
            k = k + 1;
        }
        assert(sp.take(n as int) =~= sp);
        if draw_over_flag {
            mem.v_regs[FLAG_REG] = 1;
        } else {
            mem.v_regs[FLAG_REG] = 0;
        }
    }
}

} // verus!
