//! The 64x32 monochrome display: an XOR-blit bit grid with collision
//! detection and horizontal/vertical wraparound.

use vstd::prelude::*;

verus! {

/// True when bit `k` of `b` is set, counting from the most significant bit
/// (`k == 0` is the leftmost pixel of a sprite byte).
pub open spec fn bit_of(b: u8, k: int) -> bool {
    (b >> ((7 - k) as u8)) & 1 == 1
}

/// Index of the cell at column `x`, row `y` in the flat grid sequence
/// (column-major storage: 32 rows per column).
pub open spec fn cell_idx(x: int, y: int) -> int {
    x * 32 + y
}

/// The grid after XOR-plotting the 8 bits of `b` on row `y mod 32`,
/// most significant bit first at column `x mod 64`, wrapping horizontally.
/// Only those 8 cells change; each is XORed with its sprite bit.
pub open spec fn blit(g: Seq<bool>, x: int, y: int, b: u8) -> Seq<bool> {
    Seq::new(2048, |j: int| {
        let cx = j / 32;
        let cy = j % 32;
        let k = (cx - x) % 64;
        if cy == y % 32 && 0 <= k < 8 {
            g[j] != bit_of(b, k)
        } else {
            g[j]
        }
    })
}

/// True when plotting `b` at (`x`, `y`) erases some pixel: a lit cell meets
/// a set sprite bit, so the XOR turns it off. This is the CHIP-8 collision
/// flag.
pub open spec fn blit_erases(g: Seq<bool>, x: int, y: int, b: u8) -> bool {
    exists|k: int|
        0 <= k < 8 && bit_of(b, k) && g[cell_idx((x + k) % 64, y % 32)]
}

/// The display of the CHIP-8 system: a 64x32 grid of monochrome pixels.
pub struct Display {
    /// The video RAM, stored column-major: cell (x, y) is `vram[x * 32 + y]`.
    /// Always 2048 cells long (see `wf`); mutate it only through `clear`
    /// and `set` so the length is preserved.
    pub vram: Vec<bool>,
    /// Whether the display changed since the consumer last acknowledged a
    /// redraw. The core only ever sets it; the consumer clears it.
    pub updated: bool,
}

impl Display {
    /// The display holds exactly 64 * 32 cells.
    pub open spec fn wf(self) -> bool {
        self.vram@.len() == 2048
    }

    /// The flat cell sequence, column-major.
    pub open spec fn grid_view(self) -> Seq<bool> {
        self.vram@
    }

    /// The cell at column `x`, row `y`.
    pub open spec fn cell(self, x: int, y: int) -> bool {
        self.vram@[cell_idx(x, y)]
    }

    /// Creates a display with every cell unlit and no redraw pending.
    pub fn new() -> (d: Display)
        ensures
            d.wf(),
            d.grid_view() == Seq::new(2048, |j: int| false),
            !d.updated,
    {
        let mut vram: Vec<bool> = Vec::new();
        let mut j: usize = 0;
        while j < crate::GRID_CELLS
            invariant
                j <= 2048,
                vram@.len() == j,
                vram@ == Seq::new(j as nat, |p: int| false),
            decreases 2048 - j,
        {
            vram.push(false);
            proof {
                assert(vram@ =~= Seq::new((j + 1) as nat, |p: int| false));
            }
            j = j + 1;
        }
        proof {
            assert(vram@ =~= Seq::new(2048, |p: int| false));
        }
        Display { vram, updated: false }
    }

    /// Sets every cell to unlit and marks the display updated.
    pub fn clear(&mut self)
        requires
            old(self).wf(),
        ensures
            final(self).wf(),
            final(self).grid_view() == Seq::new(2048, |j: int| false),
            final(self).updated,
    {
        let mut j: usize = 0;
        while j < crate::GRID_CELLS
            invariant
                j <= 2048,
                self.vram@.len() == 2048,
                forall|p: int| 0 <= p < j ==> !self.vram@[p],
            decreases 2048 - j,
        {
            self.vram.set(j, false);
            j = j + 1;
        }
        self.updated = true;
        proof {
            assert(self.vram@ =~= Seq::new(2048, |j: int| false));
        }
    }

    /// Reads the cell at column `x`, row `y`.
    pub fn get(&self, x: usize, y: usize) -> (r: bool)
        requires
            self.wf(),
            x < 64,
            y < 32,
        ensures
            r == self.cell(x as int, y as int),
    {
        self.vram[x * crate::HEIGHT + y]
    }

    /// The 2048 cells in raster order: row by row from the top, left to
    /// right within each row — the traversal order a renderer draws in.
    pub fn grid(&self) -> (r: Vec<bool>)
        requires
            self.wf(),
        ensures
            r@.len() == 2048,
            forall|p: int|
                0 <= p < 2048 ==> r@[p] == self.cell(#[trigger] (p % 64), p / 64),
    {
        let mut out: Vec<bool> = Vec::new();
        let mut y: usize = 0;
        while y < crate::HEIGHT
            invariant
                self.wf(),
                y <= 32,
                out@.len() == y * 64,
                forall|p: int|
                    0 <= p < y * 64 ==> out@[p] == self.cell(#[trigger] (p % 64), p / 64),
            decreases 32 - y,
        {
            let mut x: usize = 0;
            while x < crate::WIDTH
                invariant
                    self.wf(),
                    y < 32,
                    x <= 64,
                    out@.len() == y * 64 + x,
                    forall|p: int|
                        0 <= p < y * 64 + x ==> out@[p] == self.cell(
                            #[trigger] (p % 64),
                            p / 64,
                        ),
                decreases 64 - x,
            {
                let c = self.get(x, y);
                out.push(c);
                proof {
                    let p = (y * 64 + x) as int;
                    assert(p % 64 == x && p / 64 == y) by (nonlinear_arith)
                        requires
                            p == y * 64 + x,
                            0 <= x < 64,
                            0 <= y,
                    ;
                }
                x = x + 1;
            }
            y = y + 1;
        }
        out
    }

    /// XOR-plots the 8 bits of `value` at (`x`, `y`), most significant bit
    /// first, wrapping columns modulo 64 and the row modulo 32. Returns 1
    /// when any lit pixel was turned off (a collision), else 0, and marks
    /// the display updated.
    pub fn set(&mut self, x: u8, y: u8, value: u8) -> (r: u8)
        requires
            old(self).wf(),
        ensures
            final(self).wf(),
            final(self).grid_view() == blit(old(self).grid_view(), x as int, y as int, value),
            r == if blit_erases(old(self).grid_view(), x as int, y as int, value) {
                1u8
            } else {
                0u8
            },
            final(self).updated,
    {
        self.updated = true;
        let mut result: u8 = 0;
        let yw: usize = (y as usize) % crate::HEIGHT;
        let mut k: usize = 0;
        while k < 8
            invariant
                old(self).wf(),
                k <= 8,
                self.vram@.len() == 2048,
                yw == y as int % 32,
                self.updated,
                self.vram@ == blit_upto(old(self).grid_view(), x as int, y as int, value, k as int),
                result == if erases_upto(old(self).grid_view(), x as int, y as int, value, k as int) {
                    1u8
                } else {
                    0u8
                },
            decreases 8 - k,
        {
            let xw: usize = (x as usize + k) % crate::WIDTH;
            let mask: u8 = 0x80u8 >> (k as u8);
            let pixel: bool = value & mask != 0;
            let idx: usize = xw * crate::HEIGHT + yw;
            let was_lit: bool = self.vram[idx];
            if was_lit && pixel {
                result = 1;
            }
            self.vram.set(idx, was_lit != pixel);
            proof {
                lemma_blit_step(old(self).grid_view(), x as int, y as int, value, k as int);
                assert(bit_of(value, k as int) == ((value & (0x80u8 >> (k as u8))) != 0))
                    by (bit_vector)
                    requires
                        0 <= k < 8,
                ;
                assert(self.vram@ =~= blit_upto(
                    old(self).grid_view(),
                    x as int,
                    y as int,
                    value,
                    k + 1,
                ));
            }
            k = k + 1;
        }
        proof {
            assert(blit_upto(old(self).grid_view(), x as int, y as int, value, 8) =~= blit(
                old(self).grid_view(),
                x as int,
                y as int,
                value,
            ));
            assert(erases_upto(old(self).grid_view(), x as int, y as int, value, 8)
                == blit_erases(old(self).grid_view(), x as int, y as int, value));
        }
        result
    }
}

/// The grid after plotting only the first `n` of the 8 sprite bits; the
/// fully plotted grid is the `n == 8` instance.
pub open spec fn blit_upto(g: Seq<bool>, x: int, y: int, b: u8, n: int) -> Seq<bool> {
    Seq::new(2048, |j: int| {
        let cx = j / 32;
        let cy = j % 32;
        let k = (cx - x) % 64;
        if cy == y % 32 && 0 <= k < n && k < 8 {
            g[j] != bit_of(b, k)
        } else {
            g[j]
        }
    })
}

/// True when one of the first `n` sprite bits erases a lit cell.
pub open spec fn erases_upto(g: Seq<bool>, x: int, y: int, b: u8, n: int) -> bool {
    exists|k: int|
        0 <= k < n && k < 8 && bit_of(b, k) && g[cell_idx((x + k) % 64, y % 32)]
}

/// Plotting one more bit changes exactly the cell in bit `k`'s column:
/// `blit_upto` at `n == k + 1` is `blit_upto` at `n == k` with that single
/// cell XORed.
proof fn lemma_blit_step(g: Seq<bool>, x: int, y: int, b: u8, k: int)
    requires
        g.len() == 2048,
        0 <= k < 8,
    ensures
        ({
            let idx = cell_idx((x + k) % 64, y % 32);
            blit_upto(g, x, y, b, k + 1) == blit_upto(g, x, y, b, k).update(
                idx,
                g[idx] != bit_of(b, k),
            )
        }),
{
    let col = (x + k) % 64;
    let row = y % 32;
    let idx = cell_idx(col, row);
    assert(0 <= col < 64) by (nonlinear_arith)
        requires
            col == (x + k) % 64,
    ;
    assert(0 <= row < 32) by (nonlinear_arith)
        requires
            row == y % 32,
    ;
    assert(0 <= idx < 2048) by (nonlinear_arith)
        requires
            idx == col * 32 + row,
            0 <= col < 64,
            0 <= row < 32,
    ;
    assert(idx / 32 == col && idx % 32 == row) by (nonlinear_arith)
        requires
            idx == col * 32 + row,
            0 <= col < 64,
            0 <= row < 32,
    ;
    assert((col - x) % 64 == k) by {
        lemma_wrap_offset(x, k);
    };
    assert forall|j: int| 0 <= j < 2048 && j != idx implies blit_upto(g, x, y, b, k + 1)[j]
        == blit_upto(g, x, y, b, k)[j] by {
        let cx = j / 32;
        let cy = j % 32;
        let kj = (cx - x) % 64;
        assert(0 <= cx < 64 && 0 <= cy < 32) by (nonlinear_arith)
            requires
                0 <= j < 2048,
                cx == j / 32,
                cy == j % 32,
        ;
        if cy == y % 32 && kj == k {
            // Same bit offset and row mean the same column, hence j == idx.
            assert(cx == col) by {
                lemma_offset_unique(x, cx, col, k);
            };
            assert(j == cx * 32 + cy) by (nonlinear_arith)
                requires
                    cx == j / 32,
                    cy == j % 32,
                    0 <= j,
                    32 > 0,
            ;
            assert(false);
        }
    };
    assert(blit_upto(g, x, y, b, k + 1) =~= blit_upto(g, x, y, b, k).update(
        idx,
        g[idx] != bit_of(b, k),
    ));
}

/// The bit offset recovered from a wrapped column: `((x + k) % 64 - x) % 64`
/// is `k` again for offsets below 64.
proof fn lemma_wrap_offset(x: int, k: int)
    by (nonlinear_arith)
    requires
        0 <= k < 64,
    ensures
        ((x + k) % 64 - x) % 64 == k,
{
}

/// What one plotted cell holds: the cell reached by sprite bit `k`
/// is the old cell XORed with that bit.
pub proof fn lemma_blit_cell(g: Seq<bool>, x: int, y: int, b: u8, k: int)
    requires
        g.len() == 2048,
        0 <= k < 8,
    ensures
        ({
            let idx = cell_idx((x + k) % 64, y % 32);
            blit(g, x, y, b)[idx] == (g[idx] != bit_of(b, k))
        }),
{
    let col = (x + k) % 64;
    let row = y % 32;
    let idx = cell_idx(col, row);
    assert(0 <= col < 64) by (nonlinear_arith)
        requires
            col == (x + k) % 64,
    ;
    assert(0 <= row < 32) by (nonlinear_arith)
        requires
            row == y % 32,
    ;
    assert(0 <= idx < 2048 && idx / 32 == col && idx % 32 == row) by (nonlinear_arith)
        requires
            idx == col * 32 + row,
            0 <= col < 64,
            0 <= row < 32,
    ;
    assert((col - x) % 64 == k) by {
        lemma_wrap_offset(x, k);
    };
}

/// Plotting the same sprite twice at the same coordinates XORs the grid
/// back to exactly what it was.
pub proof fn lemma_blit_involutive(g: Seq<bool>, x: int, y: int, b: u8)
    requires
        g.len() == 2048,
    ensures
        blit(blit(g, x, y, b), x, y, b) == g,
{
    assert(blit(blit(g, x, y, b), x, y, b) =~= g);
}

/// When the second of two identical plots collides: exactly when some
/// sprite bit is set over a cell that was unlit before the first plot —
/// so the first plot lit it and the second erased it. In particular, a
/// nonzero sprite plotted twice onto cells that started unlit reports a
/// collision the second time.
pub proof fn lemma_second_plot_collides(g: Seq<bool>, x: int, y: int, b: u8)
    requires
        g.len() == 2048,
    ensures
        blit_erases(blit(g, x, y, b), x, y, b) == (exists|k: int|
            0 <= k < 8 && bit_of(b, k) && !g[cell_idx((x + k) % 64, y % 32)]),
{
    let g1 = blit(g, x, y, b);
    assert forall|k: int| 0 <= k < 8 implies g1[cell_idx((x + k) % 64, y % 32)] == (g[cell_idx(
        (x + k) % 64,
        y % 32,
    )] != bit_of(b, k)) by {
        lemma_blit_cell(g, x, y, b, k);
    };
}

/// Two columns with the same bit offset from `x` are the same column.
proof fn lemma_offset_unique(x: int, c1: int, c2: int, k: int)
    by (nonlinear_arith)
    requires
        0 <= c1 < 64,
        0 <= c2 < 64,
        (c1 - x) % 64 == k,
        (c2 - x) % 64 == k,
    ensures
        c1 == c2,
{
}

} // verus!
