//! Proof support for the sprite-drawing model: how wrapped coordinates
//! invert, how a row-major screen index decomposes, and how one more drawn
//! pixel or row extends the coverage predicate `sprite_hits`.

use vstd::prelude::*;
use vstd::arithmetic::div_mod::{
    lemma_fundamental_div_mod,
    lemma_mod_add_multiples_vanish,
    lemma_mod_bound,
    lemma_small_mod,
};
use crate::semantics::{row_bit, sprite_hits};

verus! {

/// On a cyclic axis of length `m`, the cell reached from origin `s` by
/// offset `j` is `x` exactly when the offset recovered from `x` is `j`.
pub proof fn lemma_wrap_inverse(m: int, s: int, j: int, x: int)
    requires
        0 < m,
        0 <= s < m,
        0 <= j < m,
        0 <= x < m,
    ensures
        (x == (s + j) % m) <==> ((x - s) % m == j),
{
    if s + j < m {
        lemma_small_mod((s + j) as nat, m as nat);
    } else {
        lemma_mod_add_multiples_vanish(s + j - m, m);
        lemma_small_mod((s + j - m) as nat, m as nat);
    }
    if x - s >= 0 {
        lemma_small_mod((x - s) as nat, m as nat);
    } else {
        lemma_mod_add_multiples_vanish(x - s, m);
        lemma_small_mod((x - s + m) as nat, m as nat);
    }
}

/// Composing a column and a row into a row-major screen index.
pub proof fn lemma_grid_index(cx: int, cy: int)
    requires
        0 <= cx < 64,
        0 <= cy < 32,
    ensures
        0 <= cy * 64 + cx < 2048,
        (cy * 64 + cx) % 64 == cx,
        (cy * 64 + cx) / 64 == cy,
{
    assert(0 <= cy * 64 + cx < 2048 && (cy * 64 + cx) % 64 == cx && (cy * 64 + cx) / 64 == cy)
        by (nonlinear_arith)
        requires
            0 <= cx < 64,
            0 <= cy < 32,
    ;
}

/// Decomposing a row-major screen index into its column and row.
pub proof fn lemma_grid_unindex(idx: int)
    requires
        0 <= idx < 2048,
    ensures
        0 <= idx % 64 < 64,
        0 <= idx / 64 < 32,
        idx == (idx / 64) * 64 + idx % 64,
{
    lemma_fundamental_div_mod(idx, 64);
    assert(0 <= idx % 64 < 64 && 0 <= idx / 64 < 32) by (nonlinear_arith)
        requires
            0 <= idx < 2048,
    ;
}

/// Decomposing an index into the packed RGBA image: byte `c` of the pixel
/// at column `i` of output row `j`.
pub proof fn lemma_rgba_index(j: int, i: int, c: int)
    requires
        0 <= j < 32,
        0 <= i < 64,
        0 <= c < 4,
    ensures
        (256 * j + 4 * i + c) / 256 == j,
        ((256 * j + 4 * i + c) / 4) % 64 == i,
        (256 * j + 4 * i + c) % 4 == c,
{
    assert((256 * j + 4 * i + c) / 256 == j) by (nonlinear_arith)
        requires
            0 <= j < 32,
            0 <= i < 64,
            0 <= c < 4,
    ;
    assert((256 * j + 4 * i + c) / 4 == 64 * j + i) by (nonlinear_arith)
        requires
            0 <= j < 32,
            0 <= i < 64,
            0 <= c < 4,
    ;
    assert((64 * j + i) % 64 == i) by (nonlinear_arith)
        requires
            0 <= j < 32,
            0 <= i < 64,
    ;
    assert((256 * j + 4 * i + c) % 4 == c) by (nonlinear_arith)
        requires
            0 <= j < 32,
            0 <= i < 64,
            0 <= c < 4,
    ;
}

/// Drawing one more pixel of row `i` extends the covered set by exactly the
/// cell that pixel `j` of the row wraps onto, when that pixel is lit.
pub proof fn lemma_draw_step(mem: Seq<u8>, addr: int, sx: int, sy: int, i: int, j: int)
    requires
        0 <= sx < 64,
        0 <= sy < 32,
        0 <= i < 32,
        0 <= j < 8,
    ensures
        forall|x: int, y: int|
            0 <= x < 64 && 0 <= y < 32 ==> #[trigger] sprite_hits(
                mem,
                addr,
                sx,
                sy,
                i,
                j + 1,
                x,
                y,
            ) == (sprite_hits(mem, addr, sx, sy, i, j, x, y) || (x == (sx + j) % 64 && y == (sy
                + i) % 32 && row_bit(mem[addr + i], j as u8))),
{
    assert forall|x: int, y: int| 0 <= x < 64 && 0 <= y < 32 implies #[trigger] sprite_hits(
        mem,
        addr,
        sx,
        sy,
        i,
        j + 1,
        x,
        y,
    ) == (sprite_hits(mem, addr, sx, sy, i, j, x, y) || (x == (sx + j) % 64 && y == (sy + i) % 32
        && row_bit(mem[addr + i], j as u8))) by {
        lemma_mod_bound(x - sx, 64);
        lemma_mod_bound(y - sy, 32);
        lemma_wrap_inverse(64, sx, j, x);
        lemma_wrap_inverse(32, sy, i, y);
    }
}

/// After all eight pixels of row `i`, the covered set is that of `i + 1`
/// full rows: a row is eight pixels wide.
pub proof fn lemma_draw_row_done(mem: Seq<u8>, addr: int, sx: int, sy: int, i: int)
    requires
        0 <= sx < 64,
        0 <= sy < 32,
        0 <= i,
    ensures
        forall|x: int, y: int|
            0 <= x < 64 && 0 <= y < 32 ==> #[trigger] sprite_hits(mem, addr, sx, sy, i, 8, x, y)
                == sprite_hits(mem, addr, sx, sy, i + 1, 0, x, y),
{
    assert forall|x: int, y: int| 0 <= x < 64 && 0 <= y < 32 implies #[trigger] sprite_hits(
        mem,
        addr,
        sx,
        sy,
        i,
        8,
        x,
        y,
    ) == sprite_hits(mem, addr, sx, sy, i + 1, 0, x, y) by {
        lemma_mod_bound(x - sx, 64);
        lemma_mod_bound(y - sy, 32);
    }
}

} // verus!
