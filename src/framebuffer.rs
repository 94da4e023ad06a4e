//! The monochrome framebuffer, stored row-major as `width * height` cells,
//! and the one operation that changes its pixels: drawing a sprite by XOR.
//!
//! A sprite is a sequence of bytes, one per row, eight pixels wide, the most
//! significant bit leftmost. Its pixel `k` lies in row `k / 8`, column `k % 8`.
//! Pixels are applied in that order; each set pixel toggles the cell it lands
//! on, and both coordinates wrap around the framebuffer's edges.
use vstd::prelude::*;
use vstd::arithmetic::div_mod::{lemma_fundamental_div_mod, lemma_fundamental_div_mod_converse};

verus! {

/// Whether column `col` (`0` is leftmost) of a sprite row is set.
pub open spec fn sprite_bit(row: u8, col: int) -> bool {
    (row >> ((7 - col) as u8)) & 1 == 1
}

/// Whether pixel `k` of the sprite is set.
pub open spec fn pixel_set(rows: Seq<u8>, k: int) -> bool {
    sprite_bit(rows[k / 8], k % 8)
}

/// The cell that pixel `k` of a sprite placed at `(x, y)` lands on.
pub open spec fn target_cell(w: u8, h: u8, x: u8, y: u8, k: int) -> int {
    ((y + k / 8) % (h as int)) * w + (x + k % 8) % (w as int)
}

/// Whether the first `k` pixels of the sprite toggle cell `c` an odd number
/// of times.
pub open spec fn flipped(w: u8, h: u8, x: u8, y: u8, rows: Seq<u8>, k: nat, c: int) -> bool
    decreases k,
{
    if k == 0 {
        false
    } else {
        let j = k - 1;
        flipped(w, h, x, y, rows, j as nat, c) != (pixel_set(rows, j) && target_cell(
            w,
            h,
            x,
            y,
            j,
        ) == c)
    }
}

/// The framebuffer after the first `k` pixels of the sprite were applied.
pub open spec fn drawn_prefix(
    fb: Seq<bool>,
    w: u8,
    h: u8,
    x: u8,
    y: u8,
    rows: Seq<u8>,
    k: nat,
) -> Seq<bool> {
    Seq::new(fb.len(), |c: int| fb[c] != flipped(w, h, x, y, rows, k, c))
}

/// The framebuffer after the whole sprite was drawn.
pub open spec fn drawn(fb: Seq<bool>, w: u8, h: u8, x: u8, y: u8, rows: Seq<u8>) -> Seq<bool> {
    drawn_prefix(fb, w, h, x, y, rows, (8 * rows.len()) as nat)
}

/// Whether one of the first `k` set pixels turned a lit cell off.
pub open spec fn collides_prefix(
    fb: Seq<bool>,
    w: u8,
    h: u8,
    x: u8,
    y: u8,
    rows: Seq<u8>,
    k: nat,
) -> bool {
    exists|j: int|
        0 <= j < k && #[trigger] pixel_set(rows, j) && drawn_prefix(fb, w, h, x, y, rows, j as nat)[target_cell(
            w,
            h,
            x,
            y,
            j,
        )]
}

/// The collision flag of a draw: some set pixel met a cell that was lit just
/// before it was applied.
pub open spec fn collides(fb: Seq<bool>, w: u8, h: u8, x: u8, y: u8, rows: Seq<u8>) -> bool {
    collides_prefix(fb, w, h, x, y, rows, (8 * rows.len()) as nat)
}

proof fn lemma_row_col(i: int, j: int)
    requires
        0 <= i,
        0 <= j < 8,
    ensures
        (8 * i + j) / 8 == i,
        (8 * i + j) % 8 == j,
{
    lemma_fundamental_div_mod_converse(8 * i + j, 8, i, j);
}

proof fn lemma_target_in_range(w: u8, h: u8, x: u8, y: u8, k: int)
    requires
        w > 0,
        h > 0,
    ensures
        0 <= target_cell(w, h, x, y, k) < w * h,
{
    let r = (y + k / 8) % (h as int);
    let c = (x + k % 8) % (w as int);
    assert(0 <= r < h && 0 <= c < w);
    assert(0 <= r * w + c < w * h) by (nonlinear_arith)
        requires
            0 <= r < h,
            0 <= c < w,
    ;
}

/// Two offsets below the modulus that are distinct stay distinct after
/// adding a base and reducing.
proof fn lemma_mod_distinct(a: int, d1: int, d2: int, m: int)
    requires
        0 < m,
        0 <= d1 < d2 < m,
    ensures
        (a + d1) % m != (a + d2) % m,
{
    lemma_fundamental_div_mod(a + d1, m);
    lemma_fundamental_div_mod(a + d2, m);
    let q1 = (a + d1) / m;
    let q2 = (a + d2) / m;
    if (a + d1) % m == (a + d2) % m {
        assert(d2 - d1 == (q2 - q1) * m) by (nonlinear_arith)
            requires
                a + d1 == m * q1 + (a + d1) % m,
                a + d2 == m * q2 + (a + d2) % m,
                (a + d1) % m == (a + d2) % m,
        ;
        assert(false) by (nonlinear_arith)
            requires
                d2 - d1 == (q2 - q1) * m,
                0 < d2 - d1 < m,
        ;
    }
}

/// On a framebuffer at least eight cells wide and at least as tall as the
/// sprite, distinct pixels of the sprite land on distinct cells.
proof fn lemma_target_injective(w: u8, h: u8, x: u8, y: u8, n: int, k1: int, k2: int)
    requires
        w >= 8,
        h >= n,
        0 <= k1 < 8 * n,
        0 <= k2 < 8 * n,
        k1 != k2,
    ensures
        target_cell(w, h, x, y, k1) != target_cell(w, h, x, y, k2),
{
    let (r1, c1) = (k1 / 8, k1 % 8);
    let (r2, c2) = (k2 / 8, k2 % 8);
    lemma_fundamental_div_mod(k1, 8);
    lemma_fundamental_div_mod(k2, 8);
    assert(0 <= r1 < n && 0 <= r2 < n) by (nonlinear_arith)
        requires
            k1 == 8 * r1 + c1,
            k2 == 8 * r2 + c2,
            0 <= c1 < 8,
            0 <= c2 < 8,
            0 <= k1 < 8 * n,
            0 <= k2 < 8 * n,
    ;
    let yr1 = (y + r1) % (h as int);
    let yr2 = (y + r2) % (h as int);
    let xc1 = (x + c1) % (w as int);
    let xc2 = (x + c2) % (w as int);
    if yr1 * w + xc1 == yr2 * w + xc2 {
        assert(0 <= xc1 < w && 0 <= xc2 < w);
        lemma_fundamental_div_mod_converse(yr1 * w + xc1, w as int, yr1, xc1);
        lemma_fundamental_div_mod_converse(yr2 * w + xc2, w as int, yr2, xc2);
        if r1 < r2 {
            lemma_mod_distinct(y as int, r1, r2, h as int);
        } else if r2 < r1 {
            lemma_mod_distinct(y as int, r2, r1, h as int);
        } else if c1 < c2 {
            lemma_mod_distinct(x as int, c1, c2, w as int);
        } else if c2 < c1 {
            lemma_mod_distinct(x as int, c2, c1, w as int);
        }
    }
}

/// A cell that none of the first `k` set pixels lands on is not toggled.
proof fn lemma_untouched(w: u8, h: u8, x: u8, y: u8, rows: Seq<u8>, k: nat, c: int)
    requires
        forall|j: int| 0 <= j < k && #[trigger] pixel_set(rows, j) ==> target_cell(w, h, x, y, j) != c,
    ensures
        !flipped(w, h, x, y, rows, k, c),
    decreases k,
{
    if k > 0 {
        lemma_untouched(w, h, x, y, rows, (k - 1) as nat, c);
    }
}

/// Drawing the same sprite at the same place twice gives back the framebuffer
/// that was there before: each cell is toggled the same number of times by
/// both draws.
pub proof fn lemma_draw_twice(fb: Seq<bool>, w: u8, h: u8, x: u8, y: u8, rows: Seq<u8>)
    ensures
        drawn(drawn(fb, w, h, x, y, rows), w, h, x, y, rows) == fb,
{
    assert(drawn(drawn(fb, w, h, x, y, rows), w, h, x, y, rows) =~= fb);
}

/// Where the sprite cannot wrap onto itself (the framebuffer is at least eight
/// cells wide and as tall as the sprite), the collision flag is set exactly
/// when some set pixel lands on a cell that was lit before the draw.
pub proof fn lemma_collision_iff_lit_target(
    fb: Seq<bool>,
    w: u8,
    h: u8,
    x: u8,
    y: u8,
    rows: Seq<u8>,
)
    requires
        w >= 8,
        h >= rows.len(),
        fb.len() == w * h,
    ensures
        collides(fb, w, h, x, y, rows) <==> exists|k: int|
            0 <= k < 8 * rows.len() && #[trigger] pixel_set(rows, k) && fb[target_cell(
                w,
                h,
                x,
                y,
                k,
            )],
{
    let n = rows.len() as int;
    assert forall|k: int| 0 <= k < 8 * n implies !flipped(
        w,
        h,
        x,
        y,
        rows,
        k as nat,
        #[trigger] target_cell(w, h, x, y, k),
    ) by {
        assert forall|j: int| 0 <= j < k && #[trigger] pixel_set(rows, j) implies target_cell(
            w,
            h,
            x,
            y,
            j,
        ) != target_cell(w, h, x, y, k) by {
            lemma_target_injective(w, h, x, y, n, j, k);
        }
        lemma_untouched(w, h, x, y, rows, k as nat, target_cell(w, h, x, y, k));
    }
    assert forall|k: int| 0 <= k < 8 * n implies #[trigger] drawn_prefix(
        fb,
        w,
        h,
        x,
        y,
        rows,
        k as nat,
    )[target_cell(w, h, x, y, k)] == fb[target_cell(w, h, x, y, k)] by {
        lemma_target_in_range(w, h, x, y, k);
        assert(!flipped(w, h, x, y, rows, k as nat, target_cell(w, h, x, y, k)));
    }
}

/// XORs the sprite `ram[start..start + n]` onto `fb` at `(x, y)` and reports
/// whether a lit cell was turned off.
pub fn draw_sprite(
    fb: &mut Vec<bool>,
    w: u8,
    h: u8,
    x: u8,
    y: u8,
    ram: &Vec<u8>,
    start: usize,
    n: u8,
) -> (collided: bool)
    requires
        w > 0,
        h > 0,
        old(fb)@.len() == w * h,
        start + n <= ram.len(),
    ensures
        final(fb)@ == drawn(old(fb)@, w, h, x, y, ram@.subrange(start as int, start + n)),
        collided == collides(old(fb)@, w, h, x, y, ram@.subrange(start as int, start + n)),
{
    let ghost fb0 = fb@;
    let ghost rows = ram@.subrange(start as int, start + n);
    let mut collided = false;
    let mut i: u8 = 0;
    assert(fb@ =~= drawn_prefix(fb0, w, h, x, y, rows, 0));
    while i < n
        invariant
            0 <= i <= n,
            start + n <= ram.len(),
            rows == ram@.subrange(start as int, start + n),
            w > 0,
            h > 0,
            fb0.len() == w * h,
            fb@ == drawn_prefix(fb0, w, h, x, y, rows, (8 * i) as nat),
            collided == collides_prefix(fb0, w, h, x, y, rows, (8 * i) as nat),
        decreases n - i,
    {
        let row = ram[start + i as usize];
        let ry = ((y as usize) + (i as usize)) % (h as usize);
        let mut j: usize = 0;
        while j < 8
            invariant
                0 <= i < n,
                0 <= j <= 8,
                start + n <= ram.len(),
                rows == ram@.subrange(start as int, start + n),
                row == rows[i as int],
                ry == (y + i) % (h as int),
                w > 0,
                h > 0,
                fb0.len() == w * h,
                fb@ == drawn_prefix(fb0, w, h, x, y, rows, (8 * i + j) as nat),
                collided == collides_prefix(fb0, w, h, x, y, rows, (8 * i + j) as nat),
            decreases 8 - j,
        {
            let ghost k: int = 8 * i as int + j as int;
            proof {
                lemma_row_col(i as int, j as int);
                lemma_target_in_range(w, h, x, y, k);
            }
            let rx = ((x as usize) + j) % (w as usize);
            assert(ry * w + rx < w * h) by (nonlinear_arith)
                requires
                    ry < h,
                    rx < w,
            ;
            assert(w * h <= 255 * 255) by (nonlinear_arith)
                requires
                    w <= 255,
                    h <= 255,
            ;
            let cell = ry * (w as usize) + rx;
            assert(cell == target_cell(w, h, x, y, k));
            let bit = (row >> (7 - j as u8)) & 1 == 1;
            assert(bit == pixel_set(rows, k));
            let ghost before = fb@;
            if bit {
                let lit = fb[cell];
                fb.set(cell, !lit);
                collided = collided || lit;
            }
            proof {
                let next = drawn_prefix(fb0, w, h, x, y, rows, (k + 1) as nat);
                assert(fb@ =~= next);
                if bit {
                    assert(collided == collides_prefix(fb0, w, h, x, y, rows, (k + 1) as nat)) by {
                        if collides_prefix(fb0, w, h, x, y, rows, k as nat) {
                            let jj = choose|jj: int|
                                0 <= jj < k && #[trigger] pixel_set(rows, jj) && drawn_prefix(
                                    fb0,
                                    w,
                                    h,
                                    x,
                                    y,
                                    rows,
                                    jj as nat,
                                )[target_cell(w, h, x, y, jj)];
                            assert(0 <= jj < k + 1);
                        }
                    }
                } else {
                    assert(collided == collides_prefix(fb0, w, h, x, y, rows, (k + 1) as nat)) by {
                        if collides_prefix(fb0, w, h, x, y, rows, (k + 1) as nat) {
                            let jj = choose|jj: int|
                                0 <= jj < k + 1 && #[trigger] pixel_set(rows, jj) && drawn_prefix(
                                    fb0,
                                    w,
                                    h,
                                    x,
                                    y,
                                    rows,
                                    jj as nat,
                                )[target_cell(w, h, x, y, jj)];
                            assert(0 <= jj < k);
                        }
                    }
                }
            }
            j = j + 1;
        }
        i = i + 1;
    }
    collided
}

} // verus!
