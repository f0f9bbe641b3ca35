//! Laws of sprite drawing: XOR-drawing pixel by pixel has a cell-by-cell
//! closed form, from which drawing a sprite twice undoes it.

use vstd::prelude::*;

use crate::interpreter::{MEM_SZ, REG_COUNT, RES_X, RES_Y};
use crate::machine::{
    blank_display, draw_pixels, draw_sprite, exec_op, reg, sprite_bit, sprite_rows, valid_reg, vf, MachineState,
};
use crate::opcode::OpCode;

verus! {

/// Whether `d` has the shape of the display: `RES_Y` rows of `RES_X` pixels.
pub open spec fn is_screen(d: Seq<Seq<u8>>) -> bool {
    &&& d.len() == RES_Y
    &&& forall|i: int| 0 <= i < RES_Y ==> #[trigger] d[i].len() == RES_X
}

/// The row on screen of pixel `j` of a sprite drawn at row `y`.
pub open spec fn cell_y(y: u8, j: int) -> int {
    (y + j / 8) % (RES_Y as int)
}

/// The column on screen of pixel `j` of a sprite drawn at column `x`.
pub open spec fn cell_x(x: u8, j: int) -> int {
    (x + j % 8) % (RES_X as int)
}

/// The value of pixel `j` of the sprite `rows`.
pub open spec fn pixel_bit(rows: Seq<u8>, j: int) -> u8 {
    sprite_bit(rows[j / 8], j % 8)
}

/// The pixel of a sprite at `(x, y)` that lands on screen cell `(py, px)`,
/// counted row by row; it is one of the sprite's pixels only when its column
/// is below 8 and its row below the sprite's height.
pub open spec fn pixel_on(x: u8, y: u8, py: int, px: int) -> (int, int) {
    ((py - y) % (RES_Y as int), (px - x) % (RES_X as int))
}

/// Display `d` with the first `k` pixels of the sprite `rows` at `(x, y)`
/// XOR-ed in, written cell by cell.
pub open spec fn overlay(d: Seq<Seq<u8>>, x: u8, y: u8, rows: Seq<u8>, k: int) -> Seq<Seq<u8>> {
    Seq::new(
        RES_Y as nat,
        |py: int|
            Seq::new(
                RES_X as nat,
                |px: int|
                    {
                        let (r, c) = pixel_on(x, y, py, px);
                        if c < 8 && r < rows.len() && 8 * r + c < k {
                            d[py][px] ^ sprite_bit(rows[r], c)
                        } else {
                            d[py][px]
                        }
                    },
            ),
    )
}

/// Whether one of the first `k` pixels of the sprite is lit and lands on a
/// lit cell of `d`.
pub open spec fn collides(d: Seq<Seq<u8>>, x: u8, y: u8, rows: Seq<u8>, k: int) -> bool {
    exists|j: int|
        0 <= j < k && d[cell_y(y, j)][cell_x(x, j)] == 1 && #[trigger] pixel_bit(rows, j) == 1
}

proof fn lemma_wrap_back(a: int, b: int, m: int)
    requires
        0 <= a,
        0 <= b < m,
        m == 32 || m == 64,
    ensures
        ((a + b) % m - a) % m == b,
{
    assert(((a + b) % m - a) % m == b) by (nonlinear_arith)
        requires
            0 <= a,
            0 <= b < m,
            m == 32 || m == 64,
    ;
}

proof fn lemma_wrap_forward(a: int, p: int, m: int)
    requires
        0 <= a,
        0 <= p < m,
        m == 32 || m == 64,
    ensures
        (a + (p - a) % m) % m == p,
        0 <= (p - a) % m < m,
{
    assert((a + (p - a) % m) % m == p && 0 <= (p - a) % m < m) by (nonlinear_arith)
        requires
            0 <= a,
            0 <= p < m,
            m == 32 || m == 64,
    ;
}

proof fn lemma_div_mod_8(j: int)
    requires
        0 <= j,
    ensures
        8 * (j / 8) + j % 8 == j,
        0 <= j % 8 < 8,
        0 <= j / 8,
{
    assert(8 * (j / 8) + j % 8 == j && 0 <= j % 8 < 8 && 0 <= j / 8) by (nonlinear_arith)
        requires
            0 <= j,
    ;
}

proof fn lemma_index_of(r: int, c: int)
    requires
        0 <= r,
        0 <= c < 8,
    ensures
        (8 * r + c) / 8 == r,
        (8 * r + c) % 8 == c,
{
    assert((8 * r + c) / 8 == r && (8 * r + c) % 8 == c) by (nonlinear_arith)
        requires
            0 <= r,
            0 <= c < 8,
    ;
}

/// Pixel `j` of a sprite no taller than the screen lands on the cell whose
/// pixel, by `pixel_on`, is `j` again.
proof fn lemma_cell_of_pixel(x: u8, y: u8, j: int, len: int)
    requires
        0 <= j < 8 * len,
        len <= RES_Y,
    ensures
        pixel_on(x, y, cell_y(y, j), cell_x(x, j)) == (j / 8, j % 8),
        0 <= cell_y(y, j) < RES_Y,
        0 <= cell_x(x, j) < RES_X,
{
    lemma_div_mod_8(j);
    assert(j / 8 < 32) by (nonlinear_arith)
        requires
            0 <= j < 8 * len,
            len <= 32,
    ;
    lemma_wrap_back(y as int, j / 8, 32);
    lemma_wrap_back(x as int, j % 8, 64);
}

/// A screen cell whose `pixel_on` is a pixel of the sprite is that pixel's
/// cell.
proof fn lemma_pixel_of_cell(x: u8, y: u8, py: int, px: int)
    requires
        0 <= py < RES_Y,
        0 <= px < RES_X,
        0 <= pixel_on(x, y, py, px).1 < 8,
    ensures
        ({
            let (r, c) = pixel_on(x, y, py, px);
            &&& 0 <= r < RES_Y
            &&& cell_y(y, 8 * r + c) == py
            &&& cell_x(x, 8 * r + c) == px
        }),
{
    let (r, c) = pixel_on(x, y, py, px);
    lemma_wrap_forward(y as int, py, 32);
    lemma_wrap_forward(x as int, px, 64);
    lemma_index_of(r, c);
}

/// Drawing a sprite no taller than the screen pixel by pixel gives the
/// cell-by-cell overlay, and reports a collision exactly when a lit sprite
/// pixel lands on a lit cell of the display it started from.
pub proof fn lemma_draw_pixels_closed_form(
    d: Seq<Seq<u8>>,
    x: u8,
    y: u8,
    rows: Seq<u8>,
    k: nat,
)
    requires
        is_screen(d),
        rows.len() <= RES_Y,
        k <= 8 * rows.len(),
    ensures
        draw_pixels(d, x, y, rows, k) == (overlay(d, x, y, rows, k as int), collides(d, x, y, rows, k as int)),
    decreases k,
{
    if k == 0 {
        let o = overlay(d, x, y, rows, 0);
        assert forall|py: int| 0 <= py < RES_Y implies #[trigger] o[py] =~= d[py] by {}
        assert(o =~= d);
    } else {
        let j = k - 1;
        lemma_draw_pixels_closed_form(d, x, y, rows, (k - 1) as nat);
        let prev = overlay(d, x, y, rows, j);
        let o = overlay(d, x, y, rows, k as int);
        lemma_cell_of_pixel(x, y, j, rows.len() as int);
        lemma_div_mod_8(j);
        let py0 = cell_y(y, j);
        let px0 = cell_x(x, j);
        let bit = pixel_bit(rows, j);
        let lit = prev[py0][px0];
        assert(lit == d[py0][px0]);
        let next = prev.update(py0, prev[py0].update(px0, lit ^ bit));
        assert forall|py: int| 0 <= py < RES_Y implies #[trigger] o[py] =~= next[py] by {
            assert forall|px: int| 0 <= px < RES_X implies #[trigger] o[py][px] == next[py][px] by {
                let (r, c) = pixel_on(x, y, py, px);
                if 0 <= c < 8 && r < rows.len() && 8 * r + c == j {
                    lemma_pixel_of_cell(x, y, py, px);
                }
                if py == py0 && px == px0 {
                    assert((r, c) == (j / 8, j % 8));
                }
            }
        }
        assert(o =~= next);
        let was = collides(d, x, y, rows, j);
        let now = collides(d, x, y, rows, k as int);
        if was {
            let i = choose|i: int|
                0 <= i < j && d[cell_y(y, i)][cell_x(x, i)] == 1 && #[trigger] pixel_bit(rows, i)
                    == 1;
            assert(0 <= i < k && d[cell_y(y, i)][cell_x(x, i)] == 1 && pixel_bit(rows, i) == 1);
        }
        if now && !(lit == 1 && bit == 1) {
            let i = choose|i: int|
                0 <= i < k && d[cell_y(y, i)][cell_x(x, i)] == 1 && #[trigger] pixel_bit(rows, i)
                    == 1;
            assert(i != j);
        }
        assert(now == (was || (lit == 1 && bit == 1)));
    }
}

proof fn lemma_xor_twice(v: u8, b: u8)
    ensures
        (v ^ b) ^ b == v,
        b == 1 ==> ((v ^ b) == 1 <==> v == 0),
{
    assert((v ^ b) ^ b == v) by (bit_vector);
    assert(b == 1 ==> ((v ^ b) == 1 <==> v == 0)) by (bit_vector);
}

/// Drawing the same sprite twice at the same place leaves the display as
/// it was, and the second drawing reports a collision exactly when a lit
/// pixel of the sprite fell on a dark cell the first time.
pub proof fn lemma_draw_twice(d: Seq<Seq<u8>>, x: u8, y: u8, rows: Seq<u8>)
    requires
        is_screen(d),
        rows.len() <= RES_Y,
    ensures
        ({
            let twice = draw_sprite(draw_sprite(d, x, y, rows).0, x, y, rows);
            &&& twice.0 == d
            &&& twice.1 == exists|j: int|
                0 <= j < 8 * rows.len() && d[cell_y(y, j)][cell_x(x, j)] == 0 && #[trigger] pixel_bit(
                    rows,
                    j,
                ) == 1
        }),
{
    let k = 8 * rows.len();
    lemma_draw_pixels_closed_form(d, x, y, rows, k);
    let once = overlay(d, x, y, rows, k as int);
    assert(is_screen(once));
    lemma_draw_pixels_closed_form(once, x, y, rows, k);
    let twice = overlay(once, x, y, rows, k as int);
    assert forall|py: int| 0 <= py < RES_Y implies #[trigger] twice[py] =~= d[py] by {
        assert forall|px: int| 0 <= px < RES_X implies #[trigger] twice[py][px] == d[py][px] by {
            let (r, c) = pixel_on(x, y, py, px);
            lemma_xor_twice(d[py][px], sprite_bit(rows[r], c));
        }
    }
    assert(twice =~= d);
    let second = collides(once, x, y, rows, k as int);
    let dark = exists|j: int|
        0 <= j < k && d[cell_y(y, j)][cell_x(x, j)] == 0 && #[trigger] pixel_bit(rows, j) == 1;
    if second {
        let j = choose|j: int|
            0 <= j < k && once[cell_y(y, j)][cell_x(x, j)] == 1 && #[trigger] pixel_bit(rows, j) == 1;
        lemma_cell_of_pixel(x, y, j, rows.len() as int);
        lemma_div_mod_8(j);
        lemma_xor_twice(d[cell_y(y, j)][cell_x(x, j)], pixel_bit(rows, j));
        assert(0 <= j < k && d[cell_y(y, j)][cell_x(x, j)] == 0 && pixel_bit(rows, j) == 1);
    }
    if dark {
        let j = choose|j: int|
            0 <= j < k && d[cell_y(y, j)][cell_x(x, j)] == 0 && #[trigger] pixel_bit(rows, j) == 1;
        lemma_cell_of_pixel(x, y, j, rows.len() as int);
        lemma_div_mod_8(j);
        lemma_xor_twice(d[cell_y(y, j)][cell_x(x, j)], pixel_bit(rows, j));
        assert(0 <= j < k && once[cell_y(y, j)][cell_x(x, j)] == 1 && pixel_bit(rows, j) == 1);
    }
    assert(second == dark);
}

/// `DXYN` executed twice in a row with the same operands: both succeed, the
/// display ends as it was, and `VF` ends at 1 exactly when a lit pixel of
/// the sprite fell on a dark cell the first time. On a dark screen, a
/// sprite with a lit pixel is thus reported as colliding the second time,
/// and everything the first drawing lit is dark again.
pub proof fn lemma_draw_op_twice(s: MachineState, w: u16, x: u8, y: u8, n: u8, rnd: u8)
    requires
        valid_reg(x),
        valid_reg(y),
        x != vf(),
        y != vf(),
        n < 16,
        s.i_reg + n <= MEM_SZ,
        is_screen(s.display),
        s.v_regs.len() == REG_COUNT,
    ensures
        ({
            let once = exec_op(s, w, OpCode::OpCodeDxyn(x, y, n), rnd);
            let twice = exec_op(once.0, w, OpCode::OpCodeDxyn(x, y, n), rnd);
            &&& once.1 is Ok
            &&& twice.1 is Ok
            &&& twice.0.display == s.display
            &&& (reg(twice.0, 0xF) == 1) == exists|j: int|
                0 <= j < 8 * n && s.display[cell_y(reg(s, y), j)][cell_x(reg(s, x), j)] == 0
                    && #[trigger] pixel_bit(sprite_rows(s, n), j) == 1
        }),
{
    let once = exec_op(s, w, OpCode::OpCodeDxyn(x, y, n), rnd);
    let rows = sprite_rows(s, n);
    assert(sprite_rows(once.0, n) == rows);
    assert(reg(once.0, x) == reg(s, x));
    assert(reg(once.0, y) == reg(s, y));
    lemma_draw_twice(s.display, reg(s, x), reg(s, y), rows);
}

proof fn lemma_lit_column(b: u8)
    requires
        b != 0,
    ensures
        exists|c: int| 0 <= c < 8 && #[trigger] sprite_bit(b, c) == 1,
{
    assert((b >> 7u8) & 1 == 1 || (b >> 6u8) & 1 == 1 || (b >> 5u8) & 1 == 1 || (b >> 4u8) & 1 == 1
        || (b >> 3u8) & 1 == 1 || (b >> 2u8) & 1 == 1 || (b >> 1u8) & 1 == 1 || (b >> 0u8) & 1 == 1)
        by (bit_vector)
        requires
            b != 0,
    ;
    if (b >> 7u8) & 1 == 1 {
        assert(sprite_bit(b, 0) == 1);
    } else if (b >> 6u8) & 1 == 1 {
        assert(sprite_bit(b, 1) == 1);
    } else if (b >> 5u8) & 1 == 1 {
        assert(sprite_bit(b, 2) == 1);
    } else if (b >> 4u8) & 1 == 1 {
        assert(sprite_bit(b, 3) == 1);
    } else if (b >> 3u8) & 1 == 1 {
        assert(sprite_bit(b, 4) == 1);
    } else if (b >> 2u8) & 1 == 1 {
        assert(sprite_bit(b, 5) == 1);
    } else if (b >> 1u8) & 1 == 1 {
        assert(sprite_bit(b, 6) == 1);
    } else {
        assert(sprite_bit(b, 7) == 1);
    }
}

/// On a dark screen, `DXYN` executed twice in a row with the same operands
/// and a sprite whose bytes are not all zero reports a collision the second
/// time, and every pixel the first drawing lit is dark again.
pub proof fn lemma_draw_op_twice_on_dark_screen(
    s: MachineState,
    w: u16,
    x: u8,
    y: u8,
    n: u8,
    rnd: u8,
    row: int,
)
    requires
        valid_reg(x),
        valid_reg(y),
        x != vf(),
        y != vf(),
        n < 16,
        s.i_reg + n <= MEM_SZ,
        s.display == blank_display(),
        s.v_regs.len() == REG_COUNT,
        0 <= row < n,
        s.memory[s.i_reg + row] != 0,
    ensures
        ({
            let once = exec_op(s, w, OpCode::OpCodeDxyn(x, y, n), rnd);
            let twice = exec_op(once.0, w, OpCode::OpCodeDxyn(x, y, n), rnd);
            &&& once.1 is Ok
            &&& twice.1 is Ok
            &&& twice.0.display == blank_display()
            &&& reg(twice.0, 0xF) == 1
        }),
{
    let rows = sprite_rows(s, n);
    lemma_draw_op_twice(s, w, x, y, n, rnd);
    lemma_lit_column(rows[row]);
    let c = choose|c: int| 0 <= c < 8 && #[trigger] sprite_bit(rows[row], c) == 1;
    let j = 8 * row + c;
    lemma_index_of(row, c);
    lemma_cell_of_pixel(reg(s, x), reg(s, y), j, n as int);
    assert(pixel_bit(rows, j) == 1);
    assert(s.display[cell_y(reg(s, y), j)][cell_x(reg(s, x), j)] == 0);
    assert(0 <= j < 8 * n);
}

} // verus!
