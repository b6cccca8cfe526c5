use vstd::prelude::*;

use crate::renderer::{cell_of, DISPLAY_CELLS};

verus! {

/// Whether column `col` of a sprite row is set; column zero is the leftmost
/// pixel and the highest bit.
pub open spec fn sprite_bit(row_byte: u8, col: int) -> bool {
    row_byte & (0x80u8 >> (col as u8)) != 0
}

/// Whether the sprite of `rows` rows at `memory[i..]`, drawn with its top left
/// corner at `(vx, vy)`, has its pixel `(row, col)` set and lying on `cell`.
pub open spec fn sprite_at(
    memory: Seq<u8>,
    i: int,
    vx: int,
    vy: int,
    row: int,
    col: int,
    cell: int,
) -> bool {
    sprite_bit(memory[i + row], col) && cell_of(vx + col, vy + row) == cell
}

/// Whether some set pixel of the sprite lies on `cell`.
pub open spec fn sprite_covers(
    memory: Seq<u8>,
    i: int,
    vx: int,
    vy: int,
    rows: int,
    cell: int,
) -> bool {
    exists|row: int, col: int|
        0 <= row < rows && 0 <= col < 8 && #[trigger] sprite_at(memory, i, vx, vy, row, col, cell)
}

/// The screen after the sprite has been drawn: every cell that the sprite
/// covers is flipped, every other cell is kept.
pub open spec fn drawn(
    screen: Seq<bool>,
    memory: Seq<u8>,
    i: int,
    vx: int,
    vy: int,
    rows: int,
) -> Seq<bool> {
    Seq::new(
        DISPLAY_CELLS as nat,
        |cell: int| screen[cell] != sprite_covers(memory, i, vx, vy, rows, cell),
    )
}

/// Whether drawing the sprite turns a lit pixel off.
pub open spec fn collides(
    screen: Seq<bool>,
    memory: Seq<u8>,
    i: int,
    vx: int,
    vy: int,
    rows: int,
) -> bool {
    exists|cell: int|
        0 <= cell < DISPLAY_CELLS && screen[cell] && #[trigger] sprite_covers(
            memory,
            i,
            vx,
            vy,
            rows,
            cell,
        )
}

/// Whether one of the first `done` pixels of the sprite, counted row by row
/// and eight to a row, is set and lies on `cell`.
pub open spec fn covers_among(
    memory: Seq<u8>,
    i: int,
    vx: int,
    vy: int,
    done: int,
    cell: int,
) -> bool {
    exists|row: int, col: int|
        0 <= row && 0 <= col < 8 && row * 8 + col < done && #[trigger] sprite_at(
            memory,
            i,
            vx,
            vy,
            row,
            col,
            cell,
        )
}

/// Whether one of the first `done` pixels of the sprite is set and lies on
/// a lit cell of `screen`.
pub open spec fn collides_among(
    screen: Seq<bool>,
    memory: Seq<u8>,
    i: int,
    vx: int,
    vy: int,
    done: int,
) -> bool {
    exists|cell: int|
        0 <= cell < DISPLAY_CELLS && screen[cell] && #[trigger] covers_among(
            memory,
            i,
            vx,
            vy,
            done,
            cell,
        )
}

/// Two pixels of one sprite never lie on the same cell: a sprite is narrower
/// and shorter than the display, so it cannot wrap onto itself.
pub proof fn lemma_pixels_apart(
    vx: int,
    vy: int,
    row_a: int,
    col_a: int,
    row_b: int,
    col_b: int,
)
    requires
        0 <= row_a < 16,
        0 <= row_b < 16,
        0 <= col_a < 8,
        0 <= col_b < 8,
        cell_of(vx + col_a, vy + row_a) == cell_of(vx + col_b, vy + row_b),
    ensures
        row_a == row_b,
        col_a == col_b,
{
}

/// No earlier pixel of the sprite lies where pixel `(row, col)` lies.
pub proof fn lemma_covers_fresh(memory: Seq<u8>, i: int, vx: int, vy: int, row: int, col: int)
    requires
        0 <= row < 16,
        0 <= col < 8,
    ensures
        !covers_among(memory, i, vx, vy, row * 8 + col, cell_of(vx + col, vy + row)),
{
    let cell = cell_of(vx + col, vy + row);
    if covers_among(memory, i, vx, vy, row * 8 + col, cell) {
        let (r, c) = choose|r: int, c: int|
            0 <= r && 0 <= c < 8 && r * 8 + c < row * 8 + col && #[trigger] sprite_at(
                memory,
                i,
                vx,
                vy,
                r,
                c,
                cell,
            );
        lemma_pixels_apart(vx, vy, r, c, row, col);
    }
}

/// Taking pixel `(row, col)` into account adds the cell it lies on, if it is set.
pub proof fn lemma_covers_next(
    memory: Seq<u8>,
    i: int,
    vx: int,
    vy: int,
    row: int,
    col: int,
    cell: int,
)
    requires
        0 <= row,
        0 <= col < 8,
    ensures
        covers_among(memory, i, vx, vy, row * 8 + col + 1, cell) == (covers_among(
            memory,
            i,
            vx,
            vy,
            row * 8 + col,
            cell,
        ) || sprite_at(memory, i, vx, vy, row, col, cell)),
{
    let done = row * 8 + col;
    if covers_among(memory, i, vx, vy, done + 1, cell) {
        let (r, c) = choose|r: int, c: int|
            0 <= r && 0 <= c < 8 && r * 8 + c < done + 1 && #[trigger] sprite_at(
                memory,
                i,
                vx,
                vy,
                r,
                c,
                cell,
            );
        if r * 8 + c < done {
            assert(covers_among(memory, i, vx, vy, done, cell));
        } else {
            assert(r == row && c == col);
        }
    }
    if covers_among(memory, i, vx, vy, done, cell) {
        let (r, c) = choose|r: int, c: int|
            0 <= r && 0 <= c < 8 && r * 8 + c < done && #[trigger] sprite_at(
                memory,
                i,
                vx,
                vy,
                r,
                c,
                cell,
            );
        assert(sprite_at(memory, i, vx, vy, r, c, cell));
        assert(covers_among(memory, i, vx, vy, done + 1, cell));
    }
    if sprite_at(memory, i, vx, vy, row, col, cell) {
        assert(covers_among(memory, i, vx, vy, done + 1, cell));
    }
}

/// Taking pixel `(row, col)` into account adds a collision exactly if the
/// pixel is set and lies on a lit cell.
pub proof fn lemma_collides_next(
    screen: Seq<bool>,
    memory: Seq<u8>,
    i: int,
    vx: int,
    vy: int,
    row: int,
    col: int,
)
    requires
        0 <= row,
        0 <= col < 8,
    ensures
        collides_among(screen, memory, i, vx, vy, row * 8 + col + 1) == (collides_among(
            screen,
            memory,
            i,
            vx,
            vy,
            row * 8 + col,
        ) || (sprite_bit(memory[i + row], col) && screen[cell_of(vx + col, vy + row)])),
{
    let done = row * 8 + col;
    let here = cell_of(vx + col, vy + row);
    if collides_among(screen, memory, i, vx, vy, done + 1) {
        let cell = choose|cell: int|
            0 <= cell < DISPLAY_CELLS && screen[cell] && #[trigger] covers_among(
                memory,
                i,
                vx,
                vy,
                done + 1,
                cell,
            );
        lemma_covers_next(memory, i, vx, vy, row, col, cell);
        if covers_among(memory, i, vx, vy, done, cell) {
            assert(collides_among(screen, memory, i, vx, vy, done));
        }
    }
    if collides_among(screen, memory, i, vx, vy, done) {
        let cell = choose|cell: int|
            0 <= cell < DISPLAY_CELLS && screen[cell] && #[trigger] covers_among(
                memory,
                i,
                vx,
                vy,
                done,
                cell,
            );
        lemma_covers_next(memory, i, vx, vy, row, col, cell);
        assert(covers_among(memory, i, vx, vy, done + 1, cell));
        assert(collides_among(screen, memory, i, vx, vy, done + 1));
    }
    if sprite_bit(memory[i + row], col) && screen[here] {
        lemma_covers_next(memory, i, vx, vy, row, col, here);
        assert(sprite_at(memory, i, vx, vy, row, col, here));
        assert(covers_among(memory, i, vx, vy, done + 1, here));
        assert(collides_among(screen, memory, i, vx, vy, done + 1));
    }
}

/// Once all rows are taken into account, the cells found are those that the
/// sprite covers.
pub proof fn lemma_covers_all(memory: Seq<u8>, i: int, vx: int, vy: int, rows: int, cell: int)
    requires
        0 <= rows,
    ensures
        covers_among(memory, i, vx, vy, rows * 8, cell) == sprite_covers(
            memory,
            i,
            vx,
            vy,
            rows,
            cell,
        ),
{
    if covers_among(memory, i, vx, vy, rows * 8, cell) {
        let (r, c) = choose|r: int, c: int|
            0 <= r && 0 <= c < 8 && r * 8 + c < rows * 8 && #[trigger] sprite_at(
                memory,
                i,
                vx,
                vy,
                r,
                c,
                cell,
            );
        assert(0 <= r < rows && 0 <= c < 8 && sprite_at(memory, i, vx, vy, r, c, cell));
    }
    if sprite_covers(memory, i, vx, vy, rows, cell) {
        let (r, c) = choose|r: int, c: int|
            0 <= r < rows && 0 <= c < 8 && #[trigger] sprite_at(memory, i, vx, vy, r, c, cell);
        assert(r * 8 + c < rows * 8 && sprite_at(memory, i, vx, vy, r, c, cell));
    }
}

/// Once all rows are taken into account, the collisions found are those of
/// the whole sprite.
pub proof fn lemma_collides_all(
    screen: Seq<bool>,
    memory: Seq<u8>,
    i: int,
    vx: int,
    vy: int,
    rows: int,
)
    requires
        0 <= rows,
    ensures
        collides_among(screen, memory, i, vx, vy, rows * 8) == collides(
            screen,
            memory,
            i,
            vx,
            vy,
            rows,
        ),
{
    if collides_among(screen, memory, i, vx, vy, rows * 8) {
        let cell = choose|cell: int|
            0 <= cell < DISPLAY_CELLS && screen[cell] && #[trigger] covers_among(
                memory,
                i,
                vx,
                vy,
                rows * 8,
                cell,
            );
        lemma_covers_all(memory, i, vx, vy, rows, cell);
        assert(sprite_covers(memory, i, vx, vy, rows, cell));
    }
    if collides(screen, memory, i, vx, vy, rows) {
        let cell = choose|cell: int|
            0 <= cell < DISPLAY_CELLS && screen[cell] && #[trigger] sprite_covers(
                memory,
                i,
                vx,
                vy,
                rows,
                cell,
            );
        lemma_covers_all(memory, i, vx, vy, rows, cell);
        assert(covers_among(memory, i, vx, vy, rows * 8, cell));
    }
}

} // verus!
