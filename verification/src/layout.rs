//! The layout calculator: derives how many whole cells fit into a terminal
//! rectangle, and centers their exact footprint inside the play area.
//!
//! The play area is the terminal rectangle minus a 2-character margin on all
//! sides, of which 90% of the height (truncating) is kept; the remaining
//! strip is reserved for a status line. The game rectangle is the largest
//! whole-cell footprint that fits, centered with any odd leftover unit of
//! padding going to the bottom and to the right, so that no partial cell is
//! ever rendered.

use vstd::prelude::*;
use vstd::arithmetic::div_mod::{
    lemma_basic_div, lemma_div_by_multiple, lemma_div_is_ordered, lemma_fundamental_div_mod,
    lemma_mod_bound, lemma_mod_multiples_basic,
};
use crate::cell::CellSize;

verus! {

/// A rectangle in terminal character-cell units.
#[derive(Debug, Clone, Copy, PartialEq, Eq)]
pub struct Rect {
    pub x: u16,
    pub y: u16,
    pub width: u16,
    pub height: u16,
}

impl Rect {
    pub fn new(x: u16, y: u16, width: u16, height: u16) -> (r: Rect)
        ensures
            r == (Rect { x, y, width, height }),
    {
        Rect { x, y, width, height }
    }
}

/// Width of the play area: the terminal width minus the 2-cell margin on
/// each side, or 0 when the terminal is too narrow for the margin.
pub open spec fn spec_play_width(t: Rect) -> int {
    if t.width >= 4 {
        t.width - 4
    } else {
        0
    }
}

/// Height of the play area: 90% (truncating) of the terminal height minus
/// the 2-cell margin on each side, or 0 when the terminal is too short for
/// the margin. The 10% kept back is the status-line reservation.
pub open spec fn spec_play_height(t: Rect) -> int {
    if t.height >= 4 {
        (t.height - 4) * 90 / 100
    } else {
        0
    }
}

/// How many whole cell columns fit across the play area.
pub open spec fn spec_columns(t: Rect, cs: CellSize) -> int {
    spec_play_width(t) / (cs.spec_width() as int)
}

/// How many whole cell rows fit down the play area.
pub open spec fn spec_rows(t: Rect, cs: CellSize) -> int {
    spec_play_height(t) / (cs.spec_height() as int)
}

/// Exact width of a whole number of cell columns.
pub open spec fn spec_game_width(t: Rect, cs: CellSize) -> int {
    spec_columns(t, cs) * (cs.spec_width() as int)
}

/// Exact height of a whole number of cell rows.
pub open spec fn spec_game_height(t: Rect, cs: CellSize) -> int {
    spec_rows(t, cs) * (cs.spec_height() as int)
}

/// Padding placed left of the game rectangle: the floor half of the leftover
/// width.
pub open spec fn spec_pad_left(t: Rect, cs: CellSize) -> int {
    (spec_play_width(t) - spec_game_width(t, cs)) / 2
}

/// Padding placed right of the game rectangle: whatever of the leftover
/// width the left padding does not take, so the odd unit goes right.
pub open spec fn spec_pad_right(t: Rect, cs: CellSize) -> int {
    spec_play_width(t) - spec_game_width(t, cs) - spec_pad_left(t, cs)
}

/// Padding placed above the game rectangle: the floor half of the leftover
/// height.
pub open spec fn spec_pad_top(t: Rect, cs: CellSize) -> int {
    (spec_play_height(t) - spec_game_height(t, cs)) / 2
}

/// Padding placed below the game rectangle: whatever of the leftover height
/// the top padding does not take, so the odd unit goes down.
pub open spec fn spec_pad_bottom(t: Rect, cs: CellSize) -> int {
    spec_play_height(t) - spec_game_height(t, cs) - spec_pad_top(t, cs)
}

/// The game rectangle holds a whole number of cells in each direction, fits
/// inside the play area, and the two paddings of each axis account exactly
/// for the leftover space, the odd unit going to the bottom and to the
/// right.
pub proof fn lemma_layout_centering(t: Rect, cs: CellSize)
    ensures
        spec_game_width(t, cs) % (cs.spec_width() as int) == 0,
        spec_game_height(t, cs) % (cs.spec_height() as int) == 0,
        0 <= spec_game_width(t, cs) <= spec_play_width(t),
        0 <= spec_game_height(t, cs) <= spec_play_height(t),
        spec_pad_left(t, cs) + spec_pad_right(t, cs) == spec_play_width(t) - spec_game_width(
            t,
            cs,
        ),
        spec_pad_top(t, cs) + spec_pad_bottom(t, cs) == spec_play_height(t) - spec_game_height(
            t,
            cs,
        ),
        spec_pad_left(t, cs) <= spec_pad_right(t, cs) <= spec_pad_left(t, cs) + 1,
        spec_pad_top(t, cs) <= spec_pad_bottom(t, cs) <= spec_pad_top(t, cs) + 1,
{
    let pw = spec_play_width(t);
    let ph = spec_play_height(t);
    let cw = cs.spec_width() as int;
    let ch = cs.spec_height() as int;
    lemma_mod_multiples_basic(pw / cw, cw);
    lemma_mod_multiples_basic(ph / ch, ch);
    lemma_fundamental_div_mod(pw, cw);
    lemma_mod_bound(pw, cw);
    lemma_fundamental_div_mod(ph, ch);
    lemma_mod_bound(ph, ch);
}

/// A play area too small for even one cell in some direction yields zero
/// rows or zero columns.
pub proof fn lemma_degenerate_layout(t: Rect, cs: CellSize)
    requires
        spec_play_width(t) < cs.spec_width() || spec_play_height(t) < cs.spec_height(),
    ensures
        spec_columns(t, cs) == 0 || spec_rows(t, cs) == 0,
{
    if spec_play_width(t) < cs.spec_width() {
        lemma_basic_div(spec_play_width(t), cs.spec_width() as int);
    } else {
        lemma_basic_div(spec_play_height(t), cs.spec_height() as int);
    }
}

/// Dividing the game rectangle's sides by the cell footprint recovers
/// exactly the cell row and column counts: sizing a grid from the computed
/// game rectangle agrees with the layout.
pub proof fn lemma_grid_dimensions(t: Rect, cs: CellSize)
    ensures
        spec_game_width(t, cs) / (cs.spec_width() as int) == spec_columns(t, cs),
        spec_game_height(t, cs) / (cs.spec_height() as int) == spec_rows(t, cs),
{
    lemma_div_pos_nonneg(t, cs);
    lemma_div_by_multiple(spec_columns(t, cs), cs.spec_width() as int);
    lemma_div_by_multiple(spec_rows(t, cs), cs.spec_height() as int);
}

proof fn lemma_div_pos_nonneg(t: Rect, cs: CellSize)
    ensures
        spec_columns(t, cs) >= 0,
        spec_rows(t, cs) >= 0,
{
    lemma_div_is_ordered(0, spec_play_width(t), cs.spec_width() as int);
    lemma_div_is_ordered(0, spec_play_height(t), cs.spec_height() as int);
}

/// Computes the centered game rectangle for a terminal rectangle and a cell
/// footprint. When the terminal cannot hold the 2-cell margin in some
/// direction, the result keeps the terminal's origin on that axis; its sides
/// are always the exact whole-cell footprint (possibly zero).
pub fn compute_game_rect(terminal: &Rect, cell_size: CellSize) -> (r: Rect)
    requires
        terminal.x + terminal.width <= u16::MAX,
        terminal.y + terminal.height <= u16::MAX,
    ensures
        r.width == spec_game_width(*terminal, cell_size),
        r.height == spec_game_height(*terminal, cell_size),
        terminal.width >= 4 ==> r.x == terminal.x + 2 + spec_pad_left(*terminal, cell_size),
        terminal.height >= 4 ==> r.y == terminal.y + 2 + spec_pad_top(*terminal, cell_size),
        terminal.width < 4 ==> r.x == terminal.x,
        terminal.height < 4 ==> r.y == terminal.y,
{
    let cw = cell_size.width();
    let ch = cell_size.height();
    let pw: u16 = if terminal.width >= 4 {
        terminal.width - 4
    } else {
        0
    };
    let ph: u16 = if terminal.height >= 4 {
        let scaled: u32 = (terminal.height - 4) as u32 * 90 / 100;
        proof {
            lemma_div_is_ordered(
                (terminal.height - 4) * 90,
                (terminal.height - 4) * 100,
                100,
            );
            lemma_div_by_multiple(terminal.height - 4, 100);
        }
        scaled as u16
    } else {
        0
    };
    let columns = pw / cw;
    let rows = ph / ch;
    proof {
        lemma_fundamental_div_mod(pw as int, cw as int);
        lemma_mod_bound(pw as int, cw as int);
        lemma_fundamental_div_mod(ph as int, ch as int);
        lemma_mod_bound(ph as int, ch as int);
    }
    let game_width = columns * cw;
    let game_height = rows * ch;
    let pad_left = (pw - game_width) / 2;
    let pad_top = (ph - game_height) / 2;
    let x = if terminal.width >= 4 {
        terminal.x + 2 + pad_left
    } else {
        terminal.x
    };
    let y = if terminal.height >= 4 {
        terminal.y + 2 + pad_top
    } else {
        terminal.y
    };
    Rect { x, y, width: game_width, height: game_height }
}

/// The terminal footprint of one grid cell, as the rendering step paints
/// it: offset from the game rectangle's origin by a whole number of cell
/// footprints, sized exactly one footprint.
pub fn cell_rect(game: &Rect, row: u16, column: u16, cell_size: CellSize) -> (r: Rect)
    requires
        (column + 1) * cell_size.spec_width() <= game.width,
        (row + 1) * cell_size.spec_height() <= game.height,
        game.x + game.width <= u16::MAX,
        game.y + game.height <= u16::MAX,
    ensures
        r.x == game.x + column * cell_size.spec_width(),
        r.y == game.y + row * cell_size.spec_height(),
        r.width == cell_size.spec_width(),
        r.height == cell_size.spec_height(),
{
    let cw = cell_size.width();
    let ch = cell_size.height();
    Rect { x: game.x + column * cw, y: game.y + row * ch, width: cw, height: ch }
}

} // verus!
