//! The simulation engine: the grid of cells, von Neumann neighbor lookup
//! with clamped (non-wrapping) edges, and the generation-advance rule.
//!
//! A generation advance builds a brand-new grid whose every cell is decided
//! by the previous generation alone, so the update is a consistent snapshot:
//! no cell written during a pass influences a neighbor count read later in
//! the same pass.

use vstd::prelude::*;
use crate::cell::{Cell, CellSize, CellState};
use crate::layout::Rect;

verus! {

/// The mathematical view of a cell table: a sequence of rows, each a
/// sequence of cells.
pub open spec fn grid_view(cells: Seq<Vec<Cell>>) -> Seq<Seq<Cell>> {
    cells.map_values(|row: Vec<Cell>| row@)
}

/// Every row has the same length as the first one.
pub open spec fn rectangular(g: Seq<Seq<Cell>>) -> bool {
    forall|i: int| 0 <= i < g.len() ==> (#[trigger] g[i]).len() == g[0].len()
}

/// Every cell records the (row, column) position it sits at.
pub open spec fn located(g: Seq<Seq<Cell>>) -> bool {
    forall|i: int, j: int|
        0 <= i < g.len() && 0 <= j < g[i].len() ==> (#[trigger] g[i][j]).location == (
        i as usize,
        j as usize,
        )
}

/// A grid the engine can advance: rectangular, with every cell knowing its
/// own position.
pub open spec fn well_formed(g: Seq<Seq<Cell>>) -> bool {
    rectangular(g) && located(g)
}

/// The von Neumann neighbors of the cell at `(r, c)`, in the order left,
/// right, up, down; a neighbor that would fall outside the grid is omitted
/// (clamped edge), never wrapped.
pub open spec fn spec_neighbors(g: Seq<Seq<Cell>>, r: int, c: int) -> Seq<Cell> {
    (if c > 0 {
        seq![g[r][c - 1]]
    } else {
        Seq::<Cell>::empty()
    }) + (if c + 1 < g[r].len() {
        seq![g[r][c + 1]]
    } else {
        Seq::<Cell>::empty()
    }) + (if r > 0 {
        seq![g[r - 1][c]]
    } else {
        Seq::<Cell>::empty()
    }) + (if r + 1 < g.len() {
        seq![g[r + 1][c]]
    } else {
        Seq::<Cell>::empty()
    })
}

/// How many cells of a sequence are alive.
pub open spec fn alive_count(s: Seq<Cell>) -> int
    decreases s.len(),
{
    if s.len() == 0 {
        0
    } else {
        alive_count(s.drop_last()) + (if s.last().state is Alive {
            1int
        } else {
            0int
        })
    }
}

/// How many of the (clamped) von Neumann neighbors of `(r, c)` are alive.
pub open spec fn neighbor_count(g: Seq<Seq<Cell>>, r: int, c: int) -> int {
    alive_count(spec_neighbors(g, r, c))
}

/// The update rule, on the 4-neighbor count: an alive cell survives with 2
/// or 3 alive neighbors and dies otherwise; a dead cell comes alive with
/// exactly 3 alive neighbors and stays dead otherwise.
pub open spec fn spec_next_state(g: Seq<Seq<Cell>>, r: int, c: int) -> CellState {
    let n = neighbor_count(g, r, c);
    match g[r][c].state {
        CellState::Alive => if n == 2 || n == 3 {
            CellState::Alive
        } else {
            CellState::Dead
        },
        CellState::Dead => if n == 3 {
            CellState::Alive
        } else {
            CellState::Dead
        },
    }
}

/// One generation advance of the whole grid: every cell keeps its location
/// and takes the state the rule assigns it, all counts read from the old
/// grid.
pub open spec fn spec_advance(g: Seq<Seq<Cell>>) -> Seq<Seq<Cell>> {
    g.map(
        |i: int, row: Seq<Cell>|
            row.map(
                |j: int, c: Cell| (Cell { location: c.location, state: spec_next_state(g, i, j) }),
            ),
    )
}

proof fn lemma_alive_count_take(s: Seq<Cell>, k: int)
    requires
        0 <= k < s.len(),
    ensures
        alive_count(s.take(k + 1)) == alive_count(s.take(k)) + (if s[k].state is Alive {
            1int
        } else {
            0int
        }),
{
    assert(s.take(k + 1).drop_last() =~= s.take(k));
    assert(s.take(k + 1).last() == s[k]);
}

/// The rule, cell by cell: an alive cell with 2 or 3 alive neighbors stays
/// alive and dies with any other count; a dead cell with exactly 3 alive
/// neighbors comes alive and stays dead otherwise. Locations never change.
pub proof fn lemma_rule_correctness(g: Seq<Seq<Cell>>, r: int, c: int)
    requires
        0 <= r < g.len(),
        0 <= c < g[r].len(),
    ensures
        spec_advance(g)[r][c].state == spec_next_state(g, r, c),
        spec_advance(g)[r][c].location == g[r][c].location,
        g[r][c].state is Alive ==> (spec_advance(g)[r][c].state is Alive <==> (neighbor_count(
            g,
            r,
            c,
        ) == 2 || neighbor_count(g, r, c) == 3)),
        g[r][c].state is Dead ==> (spec_advance(g)[r][c].state is Alive <==> neighbor_count(
            g,
            r,
            c,
        ) == 3),
{
}

/// A corner cell has at most 2 neighbors considered, and each of them is
/// the adjacent right or down cell: lookups past an edge are omitted, never
/// wrapped to the opposite side.
pub proof fn lemma_corner_clamping(g: Seq<Seq<Cell>>)
    requires
        g.len() > 0,
        g[0].len() > 0,
    ensures
        spec_neighbors(g, 0, 0).len() <= 2,
        forall|k: int|
            0 <= k < spec_neighbors(g, 0, 0).len() ==> (#[trigger] spec_neighbors(g, 0, 0)[k]
                == g[0][1] || spec_neighbors(g, 0, 0)[k] == g[1][0]),
{
}

/// Relies on rand::random: draws one byte from the thread-local random
/// generator; nothing is assumed of the value that comes back.
#[verifier::external_body]
fn random_u8() -> u8 {
    rand::random::<u8>()
}

/// Decides a freshly drawn cell's state from one random byte, by parity:
/// an even byte gives an alive cell, an odd one a dead cell.
pub fn state_from_byte(b: u8) -> (r: CellState)
    ensures
        r is Alive <==> b % 2 == 0,
{
    if b % 2 == 0 {
        CellState::Alive
    } else {
        CellState::Dead
    }
}

/// The driver loop's quit test: only the key `q` stops the loop; every
/// other key, and the absence of one, lets it run on.
pub fn should_quit(key: Option<char>) -> (r: bool)
    ensures
        r <==> key == Some('q'),
{
    match key {
        Some(k) => k == 'q',
        None => false,
    }
}

/// The startup options: the cell footprint chosen on the command line.
#[derive(Debug, Clone, Copy)]
pub struct Args {
    pub cell_size: CellSize,
}

/// The running simulation: the tick interval, the chosen cell footprint,
/// and the current generation's cells as rows of rows.
pub struct Game {
    pub tick_rate_ms: u64,
    pub cell_size: CellSize,
    pub cells: Vec<Vec<Cell>>,
}

impl Default for Game {
    fn default() -> (r: Game)
        ensures
            r.tick_rate_ms == 250,
            r.cell_size is Small,
            r.cells@.len() == 0,
    {
        Game { tick_rate_ms: 250, cell_size: CellSize::Small, cells: Vec::new() }
    }
}

impl Game {
    /// The mathematical view of the current generation.
    pub open spec fn grid(self) -> Seq<Seq<Cell>> {
        grid_view(self.cells@)
    }

    pub fn new(cell_size: CellSize) -> (r: Game)
        ensures
            r.tick_rate_ms == 250,
            r.cell_size == cell_size,
            r.cells@.len() == 0,
    {
        Game { tick_rate_ms: 250, cell_size, cells: Vec::new() }
    }

    pub fn get_cell_rows(&self) -> (r: usize)
        ensures
            r == self.grid().len(),
    {
        self.cells.len()
    }

    pub fn get_cell_columns(&self) -> (r: usize)
        requires
            self.grid().len() > 0,
        ensures
            r == self.grid()[0].len(),
    {
        self.cells[0].len()
    }

    /// Recreates the cell table at the shape the game rectangle allows:
    /// one grid row per whole cell height, one column per whole cell width,
    /// every slot holding a dead placeholder cell.
    pub fn set_cells_dimensions(&mut self, game: &Rect)
        ensures
            final(self).tick_rate_ms == old(self).tick_rate_ms,
            final(self).cell_size == old(self).cell_size,
            final(self).grid().len() == game.height as int / old(self).cell_size.spec_height() as int,
            forall|i: int|
                0 <= i < final(self).grid().len() ==> (#[trigger] final(self).grid()[i]).len()
                    == game.width as int / old(self).cell_size.spec_width() as int,
            forall|i: int, j: int|
                0 <= i < final(self).grid().len() && 0 <= j < final(self).grid()[i].len()
                    ==> #[trigger] final(self).grid()[i][j] == (Cell {
                    location: (0usize, 0usize),
                    state: CellState::Dead,
                }),
            rectangular(final(self).grid()),
    {
        let rows = (game.height / self.cell_size.height()) as usize;
        let columns = (game.width / self.cell_size.width()) as usize;
        let mut cells: Vec<Vec<Cell>> = Vec::new();
        while cells.len() < rows
            invariant
                cells@.len() <= rows,
                forall|i: int|
                    0 <= i < cells@.len() ==> (#[trigger] cells@[i])@.len() == columns,
                forall|i: int, j: int|
                    0 <= i < cells@.len() && 0 <= j < columns ==> #[trigger] cells@[i]@[j] == (Cell {
                        location: (0usize, 0usize),
                        state: CellState::Dead,
                    }),
            decreases rows - cells.len(),
        {
            let mut row: Vec<Cell> = Vec::new();
            while row.len() < columns
                invariant
                    row@.len() <= columns,
                    forall|j: int|
                        0 <= j < row@.len() ==> #[trigger] row@[j] == (Cell {
                            location: (0usize, 0usize),
                            state: CellState::Dead,
                        }),
                decreases columns - row.len(),
            {
                row.push(Cell::new((0, 0), CellState::Dead));
            }
            cells.push(row);
        }
        self.cells = cells;
    }

    /// Fills the grid, slot by slot, with freshly drawn cells: each records
    /// its own position, and its state comes from one independent random
    /// byte. The shape of the table is kept.
    pub fn initialize_cells(&mut self)
        ensures
            final(self).tick_rate_ms == old(self).tick_rate_ms,
            final(self).cell_size == old(self).cell_size,
            final(self).grid().len() == old(self).grid().len(),
            well_formed(final(self).grid()),
            old(self).grid().len() > 0 ==> forall|i: int|
                0 <= i < final(self).grid().len() ==> (#[trigger] final(self).grid()[i]).len()
                    == old(self).grid()[0].len(),
    {
        let rows = self.get_cell_rows();
        let mut cells: Vec<Vec<Cell>> = Vec::new();
        let mut x: usize = 0;
        while x < rows
            invariant
                *self == *old(self),
                rows == self.grid().len(),
                x == cells@.len() <= rows,
                forall|i: int|
                    0 <= i < cells@.len() ==> (#[trigger] cells@[i])@.len() == self.grid()[0].len(),
                forall|i: int, j: int|
                    0 <= i < cells@.len() && 0 <= j < cells@[i]@.len()
                        ==> (#[trigger] cells@[i]@[j]).location == (i as usize, j as usize),
            decreases rows - x,
        {
            let columns = self.get_cell_columns();
            let mut row: Vec<Cell> = Vec::new();
            let mut y: usize = 0;
            while y < columns
                invariant
                    columns == self.grid()[0].len(),
                    y == row@.len() <= columns,
                    forall|j: int|
                        0 <= j < row@.len() ==> (#[trigger] row@[j]).location == (
                        x as usize,
                        j as usize,
                        ),
                decreases columns - y,
            {
                let b = random_u8();
                let state = state_from_byte(b);
                row.push(Cell::new((x, y), state));
                y = y + 1;
            }
            cells.push(row);
            x = x + 1;
        }
        self.cells = cells;
    }

    /// The clamped von Neumann neighbors of a cell, in the order left,
    /// right, up, down; neighbors past an edge are omitted.
    pub fn get_neighbors(&self, cell: &Cell) -> (r: Vec<Cell>)
        requires
            rectangular(self.grid()),
            self.grid().len() > 0,
            (cell.location.0 as int) < self.grid().len(),
            (cell.location.1 as int) < self.grid()[0].len(),
        ensures
            r@ == spec_neighbors(self.grid(), cell.location.0 as int, cell.location.1 as int),
    {
        let row_idx = cell.location.0;
        let col_idx = cell.location.1;
        let max_column = self.get_cell_columns();
        let max_row = self.get_cell_rows();
        proof {
            assert(row_idx < self.cells@.len());
            assert(self.grid()[row_idx as int] == self.cells@[row_idx as int]@);
            assert(self.grid()[row_idx as int].len() == self.grid()[0].len());
            if row_idx > 0 {
                assert(self.grid()[row_idx - 1] == self.cells@[row_idx as int - 1]@);
                assert(self.grid()[row_idx - 1].len() == self.grid()[0].len());
            }
            if row_idx + 1 < self.grid().len() {
                assert(self.grid()[row_idx + 1] == self.cells@[row_idx as int + 1]@);
                assert(self.grid()[row_idx + 1].len() == self.grid()[0].len());
            }
        }
        let mut r: Vec<Cell> = Vec::new();
        if col_idx > 0 {
            r.push(self.cells[row_idx][col_idx - 1]);
        }
        if col_idx + 1 < max_column {
            r.push(self.cells[row_idx][col_idx + 1]);
        }
        if row_idx > 0 {
            r.push(self.cells[row_idx - 1][col_idx]);
        }
        if row_idx + 1 < max_row {
            r.push(self.cells[row_idx + 1][col_idx]);
        }
        proof {
            assert(r@ =~= spec_neighbors(
                self.grid(),
                cell.location.0 as int,
                cell.location.1 as int,
            ));
        }
        r
    }

    /// Computes the next generation as a brand-new cell table, every cell
    /// decided by the rule on the current generation's neighbor counts: a
    /// consistent snapshot of the whole grid.
    pub fn update_cells(&self) -> (r: Vec<Vec<Cell>>)
        requires
            well_formed(self.grid()),
        ensures
            grid_view(r@) == spec_advance(self.grid()),
    {
        let rows = self.cells.len();
        let mut new_cells: Vec<Vec<Cell>> = Vec::new();
        let mut i: usize = 0;
        while i < rows
            invariant
                well_formed(self.grid()),
                rows == self.grid().len(),
                i == new_cells@.len() <= rows,
                forall|a: int|
                    0 <= a < new_cells@.len() ==> (#[trigger] new_cells@[a])@ == spec_advance(
                        self.grid(),
                    )[a],
            decreases rows - i,
        {
            let columns = self.cells[i].len();
            let mut new_row: Vec<Cell> = Vec::new();
            let mut j: usize = 0;
            while j < columns
                invariant
                    well_formed(self.grid()),
                    rows == self.grid().len(),
                    0 <= i < rows,
                    columns == self.grid()[i as int].len(),
                    j == new_row@.len() <= columns,
                    forall|b: int|
                        0 <= b < new_row@.len() ==> #[trigger] new_row@[b] == spec_advance(
                            self.grid(),
                        )[i as int][b],
                decreases columns - j,
            {
                let cell = self.cells[i][j];
                let neighbors = self.get_neighbors(&cell);
                let mut count: usize = 0;
                let mut k: usize = 0;
                while k < neighbors.len()
                    invariant
                        k <= neighbors@.len(),
                        count == alive_count(neighbors@.take(k as int)),
                        count <= k,
                    decreases neighbors@.len() - k,
                {
                    proof {
                        lemma_alive_count_take(neighbors@, k as int);
                    }
                    if neighbors[k].is_alive() {
                        count = count + 1;
                    }
                    k = k + 1;
                }
                proof {
                    assert(neighbors@.take(neighbors@.len() as int) =~= neighbors@);
                }
                let new_cell = match cell.state {
                    CellState::Alive => if count == 2 || count == 3 {
                        cell
                    } else {
                        Cell::new(cell.location, CellState::Dead)
                    },
                    CellState::Dead => if count == 3 {
                        Cell::new(cell.location, CellState::Alive)
                    } else {
                        cell
                    },
                };
                proof {
                    assert(new_cell == spec_advance(self.grid())[i as int][j as int]);
                }
                new_row.push(new_cell);
                j = j + 1;
            }
            proof {
                assert(new_row@ =~= spec_advance(self.grid())[i as int]);
            }
            new_cells.push(new_row);
            i = i + 1;
        }
        proof {
            assert(grid_view(new_cells@) =~= spec_advance(self.grid()));
        }
        new_cells
    }

    /// One pre-render step of the driver loop: on the first pass, while the
    /// grid is still empty, sizes the grid from the game rectangle and
    /// fills it with randomly drawn cells; on every later pass it leaves
    /// the game untouched.
    pub fn prepare_cells(&mut self, game: &Rect)
        ensures
            final(self).tick_rate_ms == old(self).tick_rate_ms,
            final(self).cell_size == old(self).cell_size,
            old(self).cells@.len() > 0 ==> *final(self) == *old(self),
            old(self).cells@.len() == 0 ==> final(self).grid().len() == game.height as int / old(
                self,
            ).cell_size.spec_height() as int && well_formed(final(self).grid()) && (forall|i: int|
                0 <= i < final(self).grid().len() ==> (#[trigger] final(self).grid()[i]).len()
                    == game.width as int / old(self).cell_size.spec_width() as int),
    {
        if self.cells.len() == 0 {
            self.set_cells_dimensions(game);
            self.initialize_cells();
        }
    }

    /// Checks at run time that the grid is one the engine can advance:
    /// rectangular, every cell at its own position.
    pub fn check_well_formed(&self) -> (r: bool)
        ensures
            r <==> well_formed(self.grid()),
    {
        let rows = self.cells.len();
        if rows == 0 {
            return true;
        }
        let columns = self.cells[0].len();
        let mut i: usize = 0;
        while i < rows
            invariant
                rows == self.grid().len(),
                0 < rows,
                columns == self.grid()[0].len(),
                i <= rows,
                forall|a: int|
                    0 <= a < i ==> (#[trigger] self.grid()[a]).len() == columns,
                forall|a: int, b: int|
                    0 <= a < i && 0 <= b < self.grid()[a].len()
                        ==> (#[trigger] self.grid()[a][b]).location == (a as usize, b as usize),
            decreases rows - i,
        {
            let row_len = self.cells[i].len();
            if row_len != columns {
                return false;
            }
            let mut j: usize = 0;
            while j < row_len
                invariant
                    rows == self.grid().len(),
                    0 <= i < rows,
                    row_len == self.grid()[i as int].len(),
                    j <= row_len,
                    forall|b: int|
                        0 <= b < j ==> (#[trigger] self.grid()[i as int][b]).location == (
                        i as usize,
                        b as usize,
                        ),
                decreases row_len - j,
            {
                let c = self.cells[i][j];
                if c.location.0 != i || c.location.1 != j {
                    return false;
                }
                j = j + 1;
            }
            i = i + 1;
        }
        true
    }
}

} // verus!
