use vstd::prelude::*;

verus! {

/// The state of one cell of the grid.
#[derive(Clone, Copy, PartialEq, Eq, Debug, Structural)]
pub enum CellState {
    Alive,
    Dead,
}

/// The state a cell takes in the next generation, given its current state
/// and the number of its Alive neighbours.
pub open spec fn next_state(current: CellState, neighbours: int) -> CellState {
    match current {
        // survival between 2 and 3 neighbours; under- and overpopulation otherwise
        CellState::Alive => if 2 <= neighbours <= 3 {
            CellState::Alive
        } else {
            CellState::Dead
        },
        // reproduction with exactly 3 neighbours
        CellState::Dead => if neighbours == 3 {
            CellState::Alive
        } else {
            CellState::Dead
        },
    }
}

/// The character a cell is written as: `1` for Alive, `0` for Dead.
pub open spec fn glyph(s: CellState) -> char {
    match s {
        CellState::Alive => '1',
        CellState::Dead => '0',
    }
}

/// A fixed-size grid of cells, stored row by row.
pub struct ConwaysMap {
    grid: Vec<Vec<CellState>>,
    width: usize,
    height: usize,
}

impl ConwaysMap {
    /// Number of columns.
    pub closed spec fn cols(&self) -> nat {
        self.width as nat
    }

    /// Number of rows.
    pub closed spec fn rows(&self) -> nat {
        self.height as nat
    }

    /// The state of the cell at `(r, c)`; meaningful only within bounds.
    pub closed spec fn cell(&self, r: int, c: int) -> CellState {
        self.grid@[r]@[c]
    }

    /// The grid holds exactly `rows()` rows of `cols()` cells each.
    pub closed spec fn wf(&self) -> bool {
        &&& self.grid@.len() == self.height
        &&& forall|r: int| 0 <= r < self.height ==> #[trigger] self.grid@[r]@.len() == self.width
    }

    /// Whether `(r, c)` names a cell of the grid.
    pub open spec fn in_bounds(&self, r: int, c: int) -> bool {
        0 <= r < self.rows() && 0 <= c < self.cols()
    }

    /// A coordinate is Alive only if it lies in the grid and its cell is Alive.
    pub open spec fn alive_at(&self, r: int, c: int) -> bool {
        self.in_bounds(r, c) && self.cell(r, c) == CellState::Alive
    }

    /// Whether two grids have the same dimensions.
    pub open spec fn same_shape(&self, other: &ConwaysMap) -> bool {
        self.rows() == other.rows() && self.cols() == other.cols()
    }

    /// `self` is `prev` with `(row, column)` set to `state` when that lies in
    /// the grid, and equal to `prev` otherwise.
    pub open spec fn updated(&self, prev: &ConwaysMap, row: int, column: int, state: CellState) -> bool {
        &&& self.wf()
        &&& self.same_shape(prev)
        &&& forall|i: int, j: int|
            #![trigger self.in_bounds(i, j)]
            #![trigger self.cell(i, j)]
            self.in_bounds(i, j) ==> self.cell(i, j) == if i == row && j == column {
                state
            } else {
                prev.cell(i, j)
            }
    }

    /// `self` is the generation that follows `prev`: same dimensions, and
    /// every cell follows the rules from `prev` alone.
    pub open spec fn is_next_generation(&self, prev: &ConwaysMap) -> bool {
        &&& self.wf()
        &&& self.same_shape(prev)
        &&& forall|i: int, j: int|
            #![trigger self.in_bounds(i, j)]
            #![trigger self.cell(i, j)]
            self.in_bounds(i, j) ==> self.cell(i, j) == next_state(
                prev.cell(i, j),
                prev.neighbours(i, j),
            )
    }

    /// An all-Dead grid with `height` rows of `width` cells.
    pub fn new(width: usize, height: usize) -> (r: Self)
        ensures
            r.wf(),
            r.cols() == width,
            r.rows() == height,
            forall|i: int, j: int|
                #![trigger r.in_bounds(i, j)]
                #![trigger r.cell(i, j)]
                r.in_bounds(i, j) ==> r.cell(i, j) == CellState::Dead,
    {
        let mut grid: Vec<Vec<CellState>> = Vec::new();
        let mut i: usize = 0;
        while i < height
            invariant
                i <= height,
                grid@.len() == i,
                forall|a: int| 0 <= a < i ==> #[trigger] grid@[a]@.len() == width,
                forall|a: int, b: int|
                    0 <= a < i && 0 <= b < width ==> grid@[a]@[b] == CellState::Dead,
            decreases height - i,
        {
            let mut row: Vec<CellState> = Vec::new();
            let mut j: usize = 0;
            while j < width
                invariant
                    j <= width,
                    row@.len() == j,
                    forall|b: int| 0 <= b < j ==> row@[b] == CellState::Dead,
                decreases width - j,
            {
                row.push(CellState::Dead);
                j = j + 1;
            }
            grid.push(row);
            i = i + 1;
        }
        ConwaysMap { grid, width, height }
    }

    /// The state at `(row, column)`, or `None` outside the grid.
    pub fn get(&self, row: usize, column: usize) -> (r: Option<CellState>)
        requires
            self.wf(),
        ensures
            r == if self.in_bounds(row as int, column as int) {
                Some(self.cell(row as int, column as int))
            } else {
                None::<CellState>
            },
    {
        if row < self.grid.len() {
            let row_grid = &self.grid[row];
            if column < row_grid.len() {
                return Some(row_grid[column]);
            }
        }
        None
    }

    /// Whether `(x, y)` (row, column) is inside the grid and Alive.
    pub fn is_alive(&self, x: usize, y: usize) -> (r: bool)
        requires
            self.wf(),
        ensures
            r == self.alive_at(x as int, y as int),
    {
        matches!(self.get(x, y), Some(CellState::Alive))
    }

    /// Writes `state` at `(row, column)`; no effect outside the grid.
    fn set_cell(&mut self, row: usize, column: usize, state: CellState)
        requires
            old(self).wf(),
        ensures
            final(self).updated(old(self), row as int, column as int, state),
    {
        if row < self.grid.len() && column < self.grid[row].len() {
            self.grid[row][column] = state;
        }
    }

    /// Makes `(row, column)` Alive; no effect outside the grid.
    pub fn set_alive(&mut self, row: usize, column: usize)
        requires
            old(self).wf(),
        ensures
            final(self).updated(old(self), row as int, column as int, CellState::Alive),
    {
        self.set_cell(row, column, CellState::Alive);
    }

    /// Makes `(row, column)` Dead; no effect outside the grid.
    pub fn set_dead(&mut self, row: usize, column: usize)
        requires
            old(self).wf(),
        ensures
            final(self).updated(old(self), row as int, column as int, CellState::Dead),
    {
        self.set_cell(row, column, CellState::Dead);
    }

    /// 1 if `(r, c)` is Alive, else 0.
    pub open spec fn alive_count(&self, r: int, c: int) -> int {
        if self.alive_at(r, c) {
            1
        } else {
            0
        }
    }

    /// Number of Alive cells among the eight Moore neighbours of `(r, c)`;
    /// coordinates outside the grid count as Dead.
    #[verifier::opaque]
    pub open spec fn neighbours(&self, r: int, c: int) -> int {
        self.alive_count(r - 1, c - 1) + self.alive_count(r - 1, c) + self.alive_count(r - 1, c + 1)
            + self.alive_count(r, c - 1) + self.alive_count(r, c + 1) + self.alive_count(
            r + 1,
            c - 1,
        ) + self.alive_count(r + 1, c) + self.alive_count(r + 1, c + 1)
    }

    /// Alive cells among the first `k` of the nine offsets of the 3x3 block
    /// around `(r, c)`, taken row by row, leaving out the centre.
    spec fn block_count(&self, r: int, c: int, k: int) -> int
        decreases k,
    {
        if k <= 0 {
            0
        } else {
            self.block_count(r, c, k - 1) + if k - 1 == 4 {
                0
            } else {
                self.alive_count(r + (k - 1) / 3 - 1, c + (k - 1) % 3 - 1)
            }
        }
    }

    proof fn lemma_block_count_is_neighbours(&self, r: int, c: int)
        ensures
            self.block_count(r, c, 9) == self.neighbours(r, c),
    {
        reveal(ConwaysMap::neighbours);
        reveal_with_fuel(ConwaysMap::block_count, 10);
    }

    /// The coordinate `x` moved by `d - 1` (one of -1, 0, 1), or `None` when
    /// that leaves the range of `usize`, and so the grid.
    fn shifted(x: usize, d: usize) -> (r: Option<usize>)
        requires
            d <= 2,
        ensures
            match r {
                Some(v) => v == x + d - 1,
                None => x + d - 1 < 0 || x + d - 1 > usize::MAX,
            },
    {
        if d == 0 {
            if x == 0 {
                None
            } else {
                Some(x - 1)
            }
        } else if d == 1 {
            Some(x)
        } else if x == usize::MAX {
            None
        } else {
            Some(x + 1)
        }
    }

    /// Number of Alive neighbours of `(row, column)`; the cell itself and
    /// coordinates outside the grid are not counted.
    pub fn neighbours_count(&self, row: usize, column: usize) -> (r: u8)
        requires
            self.wf(),
        ensures
            r as int == self.neighbours(row as int, column as int),
            r <= 8,
    {
        let mut res: u8 = 0;
        let mut k: usize = 0;
        while k < 9
            invariant
                self.wf(),
                k <= 9,
                res as int == self.block_count(row as int, column as int, k as int),
                res <= k,
                k > 4 ==> res < k,
            decreases 9 - k,
        {
            if k != 4 {
                let alive = match (Self::shifted(row, k / 3), Self::shifted(column, k % 3)) {
                    (Some(x), Some(y)) => self.is_alive(x, y),
                    _ => false,
                };
                if alive {
                    res = res + 1;
                }
            }
            k = k + 1;
        }
        proof {
            self.lemma_block_count_is_neighbours(row as int, column as int);
        }
        res
    }

    /// The state of `(row, column)` in the next generation.
    fn next_cell(&self, row: usize, column: usize) -> (r: CellState)
        requires
            self.wf(),
            self.in_bounds(row as int, column as int),
        ensures
            r == next_state(self.cell(row as int, column as int), self.neighbours(row as int, column as int)),
    {
        let neighbours_count = self.neighbours_count(row, column);
        match (neighbours_count, self.grid[row][column]) {
            // underpopulation
            (0..=1, CellState::Alive) => CellState::Dead,
            // survival
            (2..=3, CellState::Alive) => CellState::Alive,
            // overpopulation
            (4.., CellState::Alive) => CellState::Dead,
            // reproduction
            (3, CellState::Dead) => CellState::Alive,
            _ => CellState::Dead,
        }
    }

    /// Advances the grid by one generation: every cell takes the state that
    /// the rules give from its own state and its neighbours in the current
    /// generation.
    pub fn tick(&mut self)
        requires
            old(self).wf(),
        ensures
            final(self).is_next_generation(old(self)),
    {
        let mut new_world: Vec<Vec<CellState>> = Vec::new();
        let mut i: usize = 0;
        while i < self.height
            invariant
                self.wf(),
                i <= self.height,
                new_world@.len() == i,
                forall|a: int| 0 <= a < i ==> #[trigger] new_world@[a]@.len() == self.width,
                forall|a: int, b: int|
                    0 <= a < i && 0 <= b < self.width ==> new_world@[a]@[b] == next_state(
                        self.cell(a, b),
                        self.neighbours(a, b),
                    ),
            decreases self.height - i,
        {
            let mut row: Vec<CellState> = Vec::new();
            let mut j: usize = 0;
            while j < self.width
                invariant
                    self.wf(),
                    i < self.height,
                    j <= self.width,
                    row@.len() == j,
                    forall|b: int|
                        0 <= b < j ==> row@[b] == next_state(
                            self.cell(i as int, b),
                            self.neighbours(i as int, b),
                        ),
                decreases self.width - j,
            {
                let next = self.next_cell(i, j);
                row.push(next);
                j = j + 1;
            }
            new_world.push(row);
            i = i + 1;
        }
        self.grid = new_world;
    }

    /// Glyphs and separators of the first `k` cells of row `r`: each cell's
    /// glyph followed by a space.
    pub open spec fn row_cells_text(&self, r: int, k: int) -> Seq<char> {
        Seq::new((2 * k) as nat, |p: int| if p % 2 == 0 { glyph(self.cell(r, p / 2)) } else { ' ' })
    }

    /// The text of row `r`: its cells' glyphs, each followed by a space, then a newline.
    pub open spec fn row_text(&self, r: int) -> Seq<char> {
        self.row_cells_text(r, self.cols() as int).push('\n')
    }

    /// The text of the first `n` rows, top to bottom.
    pub open spec fn rows_text(&self, n: int) -> Seq<char>
        decreases n,
    {
        if n <= 0 {
            Seq::empty()
        } else {
            self.rows_text(n - 1) + self.row_text(n - 1)
        }
    }

    /// The text dump of the whole grid.
    pub open spec fn rendered(&self) -> Seq<char> {
        self.rows_text(self.rows() as int)
    }

    /// One line per row, top to bottom; each cell written as `1` (Alive) or
    /// `0` (Dead) followed by a space; each line ended by a newline.
    pub fn render(&self) -> (r: String)
        requires
            self.wf(),
        ensures
            r@ == self.rendered(),
    {
        let mut out = String::new();
        let mut i: usize = 0;
        while i < self.height
            invariant
                self.wf(),
                i <= self.height,
                out@ == self.rows_text(i as int),
            decreases self.height - i,
        {
            let ghost before = out@;
            let mut j: usize = 0;
            while j < self.width
                invariant
                    self.wf(),
                    i < self.height,
                    j <= self.width,
                    before == self.rows_text(i as int),
                    out@ == before + self.row_cells_text(i as int, j as int),
                decreases self.width - j,
            {
                proof {
                    reveal_strlit("1 ");
                    reveal_strlit("0 ");
                }
                if self.grid[i][j] == CellState::Alive {
                    out.append("1 ");
                } else {
                    out.append("0 ");
                }
                assert(self.row_cells_text(i as int, j + 1) =~= self.row_cells_text(i as int, j as int)
                    + seq![glyph(self.cell(i as int, j as int)), ' ']);
                j = j + 1;
            }
            proof {
                reveal_strlit("\n");
            }
            out.append("\n");
            assert(out@ =~= self.rows_text(i + 1));
            i = i + 1;
        }
        out
    }

    /// Number of columns.
    pub fn width(&self) -> (r: usize)
        ensures
            r == self.cols(),
    {
        self.width
    }

    /// Number of rows.
    pub fn height(&self) -> (r: usize)
        ensures
            r == self.rows(),
    {
        self.height
    }

    /// The cells, row by row.
    pub fn grid(&self) -> (r: &Vec<Vec<CellState>>)
        requires
            self.wf(),
        ensures
            r@.len() == self.rows(),
            forall|i: int| 0 <= i < self.rows() ==> (#[trigger] r@[i])@.len() == self.cols(),
            forall|i: int, j: int| self.in_bounds(i, j) ==> r@[i]@[j] == self.cell(i, j),
    {
        &self.grid
    }
}

} // verus!
