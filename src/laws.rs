//! Properties of the grid operations, proved over their contracts.

use vstd::prelude::*;

use crate::conways::{next_state, CellState, ConwaysMap};

verus! {

/// Within the grid, a cell reads as Alive after `set_alive` and as Dead
/// after a following `set_dead`.
pub proof fn lemma_set_alive_then_dead(
    m0: &ConwaysMap,
    m1: &ConwaysMap,
    m2: &ConwaysMap,
    row: int,
    column: int,
)
    requires
        m0.wf(),
        m0.in_bounds(row, column),
        m1.updated(m0, row, column, CellState::Alive),
        m2.updated(m1, row, column, CellState::Dead),
    ensures
        m1.alive_at(row, column),
        !m2.alive_at(row, column),
{
    assert(m1.in_bounds(row, column));
    assert(m2.in_bounds(row, column));
}

/// Outside the grid, `set_alive` and `set_dead` change no cell, and the
/// coordinate reads as not Alive before and after.
pub proof fn lemma_out_of_bounds_writes(
    m0: &ConwaysMap,
    m1: &ConwaysMap,
    row: int,
    column: int,
    state: CellState,
)
    requires
        m0.wf(),
        !m0.in_bounds(row, column),
        m1.updated(m0, row, column, state),
    ensures
        m1.same_shape(m0),
        forall|i: int, j: int| m0.in_bounds(i, j) ==> m1.cell(i, j) == m0.cell(i, j),
        !m0.alive_at(row, column),
        !m1.alive_at(row, column),
{
    assert forall|i: int, j: int| m0.in_bounds(i, j) implies m1.cell(i, j) == m0.cell(i, j) by {
        assert(m1.in_bounds(i, j));
    }
}

/// A grid with no Alive cell stays so after a generation.
pub proof fn lemma_dead_grid_stays_dead(m0: &ConwaysMap, m1: &ConwaysMap)
    requires
        m0.wf(),
        forall|i: int, j: int| m0.in_bounds(i, j) ==> !m0.alive_at(i, j),
        m1.is_next_generation(m0),
    ensures
        forall|i: int, j: int| m1.in_bounds(i, j) ==> !m1.alive_at(i, j),
{
    reveal(ConwaysMap::neighbours);
    assert forall|i: int, j: int| m1.in_bounds(i, j) implies !m1.alive_at(i, j) by {
        assert(m0.neighbours(i, j) == 0);
    }
}

/// An Alive cell with fewer than two Alive neighbours is Dead in the next
/// generation.
pub proof fn lemma_underpopulation(m0: &ConwaysMap, m1: &ConwaysMap, row: int, column: int)
    requires
        m0.alive_at(row, column),
        m0.neighbours(row, column) < 2,
        m1.is_next_generation(m0),
    ensures
        !m1.alive_at(row, column),
{
    assert(m1.in_bounds(row, column));
}

/// An Alive cell with two or three Alive neighbours stays Alive.
pub proof fn lemma_survival(m0: &ConwaysMap, m1: &ConwaysMap, row: int, column: int)
    requires
        m0.alive_at(row, column),
        2 <= m0.neighbours(row, column) <= 3,
        m1.is_next_generation(m0),
    ensures
        m1.alive_at(row, column),
{
    assert(m1.in_bounds(row, column));
}

/// A Dead cell with exactly three Alive neighbours becomes Alive.
pub proof fn lemma_reproduction(m0: &ConwaysMap, m1: &ConwaysMap, row: int, column: int)
    requires
        m0.in_bounds(row, column),
        !m0.alive_at(row, column),
        m0.neighbours(row, column) == 3,
        m1.is_next_generation(m0),
    ensures
        m1.alive_at(row, column),
{
    assert(m1.in_bounds(row, column));
}

/// An Alive cell with four or more Alive neighbours is Dead in the next
/// generation.
pub proof fn lemma_overpopulation(m0: &ConwaysMap, m1: &ConwaysMap, row: int, column: int)
    requires
        m0.alive_at(row, column),
        m0.neighbours(row, column) >= 4,
        m1.is_next_generation(m0),
    ensures
        !m1.alive_at(row, column),
{
    assert(m1.in_bounds(row, column));
}

/// 1 if `(r, c)` lies in the grid, else 0.
pub open spec fn in_grid_count(m: &ConwaysMap, r: int, c: int) -> int {
    if m.in_bounds(r, c) {
        1
    } else {
        0
    }
}

/// How many of the eight Moore neighbours of `(r, c)` lie in the grid.
pub open spec fn neighbour_positions(m: &ConwaysMap, r: int, c: int) -> int {
    in_grid_count(m, r - 1, c - 1) + in_grid_count(m, r - 1, c) + in_grid_count(m, r - 1, c + 1)
        + in_grid_count(m, r, c - 1) + in_grid_count(m, r, c + 1) + in_grid_count(m, r + 1, c - 1)
        + in_grid_count(m, r + 1, c) + in_grid_count(m, r + 1, c + 1)
}

/// The neighbour count of `(r, c)` depends only on the eight cells around
/// it: two grids of one shape that agree there give the same count, however
/// they differ at `(r, c)` itself or anywhere else.
pub proof fn lemma_neighbours_local(a: &ConwaysMap, b: &ConwaysMap, r: int, c: int)
    requires
        a.same_shape(b),
        forall|i: int, j: int|
            a.in_bounds(i, j) && r - 1 <= i <= r + 1 && c - 1 <= j <= c + 1 && !(i == r && j == c)
                ==> a.cell(i, j) == b.cell(i, j),
    ensures
        a.neighbours(r, c) == b.neighbours(r, c),
{
    reveal(ConwaysMap::neighbours);
}

/// Only neighbours inside the grid are counted: the count never exceeds the
/// number of them, and reaches it when every cell is Alive.
pub proof fn lemma_neighbours_within_grid(m: &ConwaysMap, r: int, c: int)
    ensures
        0 <= m.neighbours(r, c) <= neighbour_positions(m, r, c),
        neighbour_positions(m, r, c) <= 8,
        (forall|i: int, j: int| m.in_bounds(i, j) ==> m.alive_at(i, j)) ==> m.neighbours(r, c)
            == neighbour_positions(m, r, c),
{
    reveal(ConwaysMap::neighbours);
}

/// The Alive cells are exactly the three of row 1 in columns 0 to 2.
pub open spec fn is_horizontal_blinker(m: &ConwaysMap) -> bool {
    forall|i: int, j: int| m.in_bounds(i, j) ==> (m.alive_at(i, j) <==> (i == 1 && 0 <= j <= 2))
}

/// The Alive cells are exactly the three of column 1 in rows 0 to 2.
pub open spec fn is_vertical_blinker(m: &ConwaysMap) -> bool {
    forall|i: int, j: int| m.in_bounds(i, j) ==> (m.alive_at(i, j) <==> (0 <= i <= 2 && j == 1))
}

proof fn lemma_horizontal_to_vertical(m0: &ConwaysMap, m1: &ConwaysMap)
    requires
        m0.rows() >= 3,
        m0.cols() >= 3,
        is_horizontal_blinker(m0),
        m1.is_next_generation(m0),
    ensures
        is_vertical_blinker(m1),
{
    reveal(ConwaysMap::neighbours);
    assert forall|x: int, y: int| m0.alive_at(x, y) == (x == 1 && 0 <= y <= 2) by {
        if m0.in_bounds(x, y) {
        }
    }
    assert forall|i: int, j: int| m1.in_bounds(i, j) implies (m1.alive_at(i, j) <==> (0 <= i <= 2
        && j == 1)) by {
        assert(m0.in_bounds(i, j));
    }
}

proof fn lemma_vertical_to_horizontal(m0: &ConwaysMap, m1: &ConwaysMap)
    requires
        m0.rows() >= 3,
        m0.cols() >= 3,
        is_vertical_blinker(m0),
        m1.is_next_generation(m0),
    ensures
        is_horizontal_blinker(m1),
{
    reveal(ConwaysMap::neighbours);
    assert forall|x: int, y: int| m0.alive_at(x, y) == (0 <= x <= 2 && y == 1) by {
        if m0.in_bounds(x, y) {
        }
    }
    assert forall|i: int, j: int| m1.in_bounds(i, j) implies (m1.alive_at(i, j) <==> (i == 1 && 0
        <= j <= 2)) by {
        assert(m0.in_bounds(i, j));
    }
}

/// On a grid of at least three rows and three columns, a horizontal line of
/// three cells at row 1 turns into a vertical line centred at column 1, and
/// back, so the pattern repeats every two generations.
pub proof fn lemma_blinker(m0: &ConwaysMap, m1: &ConwaysMap, m2: &ConwaysMap)
    requires
        m0.rows() >= 3,
        m0.cols() >= 3,
        is_horizontal_blinker(m0),
        m1.is_next_generation(m0),
        m2.is_next_generation(m1),
    ensures
        is_vertical_blinker(m1),
        is_horizontal_blinker(m2),
{
    lemma_horizontal_to_vertical(m0, m1);
    lemma_vertical_to_horizontal(m1, m2);
}

proof fn lemma_rows_text_lines(m: &ConwaysMap, n: int)
    requires
        n >= 0,
    ensures
        m.rows_text(n).len() == n * (2 * m.cols() + 1),
        forall|i: int|
            0 <= i < n ==> m.rows_text(n).subrange(
                i * (2 * m.cols() + 1),
                i * (2 * m.cols() + 1) + 2 * m.cols() + 1,
            ) == #[trigger] m.row_text(i),
    decreases n,
{
    let w = 2 * m.cols() + 1;
    if n > 0 {
        lemma_rows_text_lines(m, n - 1);
        let prev = m.rows_text(n - 1);
        let t = m.rows_text(n);
        assert(t == prev + m.row_text(n - 1));
        assert(m.row_text(n - 1).len() == w);
        assert(n * w == (n - 1) * w + w) by (nonlinear_arith);
        assert forall|i: int| 0 <= i < n implies t.subrange(i * w, i * w + w) == #[trigger] m.row_text(
            i,
        ) by {
            if i < n - 1 {
                assert(i * w + w <= (n - 1) * w) by (nonlinear_arith)
                    requires
                        i < n - 1,
                        w >= 1,
                ;
                assert(i * w >= 0) by (nonlinear_arith)
                    requires
                        i >= 0,
                        w >= 1,
                ;
                assert(t.subrange(i * w, i * w + w) =~= prev.subrange(i * w, i * w + w));
            } else {
                assert(t.subrange(i * w, i * w + w) =~= m.row_text(i));
            }
        }
    }
}

/// The text dump has exactly one line per row: it is the rows' lines one
/// after another, each line holding one glyph (`0` or `1`) per column at the
/// even positions, spaces at the odd ones, and a newline at its end only.
pub proof fn lemma_render_lines(m: &ConwaysMap)
    ensures
        m.rendered().len() == m.rows() * (2 * m.cols() + 1),
        forall|i: int|
            0 <= i < m.rows() ==> m.rendered().subrange(
                i * (2 * m.cols() + 1),
                i * (2 * m.cols() + 1) + 2 * m.cols() + 1,
            ) == #[trigger] m.row_text(i),
        forall|i: int|
            0 <= i < m.rows() ==> (#[trigger] m.row_text(i)).len() == 2 * m.cols() + 1 && m.row_text(
                i,
            )[2 * m.cols() as int] == '\n',
        forall|i: int, k: int|
            0 <= i < m.rows() && 0 <= k < 2 * m.cols() ==> (#[trigger] m.row_text(i)[k] != '\n' && (
            (m.row_text(i)[k] == '0' || m.row_text(i)[k] == '1') <==> k % 2 == 0)),
{
    lemma_rows_text_lines(m, m.rows() as int);
    assert forall|i: int, k: int| 0 <= i < m.rows() && 0 <= k < 2 * m.cols() implies (
    #[trigger] m.row_text(i)[k] != '\n' && ((m.row_text(i)[k] == '0' || m.row_text(i)[k] == '1')
        <==> k % 2 == 0)) by {
        assert(m.row_text(i)[k] == m.row_cells_text(i, m.cols() as int)[k]);
    }
}

} // verus!
