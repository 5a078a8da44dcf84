use conways::game::{tick_due, user_interaction};
use conways::{CellEdit, CellState, ConwaysMap, GameState};

fn alive_cells(m: &ConwaysMap) -> Vec<(usize, usize)> {
    let mut cells = Vec::new();
    for i in 0..m.height() {
        for j in 0..m.width() {
            if m.is_alive(i, j) {
                cells.push((i, j));
            }
        }
    }
    cells
}

#[test]
fn set_alive_then_set_dead_in_bounds() {
    let mut m = ConwaysMap::new(4, 3);
    for i in 0..3 {
        for j in 0..4 {
            m.set_alive(i, j);
            assert!(m.is_alive(i, j));
            m.set_dead(i, j);
            assert!(!m.is_alive(i, j));
        }
    }
}

#[test]
fn out_of_bounds_writes_change_nothing() {
    let mut m = ConwaysMap::new(10, 10);
    m.set_alive(2, 3);
    m.set_alive(10, 3);
    m.set_alive(3, 10);
    m.set_alive(usize::MAX, usize::MAX);
    m.set_dead(2, 10);
    m.set_dead(10, 2);
    assert_eq!(alive_cells(&m), vec![(2, 3)]);
    assert!(!m.is_alive(10, 3));
    assert!(!m.is_alive(3, 10));
    assert!(!m.is_alive(usize::MAX, 0));
    assert_eq!(m.get(10, 0), None);
    assert_eq!(m.get(0, 10), None);
}

#[test]
fn zero_sized_grids_have_no_cells() {
    for (w, h) in [(0, 0), (0, 5), (5, 0)] {
        let mut m = ConwaysMap::new(w, h);
        m.set_alive(0, 0);
        m.tick();
        assert_eq!(m.get(0, 0), None);
        assert!(!m.is_alive(0, 0));
        assert_eq!(m.render(), "\n".repeat(h));
        assert_eq!(m.grid().len(), h);
    }
}

#[test]
fn dead_grid_stays_dead_after_tick() {
    for (w, h) in [(1, 1), (3, 7), (10, 10), (0, 4)] {
        let mut m = ConwaysMap::new(w, h);
        m.tick();
        m.tick();
        assert!(alive_cells(&m).is_empty());
        assert_eq!(m.width(), w);
        assert_eq!(m.height(), h);
    }
}

#[test]
fn lone_cell_dies() {
    let mut m = ConwaysMap::new(10, 10);
    m.set_alive(1, 1);
    m.tick();
    assert!(!m.is_alive(1, 1));
    assert!(alive_cells(&m).is_empty());
}

#[test]
fn blinker_oscillates_with_period_two() {
    let horizontal = vec![(1, 0), (1, 1), (1, 2)];
    let vertical = vec![(0, 1), (1, 1), (2, 1)];
    for dim in [3, 10] {
        let mut m = ConwaysMap::new(dim, dim);
        m.set_alive(1, 0);
        m.set_alive(1, 1);
        m.set_alive(1, 2);
        for _ in 0..3 {
            m.tick();
            assert_eq!(alive_cells(&m), vertical);
            m.tick();
            assert_eq!(alive_cells(&m), horizontal);
        }
    }
}

#[test]
fn dead_cell_with_three_neighbours_is_born() {
    let mut m = ConwaysMap::new(10, 10);
    m.set_alive(1, 2);
    m.set_alive(1, 0);
    m.set_alive(2, 1);
    assert!(!m.is_alive(1, 1));
    assert_eq!(m.neighbours_count(1, 1), 3);
    m.tick();
    assert!(m.is_alive(1, 1));
}

#[test]
fn crowded_cell_dies() {
    let mut m = ConwaysMap::new(10, 10);
    m.set_alive(1, 1);
    m.set_alive(0, 0);
    m.set_alive(0, 2);
    m.set_alive(2, 0);
    m.set_alive(2, 2);
    assert_eq!(m.neighbours_count(1, 1), 4);
    m.tick();
    assert!(!m.is_alive(1, 1));
}

#[test]
fn dead_cell_with_two_neighbours_stays_dead() {
    let mut m = ConwaysMap::new(5, 5);
    m.set_alive(0, 0);
    m.set_alive(0, 2);
    m.tick();
    assert!(!m.is_alive(0, 1));
    assert!(!m.is_alive(1, 1));
}

#[test]
fn neighbours_stop_at_the_border() {
    let mut m = ConwaysMap::new(3, 3);
    for i in 0..3 {
        for j in 0..3 {
            m.set_alive(i, j);
        }
    }
    assert_eq!(m.neighbours_count(0, 0), 3);
    assert_eq!(m.neighbours_count(0, 1), 5);
    assert_eq!(m.neighbours_count(2, 2), 3);
    assert_eq!(m.neighbours_count(1, 1), 8);
    assert_eq!(m.neighbours_count(3, 3), 1);
    assert_eq!(m.neighbours_count(5, 5), 0);

    let single = {
        let mut s = ConwaysMap::new(1, 1);
        s.set_alive(0, 0);
        s
    };
    assert_eq!(single.neighbours_count(0, 0), 0);
}

#[test]
fn neighbours_do_not_wrap_around() {
    let mut m = ConwaysMap::new(10, 10);
    m.set_alive(9, 9);
    m.set_alive(0, 9);
    m.set_alive(9, 0);
    assert_eq!(m.neighbours_count(0, 0), 0);
}

#[test]
fn render_writes_one_line_per_row() {
    let mut m = ConwaysMap::new(3, 2);
    m.set_alive(1, 1);
    m.set_alive(0, 2);
    let text = m.render();
    assert_eq!(text, "0 0 1 \n0 1 0 \n");
    let lines: Vec<&str> = text.lines().collect();
    assert_eq!(lines.len(), 2);
    for line in lines {
        assert_eq!(line.split_whitespace().count(), 3);
    }
}

#[test]
fn render_of_a_large_grid_has_height_lines() {
    let mut m = ConwaysMap::new(7, 4);
    m.set_alive(3, 6);
    let text = m.render();
    let lines: Vec<&str> = text.lines().collect();
    assert_eq!(lines.len(), 4);
    for line in &lines {
        assert_eq!(line.split_whitespace().count(), 7);
    }
    assert_eq!(lines[3], "0 0 0 0 0 0 1 ");
}

#[test]
fn grid_rows_follow_the_cells() {
    let mut m = ConwaysMap::new(2, 2);
    m.set_alive(0, 1);
    let g = m.grid();
    assert_eq!(g[0], vec![CellState::Dead, CellState::Alive]);
    assert_eq!(g[1], vec![CellState::Dead, CellState::Dead]);
}

#[test]
fn pause_key_toggles_and_edits_only_while_paused() {
    assert_eq!(
        user_interaction(GameState::Running, true, false, false),
        (GameState::Paused, CellEdit::Nothing)
    );
    assert_eq!(
        user_interaction(GameState::Paused, true, true, false),
        (GameState::Running, CellEdit::Nothing)
    );
    assert_eq!(
        user_interaction(GameState::Running, false, true, true),
        (GameState::Running, CellEdit::Nothing)
    );
    assert_eq!(
        user_interaction(GameState::Paused, false, true, true),
        (GameState::Paused, CellEdit::SetAlive)
    );
    assert_eq!(
        user_interaction(GameState::Paused, false, false, true),
        (GameState::Paused, CellEdit::SetDead)
    );
    assert_eq!(
        user_interaction(GameState::Running, true, false, true),
        (GameState::Paused, CellEdit::SetDead)
    );
    assert!(tick_due(GameState::Running, true));
    assert!(!tick_due(GameState::Running, false));
    assert!(!tick_due(GameState::Paused, true));
}
