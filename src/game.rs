//! Decisions of the interactive loop around the grid: pausing, editing and
//! when to advance a generation. Input, timing and drawing are the caller's.

use vstd::prelude::*;

verus! {

/// Whether the simulation advances on its own.
#[derive(Clone, Copy, PartialEq, Eq, Debug, Structural)]
pub enum GameState {
    Running,
    Paused,
}

/// What a frame's mouse input asks to do to the cell under the pointer.
#[derive(Clone, Copy, PartialEq, Eq, Debug, Structural)]
pub enum CellEdit {
    Nothing,
    SetAlive,
    SetDead,
}

pub open spec fn toggled(state: GameState) -> GameState {
    match state {
        GameState::Running => GameState::Paused,
        GameState::Paused => GameState::Running,
    }
}

/// The state after a frame's input, and the edit it asks for. The pause key
/// toggles the state; cells are edited only while paused, the left button
/// winning over the right one.
pub fn user_interaction(
    state: GameState,
    pause_pressed: bool,
    left_pressed: bool,
    right_pressed: bool,
) -> (r: (GameState, CellEdit))
    ensures
        r.0 == if pause_pressed {
            toggled(state)
        } else {
            state
        },
        r.1 == if r.0 == GameState::Paused && left_pressed {
            CellEdit::SetAlive
        } else if r.0 == GameState::Paused && right_pressed {
            CellEdit::SetDead
        } else {
            CellEdit::Nothing
        },
{
    let next = if pause_pressed {
        match state {
            GameState::Paused => GameState::Running,
            GameState::Running => GameState::Paused,
        }
    } else {
        state
    };
    let edit = if next == GameState::Paused {
        if left_pressed {
            CellEdit::SetAlive
        } else if right_pressed {
            CellEdit::SetDead
        } else {
            CellEdit::Nothing
        }
    } else {
        CellEdit::Nothing
    };
    (next, edit)
}

/// A generation is due when the update interval has elapsed and the game
/// is running.
pub fn tick_due(state: GameState, interval_elapsed: bool) -> (r: bool)
    ensures
        r == (interval_elapsed && state == GameState::Running),
{
    interval_elapsed && state == GameState::Running
}

} // verus!
