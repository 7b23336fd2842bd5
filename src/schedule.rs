//! The decisions of the tick scheduler: whether a tick waits or resolves,
//! and which move the votes make.

use vstd::prelude::*;
use crate::board::{Board, MoveError};
use crate::votes::{all_zero, grid_argmax, is_top};

verus! {

/// Seconds to wait while a team has no players.
pub const PLAYER_WAIT_SECS: u64 = 2;

/// Seconds to wait while the game is paused.
pub const PAUSED_WAIT_SECS: u64 = 2;

/// Seconds to wait while nobody has voted.
pub const EMPTY_GRID_WAIT_SECS: u64 = 4;

/// Seconds between the end of a match and the start of the next.
pub const COOLDOWN_SECS: u64 = 20;

/// Seconds between two resolving ticks.
pub const TICK_SECS: u64 = 12;

/// What one iteration of the scheduler does.
#[derive(Clone, Copy, Debug, PartialEq, Eq, Structural)]
pub enum TickStep {
    /// A team has no players: mark the game paused and wait.
    AwaitPlayers,
    /// The game is paused: wait.
    Paused,
    /// No votes yet: wait.
    AwaitVotes,
    /// Turn the votes into a move.
    Resolve,
}

/// The step of a tick, given the roster sizes, the pause flag and whether
/// the vote grid reads empty; checked in that order.
pub fn plan_tick(x_count: usize, o_count: usize, paused: bool, grid_empty: bool) -> (r: TickStep)
    ensures
        (x_count == 0 || o_count == 0) ==> r == TickStep::AwaitPlayers,
        (x_count > 0 && o_count > 0 && paused) ==> r == TickStep::Paused,
        (x_count > 0 && o_count > 0 && !paused && grid_empty) ==> r == TickStep::AwaitVotes,
        (x_count > 0 && o_count > 0 && !paused && !grid_empty) ==> r == TickStep::Resolve,
{
    if x_count == 0 || o_count == 0 {
        TickStep::AwaitPlayers
    } else if paused {
        TickStep::Paused
    } else if grid_empty {
        TickStep::AwaitVotes
    } else {
        TickStep::Resolve
    }
}

impl TickStep {
    /// Seconds to sleep after this step (a resolving tick sleeps the full
    /// interval).
    pub fn wait_secs(&self) -> (r: u64)
        ensures
            *self == TickStep::AwaitPlayers ==> r == PLAYER_WAIT_SECS,
            *self == TickStep::Paused ==> r == PAUSED_WAIT_SECS,
            *self == TickStep::AwaitVotes ==> r == EMPTY_GRID_WAIT_SECS,
            *self == TickStep::Resolve ==> r == TICK_SECS,
    {
        match self {
            TickStep::AwaitPlayers => PLAYER_WAIT_SECS,
            TickStep::Paused => PAUSED_WAIT_SECS,
            TickStep::AwaitVotes => EMPTY_GRID_WAIT_SECS,
            TickStep::Resolve => TICK_SECS,
        }
    }

    /// Whether this step marks the game paused.
    pub fn sets_paused(&self) -> (r: bool)
        ensures
            r == (*self == TickStep::AwaitPlayers),
    {
        matches!(self, TickStep::AwaitPlayers)
    }
}

/// What a resolving tick made of the votes.
#[derive(Clone, Copy, Debug)]
pub enum Resolution {
    /// Every counter was zero.
    NoVotes,
    /// The most-voted position is not a legal move now.
    Rejected { coord: (usize, usize), error: MoveError },
    /// The most-voted position was played.
    Moved { coord: (usize, usize), board: Board },
}

/// Plays the most-voted position of `grid` on `board` for the team whose
/// turn it is.
pub fn resolve_votes(board: &Board, grid: &[[usize; 9]; 9]) -> (r: Resolution)
    ensures
        r is NoVotes <==> all_zero(*grid),
        r matches Resolution::Rejected { coord, error } ==> is_top(
            *grid,
            coord.0 as int,
            coord.1 as int,
        ) && board.move_check(coord, board.current_team) == Err::<(), MoveError>(error),
        r matches Resolution::Moved { coord, board: nb } ==> is_top(
            *grid,
            coord.0 as int,
            coord.1 as int,
        ) && board.move_check(coord, board.current_team) is Ok && board.is_move_result(coord, nb),
{
    match grid_argmax(grid) {
        None => Resolution::NoVotes,
        Some(coord) => match board.get_updated(coord) {
            Ok(nb) => Resolution::Moved { coord, board: nb },
            Err(error) => Resolution::Rejected { coord, error },
        },
    }
}

} // verus!
