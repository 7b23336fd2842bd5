//! The decisions of a connection's inbound unit: which votes count, when a
//! fresh snapshot goes out, and whether the game can run.

use vstd::prelude::*;
use crate::board::{Board, MoveError, Team};
use crate::messages::IncrementRequest;
use crate::votes::{vote_check, Snapshot};

verus! {

/// The least time, in milliseconds, between two snapshots that one
/// connection publishes while it votes.
pub const BROADCAST_INTERVAL_MILLIS: u128 = 100;

/// Whether both teams have at least one player; the game is paused while
/// they do not.
pub fn enough_players(x_count: usize, o_count: usize) -> (r: bool)
    ensures
        r == (x_count > 0 && o_count > 0),
{
    x_count > 0 && o_count > 0
}

/// One connection's limit on how often its votes publish a snapshot.
#[derive(Clone, Copy, Debug)]
pub struct BroadcastThrottle {
    /// A vote was counted since the last snapshot this connection published.
    pub needs_broadcast: bool,
}

impl BroadcastThrottle {
    pub fn new() -> (r: BroadcastThrottle)
        ensures
            !r.needs_broadcast,
    {
        BroadcastThrottle { needs_broadcast: false }
    }

    /// A vote was counted `millis_since_last` milliseconds after this
    /// connection last published. Returns whether to publish now.
    pub fn record_vote(&mut self, millis_since_last: u128) -> (r: bool)
        ensures
            r == (millis_since_last > BROADCAST_INTERVAL_MILLIS),
            final(self).needs_broadcast == !r,
    {
        self.needs_broadcast = true;
        if millis_since_last > BROADCAST_INTERVAL_MILLIS {
            self.needs_broadcast = false;
            true
        } else {
            false
        }
    }

    /// Whether a last snapshot is owed when the connection's stream ends.
    pub fn flush_on_close(&self) -> (r: bool)
        ensures
            r == self.needs_broadcast,
    {
        self.needs_broadcast
    }
}

/// What became of a vote.
#[derive(Clone, Copy, Debug, PartialEq, Eq, Structural)]
pub enum VoteOutcome {
    /// The vote was not counted.
    Dropped(MoveError),
    /// The vote was counted; `publish` says whether to broadcast now.
    Counted { publish: bool },
}

/// Handles one vote of a connection on `team` against `board`, the board of
/// the current match: counts it in `grid` when legal and says whether to
/// publish a fresh snapshot. An illegal vote changes nothing.
pub fn handle_vote(
    grid: &Snapshot,
    board: &Board,
    request: &IncrementRequest,
    team: Team,
    throttle: &mut BroadcastThrottle,
    millis_since_last: u128,
) -> (r: VoteOutcome)
    ensures
        r matches VoteOutcome::Dropped(e) ==> vote_check(*board, request.section, request.cell, team)
            == Err::<(), MoveError>(e) && *final(throttle) == *old(throttle),
        r matches VoteOutcome::Counted { publish } ==> vote_check(
            *board,
            request.section,
            request.cell,
            team,
        ) is Ok && publish == (millis_since_last > BROADCAST_INTERVAL_MILLIS)
            && final(throttle).needs_broadcast == !publish,
        r is Dropped <==> vote_check(*board, request.section, request.cell, team) is Err,
{
    match grid.validate_move(board, request.section, request.cell, team) {
        Err(e) => VoteOutcome::Dropped(e),
        Ok(()) => {
            grid.increment(request.section, request.cell);
            let publish = throttle.record_vote(millis_since_last);
            VoteOutcome::Counted { publish }
        },
    }
}

} // verus!
