//! The shapes of the messages exchanged with clients and of request
//! parameters.

use vstd::prelude::*;
use crate::board::{Board, Status, Team};

verus! {

/// Page size used when a listing names none.
pub const DEFAULT_PAGE_LIMIT: usize = 10;

/// Paging of a match listing.
#[derive(Clone, Copy, Debug, Default)]
pub struct Pagination {
    pub offset: Option<usize>,
    pub limit: Option<usize>,
}

impl Pagination {
    /// The page size asked for, or the default one.
    pub fn limit_or_default(&self) -> (r: usize)
        ensures
            r == (match self.limit {
                Some(l) => l,
                None => DEFAULT_PAGE_LIMIT,
            }),
    {
        match self.limit {
            Some(l) => l,
            None => DEFAULT_PAGE_LIMIT,
        }
    }

    /// The offset asked for, or zero.
    pub fn offset_or_default(&self) -> (r: usize)
        ensures
            r == (match self.offset {
                Some(o) => o,
                None => 0,
            }),
    {
        match self.offset {
            Some(o) => o,
            None => 0,
        }
    }
}

/// A position given as query parameters.
#[derive(Clone, Copy, Debug)]
pub struct Coords {
    pub section: usize,
    pub cell: usize,
}

/// A vote sent by a client.
#[derive(Clone, Copy, Debug)]
pub struct IncrementRequest {
    pub section: usize,
    pub cell: usize,
}

/// The vote counts sent to clients. `your_team` is set only on the first
/// message to a new connection, to tell it which team it joined.
#[derive(Clone, Copy, Debug)]
pub struct SnapshotResponse {
    pub your_team: Option<Team>,
    pub snap: [[usize; 9]; 9],
}

impl SnapshotResponse {
    /// The message broadcast to every connection.
    pub fn broadcast(snap: [[usize; 9]; 9]) -> (r: SnapshotResponse)
        ensures
            r.your_team is None,
            r.snap == snap,
    {
        SnapshotResponse { your_team: None, snap }
    }

    /// The first message to a connection that just joined `team`.
    pub fn welcome(snap: [[usize; 9]; 9], team: Team) -> (r: SnapshotResponse)
        ensures
            r.your_team == Some(team),
            r.snap == snap,
    {
        SnapshotResponse { your_team: Some(team), snap }
    }
}

/// The roster sizes sent to clients.
#[derive(Clone, Copy, Debug)]
pub struct TeamsResponse {
    pub x_team_size: usize,
    pub o_team_size: usize,
}

/// What a new match is stored with.
#[derive(Clone, Copy, Debug)]
pub struct CreateMatchSchema {
    pub state: Status,
    pub board: Board,
}

} // verus!
