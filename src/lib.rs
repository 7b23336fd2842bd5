//! Game-state and vote-aggregation engine for crowd-voted ultimate tic-tac-toe.

pub mod board;
pub mod messages;
pub mod schedule;
pub mod session;
pub mod teams;
pub mod votes;

pub use board::{Board, Cell, MoveError, Section, Status, Team};
pub use messages::{
    Coords, CreateMatchSchema, IncrementRequest, Pagination, SnapshotResponse, TeamsResponse,
};
pub use teams::{TeamConnection, Teams};
pub use votes::Snapshot;
