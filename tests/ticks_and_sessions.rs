use crowd_tictactoe::schedule::{
    plan_tick, resolve_votes, Resolution, TickStep, COOLDOWN_SECS, EMPTY_GRID_WAIT_SECS,
    PAUSED_WAIT_SECS, PLAYER_WAIT_SECS, TICK_SECS,
};
use crowd_tictactoe::session::{enough_players, handle_vote, BroadcastThrottle, VoteOutcome};
use crowd_tictactoe::{Board, IncrementRequest, MoveError, Pagination, Snapshot, SnapshotResponse, Status, Team};

#[test]
fn tick_waits_for_players_first() {
    assert_eq!(plan_tick(0, 3, false, false), TickStep::AwaitPlayers);
    assert_eq!(plan_tick(3, 0, true, true), TickStep::AwaitPlayers);
    assert!(TickStep::AwaitPlayers.sets_paused());
    assert_eq!(TickStep::AwaitPlayers.wait_secs(), 2);
    assert_eq!(PLAYER_WAIT_SECS, 2);
}

#[test]
fn tick_respects_pause() {
    assert_eq!(plan_tick(1, 1, true, false), TickStep::Paused);
    assert_eq!(TickStep::Paused.wait_secs(), PAUSED_WAIT_SECS);
    assert!(!TickStep::Paused.sets_paused());
}

#[test]
fn tick_waits_for_votes() {
    assert_eq!(plan_tick(1, 2, false, true), TickStep::AwaitVotes);
    assert_eq!(TickStep::AwaitVotes.wait_secs(), 4);
    assert_eq!(EMPTY_GRID_WAIT_SECS, 4);
}

#[test]
fn tick_resolves_when_ready() {
    assert_eq!(plan_tick(2, 1, false, false), TickStep::Resolve);
    assert_eq!(TickStep::Resolve.wait_secs(), 12);
    assert_eq!(TICK_SECS, 12);
    assert_eq!(COOLDOWN_SECS, 20);
}

#[test]
fn resolve_with_no_votes() {
    let b = Board::new();
    assert!(matches!(resolve_votes(&b, &[[0; 9]; 9]), Resolution::NoVotes));
}

#[test]
fn resolve_rejects_illegal_top_vote() {
    let b = Board::new().get_updated((0, 4)).unwrap();
    let mut g = [[0usize; 9]; 9];
    g[0][0] = 5;
    g[4][4] = 2;
    match resolve_votes(&b, &g) {
        Resolution::Rejected { coord, error } => {
            assert_eq!(coord, (0, 0));
            assert_eq!(error, MoveError::SectionNotInteractive);
        }
        other => panic!("unexpected {:?}", other),
    }
}

#[test]
fn end_to_end_tick_plays_the_most_voted_cell() {
    let board = Board::new();
    let grid = Snapshot::new();
    let mut throttle = BroadcastThrottle::new();
    let votes = [(0usize, 0usize), (0, 0), (0, 0), (0, 1)];
    for (section, cell) in votes {
        let req = IncrementRequest { section, cell };
        let outcome = handle_vote(&grid, &board, &req, Team::X, &mut throttle, 0);
        assert_eq!(outcome, VoteOutcome::Counted { publish: false });
    }
    assert!(throttle.flush_on_close());
    let step = plan_tick(1, 1, false, grid.is_empty());
    assert_eq!(step, TickStep::Resolve);
    let next = match resolve_votes(&board, &grid.load()) {
        Resolution::Moved { coord, board } => {
            assert_eq!(coord, (0, 0));
            board
        }
        other => panic!("unexpected {:?}", other),
    };
    grid.reset();
    assert_eq!(next.data[0].data[0].status, Status::X);
    assert_eq!(next.data[0].data[1].status, Status::Pending);
    assert_eq!(next.current_team, Team::O);
    assert!(grid.is_empty());
    assert_eq!(grid.load(), [[0usize; 9]; 9]);
}

#[test]
fn vote_from_wrong_team_is_dropped() {
    let board = Board::new();
    let grid = Snapshot::new();
    let mut throttle = BroadcastThrottle::new();
    let req = IncrementRequest { section: 1, cell: 2 };
    let outcome = handle_vote(&grid, &board, &req, Team::O, &mut throttle, 500);
    assert_eq!(outcome, VoteOutcome::Dropped(MoveError::NotYourTurn));
    assert!(grid.is_empty());
    assert!(!throttle.flush_on_close());
    let far = IncrementRequest { section: 1, cell: 9 };
    let outcome = handle_vote(&grid, &board, &far, Team::X, &mut throttle, 500);
    assert_eq!(outcome, VoteOutcome::Dropped(MoveError::OutOfRange));
}

#[test]
fn throttle_publishes_after_interval() {
    let mut t = BroadcastThrottle::new();
    assert!(!t.flush_on_close());
    assert!(!t.record_vote(50));
    assert!(t.flush_on_close());
    assert!(!t.record_vote(100));
    assert!(t.record_vote(101));
    assert!(!t.flush_on_close());
}

#[test]
fn counted_vote_publishes_when_due() {
    let board = Board::new();
    let grid = Snapshot::new();
    let mut throttle = BroadcastThrottle::new();
    let req = IncrementRequest { section: 2, cell: 2 };
    let outcome = handle_vote(&grid, &board, &req, Team::X, &mut throttle, 250);
    assert_eq!(outcome, VoteOutcome::Counted { publish: true });
    assert!(!throttle.flush_on_close());
    assert_eq!(grid.load()[2][2], 1);
}

#[test]
fn players_needed_on_both_teams() {
    assert!(!enough_players(0, 0));
    assert!(!enough_players(2, 0));
    assert!(!enough_players(0, 2));
    assert!(enough_players(1, 1));
}

#[test]
fn pagination_defaults() {
    let p = Pagination::default();
    assert_eq!(p.limit_or_default(), 10);
    assert_eq!(p.offset_or_default(), 0);
    let q = Pagination { offset: Some(30), limit: Some(5) };
    assert_eq!(q.limit_or_default(), 5);
    assert_eq!(q.offset_or_default(), 30);
}

#[test]
fn snapshot_messages() {
    let mut g = [[0usize; 9]; 9];
    g[1][1] = 3;
    let b = SnapshotResponse::broadcast(g);
    assert_eq!(b.your_team, None);
    assert_eq!(b.snap[1][1], 3);
    let w = SnapshotResponse::welcome(g, Team::O);
    assert_eq!(w.your_team, Some(Team::O));
    assert_eq!(w.snap, g);
}
