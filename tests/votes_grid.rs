use crowd_tictactoe::votes::{grid_argmax, grid_is_empty};
use crowd_tictactoe::{Board, MoveError, Snapshot, Team};

#[test]
fn argmax_of_zero_grid_is_none() {
    let g = [[0usize; 9]; 9];
    assert_eq!(grid_argmax(&g), None);
    assert!(grid_is_empty(&g));
}

#[test]
fn argmax_finds_unique_maximum() {
    let mut g = [[0usize; 9]; 9];
    g[6][2] = 7;
    g[1][1] = 3;
    g[8][8] = 6;
    assert_eq!(grid_argmax(&g), Some((6, 2)));
    assert!(!grid_is_empty(&g));
}

#[test]
fn argmax_tie_takes_lowest_row_major_index() {
    let mut g = [[0usize; 9]; 9];
    g[5][0] = 4;
    g[2][7] = 4;
    g[2][8] = 4;
    g[7][1] = 2;
    assert_eq!(grid_argmax(&g), Some((2, 7)));
}

#[test]
fn argmax_tie_within_one_section() {
    let mut g = [[0usize; 9]; 9];
    g[3][6] = 9;
    g[3][4] = 9;
    assert_eq!(grid_argmax(&g), Some((3, 4)));
}

#[test]
fn argmax_of_last_cell() {
    let mut g = [[0usize; 9]; 9];
    g[8][8] = 1;
    assert_eq!(grid_argmax(&g), Some((8, 8)));
    let mut h = [[0usize; 9]; 9];
    h[0][0] = 1;
    assert_eq!(grid_argmax(&h), Some((0, 0)));
}

#[test]
fn snapshot_counts_and_resets() {
    let grid = Snapshot::new();
    assert!(grid.is_empty());
    assert_eq!(grid.find_max_indices(), None);
    assert_eq!(grid.increment(4, 5), 0);
    assert_eq!(grid.increment(4, 5), 1);
    assert_eq!(grid.increment(0, 8), 0);
    let g = grid.load();
    assert_eq!(g[4][5], 2);
    assert_eq!(g[0][8], 1);
    assert_eq!(g[0][0], 0);
    assert!(!grid.is_empty());
    assert_eq!(grid.find_max_indices(), Some((4, 5)));
    grid.reset();
    assert!(grid.is_empty());
    assert_eq!(grid.load(), [[0usize; 9]; 9]);
}

#[test]
fn concurrent_increments_lose_nothing() {
    let grid = Snapshot::new();
    let workers = 8;
    let per_worker = 2500;
    crossbeam::scope(|s| {
        for _ in 0..workers {
            s.spawn(|_| {
                for _ in 0..per_worker {
                    grid.increment(3, 4);
                }
            });
        }
    })
    .unwrap();
    assert_eq!(grid.load()[3][4], workers * per_worker);
    assert_eq!(grid.find_max_indices(), Some((3, 4)));
}

#[test]
fn concurrent_increments_on_many_cells() {
    let grid = Snapshot::new();
    crossbeam::scope(|s| {
        for w in 0..9usize {
            let grid = &grid;
            s.spawn(move |_| {
                for c in 0..9usize {
                    for _ in 0..100 {
                        grid.increment(w, c);
                    }
                }
            });
        }
    })
    .unwrap();
    let g = grid.load();
    for s in 0..9 {
        for c in 0..9 {
            assert_eq!(g[s][c], 100);
        }
    }
}

#[test]
fn vote_validation_checks_range_and_rules() {
    let grid = Snapshot::new();
    let b = Board::new();
    assert_eq!(grid.validate_move(&b, 9, 0, Team::X), Err(MoveError::OutOfRange));
    assert_eq!(grid.validate_move(&b, 0, 9, Team::X), Err(MoveError::OutOfRange));
    assert_eq!(grid.validate_move(&b, 0, 0, Team::O), Err(MoveError::NotYourTurn));
    assert_eq!(grid.validate_move(&b, 8, 8, Team::X), Ok(()));
}
