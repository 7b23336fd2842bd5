//! The vote grid: 81 counters, one per cell of the board, row = section and
//! column = cell, and what a tick reads off them.

use std::sync::atomic::{AtomicUsize, Ordering};
use vstd::prelude::*;
use crate::board::{Board, MoveError, Team};

verus! {

/// Counter `(s, c)` of `g`.
pub open spec fn count(g: [[usize; 9]; 9], s: int, c: int) -> usize {
    g[s][c]
}

/// Every counter is zero.
pub open spec fn all_zero(g: [[usize; 9]; 9]) -> bool {
    forall|s: int, c: int| 0 <= s < 9 && 0 <= c < 9 ==> #[trigger] count(g, s, c) == 0
}

/// Position `(s1, c1)` comes before `(s2, c2)` in row-major order.
pub open spec fn before(s1: int, c1: int, s2: int, c2: int) -> bool {
    s1 < s2 || (s1 == s2 && c1 < c2)
}

/// `(s, c)` holds the greatest counter of `g`, and every earlier position in
/// row-major order holds strictly less.
pub open spec fn is_top(g: [[usize; 9]; 9], s: int, c: int) -> bool {
    &&& 0 <= s < 9
    &&& 0 <= c < 9
    &&& forall|i: int, j: int|
        0 <= i < 9 && 0 <= j < 9 ==> #[trigger] count(g, i, j) <= count(g, s, c)
    &&& forall|i: int, j: int|
        0 <= i < 9 && 0 <= j < 9 && before(i, j, s, c) ==> #[trigger] count(g, i, j) < count(
            g,
            s,
            c,
        )
}

/// Whether a vote by `team` for cell `cell` of section `section` may be
/// counted against `board`: both indices in `0..9`, then the checks of a move.
pub open spec fn vote_check(board: Board, section: usize, cell: usize, team: Team) -> Result<
    (),
    MoveError,
> {
    if !(section < 9 && cell < 9) {
        Err(MoveError::OutOfRange)
    } else {
        board.move_check((section, cell), team)
    }
}

/// At most one position of a grid is its top.
pub proof fn lemma_top_unique(g: [[usize; 9]; 9], s1: int, c1: int, s2: int, c2: int)
    requires
        is_top(g, s1, c1),
        is_top(g, s2, c2),
    ensures
        s1 == s2 && c1 == c2,
{
    assert(count(g, s1, c1) <= count(g, s2, c2));
    assert(count(g, s2, c2) <= count(g, s1, c1));
}

/// Whether every counter of `g` is zero.
pub fn grid_is_empty(g: &[[usize; 9]; 9]) -> (r: bool)
    ensures
        r == all_zero(*g),
{
    let mut i: usize = 0;
    while i < 9
        invariant
            0 <= i <= 9,
            forall|s: int, c: int| 0 <= s < i && 0 <= c < 9 ==> #[trigger] count(*g, s, c) == 0,
        decreases 9 - i,
    {
        let mut j: usize = 0;
        while j < 9
            invariant
                0 <= i < 9,
                0 <= j <= 9,
                forall|s: int, c: int|
                    0 <= s < 9 && 0 <= c < 9 && before(s, c, i as int, j as int) ==> #[trigger] count(
                        *g,
                        s,
                        c,
                    ) == 0,
            decreases 9 - j,
        {
            if g[i][j] != 0 {
                assert(count(*g, i as int, j as int) != 0);
                return false;
            }
            j += 1;
        }
        i += 1;
    }
    true
}

/// The position of the strictly greatest counter, the earliest in row-major
/// order among equals; `None` when every counter is zero.
pub fn grid_argmax(g: &[[usize; 9]; 9]) -> (r: Option<(usize, usize)>)
    ensures
        r is None <==> all_zero(*g),
        r matches Some(p) ==> is_top(*g, p.0 as int, p.1 as int),
{
    let mut max: usize = 0;
    let mut best: (usize, usize) = (0, 0);
    let mut i: usize = 0;
    while i < 9
        invariant
            0 <= i <= 9,
            forall|s: int, c: int|
                0 <= s < i && 0 <= c < 9 ==> #[trigger] count(*g, s, c) <= max,
            max > 0 ==> best.0 < i && best.1 < 9 && count(*g, best.0 as int, best.1 as int) == max,
            max > 0 ==> forall|s: int, c: int|
                0 <= s < 9 && 0 <= c < 9 && before(s, c, best.0 as int, best.1 as int)
                    ==> #[trigger] count(*g, s, c) < max,
        decreases 9 - i,
    {
        let mut j: usize = 0;
        while j < 9
            invariant
                0 <= i < 9,
                0 <= j <= 9,
                forall|s: int, c: int|
                    0 <= s < 9 && 0 <= c < 9 && before(s, c, i as int, j as int) ==> #[trigger] count(
                        *g,
                        s,
                        c,
                    ) <= max,
                max > 0 ==> before(best.0 as int, best.1 as int, i as int, j as int) && best.0 < 9
                    && best.1 < 9 && count(*g, best.0 as int, best.1 as int) == max,
                max > 0 ==> forall|s: int, c: int|
                    0 <= s < 9 && 0 <= c < 9 && before(s, c, best.0 as int, best.1 as int)
                        ==> #[trigger] count(*g, s, c) < max,
            decreases 9 - j,
        {
            let value = g[i][j];
            if value > max {
                max = value;
                best = (i, j);
            }
            j += 1;
        }
        i += 1;
    }
    if max == 0 {
        None
    } else {
        Some(best)
    }
}

/// The live vote grid, shared by every connection: 81 counters that any
/// number of callers may bump at once without a lock.
///
/// Each counter is read and written atomically on its own; a read of all 81
/// is not one atomic step, so what `load` returns while votes come in depends
/// on how the callers interleave. The decisions taken from a grid are made by
/// [`grid_argmax`] and [`grid_is_empty`] on the values read.
pub struct Snapshot {
    pub snap: [[AtomicUsize; 9]; 9],
}

fn zero_row() -> [AtomicUsize; 9] {
    [
        AtomicUsize::new(0),
        AtomicUsize::new(0),
        AtomicUsize::new(0),
        AtomicUsize::new(0),
        AtomicUsize::new(0),
        AtomicUsize::new(0),
        AtomicUsize::new(0),
        AtomicUsize::new(0),
        AtomicUsize::new(0),
    ]
}

impl Snapshot {
    /// A grid with every counter at zero.
    pub fn new() -> Self {
        Snapshot {
            snap: [
                zero_row(),
                zero_row(),
                zero_row(),
                zero_row(),
                zero_row(),
                zero_row(),
                zero_row(),
                zero_row(),
                zero_row(),
            ],
        }
    }

    /// Reads every counter, one at a time.
    pub fn load(&self) -> [[usize; 9]; 9] {
        let mut out = [[0usize; 9]; 9];
        let mut i: usize = 0;
        while i < 9
            invariant
                0 <= i <= 9,
            decreases 9 - i,
        {
            let mut row = [0usize; 9];
            let mut j: usize = 0;
            while j < 9
                invariant
                    0 <= i < 9,
                    0 <= j <= 9,
                decreases 9 - j,
            {
                row[j] = self.snap[i][j].load(Ordering::Acquire);
                j += 1;
            }
            out[i] = row;
            i += 1;
        }
        out
    }

    /// Sets every counter back to zero.
    pub fn reset(&self) {
        let mut i: usize = 0;
        while i < 9
            invariant
                0 <= i <= 9,
            decreases 9 - i,
        {
            let mut j: usize = 0;
            while j < 9
                invariant
                    0 <= i < 9,
                    0 <= j <= 9,
                decreases 9 - j,
            {
                self.snap[i][j].store(0, Ordering::SeqCst);
                j += 1;
            }
            i += 1;
        }
    }

    /// Adds one vote for cell `col` of section `row` in one atomic step and
    /// returns the count before it.
    pub fn increment(&self, row: usize, col: usize) -> usize
        requires
            row < 9,
            col < 9,
    {
        self.snap[row][col].fetch_add(1, Ordering::AcqRel)
    }

    /// The most-voted position of the grid as read now; `None` when it reads
    /// all zero.
    pub fn find_max_indices(&self) -> (r: Option<(usize, usize)>)
        ensures
            r matches Some(p) ==> p.0 < 9 && p.1 < 9,
    {
        let grid = self.load();
        grid_argmax(&grid)
    }

    /// Whether the grid reads all zero now.
    pub fn is_empty(&self) -> bool {
        let grid = self.load();
        grid_is_empty(&grid)
    }

    /// Whether a vote by `team` for cell `cell` of section `section` may be
    /// counted against `board`, the board of the current match.
    pub fn validate_move(&self, board: &Board, section: usize, cell: usize, team: Team) -> (r:
        Result<(), MoveError>)
        ensures
            r == vote_check(*board, section, cell, team),
    {
        if !(section < 9 && cell < 9) {
            return Err(MoveError::OutOfRange);
        }
        board.validate_move((section, cell), team)
    }
}

} // verus!
