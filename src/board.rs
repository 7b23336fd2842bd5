//! The ultimate tic-tac-toe rules engine: cells, sections, boards and moves.
//!
//! A board holds nine sections laid out 3x3, each holding nine cells laid out
//! 3x3. Cells and sections are numbered row by row from 0 to 8. A move marks
//! one cell; the section it was played in decides which section the other
//! team must play in next.

use vstd::prelude::*;

verus! {

/// The state of a cell, a section or the whole board.
#[derive(Clone, Copy, Debug, PartialEq, Eq, Structural)]
pub enum Status {
    X,
    O,
    Tied,
    Pending,
}

/// One of the two teams.
#[derive(Clone, Copy, Debug, PartialEq, Eq, Structural)]
pub enum Team {
    X,
    O,
}

/// The team that moves first on a fresh board.
pub const DEFAULT_TEAM: Team = Team::X;

/// Why a move was refused.
#[derive(Clone, Copy, Debug, PartialEq, Eq, Structural)]
pub enum MoveError {
    /// The coordinates are not both in `0..9`.
    OutOfRange,
    /// The requesting team is not the one whose turn it is.
    NotYourTurn,
    /// The board is already decided.
    BoardDecided,
    /// The section is decided or not open for this move.
    SectionNotInteractive,
    /// The cell is already marked.
    CellTaken,
}

/// A status that is not a team's mark.
#[derive(Clone, Copy, Debug, PartialEq, Eq, Structural)]
pub struct NotATeam;

/// A text that names no status.
#[derive(Clone, Copy, Debug, PartialEq, Eq, Structural)]
pub struct UnknownStatus;

impl Team {
    /// The other team.
    pub open spec fn other(self) -> Team {
        match self {
            Team::X => Team::O,
            Team::O => Team::X,
        }
    }

    /// The status that marks something as owned by this team.
    pub open spec fn mark(self) -> Status {
        match self {
            Team::X => Status::X,
            Team::O => Status::O,
        }
    }

    pub fn toggle(&self) -> (r: Team)
        ensures
            r == self.other(),
    {
        match self {
            Team::X => Team::O,
            Team::O => Team::X,
        }
    }

    /// The status that marks something as owned by this team.
    pub fn as_status(&self) -> (r: Status)
        ensures
            r == self.mark(),
    {
        match self {
            Team::X => Status::X,
            Team::O => Status::O,
        }
    }
}

impl Default for Team {
    fn default() -> (r: Team)
        ensures
            r == DEFAULT_TEAM,
    {
        DEFAULT_TEAM
    }
}

impl From<Team> for Status {
    fn from(value: Team) -> (r: Status) {
        value.as_status()
    }
}

impl vstd::std_specs::convert::FromSpecImpl<Team> for Status {
    open spec fn obeys_from_spec() -> bool {
        true
    }

    open spec fn from_spec(v: Team) -> Status {
        v.mark()
    }
}

impl Status {
    /// Whether a cell, section or board in this status can still change.
    pub fn is_complete(&self) -> (r: bool)
        ensures
            r == (*self != Status::Pending),
    {
        !matches!(self, Status::Pending)
    }

    /// The team whose mark this status is, if it is one.
    pub fn to_team(&self) -> (r: Result<Team, NotATeam>)
        ensures
            r == team_marked(*self),
    {
        match self {
            Status::X => Ok(Team::X),
            Status::O => Ok(Team::O),
            _ => Err(NotATeam),
        }
    }
}

/// The team whose mark `s` is; `NotATeam` for `Tied` and `Pending`.
pub open spec fn team_marked(s: Status) -> Result<Team, NotATeam> {
    match s {
        Status::X => Ok(Team::X),
        Status::O => Ok(Team::O),
        _ => Err(NotATeam),
    }
}

impl TryFrom<Status> for Team {
    type Error = NotATeam;

    fn try_from(value: Status) -> (r: Result<Team, NotATeam>) {
        value.to_team()
    }
}

impl vstd::std_specs::convert::TryFromSpecImpl<Status> for Team {
    open spec fn obeys_try_from_spec() -> bool {
        true
    }

    open spec fn try_from_spec(v: Status) -> Result<Team, NotATeam> {
        team_marked(v)
    }
}

/// The status that a lower-case name stands for, if any.
pub open spec fn status_named(name: Seq<char>) -> Option<Status> {
    if name == "x"@ {
        Some(Status::X)
    } else if name == "o"@ {
        Some(Status::O)
    } else if name == "tied"@ {
        Some(Status::Tied)
    } else if name == "pending"@ {
        Some(Status::Pending)
    } else {
        None
    }
}

impl Status {
    /// Reads a status from its lower-case name: `x`, `o`, `tied` or
    /// `pending`.
    pub fn from_name(name: &str) -> (r: Result<Status, UnknownStatus>)
        ensures
            r == (match status_named(name@) {
                Some(s) => Ok::<Status, UnknownStatus>(s),
                None => Err(UnknownStatus),
            }),
    {
        let given = name.to_owned();
        if given == "x".to_owned() {
            Ok(Status::X)
        } else if given == "o".to_owned() {
            Ok(Status::O)
        } else if given == "tied".to_owned() {
            Ok(Status::Tied)
        } else if given == "pending".to_owned() {
            Ok(Status::Pending)
        } else {
            Err(UnknownStatus)
        }
    }
}

impl<'a> TryFrom<&'a str> for Status {
    type Error = UnknownStatus;

    fn try_from(name: &'a str) -> (r: Result<Status, UnknownStatus>) {
        Status::from_name(name)
    }
}

impl<'a> vstd::std_specs::convert::TryFromSpecImpl<&'a str> for Status {
    open spec fn obeys_try_from_spec() -> bool {
        true
    }

    open spec fn try_from_spec(v: &'a str) -> Result<Status, UnknownStatus> {
        match status_named(v@) {
            Some(s) => Ok(s),
            None => Err(UnknownStatus),
        }
    }
}

// ---------------------------------------------------------------------------
// Line detection, shared by sections (over cells) and boards (over sections)
// ---------------------------------------------------------------------------

/// The three positions `a`, `b`, `d` of `c` all hold `s`.
pub open spec fn line_owned(c: Seq<Status>, a: int, b: int, d: int, s: Status) -> bool {
    c[a] == s && c[b] == s && c[d] == s
}

/// One of the eight lines of the 3x3 layout (three rows, three columns, two
/// diagonals) is fully held by `s`.
pub open spec fn has_line(c: Seq<Status>, s: Status) -> bool {
    ||| line_owned(c, 0, 1, 2, s)
    ||| line_owned(c, 3, 4, 5, s)
    ||| line_owned(c, 6, 7, 8, s)
    ||| line_owned(c, 0, 3, 6, s)
    ||| line_owned(c, 1, 4, 7, s)
    ||| line_owned(c, 2, 5, 8, s)
    ||| line_owned(c, 0, 4, 8, s)
    ||| line_owned(c, 2, 4, 6, s)
}

/// No child is still pending.
pub open spec fn all_decided(c: Seq<Status>) -> bool {
    forall|i: int| 0 <= i < c.len() ==> c[i] != Status::Pending
}

/// The status of an entity right after `team` moved in it: won by `team` if
/// it holds a line, else tied if every child is decided, else pending.
pub open spec fn evaluate(c: Seq<Status>, team: Team) -> Status {
    if has_line(c, team.mark()) {
        team.mark()
    } else if all_decided(c) {
        Status::Tied
    } else {
        Status::Pending
    }
}

/// The status that nine children give an entity, whoever moved last.
pub open spec fn outcome(c: Seq<Status>) -> Status {
    if has_line(c, Status::X) {
        Status::X
    } else if has_line(c, Status::O) {
        Status::O
    } else if all_decided(c) {
        Status::Tied
    } else {
        Status::Pending
    }
}

/// An entity whose children are `c` is in `status`, and not both teams hold
/// a line in it.
pub open spec fn consistent(c: Seq<Status>, status: Status) -> bool {
    &&& !(has_line(c, Status::X) && has_line(c, Status::O))
    &&& status == outcome(c)
}

fn line_complete(c: &[Status; 9], a: usize, b: usize, d: usize, s: Status) -> (r: bool)
    requires
        a < 9,
        b < 9,
        d < 9,
    ensures
        r == line_owned(c@, a as int, b as int, d as int, s),
{
    c[a] == s && c[b] == s && c[d] == s
}

/// Whether `s` holds one of the eight lines of `c`.
pub fn holds_a_line(c: &[Status; 9], s: Status) -> (r: bool)
    ensures
        r == has_line(c@, s),
{
    line_complete(c, 0, 1, 2, s) || line_complete(c, 3, 4, 5, s) || line_complete(c, 6, 7, 8, s)
        || line_complete(c, 0, 3, 6, s) || line_complete(c, 1, 4, 7, s) || line_complete(
        c,
        2,
        5,
        8,
        s,
    ) || line_complete(c, 0, 4, 8, s) || line_complete(c, 2, 4, 6, s)
}

/// The status of an entity whose children are `children`, right after `team`
/// moved in it.
pub fn evaluate_statuses(children: &[Status; 9], team: Team) -> (r: Status)
    ensures
        r == evaluate(children@, team),
{
    let mark = team.as_status();
    if holds_a_line(children, mark) {
        return mark;
    }
    let mut i: usize = 0;
    while i < 9
        invariant
            0 <= i <= 9,
            children@.len() == 9,
            !has_line(children@, team.mark()),
            forall|j: int| 0 <= j < i ==> children@[j] != Status::Pending,
        decreases 9 - i,
    {
        if children[i] == Status::Pending {
            return Status::Pending;
        }
        i += 1;
    }
    Status::Tied
}

// ---------------------------------------------------------------------------
// Cells, sections and the board
// ---------------------------------------------------------------------------

/// Something that may or may not accept a move now.
pub trait ValidateInteractive {
    /// Whether a move may be played in it now.
    spec fn interactive(&self) -> bool;

    fn is_interactive(&self) -> (r: bool)
        ensures
            r == self.interactive(),
    ;
}

/// Something made of nine children laid out 3x3, whose own status follows
/// from theirs.
pub trait GameStatusEvaluator {
    /// The statuses of the nine children, in index order.
    spec fn children(&self) -> Seq<Status>;

    /// The status right after `team` moved inside it.
    fn calculate_status(&self, team: Team) -> (r: Status)
        ensures
            r == evaluate(self.children(), team),
    ;
}

/// One square of a section.
#[derive(Clone, Copy, Debug)]
pub struct Cell {
    pub status: Status,
}

/// One of the nine small boards.
#[derive(Clone, Copy, Debug)]
pub struct Section {
    pub data: [Cell; 9],
    pub status: Status,
    pub is_interactive: bool,
}

/// The whole game: nine sections and the team whose turn it is.
#[derive(Clone, Copy, Debug)]
pub struct Board {
    pub data: [Section; 9],
    pub status: Status,
    pub current_team: Team,
}

impl ValidateInteractive for Cell {
    open spec fn interactive(&self) -> bool {
        self.status == Status::Pending
    }

    fn is_interactive(&self) -> (r: bool) {
        self.status == Status::Pending
    }
}

impl ValidateInteractive for Section {
    open spec fn interactive(&self) -> bool {
        self.status == Status::Pending && self.is_interactive
    }

    fn is_interactive(&self) -> (r: bool) {
        self.status == Status::Pending && self.is_interactive
    }
}

impl ValidateInteractive for Board {
    open spec fn interactive(&self) -> bool {
        self.status == Status::Pending
    }

    fn is_interactive(&self) -> (r: bool) {
        self.status == Status::Pending
    }
}

impl Section {
    /// The statuses of the nine cells.
    pub open spec fn cell_statuses(self) -> Seq<Status> {
        Seq::new(9, |i: int| self.data[i].status)
    }
}

impl Board {
    /// The statuses of the nine sections.
    pub open spec fn section_statuses(self) -> Seq<Status> {
        Seq::new(9, |i: int| self.data[i].status)
    }
}

impl GameStatusEvaluator for Section {
    open spec fn children(&self) -> Seq<Status> {
        self.cell_statuses()
    }

    fn calculate_status(&self, team: Team) -> (r: Status) {
        let mut statuses = [Status::Pending; 9];
        let mut i: usize = 0;
        while i < 9
            invariant
                0 <= i <= 9,
                statuses@.len() == 9,
                forall|j: int| 0 <= j < i ==> statuses@[j] == self.data[j].status,
            decreases 9 - i,
        {
            statuses[i] = self.data[i].status;
            i += 1;
        }
        assert(statuses@ =~= self.cell_statuses());
        evaluate_statuses(&statuses, team)
    }
}

impl GameStatusEvaluator for Board {
    open spec fn children(&self) -> Seq<Status> {
        self.section_statuses()
    }

    fn calculate_status(&self, team: Team) -> (r: Status) {
        let mut statuses = [Status::Pending; 9];
        let mut i: usize = 0;
        while i < 9
            invariant
                0 <= i <= 9,
                statuses@.len() == 9,
                forall|j: int| 0 <= j < i ==> statuses@[j] == self.data[j].status,
            decreases 9 - i,
        {
            statuses[i] = self.data[i].status;
            i += 1;
        }
        assert(statuses@ =~= self.section_statuses());
        evaluate_statuses(&statuses, team)
    }
}

// ---------------------------------------------------------------------------
// Moves
// ---------------------------------------------------------------------------

/// Whether section `i` of `nb` is open after a move that sent play to section
/// `target`: only `target` if it is still pending, else every pending section.
pub open spec fn opened_after(nb: Board, target: int, i: int) -> bool {
    if nb.data[target].status == Status::Pending {
        i == target
    } else {
        nb.data[i].status == Status::Pending
    }
}

impl Board {
    /// Every section, and the board, is in the status its children give it,
    /// and nowhere do both teams hold a line.
    pub open spec fn wf(self) -> bool {
        &&& forall|i: int|
            0 <= i < 9 ==> #[trigger] consistent(
                self.data[i].cell_statuses(),
                self.data[i].status,
            )
        &&& consistent(self.section_statuses(), self.status)
    }

    /// Why `team` may not play at `coord` now, checked in this order; `Ok`
    /// when it may.
    pub open spec fn move_check(self, coord: (usize, usize), team: Team) -> Result<(), MoveError> {
        let sec = self.data[coord.0 as int];
        if team != self.current_team {
            Err(MoveError::NotYourTurn)
        } else if self.status != Status::Pending {
            Err(MoveError::BoardDecided)
        } else if !(sec.status == Status::Pending && sec.is_interactive) {
            Err(MoveError::SectionNotInteractive)
        } else if sec.data[coord.1 as int].status != Status::Pending {
            Err(MoveError::CellTaken)
        } else {
            Ok(())
        }
    }

    /// `nb` is this board after the team whose turn it is marked `coord`.
    pub open spec fn is_move_result(self, coord: (usize, usize), nb: Board) -> bool {
        let s = coord.0 as int;
        let c = coord.1 as int;
        let team = self.current_team;
        &&& forall|i: int, j: int|
            #![trigger nb.data[i].data[j]]
            0 <= i < 9 && 0 <= j < 9 ==> nb.data[i].data[j].status == (if i == s && j == c {
                team.mark()
            } else {
                self.data[i].data[j].status
            })
        &&& forall|i: int| 0 <= i < 9 && i != s ==> #[trigger] nb.data[i].status == self.data[i].status
        &&& nb.data[s].status == evaluate(nb.data[s].cell_statuses(), team)
        &&& forall|i: int| 0 <= i < 9 ==> #[trigger] nb.data[i].is_interactive == opened_after(nb, c, i)
        &&& nb.status == evaluate(nb.section_statuses(), team)
        &&& nb.current_team == team.other()
    }

    /// A fresh board: every cell pending, every section pending and open,
    /// the default team to move.
    pub fn new() -> (b: Board)
        ensures
            forall|i: int, j: int|
                0 <= i < 9 && 0 <= j < 9 ==> #[trigger] b.data[i].data[j].status == Status::Pending,
            forall|i: int|
                0 <= i < 9 ==> #[trigger] b.data[i].status == Status::Pending
                    && b.data[i].is_interactive,
            b.status == Status::Pending,
            b.current_team == DEFAULT_TEAM,
            b.wf(),
    {
        let cell = Cell { status: Status::Pending };
        let section = Section { data: [cell; 9], status: Status::Pending, is_interactive: true };
        let b = Board { data: [section; 9], status: Status::Pending, current_team: Team::default() };
        assert(section.cell_statuses()[0] == Status::Pending);
        assert(b.section_statuses()[0] == Status::Pending);
        b
    }

    /// Whether `team` may play at `coord` now.
    pub fn validate_move(&self, coord: (usize, usize), team: Team) -> (r: Result<(), MoveError>)
        requires
            coord.0 < 9,
            coord.1 < 9,
        ensures
            r == self.move_check(coord, team),
    {
        if team != self.current_team {
            return Err(MoveError::NotYourTurn);
        }
        if !self.is_interactive() {
            return Err(MoveError::BoardDecided);
        }
        let sec = &self.data[coord.0];
        if !sec.is_interactive() {
            return Err(MoveError::SectionNotInteractive);
        }
        let cell = &sec.data[coord.1];
        if !cell.is_interactive() {
            return Err(MoveError::CellTaken);
        }
        Ok(())
    }

    /// The board after the team whose turn it is marks `coord`, or why it may
    /// not.
    pub fn get_updated(&self, coord: (usize, usize)) -> (r: Result<Board, MoveError>)
        requires
            coord.0 < 9,
            coord.1 < 9,
        ensures
            r is Ok <==> self.move_check(coord, self.current_team) is Ok,
            r matches Err(e) ==> self.move_check(coord, self.current_team) == Err::<(), MoveError>(
                e,
            ),
            r matches Ok(nb) ==> self.is_move_result(coord, nb),
    {
        let team = self.current_team;
        match self.validate_move(coord, team) {
            Err(e) => {
                return Err(e);
            },
            Ok(()) => {},
        }
        let (s, c) = coord;
        let mut nb = *self;
        let mut sec = nb.data[s];
        sec.data[c] = Cell { status: team.as_status() };
        sec.status = sec.calculate_status(team);
        nb.data[s] = sec;

        // Send play to the section matching the cell just marked, or let the
        // next team choose among the pending sections when it is decided.
        let forced = nb.data[c].status == Status::Pending;
        let ghost marked = nb;
        let mut i: usize = 0;
        while i < 9
            invariant
                0 <= i <= 9,
                s < 9,
                c < 9,
                forced == (marked.data[c as int].status == Status::Pending),
                nb.status == marked.status,
                nb.current_team == marked.current_team,
                forall|k: int|
                    0 <= k < 9 ==> (#[trigger] nb.data[k]).data == marked.data[k].data
                        && nb.data[k].status == marked.data[k].status,
                forall|k: int|
                    0 <= k < i ==> (#[trigger] nb.data[k]).is_interactive == opened_after(
                        marked,
                        c as int,
                        k,
                    ),
            decreases 9 - i,
        {
            let mut si = nb.data[i];
            si.is_interactive = if forced {
                i == c
            } else {
                si.status == Status::Pending
            };
            nb.data[i] = si;
            i += 1;
        }
        nb.status = nb.calculate_status(team);
        nb.current_team = team.toggle();
        assert(nb.data[s as int].cell_statuses() =~= sec.cell_statuses());
        Ok(nb)
    }
}

// ---------------------------------------------------------------------------
// Laws
// ---------------------------------------------------------------------------

/// Writing a status other than `s` into a row that holds no line of `s`
/// gives no line of `s`.
pub proof fn lemma_no_line_after_other_write(c: Seq<Status>, k: int, v: Status, s: Status)
    requires
        c.len() == 9,
        0 <= k < 9,
        v != s,
        !has_line(c, s),
    ensures
        !has_line(c.update(k, v), s),
{
}

/// Right after a legal move into a pending entity that no team had a line
/// in, judging only the mover's lines gives the same status as judging both
/// teams', and still at most one team holds a line.
pub proof fn lemma_mover_evaluation_agrees(
    before: Seq<Status>,
    after: Seq<Status>,
    k: int,
    v: Status,
    team: Team,
)
    requires
        before.len() == 9,
        0 <= k < 9,
        consistent(before, Status::Pending),
        after == before.update(k, v),
        v != team.other().mark(),
    ensures
        consistent(after, evaluate(after, team)),
{
    lemma_no_line_after_other_write(before, k, v, team.other().mark());
}

/// The status law for one entity: marked for a team exactly when that team
/// holds one of the eight lines of its children; tied exactly when no team
/// holds a line and every child is decided; pending otherwise.
pub open spec fn status_law(c: Seq<Status>, status: Status) -> bool {
    let x = has_line(c, Status::X);
    let o = has_line(c, Status::O);
    &&& status == Status::X <==> x
    &&& status == Status::O <==> o
    &&& status == Status::Tied <==> (!x && !o && all_decided(c))
    &&& status == Status::Pending <==> (!x && !o && !all_decided(c))
}

/// On a consistent board the status law holds of every section and of the
/// board itself.
pub proof fn lemma_status_law(b: Board)
    requires
        b.wf(),
    ensures
        forall|i: int|
            0 <= i < 9 ==> #[trigger] status_law(b.data[i].cell_statuses(), b.data[i].status),
        status_law(b.section_statuses(), b.status),
{
    assert forall|i: int|
        0 <= i < 9 implies #[trigger] status_law(b.data[i].cell_statuses(), b.data[i].status) by {
        assert(consistent(b.data[i].cell_statuses(), b.data[i].status));
    }
}

/// Every legal move keeps a consistent board consistent, so the status law
/// holds of every board reached from a fresh one.
pub proof fn lemma_move_keeps_consistent(b: Board, coord: (usize, usize), nb: Board)
    requires
        b.wf(),
        coord.0 < 9,
        coord.1 < 9,
        b.move_check(coord, b.current_team) is Ok,
        b.is_move_result(coord, nb),
    ensures
        nb.wf(),
{
    let s = coord.0 as int;
    let c = coord.1 as int;
    let team = b.current_team;
    let old_cells = b.data[s].cell_statuses();
    let new_cells = nb.data[s].cell_statuses();
    assert(consistent(old_cells, b.data[s].status));
    assert(new_cells =~= old_cells.update(c, team.mark()));
    lemma_mover_evaluation_agrees(old_cells, new_cells, c, team.mark(), team);
    assert forall|i: int|
        0 <= i < 9 implies #[trigger] consistent(nb.data[i].cell_statuses(), nb.data[i].status) by {
        if i != s {
            assert(consistent(b.data[i].cell_statuses(), b.data[i].status));
            assert(nb.data[i].cell_statuses() =~= b.data[i].cell_statuses());
        }
    }
    let old_secs = b.section_statuses();
    let new_secs = nb.section_statuses();
    assert(new_secs =~= old_secs.update(s, nb.data[s].status));
    lemma_mover_evaluation_agrees(old_secs, new_secs, s, nb.data[s].status, team);
}

/// Forced-section law: after a move at `(s, c)`, if section `c` is still
/// pending then it is the only open section; otherwise exactly the pending
/// sections are open, and no decided one is.
pub proof fn lemma_forced_section(b: Board, coord: (usize, usize), nb: Board)
    requires
        coord.0 < 9,
        coord.1 < 9,
        b.is_move_result(coord, nb),
    ensures
        nb.data[coord.1 as int].status == Status::Pending ==> forall|i: int|
            0 <= i < 9 ==> (#[trigger] nb.data[i].is_interactive <==> i == coord.1),
        nb.data[coord.1 as int].status != Status::Pending ==> forall|i: int|
            0 <= i < 9 ==> (#[trigger] nb.data[i].is_interactive <==> nb.data[i].status
                == Status::Pending),
{
}

} // verus!
