//! The team registry: two rosters of connection ids, kept balanced as
//! connections join and leave.

use dashmap::DashSet;
use vstd::prelude::*;
use crate::board::{Team, DEFAULT_TEAM};

verus! {

#[verifier::external_type_specification]
#[verifier::external_body]
#[verifier::reject_recursive_types(K)]
#[verifier::reject_recursive_types(S)]
pub struct ExDashSet<K, S>(DashSet<K, S>);

/// The ids that a roster holds.
pub uninterp spec fn roster_ids(s: DashSet<u128>) -> Set<u128>;

/// Relies on `DashSet::new`: the set starts empty.
#[verifier::external_body]
fn roster_new() -> (r: DashSet<u128>)
    ensures
        roster_ids(r) == Set::<u128>::empty(),
{
    DashSet::new()
}

/// Relies on `DashSet::insert`: the key is in the set afterwards, nothing
/// else changes, and the result says whether it was absent before.
#[verifier::external_body]
fn roster_insert(s: &mut DashSet<u128>, id: u128) -> (r: bool)
    ensures
        roster_ids(*final(s)) == roster_ids(*old(s)).insert(id),
        r == !roster_ids(*old(s)).contains(id),
{
    s.insert(id)
}

/// Relies on `DashSet::remove`: the key is gone afterwards, nothing else
/// changes, and the key comes back when it was there.
#[verifier::external_body]
fn roster_remove(s: &mut DashSet<u128>, id: u128) -> (r: Option<u128>)
    ensures
        roster_ids(*final(s)) == roster_ids(*old(s)).remove(id),
        r == (if roster_ids(*old(s)).contains(id) {
            Some(id)
        } else {
            None
        }),
{
    s.remove(&id)
}

/// Relies on `DashSet::len`: the number of keys in the set.
#[verifier::external_body]
fn roster_len(s: &DashSet<u128>) -> (r: usize)
    ensures
        r == roster_ids(*s).len(),
{
    s.len()
}

/// Relies on `uuid::Uuid::new_v4`, read as its 128-bit value: a random id.
#[verifier::external_body]
fn new_connection_id() -> (r: u128) {
    uuid::Uuid::new_v4().as_u128()
}

/// One live connection and the team it plays for.
#[derive(Clone, Copy, Debug)]
pub struct TeamConnection {
    pub team: Team,
    /// Unique identifier of the connection.
    pub id: u128,
}

/// The two rosters.
#[derive(Debug)]
pub struct Teams {
    team_x: DashSet<u128>,
    team_o: DashSet<u128>,
}

/// The team a newcomer joins when the rosters hold `x` and `o` connections:
/// the smaller one, and the default team on a tie.
pub open spec fn team_for_newcomer(x: nat, o: nat) -> Team {
    if x <= o {
        DEFAULT_TEAM
    } else {
        DEFAULT_TEAM.other()
    }
}

impl Teams {
    /// The ids on team X.
    pub closed spec fn x_ids(&self) -> Set<u128> {
        roster_ids(self.team_x)
    }

    /// The ids on team O.
    pub closed spec fn o_ids(&self) -> Set<u128> {
        roster_ids(self.team_o)
    }

    /// The ids on `team`.
    pub open spec fn ids(&self, team: Team) -> Set<u128> {
        match team {
            Team::X => self.x_ids(),
            Team::O => self.o_ids(),
        }
    }

    /// Both rosters are finite sets.
    pub open spec fn wf(&self) -> bool {
        self.x_ids().finite() && self.o_ids().finite()
    }

    /// The roster sizes differ by at most one.
    pub open spec fn balanced(&self) -> bool {
        -1 <= self.x_ids().len() - self.o_ids().len() <= 1
    }

    /// `after` is these rosters with `conn` taken off its team's roster.
    pub open spec fn is_removal(&self, conn: TeamConnection, after: Teams) -> bool {
        &&& after.ids(conn.team) == self.ids(conn.team).remove(conn.id)
        &&& after.ids(conn.team.other()) == self.ids(conn.team.other())
    }

    /// Two empty rosters.
    pub fn new() -> (r: Teams)
        ensures
            r.wf(),
            r.balanced(),
            r.x_ids() == Set::<u128>::empty(),
            r.o_ids() == Set::<u128>::empty(),
    {
        Teams { team_x: roster_new(), team_o: roster_new() }
    }

    /// Places a new connection, under a fresh random id, on the smaller team
    /// (team X on a tie). Balanced rosters stay balanced.
    pub fn assign_team(&mut self) -> (r: TeamConnection)
        requires
            old(self).wf(),
        ensures
            final(self).wf(),
            r.team == team_for_newcomer(old(self).x_ids().len(), old(self).o_ids().len()),
            final(self).ids(r.team) == old(self).ids(r.team).insert(r.id),
            final(self).ids(r.team.other()) == old(self).ids(r.team.other()),
            old(self).balanced() ==> final(self).balanced(),
    {
        let id = new_connection_id();
        let x_count = roster_len(&self.team_x);
        let o_count = roster_len(&self.team_o);

        if x_count <= o_count {
            roster_insert(&mut self.team_x, id);
            TeamConnection { team: Team::default(), id }
        } else {
            roster_insert(&mut self.team_o, id);
            TeamConnection { team: Team::default().toggle(), id }
        }
    }

    /// Takes `connection` off its team's roster; nothing happens when it is
    /// not there.
    pub fn remove_connection(&mut self, connection: &TeamConnection)
        requires
            old(self).wf(),
        ensures
            final(self).wf(),
            old(self).is_removal(*connection, *final(self)),
    {
        match connection.team {
            Team::X => {
                roster_remove(&mut self.team_x, connection.id);
            },
            Team::O => {
                roster_remove(&mut self.team_o, connection.id);
            },
        }
    }

    /// The sizes of team X and team O.
    pub fn team_lens(&self) -> (r: (usize, usize))
        ensures
            r.0 == self.x_ids().len(),
            r.1 == self.o_ids().len(),
    {
        let x_count = roster_len(&self.team_x);
        let o_count = roster_len(&self.team_o);
        (x_count, o_count)
    }
}

/// Removing a connection twice leaves the rosters as removing it once does,
/// and a connection that was on its roster lowers that roster's size by
/// exactly one.
pub proof fn lemma_remove_idempotent(
    t0: Teams,
    conn: TeamConnection,
    t1: Teams,
    t2: Teams,
)
    requires
        t0.wf(),
        t0.is_removal(conn, t1),
        t1.is_removal(conn, t2),
    ensures
        t2.ids(conn.team) == t1.ids(conn.team),
        t2.ids(conn.team.other()) == t1.ids(conn.team.other()),
        t0.ids(conn.team).contains(conn.id) ==> t2.ids(conn.team).len() + 1 == t0.ids(
            conn.team,
        ).len(),
        !t0.ids(conn.team).contains(conn.id) ==> t2.ids(conn.team).len() == t0.ids(conn.team).len(),
{
    assert(t1.ids(conn.team).remove(conn.id) =~= t1.ids(conn.team));
    if !t0.ids(conn.team).contains(conn.id) {
        assert(t0.ids(conn.team).remove(conn.id) =~= t0.ids(conn.team));
    }
}

} // verus!
