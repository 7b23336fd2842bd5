use crowd_tictactoe::{Team, Teams};

#[test]
fn newcomers_alternate_and_stay_balanced() {
    let mut teams = Teams::new();
    assert_eq!(teams.team_lens(), (0, 0));
    for n in 1..=25usize {
        let conn = teams.assign_team();
        let (x, o) = teams.team_lens();
        assert_eq!(x + o, n);
        assert!(x.abs_diff(o) <= 1);
        let expected = if n % 2 == 1 { Team::X } else { Team::O };
        assert_eq!(conn.team, expected);
    }
    assert_eq!(teams.team_lens(), (13, 12));
}

#[test]
fn tie_goes_to_team_x() {
    let mut teams = Teams::new();
    assert_eq!(teams.assign_team().team, Team::X);
    assert_eq!(teams.assign_team().team, Team::O);
    assert_eq!(teams.assign_team().team, Team::X);
}

#[test]
fn smaller_team_gets_newcomer() {
    let mut teams = Teams::new();
    let a = teams.assign_team();
    let b = teams.assign_team();
    let c = teams.assign_team();
    assert_eq!((a.team, b.team, c.team), (Team::X, Team::O, Team::X));
    teams.remove_connection(&a);
    teams.remove_connection(&c);
    assert_eq!(teams.team_lens(), (0, 1));
    assert_eq!(teams.assign_team().team, Team::X);
    assert_eq!(teams.assign_team().team, Team::X);
    assert_eq!(teams.team_lens(), (2, 1));
}

#[test]
fn removal_is_idempotent() {
    let mut teams = Teams::new();
    let a = teams.assign_team();
    let b = teams.assign_team();
    assert_eq!(teams.team_lens(), (1, 1));
    teams.remove_connection(&b);
    assert_eq!(teams.team_lens(), (1, 0));
    teams.remove_connection(&b);
    assert_eq!(teams.team_lens(), (1, 0));
    teams.remove_connection(&a);
    teams.remove_connection(&a);
    assert_eq!(teams.team_lens(), (0, 0));
}

#[test]
fn connection_ids_differ() {
    let mut teams = Teams::new();
    let a = teams.assign_team();
    let b = teams.assign_team();
    let c = teams.assign_team();
    assert_ne!(a.id, b.id);
    assert_ne!(a.id, c.id);
    assert_ne!(b.id, c.id);
}
