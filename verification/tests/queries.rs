use football_state::container::Container;
use football_state::date::Date;
use football_state::entities::{
    Behaviour, Continent, Country, FullName, GoalDetail, League, MatchResult, PersonAttributes,
    Player, PlayerAttributes, PlayerClubContract, PlayerPositionType, PlayerSquadStatus,
    PlayerStatistics, PlayerStatusType, Score, TacticType, Tactics, Team, TeamReputation,
    TeamScore,
};
use football_state::error::{EntityKind, Identifier, QueryError};
use football_state::events::{
    build_match_event, events_recent_action, recent_events, RecentEventsQuery,
};
use football_state::match_storage::MatchStorage;
use football_state::player_state::{player_state_action, PlayerStateRequest};
use football_state::snapshot::{Snapshot, SnapshotError};
use football_state::squad_state::{squad_state_action, SquadStateRequest};
use football_state::team_ai_state::{
    squad_morale, squad_summary, team_ai_state_action, TeamAiStateRequest,
};
use football_state::traversal::collect_matches;

fn day(year: i32, month: u32, day: u32) -> Date {
    Date::new(year, month, day).unwrap()
}

fn player(id: u32, first: &str, last: &str) -> Player {
    Player {
        id,
        full_name: FullName { first_name: first.to_string(), last_name: last.to_string() },
        birth_date: day(2000, 6, 15),
        position: PlayerPositionType::MidfielderCenter,
        other_positions: vec![],
        attributes: PersonAttributes {
            ambition: 500_000,
            loyalty: 500_000,
            professionalism: 500_000,
            temperament: 500_000,
        },
        behaviour: Behaviour::Normal,
        is_happy: true,
        statistics: PlayerStatistics { average_rating: 7_000_000, goals: 1, assists: 2, played: 3 },
        player_attributes: PlayerAttributes {
            condition: 1_000_000,
            current_ability: 150_000,
            is_injured: false,
            is_banned: false,
            is_ready_for_match: true,
        },
        statuses: vec![],
        contract: None,
    }
}

fn team(id: u32, slug: &str, name: &str, league_id: u32, players: Vec<Player>) -> Team {
    Team {
        id,
        name: name.to_string(),
        slug: slug.to_string(),
        league_id,
        players,
        reputation: TeamReputation { world: 4200 },
        tactics: None,
        week_salary: 123_456,
    }
}

fn goal(player_id: u32, time: u64, is_auto_goal: bool) -> GoalDetail {
    GoalDetail { player_id, time, is_auto_goal }
}

fn result(id: &str, league_slug: &str, home: u32, away: u32, goals: Vec<GoalDetail>) -> MatchResult {
    MatchResult {
        id: id.to_string(),
        league_id: 0,
        league_slug: league_slug.to_string(),
        home_team_id: home,
        away_team_id: away,
        score: Score {
            home_team: TeamScore::new_with_score(home, 2),
            away_team: TeamScore::new_with_score(away, 1),
            details: goals,
        },
    }
}

fn league(id: u32, slug: &str, teams: Vec<Team>, results: Vec<MatchResult>) -> League {
    let mut matches = MatchStorage::new();
    for r in results {
        matches.push(r);
    }
    League { id, name: format!("League {}", id), slug: slug.to_string(), teams, matches }
}

fn world(leagues: Vec<League>) -> Vec<Continent> {
    vec![Continent {
        id: 1,
        name: "Europe".to_string(),
        countries: vec![Country { id: 1, name: "Italy".to_string(), leagues }],
    }]
}

fn snapshot_of(leagues: Vec<League>) -> Snapshot {
    let mut snapshot = Snapshot::new(day(2024, 3, 5), world(leagues)).unwrap();
    snapshot.build_indexes();
    snapshot
}

fn loaded(leagues: Vec<League>) -> Container {
    let mut container = Container::new();
    container.replace(snapshot_of(leagues));
    container
}

/// Two leagues: the first with three matches, none of them of team 30; the
/// second with two matches, one of them of team 30.
fn two_leagues() -> Vec<League> {
    let first = league(
        1,
        "first",
        vec![
            team(10, "alpha", "Alpha", 1, vec![player(100, "Al", "One"), player(101, "Al", "Two")]),
            team(20, "beta", "Beta", 1, vec![player(200, "Bo", "One")]),
        ],
        vec![
            result("m1", "first", 10, 20, vec![goal(100, 12, false), goal(200, 50, true)]),
            result("m2", "first", 20, 10, vec![]),
            result("m3", "first", 10, 20, vec![]),
        ],
    );
    let second = league(
        2,
        "second",
        vec![
            team(30, "gamma", "Gamma", 2, vec![player(300, "Cy", "One")]),
            team(40, "delta", "Delta", 2, vec![]),
        ],
        vec![
            result("m4", "second", 40, 10, vec![]),
            result("m5", "second", 30, 40, vec![goal(300, 90, false)]),
        ],
    );
    vec![first, second]
}

fn query(limit: Option<usize>, team_slug: Option<&str>) -> RecentEventsQuery {
    RecentEventsQuery { limit, team_slug: team_slug.map(|s| s.to_string()) }
}

fn not_found(entity: EntityKind, identifier: Identifier) -> QueryError {
    QueryError::NotFound { entity, identifier }
}

#[test]
fn events_of_one_team_among_two_leagues() {
    let container = loaded(two_leagues());
    let answer = events_recent_action(&container, &query(Some(10), Some("gamma"))).unwrap();
    assert_eq!(answer.events.len(), 1);
    assert_eq!(answer.total_matches, 5);
    assert_eq!(answer.events[0].match_id, "m5");
    assert_eq!(answer.game_date, "2024-03-05");
}

#[test]
fn events_come_in_traversal_order() {
    let container = loaded(two_leagues());
    let answer = events_recent_action(&container, &query(None, None)).unwrap();
    let ids: Vec<&str> = answer.events.iter().map(|e| e.match_id.as_str()).collect();
    assert_eq!(ids, vec!["m1", "m2", "m3", "m4", "m5"]);
    assert_eq!(answer.total_matches, 5);
}

#[test]
fn total_matches_does_not_depend_on_limit_or_team() {
    let container = loaded(two_leagues());
    let slugs = [None, Some("alpha"), Some("beta"), Some("gamma"), Some("delta")];
    let limits = [None, Some(0), Some(1), Some(2), Some(5), Some(usize::MAX)];
    for slug in slugs {
        for limit in limits {
            let answer = events_recent_action(&container, &query(limit, slug)).unwrap();
            assert_eq!(answer.total_matches, 5);
        }
    }
}

#[test]
fn limit_zero_gives_no_event_and_the_same_total() {
    let container = loaded(two_leagues());
    let none = events_recent_action(&container, &query(Some(0), None)).unwrap();
    let all = events_recent_action(&container, &query(Some(usize::MAX), None)).unwrap();
    assert!(none.events.is_empty());
    assert_eq!(none.total_matches, all.total_matches);
    assert_eq!(all.events.len(), 5);
}

#[test]
fn limit_bounds_the_events_across_leagues() {
    let container = loaded(two_leagues());
    let answer = events_recent_action(&container, &query(Some(4), None)).unwrap();
    let ids: Vec<&str> = answer.events.iter().map(|e| e.match_id.as_str()).collect();
    assert_eq!(ids, vec!["m1", "m2", "m3", "m4"]);
    let answer = events_recent_action(&container, &query(Some(2), Some("alpha"))).unwrap();
    let ids: Vec<&str> = answer.events.iter().map(|e| e.match_id.as_str()).collect();
    assert_eq!(ids, vec!["m1", "m2"]);
    let answer = events_recent_action(&container, &query(Some(10), Some("alpha"))).unwrap();
    let ids: Vec<&str> = answer.events.iter().map(|e| e.match_id.as_str()).collect();
    assert_eq!(ids, vec!["m1", "m2", "m3", "m4"]);
}

#[test]
fn default_limit_is_fifty() {
    let results: Vec<MatchResult> =
        (0..60).map(|i| result(&format!("m{}", i), "big", 10, 20, vec![])).collect();
    let big = league(
        1,
        "big",
        vec![team(10, "alpha", "Alpha", 1, vec![]), team(20, "beta", "Beta", 1, vec![])],
        results,
    );
    let container = loaded(vec![big]);
    let answer = events_recent_action(&container, &query(None, None)).unwrap();
    assert_eq!(answer.events.len(), 50);
    assert_eq!(answer.total_matches, 60);
    assert_eq!(answer.events[49].match_id, "m49");
}

#[test]
fn collect_matches_counts_all_and_keeps_the_filtered() {
    let snapshot = snapshot_of(two_leagues());
    let (selected, total) = collect_matches(&snapshot, Some(40), 10);
    let ids: Vec<&str> = selected.iter().map(|m| m.id.as_str()).collect();
    assert_eq!(ids, vec!["m4", "m5"]);
    assert_eq!(total, 5);
    let (selected, total) = collect_matches(&snapshot, Some(999), 10);
    assert!(selected.is_empty());
    assert_eq!(total, 5);
    let (selected, total) = collect_matches(&snapshot, None, 0);
    assert!(selected.is_empty());
    assert_eq!(total, 5);
}

#[test]
fn event_names_teams_score_and_goals() {
    let container = loaded(two_leagues());
    let answer = events_recent_action(&container, &query(Some(1), None)).unwrap();
    let event = &answer.events[0];
    assert_eq!(event.event_type, "match_result");
    assert_eq!(event.match_id, "m1");
    assert_eq!(event.league_slug, "first");
    assert_eq!(event.home_team.id, 10);
    assert_eq!(event.home_team.name, "Alpha");
    assert_eq!(event.home_team.slug, "alpha");
    assert_eq!(event.away_team.id, 20);
    assert_eq!(event.away_team.name, "Beta");
    assert_eq!(event.away_team.slug, "beta");
    assert_eq!(event.score.home, 2);
    assert_eq!(event.score.away, 1);
    assert_eq!(event.goals.len(), 2);
    assert_eq!(event.goals[0].player_id, 100);
    assert_eq!(event.goals[0].player_name, Some("Al One".to_string()));
    assert_eq!(event.goals[0].minute, 12);
    assert!(!event.goals[0].is_own_goal);
    assert_eq!(event.goals[0].scoring_team, "home");
    assert_eq!(event.goals[1].player_id, 200);
    assert_eq!(event.goals[1].player_name, Some("Bo One".to_string()));
    assert_eq!(event.goals[1].minute, 50);
    assert!(event.goals[1].is_own_goal);
    assert_eq!(event.goals[1].scoring_team, "home");
}

#[test]
fn scoring_side_follows_the_home_roster_and_the_own_goal_flag() {
    let snapshot = snapshot_of(two_leagues());
    let m = result(
        "x",
        "first",
        10,
        20,
        vec![
            goal(100, 1, false),
            goal(101, 2, true),
            goal(200, 3, false),
            goal(200, 4, true),
            goal(300, 5, false),
            goal(999, 6, false),
            goal(999, 7, true),
        ],
    );
    let event = build_match_event(&m, &snapshot);
    let sides: Vec<&str> = event.goals.iter().map(|g| g.scoring_team.as_str()).collect();
    assert_eq!(sides, vec!["home", "away", "away", "home", "away", "unknown", "unknown"]);
    assert_eq!(event.goals[5].player_name, None);
    assert_eq!(event.goals[4].player_name, Some("Cy One".to_string()));
}

#[test]
fn event_of_unknown_teams_falls_back_to_unknown() {
    let snapshot = snapshot_of(two_leagues());
    let m = result("x", "nowhere", 77, 10, vec![goal(100, 9, false), goal(999, 10, true)]);
    let event = build_match_event(&m, &snapshot);
    assert_eq!(event.home_team.id, 77);
    assert_eq!(event.home_team.name, "Unknown");
    assert_eq!(event.home_team.slug, "unknown");
    assert_eq!(event.away_team.id, 10);
    assert_eq!(event.away_team.name, "Alpha");
    assert_eq!(event.goals[0].scoring_team, "unknown");
    assert_eq!(event.goals[0].player_name, Some("Al One".to_string()));
    assert_eq!(event.goals[1].scoring_team, "unknown");
}

#[test]
fn goal_minute_keeps_sixteen_bits_of_the_time() {
    let snapshot = snapshot_of(two_leagues());
    let m = result(
        "x",
        "first",
        10,
        20,
        vec![goal(100, 65_535, false), goal(100, 65_536, false), goal(100, 65_537 + 65_536, false)],
    );
    let event = build_match_event(&m, &snapshot);
    assert_eq!(event.goals[0].minute, 65_535);
    assert_eq!(event.goals[1].minute, 0);
    assert_eq!(event.goals[2].minute, 1);
}

#[test]
fn events_of_an_unknown_team_are_not_found() {
    let container = loaded(two_leagues());
    let answer = events_recent_action(&container, &query(Some(10), Some("omega")));
    assert_eq!(
        answer,
        Err(not_found(EntityKind::Team, Identifier::Slug("omega".to_string())))
    );
}

#[test]
fn slugs_are_matched_exactly() {
    let container = loaded(two_leagues());
    assert!(events_recent_action(&container, &query(None, Some("Gamma"))).is_err());
    assert!(events_recent_action(&container, &query(None, Some("gamma "))).is_err());
    assert!(events_recent_action(&container, &query(None, Some(""))).is_err());
    assert!(events_recent_action(&container, &query(None, Some("gamma"))).is_ok());
}

#[test]
fn events_without_index_need_no_index_unless_a_team_is_named() {
    let snapshot = Snapshot::new(day(2024, 3, 5), world(two_leagues())).unwrap();
    assert!(!snapshot.has_indexes());
    let answer = recent_events(&snapshot, &query(Some(10), None)).unwrap();
    assert_eq!(answer.events.len(), 5);
    let answer = recent_events(&snapshot, &query(Some(10), Some("gamma")));
    assert_eq!(answer, Err(QueryError::IndexUnavailable));
}

#[test]
fn every_query_on_an_empty_container_is_not_loaded() {
    let container = Container::new();
    assert!(!container.is_loaded());
    assert_eq!(container.acquire_read().err(), Some(QueryError::NotLoaded));
    assert_eq!(
        events_recent_action(&container, &query(None, None)),
        Err(QueryError::NotLoaded)
    );
    assert_eq!(
        events_recent_action(&container, &query(Some(0), Some("gamma"))),
        Err(QueryError::NotLoaded)
    );
    assert_eq!(
        player_state_action(&container, &PlayerStateRequest { player_id: 100 }),
        Err(QueryError::NotLoaded)
    );
    assert_eq!(
        team_ai_state_action(&container, &TeamAiStateRequest { team_slug: "alpha".to_string() }),
        Err(QueryError::NotLoaded)
    );
    assert_eq!(
        squad_state_action(&container, &SquadStateRequest { team_slug: "alpha".to_string() }),
        Err(QueryError::NotLoaded)
    );
}

#[test]
fn replace_swaps_the_whole_snapshot() {
    let mut container = loaded(two_leagues());
    assert!(container.is_loaded());
    assert_eq!(container.acquire_read().unwrap().match_count(), 5);
    let other = league(9, "only", vec![team(90, "omega", "Omega", 9, vec![])], vec![]);
    container.replace(snapshot_of(vec![other]));
    let snapshot = container.acquire_read().unwrap();
    assert_eq!(snapshot.match_count(), 0);
    assert!(snapshot.team(10).is_none());
    assert_eq!(snapshot.resolve_team("omega"), Ok(90));
    assert!(snapshot.resolve_team("alpha").is_err());
}

#[test]
fn every_team_is_found_by_its_own_slug() {
    let snapshot = snapshot_of(two_leagues());
    for team in snapshot.teams() {
        assert_eq!(snapshot.resolve_team(&team.slug), Ok(team.id));
    }
    for league in snapshot.leagues() {
        assert_eq!(snapshot.resolve_league(&league.slug), Ok(league.id));
    }
}

#[test]
fn resolved_team_has_the_slug_it_was_asked_by() {
    let snapshot = snapshot_of(two_leagues());
    for slug in ["alpha", "beta", "gamma", "delta"] {
        let id = snapshot.resolve_team(slug).unwrap();
        let team = snapshot.team(id).unwrap();
        assert_eq!(team.slug, slug);
    }
    for slug in ["first", "second"] {
        let id = snapshot.resolve_league(slug).unwrap();
        let league = snapshot.league(id).unwrap();
        assert_eq!(league.slug, slug);
    }
}

#[test]
fn resolving_tells_a_missing_index_from_a_missing_slug() {
    let mut snapshot = Snapshot::new(day(2024, 3, 5), world(two_leagues())).unwrap();
    assert_eq!(snapshot.resolve_team("alpha"), Err(QueryError::IndexUnavailable));
    assert_eq!(snapshot.resolve_league("first"), Err(QueryError::IndexUnavailable));
    snapshot.build_indexes();
    assert!(snapshot.has_indexes());
    assert_eq!(snapshot.resolve_team("alpha"), Ok(10));
    assert_eq!(snapshot.resolve_league("second"), Ok(2));
    assert_eq!(
        snapshot.resolve_team("first"),
        Err(not_found(EntityKind::Team, Identifier::Slug("first".to_string())))
    );
    assert_eq!(
        snapshot.resolve_league("alpha"),
        Err(not_found(EntityKind::League, Identifier::Slug("alpha".to_string())))
    );
}

#[test]
fn snapshot_finds_entities_by_id() {
    let snapshot = snapshot_of(two_leagues());
    assert_eq!(snapshot.date(), day(2024, 3, 5));
    assert_eq!(snapshot.continents().len(), 1);
    assert_eq!(snapshot.leagues().len(), 2);
    assert_eq!(snapshot.teams().len(), 4);
    assert_eq!(snapshot.players().len(), 4);
    assert_eq!(snapshot.match_count(), 5);
    assert_eq!(snapshot.team(30).unwrap().name, "Gamma");
    assert_eq!(snapshot.league(2).unwrap().slug, "second");
    assert_eq!(snapshot.player(101).unwrap().full_name.last_name, "Two");
    assert!(snapshot.team(31).is_none());
    assert!(snapshot.league(3).is_none());
    assert!(snapshot.player(102).is_none());
    let ids: Vec<u32> = snapshot.teams().iter().map(|t| t.id).collect();
    assert_eq!(ids, vec![10, 20, 30, 40]);
}

#[test]
fn snapshot_refuses_a_world_with_shared_ids() {
    let twice = vec![
        league(1, "a", vec![], vec![]),
        league(1, "b", vec![], vec![]),
    ];
    assert_eq!(
        Snapshot::new(day(2024, 1, 1), world(twice)).err(),
        Some(SnapshotError::DuplicateLeagueId)
    );
    let teams = vec![
        league(1, "a", vec![team(5, "x", "X", 1, vec![])], vec![]),
        league(2, "b", vec![team(5, "y", "Y", 2, vec![])], vec![]),
    ];
    assert_eq!(
        Snapshot::new(day(2024, 1, 1), world(teams)).err(),
        Some(SnapshotError::DuplicateTeamId)
    );
    let players = vec![league(
        1,
        "a",
        vec![
            team(5, "x", "X", 1, vec![player(1, "A", "B")]),
            team(6, "y", "Y", 1, vec![player(2, "C", "D"), player(1, "E", "F")]),
        ],
        vec![],
    )];
    assert_eq!(
        Snapshot::new(day(2024, 1, 1), world(players)).err(),
        Some(SnapshotError::DuplicatePlayerId)
    );
    let slugs = vec![
        league(1, "a", vec![], vec![]),
        league(2, "b", vec![], vec![]),
        league(3, "a", vec![], vec![]),
    ];
    assert_eq!(
        Snapshot::new(day(2024, 1, 1), world(slugs)).err(),
        Some(SnapshotError::DuplicateLeagueSlug)
    );
    let slugs = vec![
        league(1, "a", vec![team(5, "x", "X", 1, vec![]), team(6, "y", "Y", 1, vec![])], vec![]),
        league(2, "b", vec![team(7, "x", "Z", 2, vec![])], vec![]),
    ];
    assert_eq!(
        Snapshot::new(day(2024, 1, 1), world(slugs)).err(),
        Some(SnapshotError::DuplicateTeamSlug)
    );
    let shared = vec![league(1, "a", vec![team(5, "a", "X", 1, vec![])], vec![])];
    assert!(Snapshot::new(day(2024, 1, 1), world(shared)).is_ok());
    let both = vec![
        league(1, "a", vec![team(5, "x", "X", 1, vec![])], vec![]),
        league(1, "b", vec![team(5, "y", "Y", 2, vec![])], vec![]),
    ];
    assert_eq!(
        Snapshot::new(day(2024, 1, 1), world(both)).err(),
        Some(SnapshotError::DuplicateLeagueId)
    );
    assert!(Snapshot::new(day(2024, 1, 1), vec![]).is_ok());
}

#[test]
fn snapshot_refuses_a_match_without_two_known_sides() {
    let teams = || vec![team(5, "x", "X", 1, vec![]), team(6, "y", "Y", 1, vec![])];
    let sound = vec![league(1, "a", teams(), vec![result("m", "a", 5, 6, vec![])])];
    assert!(Snapshot::new(day(2024, 1, 1), world(sound)).is_ok());
    let stranger = vec![league(1, "a", teams(), vec![result("m", "a", 5, 7, vec![])])];
    assert_eq!(
        Snapshot::new(day(2024, 1, 1), world(stranger)).err(),
        Some(SnapshotError::UnknownMatchSide)
    );
    let stranger = vec![league(
        1,
        "a",
        teams(),
        vec![result("m", "a", 5, 6, vec![]), result("n", "a", 8, 6, vec![])],
    )];
    assert_eq!(
        Snapshot::new(day(2024, 1, 1), world(stranger)).err(),
        Some(SnapshotError::UnknownMatchSide)
    );
    let itself = vec![league(1, "a", teams(), vec![result("m", "a", 5, 5, vec![])])];
    assert_eq!(
        Snapshot::new(day(2024, 1, 1), world(itself)).err(),
        Some(SnapshotError::UnknownMatchSide)
    );
    let abroad = vec![
        league(1, "a", vec![team(5, "x", "X", 1, vec![])], vec![result("m", "a", 5, 6, vec![])]),
        league(2, "b", vec![team(6, "y", "Y", 2, vec![])], vec![]),
    ];
    assert!(Snapshot::new(day(2024, 1, 1), world(abroad)).is_ok());
}

#[test]
fn player_state_of_a_good_and_happy_player() {
    let mut p = player(1, "Ada", "Byron");
    p.behaviour = Behaviour::Good;
    p.is_happy = true;
    p.attributes.ambition = 750_000;
    let container = loaded(vec![league(1, "a", vec![team(5, "x", "X", 1, vec![p])], vec![])]);
    let state = player_state_action(&container, &PlayerStateRequest { player_id: 1 }).unwrap();
    assert_eq!(state.mood.happiness, 100);
    assert_eq!(state.personality.ambition, 15);
}

#[test]
fn player_state_reports_every_part() {
    let mut p = player(1, "Ada", "Byron");
    p.behaviour = Behaviour::Poor;
    p.is_happy = false;
    p.position = PlayerPositionType::Goalkeeper;
    p.statuses = vec![PlayerStatusType::Inj, PlayerStatusType::Loa, PlayerStatusType::Ctr];
    p.player_attributes.is_ready_for_match = false;
    p.contract = Some(PlayerClubContract {
        salary: 12_500,
        expiration: day(2024, 9, 1),
        squad_status: PlayerSquadStatus::FirstTeamSquadRotation,
        is_transfer_listed: false,
    });
    let container = loaded(vec![league(1, "a", vec![team(5, "x", "X", 1, vec![p])], vec![])]);
    let state = player_state_action(&container, &PlayerStateRequest { player_id: 1 }).unwrap();
    assert_eq!(state.id, 1);
    assert_eq!(state.name, "Ada Byron");
    assert_eq!(state.position, "GK");
    assert_eq!(state.age, 23);
    assert_eq!(state.mood.happiness, 0);
    assert!(!state.mood.is_happy);
    assert_eq!(state.mood.behaviour, "Poor");
    assert_eq!(state.form.condition, 20);
    assert_eq!(state.form.average_rating, 7_000_000);
    assert_eq!(state.form.goals, 1);
    assert_eq!(state.form.assists, 2);
    assert_eq!(state.form.matches_played, 3);
    assert!(!state.form.is_match_ready);
    let contract = state.contract.unwrap();
    assert_eq!(contract.salary_k, 12);
    assert_eq!(contract.days_to_expiration, 180);
    assert!(!contract.is_expiring_soon);
    assert_eq!(contract.squad_status, "rotation");
    assert!(!contract.is_transfer_listed);
    assert_eq!(state.concerns, vec!["injured", "contract_expiring"]);
    assert_eq!(state.personality.loyalty, 10);
    assert_eq!(state.personality.professionalism, 10);
    assert_eq!(state.personality.temperament, 10);
}

#[test]
fn player_state_twice_is_the_same() {
    let container = loaded(two_leagues());
    let request = PlayerStateRequest { player_id: 200 };
    let first = player_state_action(&container, &request);
    let second = player_state_action(&container, &request);
    assert!(first.is_ok());
    assert_eq!(first, second);
    assert_eq!(format!("{:?}", first), format!("{:?}", second));
}

#[test]
fn player_state_of_an_unknown_player_is_not_found() {
    let container = loaded(two_leagues());
    let answer = player_state_action(&container, &PlayerStateRequest { player_id: 12345 });
    assert_eq!(answer, Err(not_found(EntityKind::Player, Identifier::Id(12345))));
    assert_eq!(answer.unwrap_err().message(), "Player with ID 12345 not found");
}

#[test]
fn squad_figures_of_an_empty_roster_are_zero() {
    let now = day(2024, 3, 5);
    let summary = squad_summary(&vec![], &now);
    assert_eq!(summary.total_players, 0);
    assert_eq!(summary.average_age, 0);
    assert_eq!(summary.average_ability, 0);
    assert_eq!(summary.average_condition, 0);
    assert_eq!(summary.injured_count, 0);
    assert_eq!(summary.suspended_count, 0);
    assert_eq!(summary.unhappy_count, 0);
    let morale = squad_morale(&vec![]);
    assert_eq!(morale.team_behaviour, "Normal");
    assert_eq!(morale.players_poor_mood, 0);
    assert_eq!(morale.players_good_mood, 0);
    let container = loaded(two_leagues());
    let state =
        team_ai_state_action(&container, &TeamAiStateRequest { team_slug: "delta".to_string() })
            .unwrap();
    assert_eq!(state.squad_summary, summary);
    assert_eq!(state.morale, morale);
}

#[test]
fn squad_figures_are_means_and_counts() {
    let now = day(2024, 3, 5);
    let mut a = player(1, "A", "A");
    a.birth_date = day(2000, 3, 5);
    a.player_attributes.is_injured = true;
    a.player_attributes.condition = 500_000;
    a.player_attributes.current_ability = 250_000;
    a.is_happy = false;
    a.behaviour = Behaviour::Poor;
    let mut b = player(2, "B", "B");
    b.birth_date = day(1995, 3, 6);
    b.player_attributes.is_banned = true;
    b.player_attributes.condition = 750_000;
    b.player_attributes.current_ability = 50_000;
    b.behaviour = Behaviour::Poor;
    let mut c = player(3, "C", "C");
    c.birth_date = day(2004, 1, 1);
    c.player_attributes.condition = 1_000_000;
    c.player_attributes.current_ability = 100_000;
    c.is_happy = false;
    c.behaviour = Behaviour::Good;
    let roster = vec![a, b, c];
    let summary = squad_summary(&roster, &now);
    assert_eq!(summary.total_players, 3);
    assert_eq!(summary.average_age, 24_000_000);
    assert_eq!(summary.average_ability, 2_666_666);
    assert_eq!(summary.average_condition, 15_000_000);
    assert_eq!(summary.injured_count, 1);
    assert_eq!(summary.suspended_count, 1);
    assert_eq!(summary.unhappy_count, 2);
    let morale = squad_morale(&roster);
    assert_eq!(morale.team_behaviour, "Poor");
    assert_eq!(morale.players_poor_mood, 2);
    assert_eq!(morale.players_good_mood, 1);
}

#[test]
fn averages_are_in_millionths_and_rounded_down() {
    let now = day(2024, 3, 5);
    let mut a = player(1, "A", "A");
    a.birth_date = day(1999, 3, 5);
    a.player_attributes.current_ability = 250_000;
    a.player_attributes.condition = 50_000;
    let mut b = player(2, "B", "B");
    b.birth_date = day(1998, 3, 5);
    b.player_attributes.current_ability = 100_000;
    b.player_attributes.condition = 0;
    let summary = squad_summary(&vec![a.clone(), b.clone()], &now);
    assert_eq!(summary.average_age, 25_500_000);
    assert_eq!(summary.average_ability, 3_500_000);
    assert_eq!(summary.average_condition, 500_000);
    let mut c = player(3, "C", "C");
    c.birth_date = day(1999, 3, 6);
    c.player_attributes.current_ability = 0;
    c.player_attributes.condition = 0;
    let summary = squad_summary(&vec![a, b, c], &now);
    assert_eq!(summary.average_age, 25_000_000);
    assert_eq!(summary.average_ability, 2_333_333);
    assert_eq!(summary.average_condition, 333_333);
}

#[test]
fn team_state_reports_every_part() {
    let mut leagues = two_leagues();
    leagues[0].teams[0].tactics = Some(Tactics { tactic_type: TacticType::T433 });
    leagues[0].teams[0].reputation = TeamReputation { world: 7001 };
    let container = loaded(leagues);
    let state =
        team_ai_state_action(&container, &TeamAiStateRequest { team_slug: "alpha".to_string() })
            .unwrap();
    assert_eq!(state.id, 10);
    assert_eq!(state.name, "Alpha");
    assert_eq!(state.slug, "alpha");
    assert_eq!(state.league_name, "League 1");
    assert_eq!(state.league_slug, "first");
    assert_eq!(state.recent_form, "-----");
    assert_eq!(state.finances.weekly_wage_k, 123);
    assert_eq!(state.squad_summary.total_players, 2);
    assert_eq!(state.squad_summary.average_age, 23_000_000);
    assert_eq!(state.squad_summary.average_ability, 3_000_000);
    assert_eq!(state.squad_summary.average_condition, 20_000_000);
    assert_eq!(state.morale.team_behaviour, "Normal");
    let tactics = state.tactics.unwrap();
    assert_eq!(tactics.formation, "4-3-3");
    assert_eq!(tactics.style, "T433");
    assert_eq!(state.reputation.world, 7001);
    assert_eq!(state.reputation.level, "World Class");
}

#[test]
fn team_state_fails_at_the_first_thing_missing() {
    let snapshot = Snapshot::new(day(2024, 3, 5), world(two_leagues())).unwrap();
    let mut container = Container::new();
    container.replace(snapshot);
    let request = TeamAiStateRequest { team_slug: "alpha".to_string() };
    assert_eq!(team_ai_state_action(&container, &request), Err(QueryError::IndexUnavailable));
    let squad = SquadStateRequest { team_slug: "alpha".to_string() };
    assert_eq!(squad_state_action(&container, &squad), Err(QueryError::IndexUnavailable));

    let container = loaded(two_leagues());
    let request = TeamAiStateRequest { team_slug: "omega".to_string() };
    assert_eq!(
        team_ai_state_action(&container, &request),
        Err(not_found(EntityKind::Team, Identifier::Slug("omega".to_string())))
    );
    let squad = SquadStateRequest { team_slug: "omega".to_string() };
    assert_eq!(
        squad_state_action(&container, &squad),
        Err(not_found(EntityKind::Team, Identifier::Slug("omega".to_string())))
    );

    let stray = league(1, "a", vec![team(5, "x", "X", 77, vec![])], vec![]);
    let container = loaded(vec![stray]);
    let request = TeamAiStateRequest { team_slug: "x".to_string() };
    assert_eq!(
        team_ai_state_action(&container, &request),
        Err(not_found(EntityKind::League, Identifier::Id(77)))
    );
}

#[test]
fn squad_state_reports_each_player_and_the_mean_happiness() {
    let mut a = player(1, "Ada", "Byron");
    a.behaviour = Behaviour::Good;
    a.other_positions = vec![PlayerPositionType::Striker];
    a.attributes.ambition = 750_000;
    a.player_attributes.is_injured = true;
    a.contract = Some(PlayerClubContract {
        salary: 1_000,
        expiration: day(2024, 8, 31),
        squad_status: PlayerSquadStatus::HotProspectForTheFuture,
        is_transfer_listed: true,
    });
    a.statuses = vec![PlayerStatusType::Lst];
    let mut b = player(2, "Bo", "Cole");
    b.behaviour = Behaviour::Poor;
    b.is_happy = false;
    let mut c = player(3, "Cy", "Dent");
    c.is_happy = false;
    let container =
        loaded(vec![league(1, "a", vec![team(5, "x", "X", 1, vec![a, b, c])], vec![])]);
    let state =
        squad_state_action(&container, &SquadStateRequest { team_slug: "x".to_string() }).unwrap();
    assert_eq!(state.team_id, 5);
    assert_eq!(state.team_name, "X");
    assert_eq!(state.team_slug, "x");
    assert_eq!(state.team_morale, 43);
    assert_eq!(state.players.len(), 3);
    let first = &state.players[0];
    assert_eq!(first.id, 1);
    assert_eq!(first.name, "Ada Byron");
    assert_eq!(first.position, "MC, ST");
    assert_eq!(first.age, 23);
    assert_eq!(first.happiness, 100);
    assert!(first.is_happy);
    assert_eq!(first.behaviour, "Good");
    assert_eq!(first.condition, 20);
    assert_eq!(first.ability, 3);
    assert_eq!(first.average_rating, 7_000_000);
    assert!(first.is_match_ready);
    assert!(first.is_injured);
    assert!(!first.is_suspended);
    assert!(first.is_transfer_listed);
    assert_eq!(first.contract_days_remaining, Some(179));
    assert!(first.contract_expiring_soon);
    assert_eq!(first.squad_status, Some("hot_prospect"));
    assert_eq!(first.concerns, vec!["transfer_listed"]);
    assert_eq!(first.ambition, 15);
    assert_eq!(first.loyalty, 10);
    assert_eq!(first.temperament, 10);
    let second = &state.players[1];
    assert_eq!(second.happiness, 0);
    assert_eq!(second.contract_days_remaining, None);
    assert!(!second.contract_expiring_soon);
    assert_eq!(second.squad_status, None);
    assert!(!second.is_transfer_listed);
    assert_eq!(state.players[2].happiness, 30);
}

#[test]
fn squad_state_of_an_empty_roster_has_morale_50() {
    let container = loaded(two_leagues());
    let state =
        squad_state_action(&container, &SquadStateRequest { team_slug: "delta".to_string() })
            .unwrap();
    assert_eq!(state.team_morale, 50);
    assert!(state.players.is_empty());
}
