use football_state::date::Date;
use football_state::entities::{
    Behaviour, FullName, PersonAttributes, Player, PlayerAttributes, PlayerClubContract,
    PlayerPositionType, PlayerSquadStatus, PlayerStatistics, PlayerStatusType, TacticType,
};
use football_state::error::{EntityKind, QueryError};
use football_state::player_state::{
    contract_summary, player_contract, player_personality, PlayerStateRequest,
};
use football_state::squad_state::display_positions;
use football_state::stats::{
    calculate_happiness_score, concern_tag, get_conditions, get_current_ability_stars,
    get_player_concerns, is_expiring_soon, personality_points, player_age,
    reputation_level, scale_attribute, squad_status_to_str, team_behaviour,
};
use football_state::text::{decimal, join_names, parse_decimal};

fn day(year: i32, month: u32, day: u32) -> Date {
    Date::new(year, month, day).unwrap()
}

fn player(behaviour: Behaviour, is_happy: bool) -> Player {
    Player {
        id: 7,
        full_name: FullName { first_name: "Ada".to_string(), last_name: "Byron".to_string() },
        birth_date: day(2000, 6, 15),
        position: PlayerPositionType::Striker,
        other_positions: vec![],
        attributes: PersonAttributes {
            ambition: 750_000,
            loyalty: 500_000,
            professionalism: 1_000_000,
            temperament: 0,
        },
        behaviour,
        is_happy,
        statistics: PlayerStatistics { average_rating: 6_850_000, goals: 3, assists: 2, played: 9 },
        player_attributes: PlayerAttributes {
            condition: 900_000,
            current_ability: 200_000,
            is_injured: false,
            is_banned: false,
            is_ready_for_match: true,
        },
        statuses: vec![],
        contract: None,
    }
}

fn contract(expiration: Date) -> PlayerClubContract {
    PlayerClubContract {
        salary: 45_999,
        expiration,
        squad_status: PlayerSquadStatus::KeyPlayer,
        is_transfer_listed: true,
    }
}

#[test]
fn date_new_accepts_the_days_of_the_calendar() {
    assert!(Date::new(2024, 2, 29).is_some());
    assert!(Date::new(2023, 2, 29).is_none());
    assert!(Date::new(1900, 2, 29).is_none());
    assert!(Date::new(2000, 2, 29).is_some());
    assert!(Date::new(2023, 4, 31).is_none());
    assert!(Date::new(2023, 4, 30).is_some());
    assert!(Date::new(2023, 12, 31).is_some());
    assert!(Date::new(2023, 13, 1).is_none());
    assert!(Date::new(2023, 0, 1).is_none());
    assert!(Date::new(2023, 1, 0).is_none());
    assert!(Date::new(0, 1, 1).is_none());
    assert!(Date::new(1, 1, 1).is_some());
    assert!(Date::new(9999, 12, 31).is_some());
    assert!(Date::new(10000, 1, 1).is_none());
    assert!(Date::new(-4, 2, 29).is_none());
}

#[test]
fn date_keeps_its_fields() {
    let d = day(2024, 3, 5);
    assert_eq!(d.year(), 2024);
    assert_eq!(d.month(), 3);
    assert_eq!(d.day(), 5);
}

#[test]
fn date_text_is_padded_with_zeros() {
    assert_eq!(day(2024, 3, 5).to_iso_text(), "2024-03-05");
    assert_eq!(day(987, 12, 31).to_iso_text(), "0987-12-31");
    assert_eq!(day(1, 1, 1).to_iso_text(), "0001-01-01");
    assert_eq!(day(9999, 10, 9).to_iso_text(), "9999-10-09");
}

#[test]
fn days_until_counts_calendar_days() {
    assert_eq!(day(2024, 1, 1).days_until(&day(2024, 1, 1)), 0);
    assert_eq!(day(2024, 1, 1).days_until(&day(2024, 1, 2)), 1);
    assert_eq!(day(2024, 1, 2).days_until(&day(2024, 1, 1)), -1);
    assert_eq!(day(2024, 1, 1).days_until(&day(2024, 3, 1)), 60);
    assert_eq!(day(2023, 1, 1).days_until(&day(2023, 3, 1)), 59);
    assert_eq!(day(2013, 1, 1).days_until(&day(2014, 1, 1)), 365);
    assert_eq!(day(1614, 1, 1).days_until(&day(2014, 1, 1)), 365 * 400 + 97);
    assert_eq!(day(1, 1, 1).days_until(&day(9999, 12, 31)), 3_652_058);
}

#[test]
fn age_is_whole_years_rounded_down() {
    let birth = day(2000, 6, 15);
    assert_eq!(birth.age_on(&day(2024, 6, 14)), 23);
    assert_eq!(birth.age_on(&day(2024, 6, 15)), 24);
    assert_eq!(birth.age_on(&day(2024, 7, 1)), 24);
    assert_eq!(birth.age_on(&day(2024, 5, 31)), 23);
    assert_eq!(birth.age_on(&day(2000, 6, 15)), 0);
    assert_eq!(birth.age_on(&day(2001, 6, 14)), 0);
}

#[test]
fn age_is_kept_within_0_and_255() {
    let birth = day(2000, 6, 15);
    assert_eq!(birth.age_on(&day(1999, 1, 1)), 0);
    assert_eq!(birth.age_on(&day(2255, 6, 15)), 255);
    assert_eq!(birth.age_on(&day(2255, 6, 14)), 254);
    assert_eq!(birth.age_on(&day(9999, 1, 1)), 255);
}

#[test]
fn age_of_a_leap_day_birthday() {
    let birth = day(2000, 2, 29);
    assert_eq!(birth.age_on(&day(2001, 2, 28)), 0);
    assert_eq!(birth.age_on(&day(2001, 3, 1)), 1);
    assert_eq!(birth.age_on(&day(2004, 2, 29)), 4);
}

#[test]
fn player_age_uses_the_birth_date() {
    let p = player(Behaviour::Normal, true);
    assert_eq!(player_age(&p, &day(2030, 1, 1)), 29);
}

#[test]
fn happiness_score_for_each_behaviour_and_mood() {
    assert_eq!(calculate_happiness_score(&player(Behaviour::Good, true)), 100);
    assert_eq!(calculate_happiness_score(&player(Behaviour::Good, false)), 60);
    assert_eq!(calculate_happiness_score(&player(Behaviour::Normal, true)), 70);
    assert_eq!(calculate_happiness_score(&player(Behaviour::Normal, false)), 30);
    assert_eq!(calculate_happiness_score(&player(Behaviour::Poor, true)), 40);
    assert_eq!(calculate_happiness_score(&player(Behaviour::Poor, false)), 0);
}

#[test]
fn happiness_score_stays_within_0_and_100() {
    for behaviour in [Behaviour::Poor, Behaviour::Normal, Behaviour::Good] {
        for is_happy in [false, true] {
            let score = calculate_happiness_score(&player(behaviour, is_happy));
            assert!(score <= 100);
        }
    }
}

#[test]
fn behaviour_labels() {
    assert_eq!(Behaviour::Poor.as_str(), "Poor");
    assert_eq!(Behaviour::Normal.as_str(), "Normal");
    assert_eq!(Behaviour::Good.as_str(), "Good");
}

#[test]
fn concern_tags_of_the_statuses() {
    assert_eq!(concern_tag(PlayerStatusType::Inj), Some("injured"));
    assert_eq!(concern_tag(PlayerStatusType::Sus), Some("suspended"));
    assert_eq!(concern_tag(PlayerStatusType::Wnt), Some("wanted_by_other_club"));
    assert_eq!(concern_tag(PlayerStatusType::Unh), Some("unhappy"));
    assert_eq!(concern_tag(PlayerStatusType::Req), Some("transfer_request"));
    assert_eq!(concern_tag(PlayerStatusType::Lst), Some("transfer_listed"));
    assert_eq!(concern_tag(PlayerStatusType::Lmp), Some("low_match_fitness"));
    assert_eq!(concern_tag(PlayerStatusType::Rst), Some("needs_rest"));
    assert_eq!(concern_tag(PlayerStatusType::Ctr), Some("contract_expiring"));
    assert_eq!(concern_tag(PlayerStatusType::Fut), Some("concerned_about_future"));
    assert_eq!(concern_tag(PlayerStatusType::Slt), Some("slight_concerns"));
    assert_eq!(concern_tag(PlayerStatusType::Int), Some("international_duty"));
    assert_eq!(concern_tag(PlayerStatusType::Unf), Some("unfit"));
    assert_eq!(concern_tag(PlayerStatusType::Loa), None);
    assert_eq!(concern_tag(PlayerStatusType::Yel), None);
    assert_eq!(concern_tag(PlayerStatusType::Abs), None);
}

#[test]
fn concerns_keep_the_order_and_omit_other_statuses() {
    let mut p = player(Behaviour::Normal, true);
    p.statuses = vec![
        PlayerStatusType::Loa,
        PlayerStatusType::Unh,
        PlayerStatusType::Cup,
        PlayerStatusType::Inj,
        PlayerStatusType::Unh,
    ];
    assert_eq!(get_player_concerns(&p), vec!["unhappy", "injured", "unhappy"]);
    p.statuses = vec![PlayerStatusType::Hol, PlayerStatusType::Fgn];
    assert!(get_player_concerns(&p).is_empty());
    p.statuses = vec![];
    assert!(get_player_concerns(&p).is_empty());
}

#[test]
fn squad_status_labels() {
    assert_eq!(squad_status_to_str(&PlayerSquadStatus::Invalid), "invalid");
    assert_eq!(squad_status_to_str(&PlayerSquadStatus::NotYetSet), "not_set");
    assert_eq!(squad_status_to_str(&PlayerSquadStatus::KeyPlayer), "key_player");
    assert_eq!(squad_status_to_str(&PlayerSquadStatus::FirstTeamRegular), "first_team_regular");
    assert_eq!(squad_status_to_str(&PlayerSquadStatus::FirstTeamSquadRotation), "rotation");
    assert_eq!(squad_status_to_str(&PlayerSquadStatus::MainBackupPlayer), "backup");
    assert_eq!(squad_status_to_str(&PlayerSquadStatus::HotProspectForTheFuture), "hot_prospect");
    assert_eq!(squad_status_to_str(&PlayerSquadStatus::DecentYoungster), "decent_youngster");
    assert_eq!(squad_status_to_str(&PlayerSquadStatus::NotNeeded), "not_needed");
    assert_eq!(squad_status_to_str(&PlayerSquadStatus::SquadStatusCount), "unknown");
}

#[test]
fn scale_multiplies_by_twenty_and_rounds_down() {
    assert_eq!(scale_attribute(750_000, 20), 15);
    assert_eq!(scale_attribute(749_999, 20), 14);
    assert_eq!(scale_attribute(50_000, 20), 1);
    assert_eq!(scale_attribute(49_999, 20), 0);
    assert_eq!(scale_attribute(0, 20), 0);
    assert_eq!(scale_attribute(1_000_000, 20), 20);
    assert_eq!(scale_attribute(999_999, 20), 19);
}

#[test]
fn scale_keeps_values_within_the_range() {
    assert_eq!(scale_attribute(-1, 20), 0);
    assert_eq!(scale_attribute(i32::MIN, 20), 0);
    assert_eq!(scale_attribute(1_000_001, 20), 20);
    assert_eq!(scale_attribute(i32::MAX, 20), 20);
    assert_eq!(scale_attribute(1_000_000, 5), 5);
    assert_eq!(scale_attribute(300_000, 5), 5);
    assert_eq!(scale_attribute(200_000, 5), 4);
    assert_eq!(scale_attribute(i32::MAX, 100), 100);
    assert_eq!(scale_attribute(i32::MAX, 255), 255);
    assert_eq!(scale_attribute(500_000, 0), 0);
}

#[test]
fn personality_condition_and_ability_share_the_scale() {
    let p = player(Behaviour::Normal, true);
    assert_eq!(personality_points(750_000), 15);
    assert_eq!(get_conditions(&p), 18);
    assert_eq!(get_current_ability_stars(&p), 4);
    let traits = player_personality(&p);
    assert_eq!(traits.ambition, 15);
    assert_eq!(traits.loyalty, 10);
    assert_eq!(traits.professionalism, 20);
    assert_eq!(traits.temperament, 0);
}

#[test]
fn contract_is_expiring_soon_below_180_days() {
    assert!(is_expiring_soon(179));
    assert!(!is_expiring_soon(180));
    assert!(!is_expiring_soon(181));
    assert!(is_expiring_soon(0));
    assert!(is_expiring_soon(-5));
    assert!(!is_expiring_soon(i64::MAX));
    assert!(is_expiring_soon(i64::MIN));
}

#[test]
fn contract_summary_reports_the_contract() {
    let c = contract(day(2030, 1, 1));
    let state = contract_summary(&c, 180);
    assert_eq!(state.salary_k, 45);
    assert_eq!(state.days_to_expiration, 180);
    assert!(!state.is_expiring_soon);
    assert_eq!(state.squad_status, "key_player");
    assert!(state.is_transfer_listed);
    let state = contract_summary(&c, 179);
    assert_eq!(state.days_to_expiration, 179);
    assert!(state.is_expiring_soon);
}

#[test]
fn player_contract_counts_the_days_to_the_expiration() {
    let mut p = player(Behaviour::Normal, true);
    let now = day(2024, 1, 1);
    assert_eq!(player_contract(&p, &now), None);
    p.contract = Some(contract(day(2024, 6, 29)));
    let state = player_contract(&p, &now).unwrap();
    assert_eq!(state.days_to_expiration, 180);
    assert!(!state.is_expiring_soon);
    p.contract = Some(contract(day(2024, 6, 28)));
    let state = player_contract(&p, &now).unwrap();
    assert_eq!(state.days_to_expiration, 179);
    assert!(state.is_expiring_soon);
    p.contract = Some(contract(day(2023, 12, 31)));
    let state = player_contract(&p, &now).unwrap();
    assert_eq!(state.days_to_expiration, -1);
    assert!(state.is_expiring_soon);
}

#[test]
fn reputation_tiers_and_their_breakpoints() {
    assert_eq!(reputation_level(0), "Local");
    assert_eq!(reputation_level(1000), "Local");
    assert_eq!(reputation_level(1001), "Regional");
    assert_eq!(reputation_level(3000), "Regional");
    assert_eq!(reputation_level(3001), "National");
    assert_eq!(reputation_level(5000), "National");
    assert_eq!(reputation_level(5001), "Continental");
    assert_eq!(reputation_level(7000), "Continental");
    assert_eq!(reputation_level(7001), "World Class");
    assert_eq!(reputation_level(10000), "World Class");
    assert_eq!(reputation_level(u16::MAX), "World Class");
}

#[test]
fn team_behaviour_is_that_of_a_majority() {
    assert_eq!(team_behaviour(6, 2, 10), Behaviour::Good);
    assert_eq!(team_behaviour(2, 6, 10), Behaviour::Poor);
    assert_eq!(team_behaviour(5, 5, 10), Behaviour::Normal);
    assert_eq!(team_behaviour(5, 0, 10), Behaviour::Normal);
    assert_eq!(team_behaviour(3, 2, 10), Behaviour::Normal);
    assert_eq!(team_behaviour(2, 3, 10), Behaviour::Normal);
    assert_eq!(team_behaviour(0, 0, 0), Behaviour::Normal);
    assert_eq!(team_behaviour(1, 0, 1), Behaviour::Good);
    assert_eq!(team_behaviour(0, 1, 1), Behaviour::Poor);
    assert_eq!(team_behaviour(usize::MAX, 0, usize::MAX), Behaviour::Good);
}

#[test]
fn positions_are_joined_with_comma_and_space() {
    let mut p = player(Behaviour::Normal, true);
    assert_eq!(display_positions(&p), "ST");
    p.other_positions =
        vec![PlayerPositionType::AttackingMidfielderCenter, PlayerPositionType::MidfielderLeft];
    assert_eq!(display_positions(&p), "ST, AMC, ML");
    assert_eq!(PlayerPositionType::Goalkeeper.get_short_name(), "GK");
}

#[test]
fn tactics_have_a_display_name_and_a_variant_name() {
    assert_eq!(TacticType::T442.display_name(), "4-4-2");
    assert_eq!(TacticType::T442.variant_name(), "T442");
    assert_eq!(TacticType::T4231.display_name(), "4-2-3-1");
    assert_eq!(TacticType::T4231.variant_name(), "T4231");
}

#[test]
fn names_are_joined_with_one_space() {
    assert_eq!(join_names("Ada", "Byron"), "Ada Byron");
    assert_eq!(join_names("", ""), " ");
}

#[test]
fn decimal_writes_numbers_without_leading_zeros() {
    assert_eq!(decimal(0), "0");
    assert_eq!(decimal(7), "7");
    assert_eq!(decimal(10), "10");
    assert_eq!(decimal(1905), "1905");
    assert_eq!(decimal(u32::MAX), "4294967295");
}

#[test]
fn each_error_has_its_message() {
    assert_eq!(QueryError::NotLoaded.message(), "Simulator data not loaded");
    assert_eq!(QueryError::IndexUnavailable.message(), "Indexes not available");
    assert_eq!(
        QueryError::no_such_slug(EntityKind::Team, "juventus").message(),
        "Team 'juventus' not found"
    );
    assert_eq!(
        QueryError::no_such_id(EntityKind::Team, 12).message(),
        "Team with ID 12 not found"
    );
    assert_eq!(
        QueryError::no_such_id(EntityKind::Player, 4021).message(),
        "Player with ID 4021 not found"
    );
    assert_eq!(
        QueryError::no_such_id(EntityKind::League, 0).message(),
        "League with ID 0 not found"
    );
    assert_eq!(
        QueryError::no_such_slug(EntityKind::League, "serie-a").message(),
        "League 'serie-a' not found"
    );
}

#[test]
fn parse_decimal_reads_digits_only() {
    assert_eq!(parse_decimal("0"), Some(0));
    assert_eq!(parse_decimal("7"), Some(7));
    assert_eq!(parse_decimal("007"), Some(7));
    assert_eq!(parse_decimal("4021"), Some(4021));
    assert_eq!(parse_decimal("4294967295"), Some(u32::MAX));
    assert_eq!(parse_decimal("0000000004294967295"), Some(u32::MAX));
    assert_eq!(parse_decimal("4294967296"), None);
    assert_eq!(parse_decimal("99999999999999999999999999"), None);
    assert_eq!(parse_decimal(""), None);
    assert_eq!(parse_decimal("abc"), None);
    assert_eq!(parse_decimal("12a"), None);
    assert_eq!(parse_decimal("a12"), None);
    assert_eq!(parse_decimal("+5"), None);
    assert_eq!(parse_decimal("-5"), None);
    assert_eq!(parse_decimal(" 5"), None);
    assert_eq!(parse_decimal("5 "), None);
    assert_eq!(parse_decimal("1.5"), None);
    assert_eq!(parse_decimal("\u{0661}\u{0662}"), None);
    assert_eq!(parse_decimal("1\u{00e9}"), None);
}

#[test]
fn parse_decimal_reads_back_what_decimal_writes() {
    for n in [0, 1, 9, 10, 99, 100, 12345, 1_000_000, u32::MAX - 1, u32::MAX] {
        assert_eq!(parse_decimal(&decimal(n)), Some(n));
    }
}

#[test]
fn request_with_a_malformed_id_is_refused() {
    assert_eq!(PlayerStateRequest::parse("42"), Ok(PlayerStateRequest { player_id: 42 }));
    assert_eq!(
        PlayerStateRequest::parse("forty-two"),
        Err(QueryError::MalformedInput { input: "forty-two".to_string() })
    );
    assert_eq!(PlayerStateRequest::parse("").unwrap_err().message(), "Malformed input ''");
    assert_eq!(PlayerStateRequest::parse("4x").unwrap_err().message(), "Malformed input '4x'");
}
