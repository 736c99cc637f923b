//! The figures that are derived from the state of a player or of a squad.
//! Every function here is total: a value out of its range is brought back
//! into it, never refused.

use crate::date::{age_in_years, Date};
use crate::entities::{Behaviour, Player, PlayerSquadStatus, PlayerStatusType};
use vstd::prelude::*;

verus! {

/// The number of millionths in a whole.
pub const MILLION: i64 = 1_000_000;

/// A contract that ends in fewer days than this is expiring soon.
pub const EXPIRY_WINDOW_DAYS: i64 = 180;

/// The happiness that a behaviour stands for before the mood is counted in.
pub open spec fn behaviour_base(behaviour: Behaviour) -> int {
    match behaviour {
        Behaviour::Good => 80,
        Behaviour::Normal => 50,
        Behaviour::Poor => 20,
    }
}

/// The happiness score: the base of the behaviour, 20 more for a happy player
/// and 20 less for an unhappy one, kept within 0 and 100.
pub open spec fn happiness_score(behaviour: Behaviour, is_happy: bool) -> int {
    let raw = if is_happy {
        behaviour_base(behaviour) + 20
    } else {
        behaviour_base(behaviour) - 20
    };
    if raw < 0 {
        0
    } else if raw > 100 {
        100
    } else {
        raw
    }
}

/// The happiness score of a player, 0 to 100.
pub fn calculate_happiness_score(player: &Player) -> (score: u8)
    ensures
        score == happiness_score(player.behaviour, player.is_happy),
        0 <= score <= 100,
        player.behaviour is Good && player.is_happy ==> score == 100,
        player.behaviour is Poor && !player.is_happy ==> score == 0,
{
    let base: u8 = match player.behaviour {
        Behaviour::Good => 80,
        Behaviour::Normal => 50,
        Behaviour::Poor => 20,
    };
    if player.is_happy {
        if base + 20 > 100 {
            100
        } else {
            base + 20
        }
    } else {
        if base < 20 {
            0
        } else {
            base - 20
        }
    }
}

/// The tag under which a status is reported as a concern, if it is one.
pub open spec fn spec_concern_tag(status: PlayerStatusType) -> Option<&'static str> {
    match status {
        PlayerStatusType::Inj => Some("injured"),
        PlayerStatusType::Sus => Some("suspended"),
        PlayerStatusType::Wnt => Some("wanted_by_other_club"),
        PlayerStatusType::Unh => Some("unhappy"),
        PlayerStatusType::Req => Some("transfer_request"),
        PlayerStatusType::Lst => Some("transfer_listed"),
        PlayerStatusType::Lmp => Some("low_match_fitness"),
        PlayerStatusType::Rst => Some("needs_rest"),
        PlayerStatusType::Ctr => Some("contract_expiring"),
        PlayerStatusType::Fut => Some("concerned_about_future"),
        PlayerStatusType::Slt => Some("slight_concerns"),
        PlayerStatusType::Int => Some("international_duty"),
        PlayerStatusType::Unf => Some("unfit"),
        _ => None,
    }
}

/// The tag under which a status is reported as a concern, if it is one.
#[verifier::when_used_as_spec(spec_concern_tag)]
pub fn concern_tag(status: PlayerStatusType) -> (tag: Option<&'static str>)
    ensures
        tag == spec_concern_tag(status),
{
    match status {
        PlayerStatusType::Inj => Some("injured"),
        PlayerStatusType::Sus => Some("suspended"),
        PlayerStatusType::Wnt => Some("wanted_by_other_club"),
        PlayerStatusType::Unh => Some("unhappy"),
        PlayerStatusType::Req => Some("transfer_request"),
        PlayerStatusType::Lst => Some("transfer_listed"),
        PlayerStatusType::Lmp => Some("low_match_fitness"),
        PlayerStatusType::Rst => Some("needs_rest"),
        PlayerStatusType::Ctr => Some("contract_expiring"),
        PlayerStatusType::Fut => Some("concerned_about_future"),
        PlayerStatusType::Slt => Some("slight_concerns"),
        PlayerStatusType::Int => Some("international_duty"),
        PlayerStatusType::Unf => Some("unfit"),
        _ => None,
    }
}

/// The concern tags of some statuses, in the order of the statuses; a status
/// without a tag leaves nothing.
pub open spec fn concern_tags(statuses: Seq<PlayerStatusType>) -> Seq<&'static str>
    decreases statuses.len(),
{
    if statuses.len() == 0 {
        Seq::empty()
    } else {
        let before = concern_tags(statuses.drop_last());
        match spec_concern_tag(statuses.last()) {
            Some(tag) => before.push(tag),
            None => before,
        }
    }
}

/// The concerns of a player: the tags of the statuses that the player carries.
pub fn get_player_concerns(player: &Player) -> (concerns: Vec<&'static str>)
    ensures
        concerns@ == concern_tags(player.statuses@),
{
    let mut concerns: Vec<&'static str> = Vec::new();
    let mut i: usize = 0;
    while i < player.statuses.len()
        invariant
            i <= player.statuses.len(),
            concerns@ == concern_tags(player.statuses@.take(i as int)),
        decreases player.statuses.len() - i,
    {
        proof {
            assert(player.statuses@.take(i + 1).drop_last() =~= player.statuses@.take(i as int));
        }
        match concern_tag(player.statuses[i]) {
            Some(tag) => {
                concerns.push(tag);
            },
            None => {},
        }
        i = i + 1;
    }
    assert(player.statuses@.take(i as int) =~= player.statuses@);
    concerns
}

/// The label of a squad status.
pub open spec fn spec_squad_status_to_str(status: &PlayerSquadStatus) -> &'static str {
    match status {
        PlayerSquadStatus::Invalid => "invalid",
        PlayerSquadStatus::NotYetSet => "not_set",
        PlayerSquadStatus::KeyPlayer => "key_player",
        PlayerSquadStatus::FirstTeamRegular => "first_team_regular",
        PlayerSquadStatus::FirstTeamSquadRotation => "rotation",
        PlayerSquadStatus::MainBackupPlayer => "backup",
        PlayerSquadStatus::HotProspectForTheFuture => "hot_prospect",
        PlayerSquadStatus::DecentYoungster => "decent_youngster",
        PlayerSquadStatus::NotNeeded => "not_needed",
        PlayerSquadStatus::SquadStatusCount => "unknown",
    }
}

/// The label of a squad status.
#[verifier::when_used_as_spec(spec_squad_status_to_str)]
pub fn squad_status_to_str(status: &PlayerSquadStatus) -> (label: &'static str)
    ensures
        label == spec_squad_status_to_str(status),
{
    match status {
        PlayerSquadStatus::Invalid => "invalid",
        PlayerSquadStatus::NotYetSet => "not_set",
        PlayerSquadStatus::KeyPlayer => "key_player",
        PlayerSquadStatus::FirstTeamRegular => "first_team_regular",
        PlayerSquadStatus::FirstTeamSquadRotation => "rotation",
        PlayerSquadStatus::MainBackupPlayer => "backup",
        PlayerSquadStatus::HotProspectForTheFuture => "hot_prospect",
        PlayerSquadStatus::DecentYoungster => "decent_youngster",
        PlayerSquadStatus::NotNeeded => "not_needed",
        PlayerSquadStatus::SquadStatusCount => "unknown",
    }
}

/// A share of the whole, given in millionths, on a scale of whole points:
/// twenty times the share, rounded down, kept within 0 and `top`.
pub open spec fn unit_scale(value: int, top: int) -> int {
    let scaled = value * 20 / 1_000_000;
    if scaled < 0 {
        0
    } else if scaled > top {
        top
    } else {
        scaled
    }
}

/// Brings a share of the whole, given in millionths, onto the scale from 0 to
/// `top`.
pub fn scale_attribute(value: i32, top: u8) -> (points: u8)
    ensures
        points == unit_scale(value as int, top as int),
        points <= top,
{
    if value <= 0 {
        assert(value as int * 20 / 1_000_000 <= 0);
        return 0;
    }
    let wide: i64 = (value as i64) * 20;
    let scaled: i64 = wide / MILLION;
    if scaled > top as i64 {
        top
    } else {
        scaled as u8
    }
}

/// The top of the scale of personality traits.
pub const PERSONALITY_TOP: u8 = 20;

/// The top of the scale of physical condition.
pub const CONDITION_TOP: u8 = 100;

/// The top of the scale of ability, in stars.
pub const ABILITY_TOP: u8 = 5;

/// A trait of character on the scale from 0 to 20.
pub fn personality_points(value: i32) -> (points: u8)
    ensures
        points == unit_scale(value as int, 20),
        points <= 20,
{
    scale_attribute(value, PERSONALITY_TOP)
}

/// The physical condition of a player on the scale from 0 to 100.
pub fn get_conditions(player: &Player) -> (condition: u8)
    ensures
        condition == unit_scale(player.player_attributes.condition as int, 100),
        condition <= 100,
{
    scale_attribute(player.player_attributes.condition, CONDITION_TOP)
}

/// The current ability of a player in stars, 0 to 5.
pub fn get_current_ability_stars(player: &Player) -> (stars: u8)
    ensures
        stars == unit_scale(player.player_attributes.current_ability as int, 5),
        stars <= 5,
{
    scale_attribute(player.player_attributes.current_ability, ABILITY_TOP)
}

/// The age of a player on the day `now`, in whole years.
pub fn player_age(player: &Player, now: &Date) -> (age: u8)
    ensures
        age == age_in_years(player.birth_date, *now),
{
    player.birth_date.age_on(now)
}

/// Whether a contract that ends in `days` days is expiring soon.
pub open spec fn spec_is_expiring_soon(days: i64) -> bool {
    days < 180
}

/// Whether a contract that ends in `days` days is expiring soon: in fewer
/// than 180 days.
#[verifier::when_used_as_spec(spec_is_expiring_soon)]
pub fn is_expiring_soon(days: i64) -> (soon: bool)
    ensures
        soon == (days < 180),
{
    days < EXPIRY_WINDOW_DAYS
}

/// The tier of a world reputation.
pub open spec fn spec_reputation_level(world: u16) -> &'static str {
    if world <= 1000 {
        "Local"
    } else if world <= 3000 {
        "Regional"
    } else if world <= 5000 {
        "National"
    } else if world <= 7000 {
        "Continental"
    } else {
        "World Class"
    }
}

/// The tier of a world reputation: Local up to 1000, Regional up to 3000,
/// National up to 5000, Continental up to 7000, World Class above.
#[verifier::when_used_as_spec(spec_reputation_level)]
pub fn reputation_level(world: u16) -> (level: &'static str)
    ensures
        level == spec_reputation_level(world),
{
    if world <= 1000 {
        "Local"
    } else if world <= 3000 {
        "Regional"
    } else if world <= 5000 {
        "National"
    } else if world <= 7000 {
        "Continental"
    } else {
        "World Class"
    }
}

/// The behaviour of a team of `players` members, `good` of them in a good
/// mood and `poor` of them in a poor one: the mood of more than half of the
/// team, and Normal where neither has a majority.
pub open spec fn spec_team_behaviour(good: int, poor: int, players: int) -> Behaviour {
    if 2 * good > players {
        Behaviour::Good
    } else if 2 * poor > players {
        Behaviour::Poor
    } else {
        Behaviour::Normal
    }
}

/// The behaviour of a team by majority vote.
pub fn team_behaviour(good: usize, poor: usize, players: usize) -> (behaviour: Behaviour)
    ensures
        behaviour == spec_team_behaviour(good as int, poor as int, players as int),
{
    if good as u128 * 2 > players as u128 {
        Behaviour::Good
    } else if poor as u128 * 2 > players as u128 {
        Behaviour::Poor
    } else {
        Behaviour::Normal
    }
}

/// The mean of `count` values that add up to `sum`, in millionths and rounded
/// down; 0 where there are no values.
pub open spec fn mean_millionths(sum: int, count: int) -> int {
    if count <= 0 {
        0
    } else {
        sum * 1_000_000 / count
    }
}

/// The mean of `count` values of at most 255 each that add up to `sum`.
pub(crate) fn mean_of(sum: u128, count: usize) -> (mean: u32)
    requires
        sum <= 255 * count,
    ensures
        mean == mean_millionths(sum as int, count as int),
{
    if count == 0 {
        return 0;
    }
    assert(sum * 1_000_000 <= 255_000_000 * count) by (nonlinear_arith)
        requires
            sum <= 255 * count,
    ;
    let scaled: u128 = sum * 1_000_000;
    let mean: u128 = scaled / (count as u128);
    assert(mean <= 255_000_000) by (nonlinear_arith)
        requires
            mean == scaled / (count as u128),
            scaled <= 255_000_000 * count,
            count > 0,
    ;
    mean as u32
}

} // verus!
