//! The state of a squad: the morale of the team and the state of each of its
//! players.

use crate::container::Container;
use crate::date::{age_in_years, days_between, Date};
use crate::entities::{Player, PlayerPositionType, Team};
use crate::error::{answer_view, id_not_found, EntityKind, QueryError, QueryErrorView};
use crate::sequences::{lemma_total_step, total};
use crate::snapshot::Snapshot;
use crate::stats::{
    calculate_happiness_score, concern_tags, get_conditions, get_current_ability_stars,
    get_player_concerns, happiness_score, is_expiring_soon, personality_points, player_age,
    squad_status_to_str, spec_squad_status_to_str, unit_scale,
};
use crate::text::{full_name_text, join_names};
use vstd::prelude::*;

verus! {

/// The morale that is reported for a team without players.
pub const EMPTY_SQUAD_MORALE: u8 = 50;

/// The question for the state of a squad.
#[derive(Debug, Clone, PartialEq, Eq)]
pub struct SquadStateRequest {
    pub team_slug: String,
}

/// The state of one player of a squad.
#[derive(Debug, Clone, PartialEq, Eq)]
pub struct PlayerSquadState {
    pub id: u32,
    pub name: String,
    /// The positions that the player can take, the best first.
    pub position: String,
    pub age: u8,
    /// The happiness score, 0 to 100.
    pub happiness: u8,
    pub is_happy: bool,
    /// The behaviour: `Poor`, `Normal` or `Good`.
    pub behaviour: &'static str,
    /// The physical condition, 0 to 100.
    pub condition: u8,
    /// The ability in stars, 0 to 5.
    pub ability: u8,
    /// The average match rating, in millionths of a rating point.
    pub average_rating: u32,
    pub is_match_ready: bool,
    pub is_injured: bool,
    pub is_suspended: bool,
    pub is_transfer_listed: bool,
    /// The days until the contract ends, where there is a contract.
    pub contract_days_remaining: Option<i64>,
    /// Whether the contract ends in fewer than 180 days.
    pub contract_expiring_soon: bool,
    /// The label of the squad status, where there is a contract.
    pub squad_status: Option<&'static str>,
    pub concerns: Vec<&'static str>,
    /// Ambition, 0 to 20.
    pub ambition: u8,
    /// Loyalty, 0 to 20.
    pub loyalty: u8,
    /// Temperament, 0 to 20.
    pub temperament: u8,
}

/// The state of a squad.
#[derive(Debug, Clone, PartialEq, Eq)]
pub struct SquadStateResponse<'t> {
    pub team_id: u32,
    pub team_name: &'t str,
    pub team_slug: &'t str,
    /// The mean happiness of the players, 0 to 100.
    pub team_morale: u8,
    pub players: Vec<PlayerSquadState>,
}

/// The state of one player of a squad with its texts as sequences of
/// characters.
pub struct PlayerSquadStateView {
    pub id: u32,
    pub name: Seq<char>,
    pub position: Seq<char>,
    pub age: u8,
    pub happiness: u8,
    pub is_happy: bool,
    pub behaviour: &'static str,
    pub condition: u8,
    pub ability: u8,
    pub average_rating: u32,
    pub is_match_ready: bool,
    pub is_injured: bool,
    pub is_suspended: bool,
    pub is_transfer_listed: bool,
    pub contract_days_remaining: Option<i64>,
    pub contract_expiring_soon: bool,
    pub squad_status: Option<&'static str>,
    pub concerns: Seq<&'static str>,
    pub ambition: u8,
    pub loyalty: u8,
    pub temperament: u8,
}

/// The state of a squad with its texts as sequences of characters.
pub struct SquadStateView {
    pub team_id: u32,
    pub team_name: Seq<char>,
    pub team_slug: Seq<char>,
    pub team_morale: u8,
    pub players: Seq<PlayerSquadStateView>,
}

impl View for PlayerSquadState {
    type V = PlayerSquadStateView;

    open spec fn view(&self) -> PlayerSquadStateView {
        PlayerSquadStateView {
            id: self.id,
            name: self.name@,
            position: self.position@,
            age: self.age,
            happiness: self.happiness,
            is_happy: self.is_happy,
            behaviour: self.behaviour,
            condition: self.condition,
            ability: self.ability,
            average_rating: self.average_rating,
            is_match_ready: self.is_match_ready,
            is_injured: self.is_injured,
            is_suspended: self.is_suspended,
            is_transfer_listed: self.is_transfer_listed,
            contract_days_remaining: self.contract_days_remaining,
            contract_expiring_soon: self.contract_expiring_soon,
            squad_status: self.squad_status,
            concerns: self.concerns@,
            ambition: self.ambition,
            loyalty: self.loyalty,
            temperament: self.temperament,
        }
    }
}

/// The views of the states of some players.
pub open spec fn player_views(players: Seq<PlayerSquadState>) -> Seq<PlayerSquadStateView> {
    players.map_values(|p: PlayerSquadState| p@)
}

impl<'t> View for SquadStateResponse<'t> {
    type V = SquadStateView;

    open spec fn view(&self) -> SquadStateView {
        SquadStateView {
            team_id: self.team_id,
            team_name: self.team_name@,
            team_slug: self.team_slug@,
            team_morale: self.team_morale,
            players: player_views(self.players@),
        }
    }
}

/// The short names of a first position and of some others, with a comma and
/// a space between one and the next.
pub open spec fn positions_text(first: PlayerPositionType, others: Seq<PlayerPositionType>) -> Seq<
    char,
>
    decreases others.len(),
{
    if others.len() == 0 {
        first.get_short_name()@
    } else {
        positions_text(first, others.drop_last()) + ", "@ + others.last().get_short_name()@
    }
}

/// The state of `player` in the squad on the day `now`.
pub open spec fn player_squad_state_view(player: Player, now: Date) -> PlayerSquadStateView {
    PlayerSquadStateView {
        id: player.id,
        name: full_name_text(player.full_name.first_name@, player.full_name.last_name@),
        position: positions_text(player.position, player.other_positions@),
        age: age_in_years(player.birth_date, now) as u8,
        happiness: happiness_score(player.behaviour, player.is_happy) as u8,
        is_happy: player.is_happy,
        behaviour: player.behaviour.as_str(),
        condition: unit_scale(player.player_attributes.condition as int, 100) as u8,
        ability: unit_scale(player.player_attributes.current_ability as int, 5) as u8,
        average_rating: player.statistics.average_rating,
        is_match_ready: player.player_attributes.is_ready_for_match,
        is_injured: player.player_attributes.is_injured,
        is_suspended: player.player_attributes.is_banned,
        is_transfer_listed: match player.contract {
            Some(c) => c.is_transfer_listed,
            None => false,
        },
        contract_days_remaining: match player.contract {
            Some(c) => Some(days_between(now, c.expiration) as i64),
            None => None,
        },
        contract_expiring_soon: match player.contract {
            Some(c) => days_between(now, c.expiration) < 180,
            None => false,
        },
        squad_status: match player.contract {
            Some(c) => Some(spec_squad_status_to_str(&c.squad_status)),
            None => None,
        },
        concerns: concern_tags(player.statuses@),
        ambition: unit_scale(player.attributes.ambition as int, 20) as u8,
        loyalty: unit_scale(player.attributes.loyalty as int, 20) as u8,
        temperament: unit_scale(player.attributes.temperament as int, 20) as u8,
    }
}

/// The report of a player on the day `now`.
pub open spec fn player_reporter(now: Date) -> spec_fn(Player) -> PlayerSquadStateView {
    |p: Player| player_squad_state_view(p, now)
}

/// The happiness score of a player.
pub open spec fn happiness_of() -> spec_fn(Player) -> int {
    |p: Player| happiness_score(p.behaviour, p.is_happy)
}

/// The morale of a squad: the mean of the happiness scores of its players,
/// rounded down, and 50 for a squad without players.
pub open spec fn squad_morale_of(players: Seq<Player>) -> int {
    if players.len() == 0 {
        EMPTY_SQUAD_MORALE as int
    } else {
        total(players, happiness_of()) / (players.len() as int)
    }
}

/// The state of the squad of `team` on the day `now`.
pub open spec fn squad_state_view(team: Team, now: Date) -> SquadStateView {
    SquadStateView {
        team_id: team.id,
        team_name: team.name@,
        team_slug: team.slug@,
        team_morale: squad_morale_of(team.players@) as u8,
        players: team.players@.map_values(player_reporter(now)),
    }
}

/// What the squad query answers on a snapshot: the reason why the slug does
/// not resolve; `NotFound` where the team is missing; else the state of the
/// squad.
pub open spec fn spec_squad_state(snapshot: Snapshot, team_slug: Seq<char>) -> Result<
    SquadStateView,
    QueryErrorView,
> {
    match snapshot.spec_resolve_team(team_slug) {
        Err(e) => Err(e),
        Ok(team_id) => match snapshot.spec_team(team_id) {
            None => Err(id_not_found(EntityKind::Team, team_id)),
            Some(team) => Ok(squad_state_view(team, snapshot.date())),
        },
    }
}

/// What the squad query answers on a container: `NotLoaded` while it is
/// empty, else the answer on its snapshot.
pub open spec fn spec_squad_state_action(slot: Option<Snapshot>, team_slug: Seq<char>) -> Result<
    SquadStateView,
    QueryErrorView,
> {
    match slot {
        Some(snapshot) => spec_squad_state(snapshot, team_slug),
        None => Err(QueryErrorView::NotLoaded),
    }
}

/// The positions that `player` can take, the best first, as one text.
pub fn display_positions(player: &Player) -> (text: String)
    ensures
        text@ == positions_text(player.position, player.other_positions@),
{
    let mut text: String = player.position.get_short_name().to_owned();
    let mut i: usize = 0;
    while i < player.other_positions.len()
        invariant
            i <= player.other_positions.len(),
            text@ == positions_text(player.position, player.other_positions@.take(i as int)),
        decreases player.other_positions.len() - i,
    {
        proof {
            assert(player.other_positions@.take(i + 1).drop_last()
                =~= player.other_positions@.take(i as int));
        }
        text.append(", ");
        text.append(player.other_positions[i].get_short_name());
        i = i + 1;
    }
    assert(player.other_positions@.take(i as int) =~= player.other_positions@);
    text
}

/// The state of `player` in the squad on the day `now`.
pub fn build_player_squad_state(player: &Player, now: &Date) -> (state: PlayerSquadState)
    ensures
        state@ == player_squad_state_view(*player, *now),
        state.happiness <= 100,
        state.contract_days_remaining matches Some(days) ==> (state.contract_expiring_soon <==> days
            < 180),
{
    let happiness: u8 = calculate_happiness_score(player);
    let concerns = get_player_concerns(player);
    let (contract_days, expiring_soon, squad_status, transfer_listed): (
        Option<i64>,
        bool,
        Option<&'static str>,
        bool,
    ) = match &player.contract {
        Some(c) => {
            let days: i64 = now.days_until(&c.expiration);
            (
                Some(days),
                is_expiring_soon(days),
                Some(squad_status_to_str(&c.squad_status)),
                c.is_transfer_listed,
            )
        },
        None => (None, false, None, false),
    };
    PlayerSquadState {
        id: player.id,
        name: join_names(player.full_name.first_name.as_str(), player.full_name.last_name.as_str()),
        position: display_positions(player),
        age: player_age(player, now),
        happiness,
        is_happy: player.is_happy,
        behaviour: player.behaviour.as_str(),
        condition: get_conditions(player),
        ability: get_current_ability_stars(player),
        average_rating: player.statistics.average_rating,
        is_match_ready: player.player_attributes.is_ready_for_match,
        is_injured: player.player_attributes.is_injured,
        is_suspended: player.player_attributes.is_banned,
        is_transfer_listed: transfer_listed,
        contract_days_remaining: contract_days,
        contract_expiring_soon: expiring_soon,
        squad_status,
        concerns,
        ambition: personality_points(player.attributes.ambition),
        loyalty: personality_points(player.attributes.loyalty),
        temperament: personality_points(player.attributes.temperament),
    }
}

/// The morale of a squad from the happiness scores of its players, which add
/// up to `happiness`: their mean, rounded down, and 50 where there are none.
pub(crate) fn morale_from(happiness: u128, players: usize) -> (morale: u8)
    requires
        happiness <= 100 * players,
    ensures
        morale == if players == 0 {
            50
        } else {
            happiness as int / players as int
        },
        morale <= 100,
{
    if players == 0 {
        return EMPTY_SQUAD_MORALE;
    }
    let mean: u128 = happiness / (players as u128);
    assert(mean <= 100) by (nonlinear_arith)
        requires
            mean == happiness / (players as u128),
            happiness <= 100 * players,
            players > 0,
    ;
    mean as u8
}

/// The state of the squad of `team` on the day `now`.
pub fn build_squad_state<'t>(team: &'t Team, now: &Date) -> (state: SquadStateResponse<'t>)
    ensures
        state@ == squad_state_view(*team, *now),
        state.team_morale <= 100,
{
    let ghost report = player_reporter(*now);
    let mut players: Vec<PlayerSquadState> = Vec::new();
    let mut happiness: u128 = 0;
    let mut i: usize = 0;
    while i < team.players.len()
        invariant
            i <= team.players.len(),
            report == player_reporter(*now),
            players@.len() == i,
            forall|k: int| 0 <= k < i ==> (#[trigger] players@[k])@ == report(team.players@[k]),
            happiness == total(team.players@.take(i as int), happiness_of()),
            happiness <= 100 * i,
        decreases team.players.len() - i,
    {
        proof {
            lemma_total_step(team.players@, happiness_of(), i as int);
        }
        let state = build_player_squad_state(&team.players[i], now);
        happiness = happiness + state.happiness as u128;
        players.push(state);
        i = i + 1;
    }
    proof {
        assert(team.players@.take(i as int) =~= team.players@);
        assert(player_views(players@) =~= team.players@.map_values(report));
    }
    SquadStateResponse {
        team_id: team.id,
        team_name: team.name.as_str(),
        team_slug: team.slug.as_str(),
        team_morale: morale_from(happiness, team.players.len()),
        players,
    }
}

/// Answers the squad query on a snapshot.
pub fn squad_state<'t>(snapshot: &'t Snapshot, request: &SquadStateRequest) -> (answer: Result<
    SquadStateResponse<'t>,
    QueryError,
>)
    ensures
        answer_view(answer) == spec_squad_state(*snapshot, request.team_slug@),
{
    let team_id: u32 = match snapshot.resolve_team(request.team_slug.as_str()) {
        Ok(id) => id,
        Err(e) => {
            return Err(e);
        },
    };
    let team = match snapshot.team(team_id) {
        Some(team) => team,
        None => {
            return Err(QueryError::no_such_id(EntityKind::Team, team_id));
        },
    };
    let now = snapshot.date();
    Ok(build_squad_state(team, &now))
}

/// Answers the squad query: `NotLoaded` while the container is empty;
/// `IndexUnavailable` without a slug index; `NotFound` for a slug that no
/// team has, or where the team is missing; else the state of the squad.
pub fn squad_state_action<'t>(container: &'t Container, request: &SquadStateRequest) -> (answer:
    Result<SquadStateResponse<'t>, QueryError>)
    ensures
        answer_view(answer) == spec_squad_state_action(container@, request.team_slug@),
        container@ is None ==> answer == Err::<SquadStateResponse<'t>, QueryError>(
            QueryError::NotLoaded,
        ),
{
    match container.acquire_read() {
        Ok(snapshot) => squad_state(snapshot, request),
        Err(error) => Err(error),
    }
}

} // verus!
