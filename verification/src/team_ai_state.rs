//! The state of a team: league, wages, squad summary, morale, tactics and
//! reputation.

use crate::container::Container;
use crate::date::{age_in_years, Date};
use crate::entities::{Behaviour, League, Player, Tactics, Team};
use crate::error::{answer_view, id_not_found, EntityKind, QueryError, QueryErrorView};
use crate::sequences::{lemma_tally_step, lemma_total_step, tally, total};
use crate::snapshot::Snapshot;
use crate::stats::{
    get_conditions, get_current_ability_stars, mean_millionths, mean_of, player_age,
    reputation_level, spec_reputation_level, spec_team_behaviour, team_behaviour, unit_scale,
};
use vstd::prelude::*;

verus! {

/// The question for the state of a team.
#[derive(Debug, Clone, PartialEq, Eq)]
pub struct TeamAiStateRequest {
    pub team_slug: String,
}

/// The money side of a team.
#[derive(Debug, Clone, Copy, PartialEq, Eq, Structural)]
pub struct FinancesDto {
    /// The wages of a week, in thousands.
    pub weekly_wage_k: u32,
}

/// The squad of a team in figures. The averages are in millionths and rounded
/// down; they are 0 for a team without players.
#[derive(Debug, Clone, Copy, PartialEq, Eq, Structural)]
pub struct SquadSummaryDto {
    pub total_players: usize,
    /// The average age in years.
    pub average_age: u32,
    /// The average ability in stars, 0 to 5.
    pub average_ability: u32,
    /// The average condition, 0 to 100.
    pub average_condition: u32,
    pub injured_count: usize,
    pub suspended_count: usize,
    pub unhappy_count: usize,
}

/// The morale of a team.
#[derive(Debug, Clone, Copy, PartialEq, Eq)]
pub struct MoraleDto {
    /// The behaviour of the team as a whole: `Poor`, `Normal` or `Good`.
    pub team_behaviour: &'static str,
    /// The number of players whose behaviour is poor.
    pub players_poor_mood: usize,
    /// The number of players whose behaviour is good.
    pub players_good_mood: usize,
}

/// The tactics of a team.
#[derive(Debug, Clone, PartialEq, Eq)]
pub struct TacticsDto {
    /// The formation as it is usually written, such as `4-4-2`.
    pub formation: String,
    /// The name of the tactic.
    pub style: String,
}

/// The reputation of a team.
#[derive(Debug, Clone, PartialEq, Eq)]
pub struct ReputationDto {
    /// The standing in the world, 0 to 10000.
    pub world: u16,
    /// The tier that the standing falls in.
    pub level: String,
}

/// The state of a team.
#[derive(Debug, Clone, PartialEq, Eq)]
pub struct TeamAiStateResponse<'t> {
    pub id: u32,
    pub name: &'t str,
    pub slug: &'t str,
    pub league_name: &'t str,
    pub league_slug: &'t str,
    /// The results of the last matches; not kept yet, so five dashes.
    pub recent_form: String,
    pub finances: FinancesDto,
    pub squad_summary: SquadSummaryDto,
    pub morale: MoraleDto,
    pub tactics: Option<TacticsDto>,
    pub reputation: ReputationDto,
}

/// The tactics of a team with its texts as sequences of characters.
pub struct TacticsView {
    pub formation: Seq<char>,
    pub style: Seq<char>,
}

/// The reputation of a team with its text as a sequence of characters.
pub struct ReputationView {
    pub world: u16,
    pub level: Seq<char>,
}

/// The state of a team with its texts as sequences of characters.
pub struct TeamAiStateView {
    pub id: u32,
    pub name: Seq<char>,
    pub slug: Seq<char>,
    pub league_name: Seq<char>,
    pub league_slug: Seq<char>,
    pub recent_form: Seq<char>,
    pub finances: FinancesDto,
    pub squad_summary: SquadSummaryDto,
    pub morale: MoraleDto,
    pub tactics: Option<TacticsView>,
    pub reputation: ReputationView,
}

impl View for TacticsDto {
    type V = TacticsView;

    open spec fn view(&self) -> TacticsView {
        TacticsView { formation: self.formation@, style: self.style@ }
    }
}

impl View for ReputationDto {
    type V = ReputationView;

    open spec fn view(&self) -> ReputationView {
        ReputationView { world: self.world, level: self.level@ }
    }
}

impl<'t> View for TeamAiStateResponse<'t> {
    type V = TeamAiStateView;

    open spec fn view(&self) -> TeamAiStateView {
        TeamAiStateView {
            id: self.id,
            name: self.name@,
            slug: self.slug@,
            league_name: self.league_name@,
            league_slug: self.league_slug@,
            recent_form: self.recent_form@,
            finances: self.finances,
            squad_summary: self.squad_summary,
            morale: self.morale,
            tactics: match self.tactics {
                Some(t) => Some(t@),
                None => None,
            },
            reputation: self.reputation@,
        }
    }
}

/// The age of a player on the day `now`.
pub open spec fn age_on(now: Date) -> spec_fn(Player) -> int {
    |p: Player| age_in_years(p.birth_date, now)
}

/// The ability of a player in stars.
pub open spec fn ability_stars() -> spec_fn(Player) -> int {
    |p: Player| unit_scale(p.player_attributes.current_ability as int, 5)
}

/// The condition of a player.
pub open spec fn condition_points() -> spec_fn(Player) -> int {
    |p: Player| unit_scale(p.player_attributes.condition as int, 100)
}

/// The question whether a player is injured.
pub open spec fn injured() -> spec_fn(Player) -> bool {
    |p: Player| p.player_attributes.is_injured
}

/// The question whether a player is suspended.
pub open spec fn suspended() -> spec_fn(Player) -> bool {
    |p: Player| p.player_attributes.is_banned
}

/// The question whether a player is unhappy.
pub open spec fn unhappy() -> spec_fn(Player) -> bool {
    |p: Player| !p.is_happy
}

/// The question whether a player behaves as `behaviour` says.
pub open spec fn behaves(behaviour: Behaviour) -> spec_fn(Player) -> bool {
    |p: Player| p.behaviour == behaviour
}

/// The squad `players` in figures on the day `now`.
pub open spec fn squad_summary_of(players: Seq<Player>, now: Date) -> SquadSummaryDto {
    SquadSummaryDto {
        total_players: players.len() as usize,
        average_age: mean_millionths(total(players, age_on(now)), players.len() as int) as u32,
        average_ability: mean_millionths(total(players, ability_stars()), players.len() as int)
            as u32,
        average_condition: mean_millionths(
            total(players, condition_points()),
            players.len() as int,
        ) as u32,
        injured_count: tally(players, injured()) as usize,
        suspended_count: tally(players, suspended()) as usize,
        unhappy_count: tally(players, unhappy()) as usize,
    }
}

/// The morale of the squad `players`.
pub open spec fn morale_of(players: Seq<Player>) -> MoraleDto {
    let good = tally(players, behaves(Behaviour::Good));
    let poor = tally(players, behaves(Behaviour::Poor));
    MoraleDto {
        team_behaviour: spec_team_behaviour(good, poor, players.len() as int).as_str(),
        players_poor_mood: poor as usize,
        players_good_mood: good as usize,
    }
}

/// The tactics `tactics` as they are reported.
pub open spec fn tactics_view(tactics: Tactics) -> TacticsView {
    TacticsView {
        formation: tactics.tactic_type.display_name()@,
        style: tactics.tactic_type.variant_name()@,
    }
}

/// The state of `team`, which plays in `league`, on the day `now`.
pub open spec fn team_ai_state_view(team: Team, league: League, now: Date) -> TeamAiStateView {
    TeamAiStateView {
        id: team.id,
        name: team.name@,
        slug: team.slug@,
        league_name: league.name@,
        league_slug: league.slug@,
        recent_form: "-----"@,
        finances: FinancesDto { weekly_wage_k: team.week_salary / 1000 },
        squad_summary: squad_summary_of(team.players@, now),
        morale: morale_of(team.players@),
        tactics: match team.tactics {
            Some(t) => Some(tactics_view(t)),
            None => None,
        },
        reputation: ReputationView {
            world: team.reputation.world,
            level: spec_reputation_level(team.reputation.world)@,
        },
    }
}

/// What the team query answers on a snapshot: the reason why the slug does
/// not resolve; `NotFound` where the team or its league is missing; else the
/// state of the team.
pub open spec fn spec_team_ai_state(snapshot: Snapshot, team_slug: Seq<char>) -> Result<
    TeamAiStateView,
    QueryErrorView,
> {
    match snapshot.spec_resolve_team(team_slug) {
        Err(e) => Err(e),
        Ok(team_id) => match snapshot.spec_team(team_id) {
            None => Err(id_not_found(EntityKind::Team, team_id)),
            Some(team) => match snapshot.spec_league(team.league_id) {
                None => Err(id_not_found(EntityKind::League, team.league_id)),
                Some(league) => Ok(team_ai_state_view(team, league, snapshot.date())),
            },
        },
    }
}

/// What the team query answers on a container: `NotLoaded` while it is empty,
/// else the answer on its snapshot.
pub open spec fn spec_team_ai_state_action(slot: Option<Snapshot>, team_slug: Seq<char>)
    -> Result<TeamAiStateView, QueryErrorView> {
    match slot {
        Some(snapshot) => spec_team_ai_state(snapshot, team_slug),
        None => Err(QueryErrorView::NotLoaded),
    }
}

/// The squad `players` in figures on the day `now`. A squad without players
/// has averages of 0 and counts of 0.
pub fn squad_summary(players: &Vec<Player>, now: &Date) -> (summary: SquadSummaryDto)
    ensures
        summary == squad_summary_of(players@, *now),
        players@.len() == 0 ==> summary == (SquadSummaryDto {
            total_players: 0,
            average_age: 0,
            average_ability: 0,
            average_condition: 0,
            injured_count: 0,
            suspended_count: 0,
            unhappy_count: 0,
        }),
{
    let count: usize = players.len();
    let mut ages: u128 = 0;
    let mut abilities: u128 = 0;
    let mut conditions: u128 = 0;
    let mut injured_count: usize = 0;
    let mut suspended_count: usize = 0;
    let mut unhappy_count: usize = 0;
    let mut i: usize = 0;
    while i < count
        invariant
            i <= count,
            count == players@.len(),
            ages == total(players@.take(i as int), age_on(*now)),
            abilities == total(players@.take(i as int), ability_stars()),
            conditions == total(players@.take(i as int), condition_points()),
            injured_count == tally(players@.take(i as int), injured()),
            suspended_count == tally(players@.take(i as int), suspended()),
            unhappy_count == tally(players@.take(i as int), unhappy()),
            ages <= 255 * i,
            abilities <= 255 * i,
            conditions <= 255 * i,
            injured_count <= i,
            suspended_count <= i,
            unhappy_count <= i,
        decreases count - i,
    {
        let player = &players[i];
        proof {
            lemma_total_step(players@, age_on(*now), i as int);
            lemma_total_step(players@, ability_stars(), i as int);
            lemma_total_step(players@, condition_points(), i as int);
            lemma_tally_step(players@, injured(), i as int);
            lemma_tally_step(players@, suspended(), i as int);
            lemma_tally_step(players@, unhappy(), i as int);
        }
        ages = ages + player_age(player, now) as u128;
        abilities = abilities + get_current_ability_stars(player) as u128;
        conditions = conditions + get_conditions(player) as u128;
        if player.player_attributes.is_injured {
            injured_count = injured_count + 1;
        }
        if player.player_attributes.is_banned {
            suspended_count = suspended_count + 1;
        }
        if !player.is_happy {
            unhappy_count = unhappy_count + 1;
        }
        i = i + 1;
    }
    assert(players@.take(i as int) =~= players@);
    SquadSummaryDto {
        total_players: count,
        average_age: mean_of(ages, count),
        average_ability: mean_of(abilities, count),
        average_condition: mean_of(conditions, count),
        injured_count,
        suspended_count,
        unhappy_count,
    }
}

/// The morale of the squad `players`: how many behave well and how many
/// poorly, and the behaviour of the team by majority. A squad without
/// players has counts of 0 and the behaviour Normal.
pub fn squad_morale(players: &Vec<Player>) -> (morale: MoraleDto)
    ensures
        morale == morale_of(players@),
        players@.len() == 0 ==> morale == (MoraleDto {
            team_behaviour: "Normal",
            players_poor_mood: 0,
            players_good_mood: 0,
        }),
{
    let count: usize = players.len();
    let mut good: usize = 0;
    let mut poor: usize = 0;
    let mut i: usize = 0;
    while i < count
        invariant
            i <= count,
            count == players@.len(),
            good == tally(players@.take(i as int), behaves(Behaviour::Good)),
            poor == tally(players@.take(i as int), behaves(Behaviour::Poor)),
            good <= i,
            poor <= i,
        decreases count - i,
    {
        proof {
            lemma_tally_step(players@, behaves(Behaviour::Good), i as int);
            lemma_tally_step(players@, behaves(Behaviour::Poor), i as int);
        }
        match players[i].behaviour {
            Behaviour::Good => {
                good = good + 1;
            },
            Behaviour::Poor => {
                poor = poor + 1;
            },
            Behaviour::Normal => {},
        }
        i = i + 1;
    }
    assert(players@.take(i as int) =~= players@);
    MoraleDto {
        team_behaviour: team_behaviour(good, poor, count).as_str(),
        players_poor_mood: poor,
        players_good_mood: good,
    }
}

/// The tactics `tactics` as they are reported.
pub fn tactics_summary(tactics: &Tactics) -> (summary: TacticsDto)
    ensures
        summary@ == tactics_view(*tactics),
{
    TacticsDto {
        formation: tactics.tactic_type.display_name().to_owned(),
        style: tactics.tactic_type.variant_name().to_owned(),
    }
}

/// The state of `team`, which plays in `league`, on the day `now`.
pub fn build_team_ai_state<'t>(team: &'t Team, league: &'t League, now: &Date) -> (state:
    TeamAiStateResponse<'t>)
    ensures
        state@ == team_ai_state_view(*team, *league, *now),
{
    TeamAiStateResponse {
        id: team.id,
        name: team.name.as_str(),
        slug: team.slug.as_str(),
        league_name: league.name.as_str(),
        league_slug: league.slug.as_str(),
        recent_form: "-----".to_owned(),
        finances: FinancesDto { weekly_wage_k: team.week_salary / 1000 },
        squad_summary: squad_summary(&team.players, now),
        morale: squad_morale(&team.players),
        tactics: match &team.tactics {
            Some(t) => Some(tactics_summary(t)),
            None => None,
        },
        reputation: ReputationDto {
            world: team.reputation.world,
            level: reputation_level(team.reputation.world).to_owned(),
        },
    }
}

/// Answers the team query on a snapshot.
pub fn team_ai_state<'t>(snapshot: &'t Snapshot, request: &TeamAiStateRequest) -> (answer: Result<
    TeamAiStateResponse<'t>,
    QueryError,
>)
    ensures
        answer_view(answer) == spec_team_ai_state(*snapshot, request.team_slug@),
{
    let team_id: u32 = match snapshot.resolve_team(request.team_slug.as_str()) {
        Ok(id) => id,
        Err(e) => {
            return Err(e);
        },
    };
    let team = match snapshot.team(team_id) {
        Some(team) => team,
        None => {
            return Err(QueryError::no_such_id(EntityKind::Team, team_id));
        },
    };
    let league = match snapshot.league(team.league_id) {
        Some(league) => league,
        None => {
            return Err(QueryError::no_such_id(EntityKind::League, team.league_id));
        },
    };
    let now = snapshot.date();
    Ok(build_team_ai_state(team, league, &now))
}

/// Answers the team query: `NotLoaded` while the container is empty;
/// `IndexUnavailable` without a slug index; `NotFound` for a slug that no
/// team has, or where the team or its league is missing; else the state of
/// the team.
pub fn team_ai_state_action<'t>(container: &'t Container, request: &TeamAiStateRequest) -> (answer:
    Result<TeamAiStateResponse<'t>, QueryError>)
    ensures
        answer_view(answer) == spec_team_ai_state_action(container@, request.team_slug@),
        container@ is None ==> answer == Err::<TeamAiStateResponse<'t>, QueryError>(
            QueryError::NotLoaded,
        ),
{
    match container.acquire_read() {
        Ok(snapshot) => team_ai_state(snapshot, request),
        Err(error) => Err(error),
    }
}

} // verus!
