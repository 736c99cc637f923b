//! The state of one player: mood, form, contract, concerns and personality.

use crate::container::Container;
use crate::date::{age_in_years, days_between, Date};
use crate::entities::{Player, PlayerClubContract};
use crate::error::{answer_view, id_not_found, EntityKind, QueryError, QueryErrorView};
use crate::snapshot::Snapshot;
use crate::stats::{
    calculate_happiness_score, concern_tags, get_conditions, get_player_concerns, happiness_score,
    is_expiring_soon, personality_points, player_age, squad_status_to_str,
    spec_squad_status_to_str, unit_scale,
};
use crate::text::{decimal_value, full_name_text, join_names, parse_decimal};
use vstd::prelude::*;

verus! {

/// The question for the state of a player.
#[derive(Debug, Clone, Copy, PartialEq, Eq, Structural)]
pub struct PlayerStateRequest {
    pub player_id: u32,
}

/// What reading the id of a player from the text of a request gives: the
/// question for the player that the digits name, or `MalformedInput` where
/// the text is not a number of up to 32 bits in decimal digits.
pub open spec fn spec_parse_request(text: Seq<char>) -> Result<PlayerStateRequest, QueryErrorView> {
    match decimal_value(text) {
        Some(player_id) => Ok(PlayerStateRequest { player_id }),
        None => Err(QueryErrorView::MalformedInput { input: text }),
    }
}

impl PlayerStateRequest {
    /// Reads the id of a player from the text of a request. A text that is
    /// not a number is refused here, before any snapshot is looked at.
    pub fn parse(text: &str) -> (request: Result<PlayerStateRequest, QueryError>)
        ensures
            match request {
                Ok(r) => spec_parse_request(text@) == Ok::<PlayerStateRequest, QueryErrorView>(r),
                Err(e) => spec_parse_request(text@) == Err::<PlayerStateRequest, QueryErrorView>(
                    e@,
                ),
            },
    {
        match parse_decimal(text) {
            Some(player_id) => Ok(PlayerStateRequest { player_id }),
            None => Err(QueryError::malformed(text)),
        }
    }
}

/// The mood of a player.
#[derive(Debug, Clone, Copy, PartialEq, Eq)]
pub struct MoodDto {
    /// The happiness score, 0 to 100.
    pub happiness: u8,
    /// Whether the player is happy on the whole.
    pub is_happy: bool,
    /// The behaviour: `Poor`, `Normal` or `Good`.
    pub behaviour: &'static str,
}

/// The form of a player.
#[derive(Debug, Clone, Copy, PartialEq, Eq, Structural)]
pub struct FormDto {
    /// The physical condition, 0 to 100.
    pub condition: u8,
    /// The average match rating, in millionths of a rating point.
    pub average_rating: u32,
    /// The goals of the season.
    pub goals: u16,
    /// The assists of the season.
    pub assists: u16,
    /// The matches of the season.
    pub matches_played: u16,
    /// Whether the player can play the next match.
    pub is_match_ready: bool,
}

/// The contract of a player in short.
#[derive(Debug, Clone, Copy, PartialEq, Eq)]
pub struct ContractStateDto {
    /// The salary in thousands.
    pub salary_k: u32,
    /// The days until the contract ends, negative once it has ended.
    pub days_to_expiration: i64,
    /// Whether the contract ends in fewer than 180 days.
    pub is_expiring_soon: bool,
    /// The label of the squad status.
    pub squad_status: &'static str,
    /// Whether the player is on the transfer list.
    pub is_transfer_listed: bool,
}

/// The personality of a player, each trait on the scale from 0 to 20.
#[derive(Debug, Clone, Copy, PartialEq, Eq, Structural)]
pub struct PersonalityDto {
    pub ambition: u8,
    pub loyalty: u8,
    pub professionalism: u8,
    pub temperament: u8,
}

/// The state of a player.
#[derive(Debug, Clone, PartialEq, Eq)]
pub struct PlayerStateResponse {
    pub id: u32,
    pub name: String,
    pub position: &'static str,
    pub age: u8,
    pub mood: MoodDto,
    pub form: FormDto,
    pub contract: Option<ContractStateDto>,
    pub concerns: Vec<&'static str>,
    pub personality: PersonalityDto,
}

/// The state of a player with its texts as sequences of characters.
pub struct PlayerStateView {
    pub id: u32,
    pub name: Seq<char>,
    pub position: &'static str,
    pub age: u8,
    pub mood: MoodDto,
    pub form: FormDto,
    pub contract: Option<ContractStateDto>,
    pub concerns: Seq<&'static str>,
    pub personality: PersonalityDto,
}

impl View for PlayerStateResponse {
    type V = PlayerStateView;

    open spec fn view(&self) -> PlayerStateView {
        PlayerStateView {
            id: self.id,
            name: self.name@,
            position: self.position,
            age: self.age,
            mood: self.mood,
            form: self.form,
            contract: self.contract,
            concerns: self.concerns@,
            personality: self.personality,
        }
    }
}

/// The mood of `player`.
pub open spec fn mood_of(player: Player) -> MoodDto {
    MoodDto {
        happiness: happiness_score(player.behaviour, player.is_happy) as u8,
        is_happy: player.is_happy,
        behaviour: player.behaviour.as_str(),
    }
}

/// The form of `player`.
pub open spec fn form_of(player: Player) -> FormDto {
    FormDto {
        condition: unit_scale(player.player_attributes.condition as int, 100) as u8,
        average_rating: player.statistics.average_rating,
        goals: player.statistics.goals,
        assists: player.statistics.assists,
        matches_played: player.statistics.played,
        is_match_ready: player.player_attributes.is_ready_for_match,
    }
}

/// A contract that ends in `days` days, in short.
pub open spec fn contract_state(contract: PlayerClubContract, days: i64) -> ContractStateDto {
    ContractStateDto {
        salary_k: contract.salary / 1000,
        days_to_expiration: days,
        is_expiring_soon: days < 180,
        squad_status: spec_squad_status_to_str(&contract.squad_status),
        is_transfer_listed: contract.is_transfer_listed,
    }
}

/// The contract of `player` on the day `now`, if the player has one.
pub open spec fn contract_of(player: Player, now: Date) -> Option<ContractStateDto> {
    match player.contract {
        Some(contract) => Some(
            contract_state(contract, days_between(now, contract.expiration) as i64),
        ),
        None => None,
    }
}

/// The personality of `player`.
pub open spec fn personality_of(player: Player) -> PersonalityDto {
    PersonalityDto {
        ambition: unit_scale(player.attributes.ambition as int, 20) as u8,
        loyalty: unit_scale(player.attributes.loyalty as int, 20) as u8,
        professionalism: unit_scale(player.attributes.professionalism as int, 20) as u8,
        temperament: unit_scale(player.attributes.temperament as int, 20) as u8,
    }
}

/// The state of `player` on the day `now`.
pub open spec fn player_state_view(player: Player, now: Date) -> PlayerStateView {
    PlayerStateView {
        id: player.id,
        name: full_name_text(player.full_name.first_name@, player.full_name.last_name@),
        position: player.position.get_short_name(),
        age: age_in_years(player.birth_date, now) as u8,
        mood: mood_of(player),
        form: form_of(player),
        contract: contract_of(player, now),
        concerns: concern_tags(player.statuses@),
        personality: personality_of(player),
    }
}

/// What the state query answers on a snapshot: the state of the player with
/// the id, or `NotFound` where no player has it.
pub open spec fn spec_player_state(snapshot: Snapshot, player_id: u32) -> Result<
    PlayerStateView,
    QueryErrorView,
> {
    match snapshot.spec_player(player_id) {
        Some(player) => Ok(player_state_view(player, snapshot.date())),
        None => Err(id_not_found(EntityKind::Player, player_id)),
    }
}

/// What the state query answers on a container: `NotLoaded` while it is empty,
/// else the answer on its snapshot.
pub open spec fn spec_player_state_action(slot: Option<Snapshot>, player_id: u32) -> Result<
    PlayerStateView,
    QueryErrorView,
> {
    match slot {
        Some(snapshot) => spec_player_state(snapshot, player_id),
        None => Err(QueryErrorView::NotLoaded),
    }
}

/// The mood of `player`.
pub fn player_mood(player: &Player) -> (mood: MoodDto)
    ensures
        mood == mood_of(*player),
        mood.happiness <= 100,
{
    MoodDto {
        happiness: calculate_happiness_score(player),
        is_happy: player.is_happy,
        behaviour: player.behaviour.as_str(),
    }
}

/// The form of `player`.
pub fn player_form(player: &Player) -> (form: FormDto)
    ensures
        form == form_of(*player),
{
    FormDto {
        condition: get_conditions(player),
        average_rating: player.statistics.average_rating,
        goals: player.statistics.goals,
        assists: player.statistics.assists,
        matches_played: player.statistics.played,
        is_match_ready: player.player_attributes.is_ready_for_match,
    }
}

/// A contract that ends in `days` days, in short. The contract is expiring
/// soon exactly when `days` is less than 180.
pub fn contract_summary(contract: &PlayerClubContract, days: i64) -> (state: ContractStateDto)
    ensures
        state == contract_state(*contract, days),
        state.is_expiring_soon <==> state.days_to_expiration < 180,
{
    ContractStateDto {
        salary_k: contract.salary / 1000,
        days_to_expiration: days,
        is_expiring_soon: is_expiring_soon(days),
        squad_status: squad_status_to_str(&contract.squad_status),
        is_transfer_listed: contract.is_transfer_listed,
    }
}

/// The contract of `player` on the day `now`, if the player has one.
pub fn player_contract(player: &Player, now: &Date) -> (state: Option<ContractStateDto>)
    ensures
        state == contract_of(*player, *now),
        state matches Some(c) ==> (c.is_expiring_soon <==> c.days_to_expiration < 180),
{
    match &player.contract {
        Some(contract) => {
            let days: i64 = now.days_until(&contract.expiration);
            Some(contract_summary(contract, days))
        },
        None => None,
    }
}

/// The personality of `player`.
pub fn player_personality(player: &Player) -> (personality: PersonalityDto)
    ensures
        personality == personality_of(*player),
{
    PersonalityDto {
        ambition: personality_points(player.attributes.ambition),
        loyalty: personality_points(player.attributes.loyalty),
        professionalism: personality_points(player.attributes.professionalism),
        temperament: personality_points(player.attributes.temperament),
    }
}

/// The state of `player` on the day `now`.
pub fn build_player_state(player: &Player, now: &Date) -> (state: PlayerStateResponse)
    ensures
        state@ == player_state_view(*player, *now),
{
    PlayerStateResponse {
        id: player.id,
        name: join_names(player.full_name.first_name.as_str(), player.full_name.last_name.as_str()),
        position: player.position.get_short_name(),
        age: player_age(player, now),
        mood: player_mood(player),
        form: player_form(player),
        contract: player_contract(player, now),
        concerns: get_player_concerns(player),
        personality: player_personality(player),
    }
}

/// Answers the state query on a snapshot.
pub fn player_state(snapshot: &Snapshot, request: &PlayerStateRequest) -> (answer: Result<
    PlayerStateResponse,
    QueryError,
>)
    ensures
        answer_view(answer) == spec_player_state(*snapshot, request.player_id),
{
    match snapshot.player(request.player_id) {
        Some(player) => {
            let now = snapshot.date();
            Ok(build_player_state(player, &now))
        },
        None => Err(QueryError::no_such_id(EntityKind::Player, request.player_id)),
    }
}

/// Answers the state query: `NotLoaded` while the container is empty, else
/// the state of the player, or `NotFound` where no player has the id.
pub fn player_state_action(container: &Container, request: &PlayerStateRequest) -> (answer: Result<
    PlayerStateResponse,
    QueryError,
>)
    ensures
        answer_view(answer) == spec_player_state_action(container@, request.player_id),
        container@ is None ==> answer == Err::<PlayerStateResponse, QueryError>(
            QueryError::NotLoaded,
        ),
{
    match container.acquire_read() {
        Ok(snapshot) => player_state(snapshot, request),
        Err(error) => Err(error),
    }
}

/// The same query against the same snapshot has the same answer: two answers
/// that the query may give agree in every field and every character.
pub proof fn lemma_player_state_repeatable(
    slot: Option<Snapshot>,
    player_id: u32,
    first: Result<PlayerStateResponse, QueryError>,
    second: Result<PlayerStateResponse, QueryError>,
)
    requires
        answer_view(first) == spec_player_state_action(slot, player_id),
        answer_view(second) == spec_player_state_action(slot, player_id),
    ensures
        answer_view(first) == answer_view(second),
{
}

} // verus!
