//! Recent events: the results of matches with their goals, in traversal
//! order, for one team or for all, and no more of them than the query allows.

use crate::container::Container;
use crate::date::date_text;
use crate::entities::{GoalDetail, MatchResult, Player, Team};
use crate::error::{answer_view, QueryError, QueryErrorView};
use crate::sequences::{lemma_first_index_at, lemma_first_index_none, targets};
use crate::graph::{find_player, find_team, player_by_id, player_with_id, team_by_id};
use crate::snapshot::Snapshot;
use crate::text::{full_name_text, join_names};
use crate::traversal::{collect_matches, selected_matches};
use vstd::prelude::*;

verus! {

/// The number of events that a query asks for where it names no limit.
pub const DEFAULT_EVENT_LIMIT: usize = 50;

/// The question for recent events.
#[derive(Debug, Clone, PartialEq, Eq)]
pub struct RecentEventsQuery {
    /// The greatest number of events to return; 50 where none is given.
    pub limit: Option<usize>,
    /// The slug of the team whose matches are asked for; all matches where
    /// none is given.
    pub team_slug: Option<String>,
}

/// A team as an event names it.
#[derive(Debug, Clone, PartialEq, Eq)]
pub struct TeamInfo {
    pub id: u32,
    pub name: String,
    pub slug: String,
}

/// The score of a match.
#[derive(Debug, Clone, Copy, PartialEq, Eq, Structural)]
pub struct ScoreDto {
    pub home: u8,
    pub away: u8,
}

/// One goal of a match.
#[derive(Debug, Clone, PartialEq, Eq)]
pub struct GoalEventDto {
    /// The id of the player who scored.
    pub player_id: u32,
    /// The name of the player, where the player is known.
    pub player_name: Option<String>,
    /// The minute of the goal.
    pub minute: u16,
    /// Whether it was an own goal.
    pub is_own_goal: bool,
    /// The side that the goal counts for: `home`, `away` or `unknown`.
    pub scoring_team: String,
}

/// The result of a match as an event.
#[derive(Debug, Clone, PartialEq, Eq)]
pub struct GameEventDto {
    /// The kind of event: `match_result`.
    pub event_type: String,
    pub match_id: String,
    pub league_slug: String,
    pub home_team: TeamInfo,
    pub away_team: TeamInfo,
    pub score: ScoreDto,
    /// The goals in the order in which they fell.
    pub goals: Vec<GoalEventDto>,
}

/// The answer to the question for recent events.
#[derive(Debug, Clone, PartialEq, Eq)]
pub struct RecentEventsResponse {
    /// The day of the snapshot as `YYYY-MM-DD`.
    pub game_date: String,
    pub events: Vec<GameEventDto>,
    /// The number of match results in the snapshot.
    pub total_matches: usize,
}

/// A team as an event names it, with its texts as sequences of characters.
pub struct TeamInfoView {
    pub id: u32,
    pub name: Seq<char>,
    pub slug: Seq<char>,
}

/// A goal with its texts as sequences of characters.
pub struct GoalEventView {
    pub player_id: u32,
    pub player_name: Option<Seq<char>>,
    pub minute: u16,
    pub is_own_goal: bool,
    pub scoring_team: Seq<char>,
}

/// An event with its texts as sequences of characters.
pub struct GameEventView {
    pub event_type: Seq<char>,
    pub match_id: Seq<char>,
    pub league_slug: Seq<char>,
    pub home_team: TeamInfoView,
    pub away_team: TeamInfoView,
    pub score: ScoreDto,
    pub goals: Seq<GoalEventView>,
}

/// The answer with its texts as sequences of characters.
pub struct RecentEventsView {
    pub game_date: Seq<char>,
    pub events: Seq<GameEventView>,
    pub total_matches: usize,
}

impl View for TeamInfo {
    type V = TeamInfoView;

    open spec fn view(&self) -> TeamInfoView {
        TeamInfoView { id: self.id, name: self.name@, slug: self.slug@ }
    }
}

impl View for GoalEventDto {
    type V = GoalEventView;

    open spec fn view(&self) -> GoalEventView {
        GoalEventView {
            player_id: self.player_id,
            player_name: match self.player_name {
                Some(name) => Some(name@),
                None => None,
            },
            minute: self.minute,
            is_own_goal: self.is_own_goal,
            scoring_team: self.scoring_team@,
        }
    }
}

/// The views of some goals.
pub open spec fn goal_views(goals: Seq<GoalEventDto>) -> Seq<GoalEventView> {
    goals.map_values(|g: GoalEventDto| g@)
}

impl View for GameEventDto {
    type V = GameEventView;

    open spec fn view(&self) -> GameEventView {
        GameEventView {
            event_type: self.event_type@,
            match_id: self.match_id@,
            league_slug: self.league_slug@,
            home_team: self.home_team@,
            away_team: self.away_team@,
            score: self.score,
            goals: goal_views(self.goals@),
        }
    }
}

/// The views of some events.
pub open spec fn event_views(events: Seq<GameEventDto>) -> Seq<GameEventView> {
    events.map_values(|e: GameEventDto| e@)
}

impl View for RecentEventsResponse {
    type V = RecentEventsView;

    open spec fn view(&self) -> RecentEventsView {
        RecentEventsView {
            game_date: self.game_date@,
            events: event_views(self.events@),
            total_matches: self.total_matches,
        }
    }
}

/// How an event names the team with the id `id`: by its own id, name and
/// slug where it is known, and as `Unknown` where it is not.
pub open spec fn team_info_view(team: Option<Team>, id: u32) -> TeamInfoView {
    match team {
        Some(t) => TeamInfoView { id: t.id, name: t.name@, slug: t.slug@ },
        None => TeamInfoView { id, name: "Unknown"@, slug: "unknown"@ },
    }
}

/// The side that a goal counts for. A goal of a player of the home team
/// counts for the home side, and for the away side where it is an own goal;
/// a goal of any other player the other way round. Where the scorer or the
/// home team is not known, the side is not known either.
pub open spec fn scoring_side(scorer: Option<Player>, home: Option<Team>, own_goal: bool)
    -> &'static str {
    match (scorer, home) {
        (Some(player), Some(team)) => if (find_player(team.players@, player.id) is Some)
            == own_goal {
            "away"
        } else {
            "home"
        },
        _ => "unknown",
    }
}

/// The minute of a goal: its time as far as sixteen bits hold it.
pub open spec fn goal_minute(time: u64) -> u16 {
    (time % 0x1_0000) as u16
}

/// A goal as an event reports it.
pub open spec fn goal_event_view(goal: GoalDetail, home: Option<Team>, players: Seq<Player>)
    -> GoalEventView {
    let scorer = find_player(players, goal.player_id);
    GoalEventView {
        player_id: goal.player_id,
        player_name: match scorer {
            Some(p) => Some(full_name_text(p.full_name.first_name@, p.full_name.last_name@)),
            None => None,
        },
        minute: goal_minute(goal.time),
        is_own_goal: goal.is_auto_goal,
        scoring_team: scoring_side(scorer, home, goal.is_auto_goal)@,
    }
}

/// The report of a goal of a match with the home team `home`.
pub open spec fn goal_reporter(home: Option<Team>, players: Seq<Player>) -> spec_fn(
    GoalDetail,
) -> GoalEventView {
    |goal: GoalDetail| goal_event_view(goal, home, players)
}

/// The result of a match as an event, among the given teams and players.
pub open spec fn match_event_view(m: MatchResult, teams: Seq<Team>, players: Seq<Player>)
    -> GameEventView {
    let home = find_team(teams, m.home_team_id);
    let away = find_team(teams, m.away_team_id);
    GameEventView {
        event_type: "match_result"@,
        match_id: m.id@,
        league_slug: m.league_slug@,
        home_team: team_info_view(home, m.home_team_id),
        away_team: team_info_view(away, m.away_team_id),
        score: ScoreDto { home: m.score.home_team.score, away: m.score.away_team.score },
        goals: m.score.details@.map_values(goal_reporter(home, players)),
    }
}

/// The report of a match among the given teams and players.
pub open spec fn match_reporter(teams: Seq<Team>, players: Seq<Player>) -> spec_fn(
    MatchResult,
) -> GameEventView {
    |m: MatchResult| match_event_view(m, teams, players)
}

/// The limit of a query: the one it names, or 50.
pub open spec fn limit_of(limit: Option<usize>) -> usize {
    match limit {
        Some(n) => n,
        None => DEFAULT_EVENT_LIMIT,
    }
}

/// The slug of a query as a sequence of characters.
pub open spec fn slug_of(team_slug: Option<String>) -> Option<Seq<char>> {
    match team_slug {
        Some(slug) => Some(slug@),
        None => None,
    }
}

/// The team filter of a query: none where the query names no team, else the
/// id that the slug resolves to, or the reason why it does not resolve.
pub open spec fn spec_team_filter(snapshot: Snapshot, team_slug: Option<Seq<char>>) -> Result<
    Option<u32>,
    QueryErrorView,
> {
    match team_slug {
        None => Ok(None),
        Some(slug) => match snapshot.spec_resolve_team(slug) {
            Ok(id) => Ok(Some(id)),
            Err(e) => Err(e),
        },
    }
}

/// The events of a snapshot for a team filter and a limit.
pub open spec fn recent_events_view(snapshot: Snapshot, team_filter: Option<u32>, limit: usize)
    -> RecentEventsView {
    RecentEventsView {
        game_date: date_text(snapshot.date()),
        events: selected_matches(snapshot.all_matches(), team_filter, limit as int).map_values(
            match_reporter(snapshot.all_teams(), snapshot.all_players()),
        ),
        total_matches: snapshot.all_matches().len() as usize,
    }
}

/// What the query for recent events answers on a snapshot.
pub open spec fn spec_recent_events(
    snapshot: Snapshot,
    limit: Option<usize>,
    team_slug: Option<Seq<char>>,
) -> Result<RecentEventsView, QueryErrorView> {
    match spec_team_filter(snapshot, team_slug) {
        Ok(team_filter) => Ok(recent_events_view(snapshot, team_filter, limit_of(limit))),
        Err(e) => Err(e),
    }
}

/// What the query for recent events answers on a container: `NotLoaded` while
/// it is empty, else the answer on its snapshot.
pub open spec fn spec_events_recent_action(
    slot: Option<Snapshot>,
    limit: Option<usize>,
    team_slug: Option<Seq<char>>,
) -> Result<RecentEventsView, QueryErrorView> {
    match slot {
        Some(snapshot) => spec_recent_events(snapshot, limit, team_slug),
        None => Err(QueryErrorView::NotLoaded),
    }
}

/// How an event names the team with the id `id`.
pub fn team_info(team: Option<&Team>, id: u32) -> (info: TeamInfo)
    ensures
        info@ == team_info_view(
            match team {
                Some(t) => Some(*t),
                None => None,
            },
            id,
        ),
{
    match team {
        Some(t) => TeamInfo { id: t.id, name: t.name.clone(), slug: t.slug.clone() },
        None => TeamInfo { id, name: "Unknown".to_owned(), slug: "unknown".to_owned() },
    }
}

/// Whether a player with the id `player_id` is on the roster of `team`.
pub fn roster_contains(team: &Team, player_id: u32) -> (found: bool)
    ensures
        found == (find_player(team.players@, player_id) is Some),
{
    let ghost pred = player_with_id(player_id);
    let mut i: usize = 0;
    while i < team.players.len()
        invariant
            i <= team.players.len(),
            pred == player_with_id(player_id),
            forall|j: int| 0 <= j < i ==> !pred(#[trigger] team.players@[j]),
        decreases team.players.len() - i,
    {
        if team.players[i].id == player_id {
            proof {
                lemma_first_index_at(team.players@, pred, i as int);
            }
            return true;
        }
        i = i + 1;
    }
    proof {
        lemma_first_index_none(team.players@, pred);
    }
    false
}

/// The side that a goal counts for.
pub fn scoring_team(scorer: Option<&Player>, home: Option<&Team>, own_goal: bool) -> (side:
    &'static str)
    ensures
        side == scoring_side(
            match scorer {
                Some(p) => Some(*p),
                None => None,
            },
            match home {
                Some(t) => Some(*t),
                None => None,
            },
            own_goal,
        ),
{
    match scorer {
        Some(player) => match home {
            Some(team) => {
                if roster_contains(team, player.id) {
                    if own_goal {
                        "away"
                    } else {
                        "home"
                    }
                } else {
                    if own_goal {
                        "home"
                    } else {
                        "away"
                    }
                }
            },
            None => "unknown",
        },
        None => "unknown",
    }
}

/// The minute of a goal.
pub fn minute_of(time: u64) -> (minute: u16)
    ensures
        minute == goal_minute(time),
{
    (time % 0x1_0000) as u16
}

/// A goal as an event reports it.
pub fn build_goal_event(goal: &GoalDetail, home: Option<&Team>, players: &Vec<&Player>) -> (event:
    GoalEventDto)
    ensures
        event@ == goal_event_view(
            *goal,
            match home {
                Some(t) => Some(*t),
                None => None,
            },
            targets(players@),
        ),
{
    let scorer = player_by_id(players, goal.player_id);
    let player_name: Option<String> = match scorer {
        Some(p) => Some(join_names(p.full_name.first_name.as_str(), p.full_name.last_name.as_str())),
        None => None,
    };
    GoalEventDto {
        player_id: goal.player_id,
        player_name,
        minute: minute_of(goal.time),
        is_own_goal: goal.is_auto_goal,
        scoring_team: scoring_team(scorer, home, goal.is_auto_goal).to_owned(),
    }
}

/// The result of a match as an event, among the given teams and players.
pub fn build_event_from(match_result: &MatchResult, teams: &Vec<&Team>, players: &Vec<&Player>)
    -> (event: GameEventDto)
    ensures
        event@ == match_event_view(*match_result, targets(teams@), targets(players@)),
{
    let home = team_by_id(teams, match_result.home_team_id);
    let away = team_by_id(teams, match_result.away_team_id);
    let ghost home_team: Option<Team> = find_team(targets(teams@), match_result.home_team_id);
    let ghost report = goal_reporter(home_team, targets(players@));
    let details = &match_result.score.details;
    let mut goals: Vec<GoalEventDto> = Vec::new();
    let mut i: usize = 0;
    while i < details.len()
        invariant
            i <= details.len(),
            report == goal_reporter(home_team, targets(players@)),
            home_team == match home {
                Some(t) => Some(*t),
                None => None,
            },
            goals@.len() == i,
            forall|k: int| 0 <= k < i ==> (#[trigger] goals@[k])@ == report(details@[k]),
        decreases details.len() - i,
    {
        goals.push(build_goal_event(&details[i], home, players));
        i = i + 1;
    }
    assert(goal_views(goals@) =~= details@.map_values(report));
    GameEventDto {
        event_type: "match_result".to_owned(),
        match_id: match_result.id.clone(),
        league_slug: match_result.league_slug.clone(),
        home_team: team_info(home, match_result.home_team_id),
        away_team: team_info(away, match_result.away_team_id),
        score: ScoreDto {
            home: match_result.score.home_team.get(),
            away: match_result.score.away_team.get(),
        },
        goals,
    }
}

/// The result of a match as an event: the two teams as the snapshot knows
/// them, the score, and the goals with the side that each counts for.
pub fn build_match_event(match_result: &MatchResult, snapshot: &Snapshot) -> (event: GameEventDto)
    ensures
        event@ == match_event_view(*match_result, snapshot.all_teams(), snapshot.all_players()),
{
    let teams = snapshot.teams();
    let players = snapshot.players();
    build_event_from(match_result, &teams, &players)
}

/// The team filter of a query.
pub fn team_filter(snapshot: &Snapshot, team_slug: &Option<String>) -> (filter: Result<
    Option<u32>,
    QueryError,
>)
    ensures
        match filter {
            Ok(f) => spec_team_filter(*snapshot, slug_of(*team_slug)) == Ok::<
                Option<u32>,
                QueryErrorView,
            >(f),
            Err(e) => spec_team_filter(*snapshot, slug_of(*team_slug)) == Err::<
                Option<u32>,
                QueryErrorView,
            >(e@),
        },
{
    match team_slug {
        None => Ok(None),
        Some(slug) => match snapshot.resolve_team(slug.as_str()) {
            Ok(id) => Ok(Some(id)),
            Err(e) => Err(e),
        },
    }
}

/// The events of a snapshot for a team filter and a limit: the day of the
/// snapshot, the matches that the walk collects, each as an event, and the
/// number of all match results.
pub fn assemble_events(snapshot: &Snapshot, team_filter: Option<u32>, limit: usize) -> (response:
    RecentEventsResponse)
    ensures
        response@ == recent_events_view(*snapshot, team_filter, limit),
        response.events@.len() <= limit,
        response.total_matches == snapshot.all_matches().len(),
{
    let (selected, total_matches) = collect_matches(snapshot, team_filter, limit);
    let teams = snapshot.teams();
    let players = snapshot.players();
    let ghost report = match_reporter(targets(teams@), targets(players@));
    let mut events: Vec<GameEventDto> = Vec::new();
    let mut i: usize = 0;
    while i < selected.len()
        invariant
            i <= selected.len(),
            report == match_reporter(targets(teams@), targets(players@)),
            events@.len() == i,
            forall|k: int| 0 <= k < i ==> (#[trigger] events@[k])@ == report(targets(selected@)[k]),
        decreases selected.len() - i,
    {
        events.push(build_event_from(selected[i], &teams, &players));
        i = i + 1;
    }
    assert(event_views(events@) =~= targets(selected@).map_values(report));
    let today = snapshot.date();
    RecentEventsResponse { game_date: today.to_iso_text(), events, total_matches }
}

/// Answers the query for recent events on a snapshot: resolves the team, if
/// the query names one, then walks the match results.
pub fn recent_events(snapshot: &Snapshot, params: &RecentEventsQuery) -> (answer: Result<
    RecentEventsResponse,
    QueryError,
>)
    ensures
        answer_view(answer) == spec_recent_events(
            *snapshot,
            params.limit,
            slug_of(params.team_slug),
        ),
        answer matches Ok(response) ==> {
            &&& response.total_matches == snapshot.all_matches().len()
            &&& response.events@.len() <= limit_of(params.limit)
        },
{
    let limit: usize = match params.limit {
        Some(n) => n,
        None => DEFAULT_EVENT_LIMIT,
    };
    match team_filter(snapshot, &params.team_slug) {
        Ok(filter) => Ok(assemble_events(snapshot, filter, limit)),
        Err(e) => Err(e),
    }
}

/// Answers the query for recent events: `NotLoaded` while the container is
/// empty; `IndexUnavailable` or `NotFound` where the query names a team and
/// its slug cannot be resolved; else the events and the number of all match
/// results, which depends on neither the limit nor the team.
pub fn events_recent_action(container: &Container, params: &RecentEventsQuery) -> (answer: Result<
    RecentEventsResponse,
    QueryError,
>)
    ensures
        answer_view(answer) == spec_events_recent_action(
            container@,
            params.limit,
            slug_of(params.team_slug),
        ),
        container@ is None ==> answer == Err::<RecentEventsResponse, QueryError>(
            QueryError::NotLoaded,
        ),
        answer matches Ok(response) ==> {
            &&& container@ matches Some(snapshot)
            &&& response.total_matches == snapshot.all_matches().len()
            &&& response.events@.len() <= limit_of(params.limit)
        },
{
    match container.acquire_read() {
        Ok(snapshot) => recent_events(snapshot, params),
        Err(error) => Err(error),
    }
}

/// The number of match results that an answer reports is that of the whole
/// snapshot: it depends on neither the limit nor the team of the query, so
/// two queries that both have an answer report the same number.
pub proof fn lemma_total_is_independent_of_query(
    snapshot: Snapshot,
    limit: Option<usize>,
    team_slug: Option<Seq<char>>,
    other_limit: Option<usize>,
    other_team_slug: Option<Seq<char>>,
)
    requires
        snapshot.wf(),
    ensures
        spec_recent_events(snapshot, limit, team_slug) matches Ok(answer) ==> answer.total_matches
            == snapshot.all_matches().len(),
        spec_recent_events(snapshot, limit, team_slug) matches Ok(answer) ==> (spec_recent_events(
            snapshot,
            other_limit,
            other_team_slug,
        ) matches Ok(other) ==> answer.total_matches == other.total_matches),
{
}

/// An answer holds no more events than the limit allows; with a limit of 0
/// it holds none.
pub proof fn lemma_limit_bounds_events(
    snapshot: Snapshot,
    limit: Option<usize>,
    team_slug: Option<Seq<char>>,
)
    ensures
        spec_recent_events(snapshot, limit, team_slug) matches Ok(answer) ==> answer.events.len()
            <= limit_of(limit),
        limit == Some(0usize) ==> (spec_recent_events(snapshot, limit, team_slug) matches Ok(
            answer,
        ) ==> answer.events.len() == 0),
{
}

} // verus!
