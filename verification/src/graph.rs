//! The entity graph laid flat: the leagues, teams, players and match results
//! of a world in traversal order, and the search for one of them by its id.

use crate::entities::{Continent, Country, League, MatchResult, Player, Team};
use crate::sequences::{
    extend_refs, first_index, flat, lemma_first_index_at, lemma_first_index_none,
    lemma_flat_prefix, lemma_flat_step, targets,
};
use crate::text::text_views;
use vstd::prelude::*;

verus! {

/// The leagues of some countries, country by country.
pub open spec fn country_leagues(countries: Seq<Country>) -> Seq<League> {
    flat(countries, leagues_in_country())
}

/// The leagues of the world: continents in order, then countries, then leagues.
pub open spec fn world_leagues(continents: Seq<Continent>) -> Seq<League> {
    flat(continents, leagues_in_continent())
}

/// The teams of some leagues, league by league.
pub open spec fn league_teams(leagues: Seq<League>) -> Seq<Team> {
    flat(leagues, teams_in_league())
}

/// The players of some teams, team by team.
pub open spec fn team_players(teams: Seq<Team>) -> Seq<Player> {
    flat(teams, players_in_team())
}

/// The match results of some leagues, league by league, each league in
/// storage order.
pub open spec fn league_matches(leagues: Seq<League>) -> Seq<MatchResult> {
    flat(leagues, matches_in_league())
}

/// The teams of the world in traversal order.
pub open spec fn world_teams(continents: Seq<Continent>) -> Seq<Team> {
    league_teams(world_leagues(continents))
}

/// The players of the world in traversal order.
pub open spec fn world_players(continents: Seq<Continent>) -> Seq<Player> {
    team_players(world_teams(continents))
}

/// The match results of the world in traversal order.
pub open spec fn world_matches(continents: Seq<Continent>) -> Seq<MatchResult> {
    league_matches(world_leagues(continents))
}

/// The ids of some leagues.
pub open spec fn league_ids(leagues: Seq<League>) -> Seq<u32> {
    leagues.map_values(|l: League| l.id)
}

/// The ids of some teams.
pub open spec fn team_ids(teams: Seq<Team>) -> Seq<u32> {
    teams.map_values(|t: Team| t.id)
}

/// The ids of some players.
pub open spec fn player_ids(players: Seq<Player>) -> Seq<u32> {
    players.map_values(|p: Player| p.id)
}

/// The slugs of some leagues.
pub open spec fn league_slugs(leagues: Seq<League>) -> Seq<Seq<char>> {
    leagues.map_values(|l: League| l.slug@)
}

/// The slugs of some teams.
pub open spec fn team_slugs(teams: Seq<Team>) -> Seq<Seq<char>> {
    teams.map_values(|t: Team| t.slug@)
}

/// The question whether a league has the id `id`.
pub open spec fn league_with_id(id: u32) -> spec_fn(League) -> bool {
    |l: League| l.id == id
}

/// The question whether a team has the id `id`.
pub open spec fn team_with_id(id: u32) -> spec_fn(Team) -> bool {
    |t: Team| t.id == id
}

/// The question whether a player has the id `id`.
pub open spec fn player_with_id(id: u32) -> spec_fn(Player) -> bool {
    |p: Player| p.id == id
}

/// The question whether a league has the slug `slug`.
pub open spec fn league_with_slug(slug: Seq<char>) -> spec_fn(League) -> bool {
    |l: League| l.slug@ == slug
}

/// The question whether a team has the slug `slug`.
pub open spec fn team_with_slug(slug: Seq<char>) -> spec_fn(Team) -> bool {
    |t: Team| t.slug@ == slug
}

/// What a country adds to the leagues of the world.
pub open spec fn leagues_in_country() -> spec_fn(Country) -> Seq<League> {
    |c: Country| c.leagues@
}

/// What a continent adds to the leagues of the world.
pub open spec fn leagues_in_continent() -> spec_fn(Continent) -> Seq<League> {
    |c: Continent| country_leagues(c.countries@)
}

/// What a league adds to the teams of the world.
pub open spec fn teams_in_league() -> spec_fn(League) -> Seq<Team> {
    |l: League| l.teams@
}

/// What a team adds to the players of the world.
pub open spec fn players_in_team() -> spec_fn(Team) -> Seq<Player> {
    |t: Team| t.players@
}

/// What a league adds to the match results of the world.
pub open spec fn matches_in_league() -> spec_fn(League) -> Seq<MatchResult> {
    |l: League| l.matches@
}

/// The first league with the id `id`.
pub open spec fn find_league(leagues: Seq<League>, id: u32) -> Option<League> {
    match first_index(leagues, league_with_id(id)) {
        Some(i) => Some(leagues[i]),
        None => None,
    }
}

/// The first team with the id `id`.
pub open spec fn find_team(teams: Seq<Team>, id: u32) -> Option<Team> {
    match first_index(teams, team_with_id(id)) {
        Some(i) => Some(teams[i]),
        None => None,
    }
}

/// The first player with the id `id`.
pub open spec fn find_player(players: Seq<Player>, id: u32) -> Option<Player> {
    match first_index(players, player_with_id(id)) {
        Some(i) => Some(players[i]),
        None => None,
    }
}

/// The id of the first team with the slug `slug`.
pub open spec fn team_id_by_slug(teams: Seq<Team>, slug: Seq<char>) -> Option<u32> {
    match first_index(teams, team_with_slug(slug)) {
        Some(i) => Some(teams[i].id),
        None => None,
    }
}

/// The id of the first league with the slug `slug`.
pub open spec fn league_id_by_slug(leagues: Seq<League>, slug: Seq<char>) -> Option<u32> {
    match first_index(leagues, league_with_slug(slug)) {
        Some(i) => Some(leagues[i].id),
        None => None,
    }
}

/// References to the leagues of the world, in traversal order.
pub fn collect_leagues(continents: &Vec<Continent>) -> (leagues: Vec<&League>)
    ensures
        targets(leagues@) == world_leagues(continents@),
{
    let mut out: Vec<&League> = Vec::new();
    assert(targets(out@) =~= Seq::<League>::empty());
    let mut c: usize = 0;
    while c < continents.len()
        invariant
            c <= continents.len(),
            targets(out@) == world_leagues(continents@.take(c as int)),
        decreases continents.len() - c,
    {
        let countries = &continents[c].countries;
        let ghost before = targets(out@);
        let mut k: usize = 0;
        while k < countries.len()
            invariant
                k <= countries.len(),
                targets(out@) == before + country_leagues(countries@.take(k as int)),
            decreases countries.len() - k,
        {
            proof {
                lemma_flat_step(countries@, leagues_in_country(), k as int);
            }
            extend_refs(&mut out, &countries[k].leagues);
            k = k + 1;
        }
        proof {
            assert(countries@.take(k as int) =~= countries@);
            lemma_flat_step(continents@, leagues_in_continent(), c as int);
        }
        c = c + 1;
    }
    assert(continents@.take(c as int) =~= continents@);
    out
}

/// References to the teams of `leagues`, league by league.
pub fn collect_teams<'a>(leagues: &Vec<&'a League>) -> (teams: Vec<&'a Team>)
    ensures
        targets(teams@) == league_teams(targets(leagues@)),
{
    let mut out: Vec<&Team> = Vec::new();
    assert(targets(out@) =~= Seq::<Team>::empty());
    let ghost all = targets(leagues@);
    let mut l: usize = 0;
    while l < leagues.len()
        invariant
            l <= leagues.len(),
            all == targets(leagues@),
            targets(out@) == league_teams(all.take(l as int)),
        decreases leagues.len() - l,
    {
        proof {
            lemma_flat_step(all, teams_in_league(), l as int);
        }
        let league: &'a League = leagues[l];
        extend_refs(&mut out, &league.teams);
        l = l + 1;
    }
    assert(all.take(l as int) =~= all);
    out
}

/// References to the players of `teams`, team by team.
pub fn collect_players<'a>(teams: &Vec<&'a Team>) -> (players: Vec<&'a Player>)
    ensures
        targets(players@) == team_players(targets(teams@)),
{
    let mut out: Vec<&Player> = Vec::new();
    assert(targets(out@) =~= Seq::<Player>::empty());
    let ghost all = targets(teams@);
    let mut t: usize = 0;
    while t < teams.len()
        invariant
            t <= teams.len(),
            all == targets(teams@),
            targets(out@) == team_players(all.take(t as int)),
        decreases teams.len() - t,
    {
        proof {
            lemma_flat_step(all, players_in_team(), t as int);
        }
        let team: &'a Team = teams[t];
        extend_refs(&mut out, &team.players);
        t = t + 1;
    }
    assert(all.take(t as int) =~= all);
    out
}

/// The first of `leagues` with the id `id`.
pub fn league_by_id<'a>(leagues: &Vec<&'a League>, id: u32) -> (found: Option<&'a League>)
    ensures
        match find_league(targets(leagues@), id) {
            Some(l) => found == Some(&l),
            None => found is None,
        },
{
    let ghost all = targets(leagues@);
    let ghost pred = league_with_id(id);
    let mut i: usize = 0;
    while i < leagues.len()
        invariant
            i <= leagues.len(),
            all == targets(leagues@),
            pred == league_with_id(id),
            forall|j: int| 0 <= j < i ==> !pred(#[trigger] all[j]),
        decreases leagues.len() - i,
    {
        if leagues[i].id == id {
            proof {
                lemma_first_index_at(all, pred, i as int);
            }
            return Some(leagues[i]);
        }
        i = i + 1;
    }
    proof {
        lemma_first_index_none(all, pred);
    }
    None
}

/// The first of `teams` with the id `id`.
pub fn team_by_id<'a>(teams: &Vec<&'a Team>, id: u32) -> (found: Option<&'a Team>)
    ensures
        match find_team(targets(teams@), id) {
            Some(t) => found == Some(&t),
            None => found is None,
        },
{
    let ghost all = targets(teams@);
    let ghost pred = team_with_id(id);
    let mut i: usize = 0;
    while i < teams.len()
        invariant
            i <= teams.len(),
            all == targets(teams@),
            pred == team_with_id(id),
            forall|j: int| 0 <= j < i ==> !pred(#[trigger] all[j]),
        decreases teams.len() - i,
    {
        if teams[i].id == id {
            proof {
                lemma_first_index_at(all, pred, i as int);
            }
            return Some(teams[i]);
        }
        i = i + 1;
    }
    proof {
        lemma_first_index_none(all, pred);
    }
    None
}

/// The first of `players` with the id `id`.
pub fn player_by_id<'a>(players: &Vec<&'a Player>, id: u32) -> (found: Option<&'a Player>)
    ensures
        match find_player(targets(players@), id) {
            Some(p) => found == Some(&p),
            None => found is None,
        },
{
    let ghost all = targets(players@);
    let ghost pred = player_with_id(id);
    let mut i: usize = 0;
    while i < players.len()
        invariant
            i <= players.len(),
            all == targets(players@),
            pred == player_with_id(id),
            forall|j: int| 0 <= j < i ==> !pred(#[trigger] all[j]),
        decreases players.len() - i,
    {
        if players[i].id == id {
            proof {
                lemma_first_index_at(all, pred, i as int);
            }
            return Some(players[i]);
        }
        i = i + 1;
    }
    proof {
        lemma_first_index_none(all, pred);
    }
    None
}

/// The ids of `leagues`, in order.
pub fn league_id_list(leagues: &Vec<&League>) -> (ids: Vec<u32>)
    ensures
        ids@ == league_ids(targets(leagues@)),
{
    let mut ids: Vec<u32> = Vec::new();
    let mut i: usize = 0;
    while i < leagues.len()
        invariant
            i <= leagues.len(),
            ids@ == league_ids(targets(leagues@)).take(i as int),
        decreases leagues.len() - i,
    {
        ids.push(leagues[i].id);
        i = i + 1;
        assert(ids@ =~= league_ids(targets(leagues@)).take(i as int));
    }
    assert(ids@ =~= league_ids(targets(leagues@)));
    ids
}

/// The ids of `teams`, in order.
pub fn team_id_list(teams: &Vec<&Team>) -> (ids: Vec<u32>)
    ensures
        ids@ == team_ids(targets(teams@)),
{
    let mut ids: Vec<u32> = Vec::new();
    let mut i: usize = 0;
    while i < teams.len()
        invariant
            i <= teams.len(),
            ids@ == team_ids(targets(teams@)).take(i as int),
        decreases teams.len() - i,
    {
        ids.push(teams[i].id);
        i = i + 1;
        assert(ids@ =~= team_ids(targets(teams@)).take(i as int));
    }
    assert(ids@ =~= team_ids(targets(teams@)));
    ids
}

/// The ids of `players`, in order.
pub fn player_id_list(players: &Vec<&Player>) -> (ids: Vec<u32>)
    ensures
        ids@ == player_ids(targets(players@)),
{
    let mut ids: Vec<u32> = Vec::new();
    let mut i: usize = 0;
    while i < players.len()
        invariant
            i <= players.len(),
            ids@ == player_ids(targets(players@)).take(i as int),
        decreases players.len() - i,
    {
        ids.push(players[i].id);
        i = i + 1;
        assert(ids@ =~= player_ids(targets(players@)).take(i as int));
    }
    assert(ids@ =~= player_ids(targets(players@)));
    ids
}

/// The slugs of `leagues`, in order.
pub fn league_slug_list<'a>(leagues: &Vec<&'a League>) -> (slugs: Vec<&'a str>)
    ensures
        text_views(slugs@) == league_slugs(targets(leagues@)),
{
    let mut slugs: Vec<&'a str> = Vec::new();
    let mut i: usize = 0;
    while i < leagues.len()
        invariant
            i <= leagues.len(),
            text_views(slugs@) == league_slugs(targets(leagues@)).take(i as int),
        decreases leagues.len() - i,
    {
        let league: &'a League = leagues[i];
        let ghost before = slugs@;
        slugs.push(league.slug.as_str());
        proof {
            assert(targets(leagues@)[i as int] == *league);
            assert(text_views(before).len() == before.len());
            assert(text_views(slugs@) =~= text_views(before).push(league.slug@));
            assert(league_slugs(targets(leagues@)).take(i + 1) =~= league_slugs(
                targets(leagues@),
            ).take(i as int).push(league.slug@));
        }
        i = i + 1;
    }
    assert(text_views(slugs@) =~= league_slugs(targets(leagues@)));
    slugs
}

/// The slugs of `teams`, in order.
pub fn team_slug_list<'a>(teams: &Vec<&'a Team>) -> (slugs: Vec<&'a str>)
    ensures
        text_views(slugs@) == team_slugs(targets(teams@)),
{
    let mut slugs: Vec<&'a str> = Vec::new();
    let mut i: usize = 0;
    while i < teams.len()
        invariant
            i <= teams.len(),
            text_views(slugs@) == team_slugs(targets(teams@)).take(i as int),
        decreases teams.len() - i,
    {
        let team: &'a Team = teams[i];
        let ghost before = slugs@;
        slugs.push(team.slug.as_str());
        proof {
            assert(targets(teams@)[i as int] == *team);
            assert(text_views(before).len() == before.len());
            assert(text_views(slugs@) =~= text_views(before).push(team.slug@));
            assert(team_slugs(targets(teams@)).take(i + 1) =~= team_slugs(targets(teams@)).take(
                i as int,
            ).push(team.slug@));
        }
        i = i + 1;
    }
    assert(text_views(slugs@) =~= team_slugs(targets(teams@)));
    slugs
}

/// The number of match results of `leagues`, unless it cannot be counted.
pub fn count_matches(leagues: &Vec<&League>) -> (count: Option<usize>)
    ensures
        match count {
            Some(n) => n == league_matches(targets(leagues@)).len(),
            None => league_matches(targets(leagues@)).len() > usize::MAX,
        },
{
    let ghost all = targets(leagues@);
    let mut total: usize = 0;
    let mut l: usize = 0;
    while l < leagues.len()
        invariant
            l <= leagues.len(),
            all == targets(leagues@),
            total == league_matches(all.take(l as int)).len(),
        decreases leagues.len() - l,
    {
        proof {
            lemma_flat_step(all, matches_in_league(), l as int);
        }
        let n: usize = leagues[l].matches.len();
        if n > usize::MAX - total {
            proof {
                lemma_flat_prefix(all, matches_in_league(), l + 1);
            }
            return None;
        }
        total = total + n;
        l = l + 1;
    }
    assert(all.take(l as int) =~= all);
    Some(total)
}

} // verus!
