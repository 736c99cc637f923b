//! A snapshot of the world at one instant: what makes a world consistent,
//! the lookups by id, and the resolution of slugs.

use crate::date::Date;
use crate::entities::{Continent, League, MatchResult, Player, Team};
use crate::error::{slug_not_found, EntityKind, QueryError, QueryErrorView};
use crate::graph::{
    collect_leagues, collect_players, collect_teams, count_matches, find_league, find_player,
    find_team, league_by_id, league_id_by_slug, league_id_list, league_ids, league_matches,
    league_slug_list, league_slugs, league_with_id, league_with_slug, matches_in_league,
    player_by_id, player_id_list, player_ids, team_by_id, team_id_by_slug, team_id_list,
    team_ids, team_slug_list, team_slugs, team_with_id, team_with_slug, world_leagues,
    world_matches, world_players, world_teams,
};
use crate::sequences::{
    all_distinct, first_index, id_set, lemma_first_index, lemma_flat_prefix, lemma_flat_step,
    targets,
};
use crate::slug_index::{
    lemma_index_answers_for_leagues, lemma_index_answers_for_teams, SlugIndexes,
};
use crate::text::texts_distinct;
use std::collections::HashSet;
use vstd::prelude::*;

verus! {

/// Why a world cannot become a snapshot.
#[derive(Debug, Clone, Copy, PartialEq, Eq, Structural)]
pub enum SnapshotError {
    /// Two leagues share an id.
    DuplicateLeagueId,
    /// Two teams share an id.
    DuplicateTeamId,
    /// Two players share an id.
    DuplicatePlayerId,
    /// Two leagues share a slug.
    DuplicateLeagueSlug,
    /// Two teams share a slug.
    DuplicateTeamSlug,
    /// There are more match results than can be counted.
    TooManyMatches,
    /// A match has the same team on both sides, or a team that the world
    /// does not have.
    UnknownMatchSide,
}

/// The two sides of a match are different teams, and both are among `ids`.
pub open spec fn sides_known(ids: Seq<u32>, m: MatchResult) -> bool {
    &&& m.home_team_id != m.away_team_id
    &&& ids.contains(m.home_team_id)
    &&& ids.contains(m.away_team_id)
}

/// Every one of `matches` is between two different teams among `ids`.
pub open spec fn all_sides_known(ids: Seq<u32>, matches: Seq<MatchResult>) -> bool {
    forall|i: int| 0 <= i < matches.len() ==> sides_known(ids, #[trigger] matches[i])
}

/// The first reason, if any, for which a world cannot become a snapshot.
pub open spec fn fault_of(continents: Seq<Continent>) -> Option<SnapshotError> {
    if !league_ids(world_leagues(continents)).no_duplicates() {
        Some(SnapshotError::DuplicateLeagueId)
    } else if !team_ids(world_teams(continents)).no_duplicates() {
        Some(SnapshotError::DuplicateTeamId)
    } else if !player_ids(world_players(continents)).no_duplicates() {
        Some(SnapshotError::DuplicatePlayerId)
    } else if !league_slugs(world_leagues(continents)).no_duplicates() {
        Some(SnapshotError::DuplicateLeagueSlug)
    } else if !team_slugs(world_teams(continents)).no_duplicates() {
        Some(SnapshotError::DuplicateTeamSlug)
    } else if world_matches(continents).len() > usize::MAX {
        Some(SnapshotError::TooManyMatches)
    } else if !all_sides_known(team_ids(world_teams(continents)), world_matches(continents)) {
        Some(SnapshotError::UnknownMatchSide)
    } else {
        None
    }
}

/// A world is consistent when every league, team and player has an id of its
/// own, every league and team a slug of its own, the match results can be
/// counted, and every match is between two different teams of the world.
pub open spec fn consistent(continents: Seq<Continent>) -> bool {
    fault_of(continents) is None
}

/// Whether every match of `leagues` is between two different teams among
/// `ids`.
fn sides_are_known(leagues: &Vec<&League>, ids: &Vec<u32>) -> (known: bool)
    ensures
        known == all_sides_known(ids@, league_matches(targets(leagues@))),
{
    broadcast use vstd::std_specs::hash::group_hash_axioms;

    let teams: HashSet<u32> = id_set(ids);
    let ghost all = targets(leagues@);
    let ghost whole = league_matches(all);
    let mut l: usize = 0;
    while l < leagues.len()
        invariant
            l <= leagues.len(),
            all == targets(leagues@),
            whole == league_matches(all),
            forall|id: u32| teams@.contains(id) <==> ids@.contains(id),
            all_sides_known(ids@, league_matches(all.take(l as int))),
        decreases leagues.len() - l,
    {
        let league: &League = leagues[l];
        let ghost before = league_matches(all.take(l as int));
        proof {
            lemma_flat_step(all, matches_in_league(), l as int);
            lemma_flat_prefix(all, matches_in_league(), l + 1);
        }
        let count: usize = league.matches.len();
        let mut i: usize = 0;
        while i < count
            invariant
                i <= count,
                count == league.matches@.len(),
                whole == league_matches(targets(leagues@)),
                forall|id: u32| teams@.contains(id) <==> ids@.contains(id),
                all_sides_known(ids@, before),
                before + league.matches@ == whole.take((before.len() + league.matches@.len()) as int),
                before.len() + league.matches@.len() <= whole.len(),
                forall|k: int| 0 <= k < i ==> sides_known(ids@, #[trigger] league.matches@[k]),
            decreases count - i,
        {
            let m: &MatchResult = league.matches.at(i);
            if m.home_team_id == m.away_team_id || !teams.contains(&m.home_team_id)
                || !teams.contains(&m.away_team_id) {
                proof {
                    let at = before.len() + i;
                    assert((before + league.matches@)[at] == league.matches@[i as int]);
                    assert(whole[at] == *m);
                    assert(!sides_known(ids@, whole[at]));
                }
                return false;
            }
            i = i + 1;
        }
        proof {
            let longer = league_matches(all.take(l + 1));
            assert forall|k: int| 0 <= k < longer.len() implies sides_known(
                ids@,
                #[trigger] longer[k],
            ) by {
                if k < before.len() {
                    assert(longer[k] == before[k]);
                } else {
                    assert(longer[k] == league.matches@[k - before.len()]);
                }
            }
        }
        l = l + 1;
    }
    assert(all.take(l as int) =~= all);
    true
}

/// The world at one instant. A snapshot is consistent from the moment it is
/// made, and nothing changes it but the building of its slug index.
#[derive(Debug, PartialEq, Eq)]
pub struct Snapshot {
    date: Date,
    continents: Vec<Continent>,
    indexes: Option<SlugIndexes>,
}

impl Snapshot {
    #[verifier::type_invariant]
    spec fn sound(self) -> bool {
        &&& consistent(self.continents@)
        &&& self.indexes matches Some(ix) ==> ix.covers(
            world_leagues(self.continents@),
            world_teams(self.continents@),
        )
    }

    /// The continents of the world, that is the root of the entity graph.
    pub closed spec fn world(&self) -> Seq<Continent> {
        self.continents@
    }

    /// The day on which the snapshot was taken.
    pub closed spec fn spec_date(&self) -> Date {
        self.date
    }

    /// Whether the slug index has been built.
    pub closed spec fn spec_has_indexes(&self) -> bool {
        self.indexes is Some
    }

    /// A slug index, where there is one, has an entry for each league and team.
    pub closed spec fn indexes_cover(&self) -> bool {
        self.indexes matches Some(ix) ==> ix.covers(
            world_leagues(self.continents@),
            world_teams(self.continents@),
        )
    }

    /// What holds of every snapshot: the world is consistent and the index,
    /// where there is one, was built from this world.
    pub open spec fn wf(&self) -> bool {
        consistent(self.world()) && self.indexes_cover()
    }

    /// The leagues of the snapshot in traversal order.
    pub open spec fn all_leagues(&self) -> Seq<League> {
        world_leagues(self.world())
    }

    /// The teams of the snapshot in traversal order.
    pub open spec fn all_teams(&self) -> Seq<Team> {
        world_teams(self.world())
    }

    /// The players of the snapshot in traversal order.
    pub open spec fn all_players(&self) -> Seq<Player> {
        world_players(self.world())
    }

    /// The match results of the snapshot in traversal order.
    pub open spec fn all_matches(&self) -> Seq<MatchResult> {
        world_matches(self.world())
    }

    /// The league with the id `id`.
    pub open spec fn spec_league(&self, id: u32) -> Option<League> {
        find_league(self.all_leagues(), id)
    }

    /// The team with the id `id`.
    pub open spec fn spec_team(&self, id: u32) -> Option<Team> {
        find_team(self.all_teams(), id)
    }

    /// The player with the id `id`.
    pub open spec fn spec_player(&self, id: u32) -> Option<Player> {
        find_player(self.all_players(), id)
    }

    /// What resolving the slug of a team gives: the id of the team with that
    /// slug, or the reason why there is none.
    pub open spec fn spec_resolve_team(&self, slug: Seq<char>) -> Result<u32, QueryErrorView> {
        if !self.spec_has_indexes() {
            Err(QueryErrorView::IndexUnavailable)
        } else {
            match team_id_by_slug(self.all_teams(), slug) {
                Some(id) => Ok(id),
                None => Err(slug_not_found(EntityKind::Team, slug)),
            }
        }
    }

    /// What resolving the slug of a league gives: the id of the league with
    /// that slug, or the reason why there is none.
    pub open spec fn spec_resolve_league(&self, slug: Seq<char>) -> Result<u32, QueryErrorView> {
        if !self.spec_has_indexes() {
            Err(QueryErrorView::IndexUnavailable)
        } else {
            match league_id_by_slug(self.all_leagues(), slug) {
                Some(id) => Ok(id),
                None => Err(slug_not_found(EntityKind::League, slug)),
            }
        }
    }

    /// Makes a snapshot of the world `continents` on the day `date`, without a
    /// slug index. A world that is not consistent is refused.
    pub fn new(date: Date, continents: Vec<Continent>) -> (made: Result<Snapshot, SnapshotError>)
        ensures
            match made {
                Ok(snapshot) => {
                    &&& fault_of(continents@) is None
                    &&& snapshot.wf()
                    &&& snapshot.world() == continents@
                    &&& snapshot.spec_date() == date
                    &&& !snapshot.spec_has_indexes()
                },
                Err(fault) => fault_of(continents@) == Some(fault),
            },
    {
        let leagues = collect_leagues(&continents);
        let ids = league_id_list(&leagues);
        if !all_distinct(&ids) {
            return Err(SnapshotError::DuplicateLeagueId);
        }
        let teams = collect_teams(&leagues);
        let team_ids = team_id_list(&teams);
        if !all_distinct(&team_ids) {
            return Err(SnapshotError::DuplicateTeamId);
        }
        let players = collect_players(&teams);
        let ids = player_id_list(&players);
        if !all_distinct(&ids) {
            return Err(SnapshotError::DuplicatePlayerId);
        }
        let slugs = league_slug_list(&leagues);
        if !texts_distinct(&slugs) {
            return Err(SnapshotError::DuplicateLeagueSlug);
        }
        let slugs = team_slug_list(&teams);
        if !texts_distinct(&slugs) {
            return Err(SnapshotError::DuplicateTeamSlug);
        }
        if count_matches(&leagues).is_none() {
            return Err(SnapshotError::TooManyMatches);
        }
        if !sides_are_known(&leagues, &team_ids) {
            return Err(SnapshotError::UnknownMatchSide);
        }
        Ok(Snapshot { date, continents, indexes: None })
    }

    /// Builds the slug index of this snapshot, replacing an earlier one.
    pub fn build_indexes(&mut self)
        ensures
            final(self).wf(),
            final(self).world() == old(self).world(),
            final(self).spec_date() == old(self).spec_date(),
            final(self).spec_has_indexes(),
    {
        proof {
            use_type_invariant(&*self);
        }
        let leagues = collect_leagues(&self.continents);
        let teams = collect_teams(&leagues);
        let indexes = SlugIndexes::build(&leagues, &teams);
        self.indexes = Some(indexes);
    }

    /// The day on which the snapshot was taken.
    #[verifier::when_used_as_spec(spec_date)]
    pub fn date(&self) -> (date: Date)
        ensures
            date == self.spec_date(),
    {
        self.date
    }

    /// Whether the slug index has been built.
    #[verifier::when_used_as_spec(spec_has_indexes)]
    pub fn has_indexes(&self) -> (built: bool)
        ensures
            built == self.spec_has_indexes(),
    {
        self.indexes.is_some()
    }

    /// The continents of the world.
    pub fn continents(&self) -> (continents: &Vec<Continent>)
        ensures
            continents@ == self.world(),
    {
        &self.continents
    }

    /// References to the leagues in traversal order.
    pub fn leagues(&self) -> (leagues: Vec<&League>)
        ensures
            targets(leagues@) == self.all_leagues(),
    {
        collect_leagues(&self.continents)
    }

    /// References to the teams in traversal order.
    pub fn teams(&self) -> (teams: Vec<&Team>)
        ensures
            targets(teams@) == self.all_teams(),
    {
        let leagues = collect_leagues(&self.continents);
        collect_teams(&leagues)
    }

    /// References to the players in traversal order.
    pub fn players(&self) -> (players: Vec<&Player>)
        ensures
            targets(players@) == self.all_players(),
    {
        let leagues = collect_leagues(&self.continents);
        let teams = collect_teams(&leagues);
        collect_players(&teams)
    }

    /// The number of match results in the snapshot.
    pub fn match_count(&self) -> (count: usize)
        ensures
            count == self.all_matches().len(),
    {
        proof {
            use_type_invariant(self);
        }
        let leagues = collect_leagues(&self.continents);
        match count_matches(&leagues) {
            Some(count) => count,
            None => 0,
        }
    }

    /// The league with the id `id`.
    pub fn league(&self, id: u32) -> (found: Option<&League>)
        ensures
            match self.spec_league(id) {
                Some(l) => found == Some(&l),
                None => found is None,
            },
    {
        let leagues = collect_leagues(&self.continents);
        league_by_id(&leagues, id)
    }

    /// The team with the id `id`.
    pub fn team(&self, id: u32) -> (found: Option<&Team>)
        ensures
            match self.spec_team(id) {
                Some(t) => found == Some(&t),
                None => found is None,
            },
    {
        let teams = self.teams();
        team_by_id(&teams, id)
    }

    /// The player with the id `id`.
    pub fn player(&self, id: u32) -> (found: Option<&Player>)
        ensures
            match self.spec_player(id) {
                Some(p) => found == Some(&p),
                None => found is None,
            },
    {
        let players = self.players();
        player_by_id(&players, id)
    }

    /// The id of the team with the slug `slug`. Without a slug index the
    /// answer is `IndexUnavailable`; a slug that no team has is `NotFound`.
    pub fn resolve_team(&self, slug: &str) -> (resolved: Result<u32, QueryError>)
        ensures
            match resolved {
                Ok(id) => self.spec_resolve_team(slug@) == Ok::<u32, QueryErrorView>(id),
                Err(e) => self.spec_resolve_team(slug@) == Err::<u32, QueryErrorView>(e@),
            },
            resolved matches Ok(id) ==> (self.spec_team(id) matches Some(team) && team.slug@
                == slug@),
    {
        proof {
            use_type_invariant(self);
            lemma_resolved_team_has_slug(*self, slug@);
        }
        match &self.indexes {
            None => Err(QueryError::IndexUnavailable),
            Some(indexes) => {
                proof {
                    lemma_index_answers_for_teams(
                        *indexes,
                        self.all_leagues(),
                        self.all_teams(),
                        slug@,
                    );
                }
                match indexes.get_team_by_slug(slug) {
                    Some(id) => Ok(id),
                    None => Err(QueryError::no_such_slug(EntityKind::Team, slug)),
                }
            },
        }
    }

    /// The id of the league with the slug `slug`. Without a slug index the
    /// answer is `IndexUnavailable`; a slug that no league has is `NotFound`.
    pub fn resolve_league(&self, slug: &str) -> (resolved: Result<u32, QueryError>)
        ensures
            match resolved {
                Ok(id) => self.spec_resolve_league(slug@) == Ok::<u32, QueryErrorView>(id),
                Err(e) => self.spec_resolve_league(slug@) == Err::<u32, QueryErrorView>(e@),
            },
            resolved matches Ok(id) ==> (self.spec_league(id) matches Some(league) && league.slug@
                == slug@),
    {
        proof {
            use_type_invariant(self);
            lemma_resolved_league_has_slug(*self, slug@);
        }
        match &self.indexes {
            None => Err(QueryError::IndexUnavailable),
            Some(indexes) => {
                proof {
                    lemma_index_answers_for_leagues(
                        *indexes,
                        self.all_leagues(),
                        self.all_teams(),
                        slug@,
                    );
                }
                match indexes.get_league_by_slug(slug) {
                    Some(id) => Ok(id),
                    None => Err(QueryError::no_such_slug(EntityKind::League, slug)),
                }
            },
        }
    }
}

/// A team found by its slug is found by its id, and has that slug: where a
/// slug resolves to an id, looking the id up gives a team with the slug.
pub proof fn lemma_resolved_team_has_slug(snapshot: Snapshot, slug: Seq<char>)
    requires
        snapshot.wf(),
    ensures
        snapshot.spec_resolve_team(slug) matches Ok(id) ==> {
            &&& snapshot.spec_team(id) matches Some(team)
            &&& team.slug@ == slug
            &&& team.id == id
        },
{
    let teams = snapshot.all_teams();
    lemma_first_index(teams, team_with_slug(slug));
    if let Ok(id) = snapshot.spec_resolve_team(slug) {
        let i = first_index(teams, team_with_slug(slug))->0;
        lemma_first_index(teams, team_with_id(id));
        let j = first_index(teams, team_with_id(id))->0;
        assert(team_ids(teams)[i] == id);
        assert(team_ids(teams)[j] == id);
        assert(i == j);
    }
}

/// Every team of an indexed snapshot is found by its own slug.
pub proof fn lemma_team_resolves_by_its_slug(snapshot: Snapshot, i: int)
    requires
        snapshot.wf(),
        snapshot.has_indexes(),
        0 <= i < snapshot.all_teams().len(),
    ensures
        snapshot.spec_resolve_team(snapshot.all_teams()[i].slug@) == Ok::<u32, QueryErrorView>(
            snapshot.all_teams()[i].id,
        ),
{
    let teams = snapshot.all_teams();
    let slug = teams[i].slug@;
    assert(team_with_slug(slug)(teams[i]));
    lemma_first_index(teams, team_with_slug(slug));
    let j = first_index(teams, team_with_slug(slug))->0;
    assert(team_slugs(teams)[i] == slug);
    assert(team_slugs(teams)[j] == slug);
    assert(i == j);
}

/// Every league of an indexed snapshot is found by its own slug.
pub proof fn lemma_league_resolves_by_its_slug(snapshot: Snapshot, i: int)
    requires
        snapshot.wf(),
        snapshot.has_indexes(),
        0 <= i < snapshot.all_leagues().len(),
    ensures
        snapshot.spec_resolve_league(snapshot.all_leagues()[i].slug@) == Ok::<u32, QueryErrorView>(
            snapshot.all_leagues()[i].id,
        ),
{
    let leagues = snapshot.all_leagues();
    let slug = leagues[i].slug@;
    assert(league_with_slug(slug)(leagues[i]));
    lemma_first_index(leagues, league_with_slug(slug));
    let j = first_index(leagues, league_with_slug(slug))->0;
    assert(league_slugs(leagues)[i] == slug);
    assert(league_slugs(leagues)[j] == slug);
    assert(i == j);
}

/// Every match of a snapshot is between two different teams, and the
/// snapshot has both.
pub proof fn lemma_match_sides_exist(snapshot: Snapshot, i: int)
    requires
        snapshot.wf(),
        0 <= i < snapshot.all_matches().len(),
    ensures
        snapshot.all_matches()[i].home_team_id != snapshot.all_matches()[i].away_team_id,
        snapshot.spec_team(snapshot.all_matches()[i].home_team_id) is Some,
        snapshot.spec_team(snapshot.all_matches()[i].away_team_id) is Some,
{
    let teams = snapshot.all_teams();
    let m = snapshot.all_matches()[i];
    assert(sides_known(team_ids(teams), m));
    let h = choose|h: int| 0 <= h < teams.len() && team_ids(teams)[h] == m.home_team_id;
    assert(team_with_id(m.home_team_id)(teams[h]));
    lemma_first_index(teams, team_with_id(m.home_team_id));
    let a = choose|a: int| 0 <= a < teams.len() && team_ids(teams)[a] == m.away_team_id;
    assert(team_with_id(m.away_team_id)(teams[a]));
    lemma_first_index(teams, team_with_id(m.away_team_id));
}

/// A league found by its slug is found by its id, and has that slug.
pub proof fn lemma_resolved_league_has_slug(snapshot: Snapshot, slug: Seq<char>)
    requires
        snapshot.wf(),
    ensures
        snapshot.spec_resolve_league(slug) matches Ok(id) ==> {
            &&& snapshot.spec_league(id) matches Some(league)
            &&& league.slug@ == slug
            &&& league.id == id
        },
{
    let leagues = snapshot.all_leagues();
    lemma_first_index(leagues, league_with_slug(slug));
    if let Ok(id) = snapshot.spec_resolve_league(slug) {
        let i = first_index(leagues, league_with_slug(slug))->0;
        lemma_first_index(leagues, league_with_id(id));
        let j = first_index(leagues, league_with_id(id))->0;
        assert(league_ids(leagues)[i] == id);
        assert(league_ids(leagues)[j] == id);
        assert(i == j);
    }
}

} // verus!
