//! The index from the slugs of teams and leagues to their ids.

use crate::entities::{League, Team};
use crate::graph::{league_id_by_slug, league_with_slug, team_id_by_slug, team_with_slug};
use crate::sequences::{
    first_index, lemma_first_index, lemma_first_index_at, lemma_first_index_none, targets,
};
use crate::text::same_text;
use vstd::prelude::*;

verus! {

/// One entry of a slug index: a slug and the id that it stands for.
#[derive(Debug, Clone, PartialEq, Eq)]
pub struct SlugEntry {
    pub slug: String,
    pub id: u32,
}

/// The question whether an entry has the slug `slug`.
pub open spec fn entry_with_slug(slug: Seq<char>) -> spec_fn(SlugEntry) -> bool {
    |e: SlugEntry| e.slug@ == slug
}

/// The id that the first of `entries` with the slug `slug` stands for.
pub open spec fn lookup_slug(entries: Seq<SlugEntry>, slug: Seq<char>) -> Option<u32> {
    match first_index(entries, entry_with_slug(slug)) {
        Some(i) => Some(entries[i].id),
        None => None,
    }
}

/// The index from the slugs of teams and of leagues to their ids.
#[derive(Debug, Clone, PartialEq, Eq)]
pub struct SlugIndexes {
    teams: Vec<SlugEntry>,
    leagues: Vec<SlugEntry>,
}

impl SlugIndexes {
    /// The entries for teams, in the order in which they were indexed.
    pub closed spec fn team_entries(&self) -> Seq<SlugEntry> {
        self.teams@
    }

    /// The entries for leagues, in the order in which they were indexed.
    pub closed spec fn league_entries(&self) -> Seq<SlugEntry> {
        self.leagues@
    }

    /// The index has one entry for each of the leagues and teams, in order,
    /// with its slug and id.
    pub open spec fn covers(&self, leagues: Seq<League>, teams: Seq<Team>) -> bool {
        &&& self.league_entries().len() == leagues.len()
        &&& forall|i: int|
            0 <= i < leagues.len() ==> {
                &&& (#[trigger] self.league_entries()[i]).slug@ == leagues[i].slug@
                &&& self.league_entries()[i].id == leagues[i].id
            }
        &&& self.team_entries().len() == teams.len()
        &&& forall|i: int|
            0 <= i < teams.len() ==> {
                &&& (#[trigger] self.team_entries()[i]).slug@ == teams[i].slug@
                &&& self.team_entries()[i].id == teams[i].id
            }
    }

    /// Indexes the given leagues and teams.
    pub fn build(leagues: &Vec<&League>, teams: &Vec<&Team>) -> (indexes: SlugIndexes)
        ensures
            indexes.covers(targets(leagues@), targets(teams@)),
    {
        let mut league_entries: Vec<SlugEntry> = Vec::new();
        let mut l: usize = 0;
        while l < leagues.len()
            invariant
                l <= leagues.len(),
                league_entries@.len() == l,
                forall|i: int|
                    0 <= i < l ==> {
                        &&& (#[trigger] league_entries@[i]).slug@ == targets(leagues@)[i].slug@
                        &&& league_entries@[i].id == targets(leagues@)[i].id
                    },
            decreases leagues.len() - l,
        {
            league_entries.push(SlugEntry { slug: leagues[l].slug.clone(), id: leagues[l].id });
            l = l + 1;
        }
        let mut team_entries: Vec<SlugEntry> = Vec::new();
        let mut t: usize = 0;
        while t < teams.len()
            invariant
                t <= teams.len(),
                team_entries@.len() == t,
                forall|i: int|
                    0 <= i < t ==> {
                        &&& (#[trigger] team_entries@[i]).slug@ == targets(teams@)[i].slug@
                        &&& team_entries@[i].id == targets(teams@)[i].id
                    },
            decreases teams.len() - t,
        {
            team_entries.push(SlugEntry { slug: teams[t].slug.clone(), id: teams[t].id });
            t = t + 1;
        }
        SlugIndexes { teams: team_entries, leagues: league_entries }
    }

    /// The id that the slug `slug` stands for among the teams.
    pub fn get_team_by_slug(&self, slug: &str) -> (id: Option<u32>)
        ensures
            id == lookup_slug(self.team_entries(), slug@),
    {
        find_slug(&self.teams, slug)
    }

    /// The id that the slug `slug` stands for among the leagues.
    pub fn get_league_by_slug(&self, slug: &str) -> (id: Option<u32>)
        ensures
            id == lookup_slug(self.league_entries(), slug@),
    {
        find_slug(&self.leagues, slug)
    }
}

/// The id of the first of `entries` with the slug `slug`.
fn find_slug(entries: &Vec<SlugEntry>, slug: &str) -> (id: Option<u32>)
    ensures
        id == lookup_slug(entries@, slug@),
{
    let ghost pred = entry_with_slug(slug@);
    let mut i: usize = 0;
    while i < entries.len()
        invariant
            i <= entries.len(),
            pred == entry_with_slug(slug@),
            forall|j: int| 0 <= j < i ==> !pred(#[trigger] entries@[j]),
        decreases entries.len() - i,
    {
        if same_text(entries[i].slug.as_str(), slug) {
            proof {
                lemma_first_index_at(entries@, pred, i as int);
            }
            return Some(entries[i].id);
        }
        i = i + 1;
    }
    proof {
        lemma_first_index_none(entries@, pred);
    }
    None
}

/// An index that covers the teams answers as the teams themselves would.
pub proof fn lemma_index_answers_for_teams(
    indexes: SlugIndexes,
    leagues: Seq<League>,
    teams: Seq<Team>,
    slug: Seq<char>,
)
    requires
        indexes.covers(leagues, teams),
    ensures
        lookup_slug(indexes.team_entries(), slug) == team_id_by_slug(teams, slug),
{
    let entries = indexes.team_entries();
    let by_entry = entry_with_slug(slug);
    let by_team = team_with_slug(slug);
    lemma_first_index(entries, by_entry);
    lemma_first_index(teams, by_team);
    match first_index(teams, by_team) {
        Some(i) => {
            assert(by_entry(entries[i]));
            assert forall|j: int| 0 <= j < i implies !by_entry(#[trigger] entries[j]) by {
                assert(!by_team(teams[j]));
            }
            lemma_first_index_at(entries, by_entry, i);
        },
        None => {
            assert forall|j: int| 0 <= j < entries.len() implies !by_entry(
                #[trigger] entries[j],
            ) by {
                assert(!by_team(teams[j]));
            }
            lemma_first_index_none(entries, by_entry);
        },
    }
}

/// An index that covers the leagues answers as the leagues themselves would.
pub proof fn lemma_index_answers_for_leagues(
    indexes: SlugIndexes,
    leagues: Seq<League>,
    teams: Seq<Team>,
    slug: Seq<char>,
)
    requires
        indexes.covers(leagues, teams),
    ensures
        lookup_slug(indexes.league_entries(), slug) == league_id_by_slug(leagues, slug),
{
    let entries = indexes.league_entries();
    let by_entry = entry_with_slug(slug);
    let by_league = league_with_slug(slug);
    lemma_first_index(entries, by_entry);
    lemma_first_index(leagues, by_league);
    match first_index(leagues, by_league) {
        Some(i) => {
            assert(by_entry(entries[i]));
            assert forall|j: int| 0 <= j < i implies !by_entry(#[trigger] entries[j]) by {
                assert(!by_league(leagues[j]));
            }
            lemma_first_index_at(entries, by_entry, i);
        },
        None => {
            assert forall|j: int| 0 <= j < entries.len() implies !by_entry(
                #[trigger] entries[j],
            ) by {
                assert(!by_league(leagues[j]));
            }
            lemma_first_index_none(entries, by_entry);
        },
    }
}

} // verus!
