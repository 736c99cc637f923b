//! A bounded walk over the match results of a snapshot: continents in order,
//! then countries, then leagues, then the results of each league in storage
//! order.

use crate::entities::{League, MatchResult};
use crate::sequences::{lemma_flat_step, targets};
use crate::graph::{league_matches, matches_in_league};
use crate::snapshot::Snapshot;
use vstd::prelude::*;

verus! {

/// The question whether a match passes the team filter: with a filter, the
/// team must be one of the two sides; without one, every match passes.
pub open spec fn involves(team_filter: Option<u32>) -> spec_fn(MatchResult) -> bool {
    |m: MatchResult|
        match team_filter {
            Some(team_id) => m.home_team_id == team_id || m.away_team_id == team_id,
            None => true,
        }
}

/// The first `limit` elements of `s`, or all of `s` where it has fewer.
pub open spec fn at_most<T>(s: Seq<T>, limit: int) -> Seq<T> {
    if limit < s.len() {
        s.take(limit)
    } else {
        s
    }
}

/// The matches that a walk over `matches` collects: those that pass the
/// filter, in order, and no more than `limit` of them.
pub open spec fn selected_matches(
    matches: Seq<MatchResult>,
    team_filter: Option<u32>,
    limit: int,
) -> Seq<MatchResult> {
    at_most(matches.filter(involves(team_filter)), limit)
}

/// Whether `match_result` passes the team filter.
pub fn passes_filter(match_result: &MatchResult, team_filter: Option<u32>) -> (passes: bool)
    ensures
        passes == involves(team_filter)(*match_result),
{
    match team_filter {
        Some(team_id) => match_result.home_team_id == team_id || match_result.away_team_id
            == team_id,
        None => true,
    }
}

/// One more match seen: it is added where it passes the filter and the limit
/// is not yet reached.
proof fn lemma_selected_step(
    seen: Seq<MatchResult>,
    next: MatchResult,
    team_filter: Option<u32>,
    limit: int,
)
    requires
        0 <= limit,
    ensures
        selected_matches(seen.push(next), team_filter, limit) == if involves(team_filter)(next)
            && selected_matches(seen, team_filter, limit).len() < limit {
            selected_matches(seen, team_filter, limit).push(next)
        } else {
            selected_matches(seen, team_filter, limit)
        },
{
    let pred = involves(team_filter);
    seen.lemma_filter_push(next, pred);
    let passed = seen.filter(pred);
    if pred(next) {
        if passed.len() < limit {
            assert(at_most(passed.push(next), limit) =~= passed.push(next));
        } else {
            assert(passed.push(next).take(limit) =~= passed.take(limit));
        }
    }
}

/// Walks the match results of the snapshot. The count is that of all match
/// results, whether or not they pass the filter and whether or not the limit
/// is reached; a match is collected where it passes the filter while fewer
/// than `limit` have been collected.
pub fn collect_matches<'a>(
    snapshot: &'a Snapshot,
    team_filter: Option<u32>,
    limit: usize,
) -> (walk: (Vec<&'a MatchResult>, usize))
    ensures
        targets(walk.0@) == selected_matches(snapshot.all_matches(), team_filter, limit as int),
        walk.0@.len() <= limit,
        walk.1 == snapshot.all_matches().len(),
{
    let total: usize = snapshot.match_count();
    let leagues: Vec<&'a League> = snapshot.leagues();
    let ghost all = targets(leagues@);
    let mut out: Vec<&'a MatchResult> = Vec::new();
    proof {
        reveal(Seq::filter);
        assert(targets(out@) =~= selected_matches(
            league_matches(all.take(0)),
            team_filter,
            limit as int,
        ));
    }
    let mut l: usize = 0;
    while l < leagues.len()
        invariant
            l <= leagues.len(),
            all == targets(leagues@),
            targets(out@) == selected_matches(
                league_matches(all.take(l as int)),
                team_filter,
                limit as int,
            ),
        decreases leagues.len() - l,
    {
        let league: &'a League = leagues[l];
        let ghost before = league_matches(all.take(l as int));
        let count: usize = league.matches.len();
        assert(before + league.matches@.take(0) =~= before);
        let mut i: usize = 0;
        while i < count
            invariant
                i <= count,
                count == league.matches@.len(),
                targets(out@) == selected_matches(
                    before + league.matches@.take(i as int),
                    team_filter,
                    limit as int,
                ),
            decreases count - i,
        {
            let match_result: &'a MatchResult = league.matches.at(i);
            let ghost seen = before + league.matches@.take(i as int);
            proof {
                lemma_selected_step(seen, *match_result, team_filter, limit as int);
                assert(seen.push(*match_result) =~= before + league.matches@.take(i + 1));
                assert(targets(out@).len() == out@.len());
            }
            if passes_filter(match_result, team_filter) && out.len() < limit {
                let ghost prev = out@;
                out.push(match_result);
                assert(targets(out@) =~= targets(prev).push(*match_result));
            }
            i = i + 1;
        }
        proof {
            assert(league.matches@.take(i as int) =~= league.matches@);
            lemma_flat_step(all, matches_in_league(), l as int);
        }
        l = l + 1;
    }
    proof {
        assert(all.take(l as int) =~= all);
        assert(targets(out@).len() == out@.len());
    }
    (out, total)
}

} // verus!
