//! The results of the matches of one league, kept by match id.

use crate::entities::MatchResult;
use crate::sequences::{first_index, lemma_first_index, lemma_first_index_at, lemma_first_index_none};
use crate::text::same_text;
use vstd::prelude::*;

verus! {

/// The question whether a result has the id `id`.
pub open spec fn has_id(id: Seq<char>) -> spec_fn(MatchResult) -> bool {
    |m: MatchResult| m.id@ == id
}

/// The position of the first result with the id `id` among `results`, if any.
pub open spec fn position_of(results: Seq<MatchResult>, id: Seq<char>) -> Option<int> {
    first_index(results, has_id(id))
}

/// No two results share an id.
pub open spec fn ids_distinct(results: Seq<MatchResult>) -> bool {
    forall|i: int, j: int|
        0 <= i < j < results.len() ==> (#[trigger] results[i]).id@ != (#[trigger] results[j]).id@
}

/// The results of a league. Each match id occurs once; the results stay in
/// the order in which their ids were first stored.
#[derive(Debug, PartialEq, Eq)]
pub struct MatchStorage {
    results: Vec<MatchResult>,
}

impl Default for MatchStorage {
    fn default() -> (storage: Self)
        ensures
            storage@ == Seq::<MatchResult>::empty(),
    {
        MatchStorage::new()
    }
}

impl MatchStorage {
    #[verifier::type_invariant]
    spec fn one_result_per_id(self) -> bool {
        ids_distinct(self.results@)
    }

    /// The stored results, in storage order.
    pub closed spec fn view(&self) -> Seq<MatchResult> {
        self.results@
    }

    /// What holds of every storage: no two results share an id.
    pub open spec fn wf(&self) -> bool {
        ids_distinct(self@)
    }

    /// An empty storage.
    pub fn new() -> (storage: Self)
        ensures
            storage@ == Seq::<MatchResult>::empty(),
    {
        MatchStorage { results: Vec::new() }
    }

    /// Stores a result. A result with the same id is replaced where it
    /// stands; a new id goes to the end.
    pub fn push(&mut self, match_result: MatchResult)
        ensures
            final(self)@ == match position_of(old(self)@, match_result.id@) {
                Some(i) => old(self)@.update(i, match_result),
                None => old(self)@.push(match_result),
            },
    {
        proof {
            use_type_invariant(&*self);
            lemma_first_index(self.results@, has_id(match_result.id@));
        }
        let found = self.find(match_result.id.as_str());
        let mut results: Vec<MatchResult> = Vec::new();
        std::mem::swap(&mut results, &mut self.results);
        match found {
            Some(i) => {
                results.set(i, match_result);
            },
            None => {
                results.push(match_result);
            },
        }
        self.results = results;
    }

    /// The position of the result with the id `match_id`.
    fn find(&self, match_id: &str) -> (found: Option<usize>)
        ensures
            match found {
                Some(i) => position_of(self.results@, match_id@) == Some(i as int),
                None => position_of(self.results@, match_id@) is None,
            },
    {
        let ghost pred = has_id(match_id@);
        let mut i: usize = 0;
        while i < self.results.len()
            invariant
                i <= self.results.len(),
                pred == has_id(match_id@),
                forall|j: int| 0 <= j < i ==> !pred(#[trigger] self.results@[j]),
            decreases self.results.len() - i,
        {
            if same_text(self.results[i].id.as_str(), match_id) {
                proof {
                    lemma_first_index_at(self.results@, pred, i as int);
                }
                return Some(i);
            }
            i = i + 1;
        }
        proof {
            lemma_first_index_none(self.results@, pred);
        }
        None
    }

    /// The result with the id `match_id`, if one is stored.
    pub fn get(&self, match_id: &str) -> (found: Option<&MatchResult>)
        ensures
            match position_of(self@, match_id@) {
                Some(i) => found == Some(&self@[i]),
                None => found is None,
            },
    {
        proof {
            lemma_first_index(self.results@, has_id(match_id@));
        }
        match self.find(match_id) {
            Some(i) => Some(&self.results[i]),
            None => None,
        }
    }

    /// The stored results, in storage order.
    pub fn iter(&self) -> (results: Vec<&MatchResult>)
        ensures
            results@.len() == self@.len(),
            forall|i: int| 0 <= i < self@.len() ==> *(#[trigger] results@[i]) == self@[i],
    {
        let mut out: Vec<&MatchResult> = Vec::new();
        let mut i: usize = 0;
        while i < self.results.len()
            invariant
                i <= self.results.len(),
                out@.len() == i,
                forall|k: int| 0 <= k < i ==> *(#[trigger] out@[k]) == self.results@[k],
            decreases self.results.len() - i,
        {
            out.push(&self.results[i]);
            i = i + 1;
        }
        out
    }

    /// The result at position `index` in storage order.
    pub fn at(&self, index: usize) -> (result: &MatchResult)
        requires
            index < self@.len(),
        ensures
            *result == self@[index as int],
    {
        &self.results[index]
    }

    /// The number of results stored.
    pub fn len(&self) -> (count: usize)
        ensures
            count == self@.len(),
    {
        self.results.len()
    }

    /// Whether no result is stored.
    pub fn is_empty(&self) -> (empty: bool)
        ensures
            empty == (self@.len() == 0),
    {
        self.results.len() == 0
    }
}

} // verus!
