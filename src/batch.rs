//! Aggregation of a batch of per-track outcomes.
use crate::mbid::Mbid;
use crate::recording::ResolveError;
use vstd::prelude::*;

verus! {

/// The identifier that an outcome gives, if it succeeded.
pub open spec fn outcome_id(o: Result<Mbid, ResolveError>) -> Option<Mbid> {
    match o {
        Ok(id) => Some(id),
        Err(_) => None,
    }
}

/// The identifiers of the succeeded outcomes, in the order they came.
pub open spec fn resolved_ids(s: Seq<Option<Mbid>>) -> Seq<Mbid>
    decreases s.len(),
{
    if s.len() == 0 {
        Seq::empty()
    } else {
        let rest = resolved_ids(s.drop_last());
        match s.last() {
            Some(id) => rest.push(id),
            None => rest,
        }
    }
}

/// The number of failed outcomes.
pub open spec fn failure_count(s: Seq<Option<Mbid>>) -> nat
    decreases s.len(),
{
    if s.len() == 0 {
        0
    } else {
        failure_count(s.drop_last()) + if s.last() is None { 1nat } else { 0nat }
    }
}

pub open spec fn ids_of(outcomes: Seq<Result<Mbid, ResolveError>>) -> Seq<Option<Mbid>> {
    outcomes.map_values(|o: Result<Mbid, ResolveError>| outcome_id(o))
}

proof fn lemma_counts(s: Seq<Option<Mbid>>)
    ensures
        resolved_ids(s).len() + failure_count(s) == s.len(),
        forall|i: int|
            0 <= i < resolved_ids(s).len() ==> exists|j: int|
                0 <= j < s.len() && s[j] == Some(#[trigger] resolved_ids(s)[i]),
    decreases s.len(),
{
    if s.len() > 0 {
        let p = s.drop_last();
        lemma_counts(p);
        assert forall|i: int| 0 <= i < resolved_ids(s).len() implies exists|j: int|
            0 <= j < s.len() && s[j] == Some(#[trigger] resolved_ids(s)[i]) by {
            if i < resolved_ids(p).len() {
                let j = choose|j: int| 0 <= j < p.len() && p[j] == Some(resolved_ids(p)[i]);
                assert(s[j] == p[j]);
            } else {
                assert(s[s.len() - 1] == Some(resolved_ids(s)[i]));
            }
        }
    }
}

proof fn lemma_failures_at(s: Seq<Option<Mbid>>, k: int)
    requires
        -1 <= k < s.len(),
        forall|j: int| 0 <= j < s.len() && j != k ==> #[trigger] s[j] is Some,
        k >= 0 ==> s[k] is None,
    ensures
        failure_count(s) == if k >= 0 { 1nat } else { 0nat },
    decreases s.len(),
{
    if s.len() > 0 {
        let p = s.drop_last();
        if k == s.len() - 1 {
            lemma_failures_at(p, -1);
        } else {
            assert(s[s.len() - 1] is Some);
            lemma_failures_at(p, k);
        }
    }
}

/// Each track yields at most one identifier: the identifiers kept and the
/// failures add up to the outcomes, and each identifier kept is the one that
/// some track's outcome gave.
pub proof fn lemma_one_id_per_track(outcomes: Seq<Result<Mbid, ResolveError>>)
    ensures
        resolved_ids(ids_of(outcomes)).len() + failure_count(ids_of(outcomes)) == outcomes.len(),
        resolved_ids(ids_of(outcomes)).len() <= outcomes.len(),
        forall|i: int|
            0 <= i < resolved_ids(ids_of(outcomes)).len() ==> exists|j: int|
                0 <= j < outcomes.len() && outcomes[j] == Ok::<Mbid, ResolveError>(
                    #[trigger] resolved_ids(ids_of(outcomes))[i],
                ),
{
    let s = ids_of(outcomes);
    lemma_counts(s);
    assert forall|i: int| 0 <= i < resolved_ids(s).len() implies exists|j: int|
        0 <= j < outcomes.len() && outcomes[j] == Ok::<Mbid, ResolveError>(
            #[trigger] resolved_ids(s)[i],
        ) by {
        let j = choose|j: int| 0 <= j < s.len() && s[j] == Some(resolved_ids(s)[i]);
        assert(outcomes[j] is Ok);
    }
}

/// A failing track does not take others with it: when exactly the outcome at
/// `failed` is an error, all other `n - 1` identifiers are kept.
pub proof fn lemma_failure_isolated(outcomes: Seq<Result<Mbid, ResolveError>>, failed: int)
    requires
        0 <= failed < outcomes.len(),
        outcomes[failed] is Err,
        forall|j: int| 0 <= j < outcomes.len() && j != failed ==> #[trigger] outcomes[j] is Ok,
    ensures
        resolved_ids(ids_of(outcomes)).len() == outcomes.len() - 1,
{
    let s = ids_of(outcomes);
    assert forall|j: int| 0 <= j < s.len() && j != failed implies #[trigger] s[j] is Some by {
        assert(outcomes[j] is Ok);
    }
    lemma_failures_at(s, failed);
    lemma_counts(s);
}

/// Keeps the identifiers of the succeeded outcomes and drops the failures.
pub fn collect_resolved(outcomes: Vec<Result<Mbid, ResolveError>>) -> (r: Vec<Mbid>)
    ensures
        r@ == resolved_ids(ids_of(outcomes@)),
{
    let mut r: Vec<Mbid> = Vec::new();
    let mut i: usize = 0;
    while i < outcomes.len()
        invariant
            i <= outcomes@.len(),
            r@ == resolved_ids(ids_of(outcomes@.subrange(0, i as int))),
        decreases outcomes@.len() - i,
    {
        let ghost before = ids_of(outcomes@.subrange(0, i as int));
        let ghost after = ids_of(outcomes@.subrange(0, i + 1));
        assert(after.drop_last() =~= before);
        match &outcomes[i] {
            Ok(id) => r.push(*id),
            Err(_) => {},
        }
        i = i + 1;
    }
    assert(outcomes@.subrange(0, outcomes@.len() as int) =~= outcomes@);
    r
}

/// Progress of a batch: how many of its tracks have reached an outcome.
pub struct BatchProgress {
    pub total: u64,
    pub completed: u64,
}

impl BatchProgress {
    pub fn new(total: u64) -> (r: BatchProgress)
        ensures
            r.total == total,
            r.completed == 0,
    {
        BatchProgress { total, completed: 0 }
    }

    /// Counts one more track that reached an outcome, success or failure.
    pub fn record(&mut self)
        requires
            old(self).completed < old(self).total,
        ensures
            final(self).total == old(self).total,
            final(self).completed == old(self).completed + 1,
    {
        self.completed = self.completed + 1;
    }

    pub fn is_done(&self) -> (r: bool)
        ensures
            r == (self.completed == self.total),
    {
        self.completed == self.total
    }
}

/// Counts of a run: tracks listed, tracks with readable tags, tracks resolved.
#[derive(Debug, Clone, Copy, PartialEq, Eq, Structural)]
pub struct RunStatistics {
    pub total: u64,
    pub readable: u64,
    pub resolved: u64,
}

impl RunStatistics {
    pub open spec fn well_formed(&self) -> bool {
        self.resolved <= self.readable <= self.total
    }

    /// The statistics of a run, when the counts nest as they must.
    pub fn new(total: u64, readable: u64, resolved: u64) -> (r: Option<RunStatistics>)
        ensures
            match r {
                Some(s) => s.total == total && s.readable == readable && s.resolved == resolved
                    && s.well_formed(),
                None => !(resolved <= readable <= total),
            },
    {
        if resolved <= readable && readable <= total {
            Some(RunStatistics { total, readable, resolved })
        } else {
            None
        }
    }
}

} // verus!
