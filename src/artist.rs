//! Artist resolution: exact search, then alias search, memoized per input text.
use crate::audio_data::ArtistData;
use crate::mbid::Mbid;
use vstd::prelude::*;

verus! {

/// One entity returned by the artist search, in the service's relevance order.
#[derive(Debug, Clone, PartialEq, Eq)]
pub struct ArtistHit {
    pub name: String,
    pub id: Mbid,
}

/// What is known of an artist: display name and identifier.
pub type ArtistView = (Seq<char>, Option<Mbid>);

/// What a list of search hits gives: the first hit, when there is one.
pub open spec fn first_hit(hits: Seq<ArtistHit>) -> Option<ArtistView> {
    if hits.len() > 0 {
        Some((hits[0].name@, Some(hits[0].id)))
    } else {
        None
    }
}

/// The artist that the two searches resolve `name` to: the first exact hit, else
/// the first alias hit, else `name` itself without identifier.
pub open spec fn resolved_artist(
    name: Seq<char>,
    exact: Seq<ArtistHit>,
    alias: Seq<ArtistHit>,
) -> ArtistView {
    match first_hit(exact) {
        Some(a) => a,
        None => match first_hit(alias) {
            Some(a) => a,
            None => (name, None),
        },
    }
}

/// The memo of resolved artists, keyed by the exact input text.
pub struct ArtistCache {
    entries: Vec<(String, ArtistData)>,
    contents: Ghost<Map<Seq<char>, ArtistView>>,
}

impl View for ArtistCache {
    type V = Map<Seq<char>, ArtistView>;

    closed spec fn view(&self) -> Map<Seq<char>, ArtistView> {
        self.contents@
    }
}

impl ArtistCache {
    /// Each key is stored once, and the stored entries are exactly the map.
    pub closed spec fn well_formed(&self) -> bool {
        &&& forall|i: int|
            0 <= i < self.entries@.len() ==> #[trigger] self.contents@.contains_key(
                self.entries@[i].0@,
            ) && self.contents@[self.entries@[i].0@] == self.entries@[i].1@
        &&& forall|k: Seq<char>|
            #[trigger] self.contents@.contains_key(k) ==> exists|i: int|
                0 <= i < self.entries@.len() && #[trigger] self.entries@[i].0@ == k
        &&& forall|i: int, j: int|
            0 <= i < j < self.entries@.len() ==> #[trigger] self.entries@[i].0@
                != #[trigger] self.entries@[j].0@
    }

    pub fn new() -> (r: ArtistCache)
        ensures
            r.well_formed(),
            r@ == Map::<Seq<char>, ArtistView>::empty(),
    {
        ArtistCache { entries: Vec::new(), contents: Ghost(Map::empty()) }
    }

    fn find(&self, name: &String) -> (r: Option<usize>)
        requires
            self.well_formed(),
        ensures
            match r {
                Some(i) => i < self.entries@.len() && self.entries@[i as int].0@ == name@,
                None => !self@.contains_key(name@),
            },
    {
        let mut i: usize = 0;
        while i < self.entries.len()
            invariant
                self.well_formed(),
                i <= self.entries@.len(),
                forall|j: int| 0 <= j < i ==> #[trigger] self.entries@[j].0@ != name@,
            decreases self.entries@.len() - i,
        {
            if self.entries[i].0 == *name {
                return Some(i);
            }
            i = i + 1;
        }
        None
    }

    /// The stored resolution of `name`, if any.
    pub fn get(&self, name: &String) -> (r: Option<ArtistData>)
        requires
            self.well_formed(),
        ensures
            match r {
                Some(d) => self@.contains_key(name@) && d@ == self@[name@],
                None => !self@.contains_key(name@),
            },
    {
        match self.find(name) {
            Some(i) => {
                assert(self.contents@.contains_key(self.entries@[i as int].0@));
                let e = &self.entries[i].1;
                Some(ArtistData { artist_tag: e.artist_tag.clone(), mbid: e.mbid })
            },
            None => None,
        }
    }

    /// Stores the resolution of `name`, replacing an earlier one.
    pub fn insert(&mut self, name: &String, data: ArtistData)
        requires
            old(self).well_formed(),
        ensures
            final(self).well_formed(),
            final(self)@ == old(self)@.insert(name@, data@),
    {
        let ghost m = self.contents@.insert(name@, data@);
        let ghost before = self.entries@;
        let ghost dv = data@;
        match self.find(name) {
            Some(i) => {
                self.entries.set(i, (name.clone(), data));
                self.contents = Ghost(m);
                assert forall|k: Seq<char>| #[trigger] self.contents@.contains_key(k) implies exists|
                    j: int,
                |
                    0 <= j < self.entries@.len() && #[trigger] self.entries@[j].0@ == k by {
                    if k == name@ {
                        assert(self.entries@[i as int].0@ == k);
                    } else {
                        assert(old(self).contents@.contains_key(k));
                        let j = choose|j: int|
                            0 <= j < before.len() && #[trigger] before[j].0@ == k;
                        assert(self.entries@[j].0@ == k);
                    }
                }
                assert forall|j: int| 0 <= j < self.entries@.len() implies #[trigger] self.contents@.contains_key(
                    self.entries@[j].0@,
                ) && self.contents@[self.entries@[j].0@] == self.entries@[j].1@ by {
                    if j != i {
                        assert(old(self).contents@.contains_key(before[j].0@));
                    }
                }
            },
            None => {
                self.entries.push((name.clone(), data));
                self.contents = Ghost(m);
                let ghost n = before.len() as int;
                assert forall|k: Seq<char>| #[trigger] self.contents@.contains_key(k) implies exists|
                    j: int,
                |
                    0 <= j < self.entries@.len() && #[trigger] self.entries@[j].0@ == k by {
                    if k == name@ {
                        assert(self.entries@[n].0@ == k);
                    } else {
                        assert(old(self).contents@.contains_key(k));
                        let j = choose|j: int|
                            0 <= j < before.len() && #[trigger] before[j].0@ == k;
                        assert(self.entries@[j].0@ == k);
                    }
                }
                assert forall|j: int| 0 <= j < self.entries@.len() implies #[trigger] self.contents@.contains_key(
                    self.entries@[j].0@,
                ) && self.contents@[self.entries@[j].0@] == self.entries@[j].1@ by {
                    if j < n {
                        assert(old(self).contents@.contains_key(before[j].0@));
                    }
                }
            },
        }
    }
}

/// The next thing an artist resolution needs.
pub enum ArtistStep {
    /// Resolution is over.
    Done(ArtistData),
    /// Search the service by exact name.
    SearchExact,
    /// Search the service by alias.
    SearchAlias,
}

fn artist_of_hit(hit: &ArtistHit) -> (r: ArtistData)
    ensures
        r@ == (hit.name@, Some(hit.id)),
{
    ArtistData { artist_tag: hit.name.clone(), mbid: Some(hit.id) }
}

/// Resolves artist texts to canonical artists, remembering each resolution.
pub struct ArtistResolver {
    pub cache: ArtistCache,
}

impl ArtistResolver {
    pub fn new() -> (r: ArtistResolver)
        ensures
            r.cache.well_formed(),
            r.cache@ == Map::<Seq<char>, ArtistView>::empty(),
    {
        ArtistResolver { cache: ArtistCache::new() }
    }

    /// First step for `name`: the stored resolution, or an exact search.
    pub fn begin(&self, name: &String) -> (r: ArtistStep)
        requires
            self.cache.well_formed(),
        ensures
            match r {
                ArtistStep::Done(d) => self.cache@.contains_key(name@) && d@ == self.cache@[name@],
                ArtistStep::SearchExact => !self.cache@.contains_key(name@),
                ArtistStep::SearchAlias => false,
            },
    {
        match self.cache.get(name) {
            Some(d) => ArtistStep::Done(d),
            None => ArtistStep::SearchExact,
        }
    }

    /// Takes the exact-search hits: the first one resolves `name` and is stored;
    /// none asks for an alias search.
    pub fn exact_results(&mut self, name: &String, hits: &Vec<ArtistHit>) -> (r: ArtistStep)
        requires
            old(self).cache.well_formed(),
        ensures
            final(self).cache.well_formed(),
            match r {
                ArtistStep::Done(d) => hits@.len() > 0 && d@ == first_hit(hits@)->0
                    && final(self).cache@ == old(self).cache@.insert(name@, d@),
                ArtistStep::SearchAlias => hits@.len() == 0 && final(self).cache@ == old(
                    self,
                ).cache@,
                ArtistStep::SearchExact => false,
            },
    {
        if hits.len() > 0 {
            let d = artist_of_hit(&hits[0]);
            let stored = artist_of_hit(&hits[0]);
            self.cache.insert(name, stored);
            ArtistStep::Done(d)
        } else {
            ArtistStep::SearchAlias
        }
    }

    /// Takes the alias-search hits after an empty exact search: the first one
    /// resolves `name`; with none, `name` stands as it is, without identifier.
    /// The result is stored either way.
    pub fn alias_results(&mut self, name: &String, hits: &Vec<ArtistHit>) -> (r: ArtistData)
        requires
            old(self).cache.well_formed(),
        ensures
            final(self).cache.well_formed(),
            r@ == resolved_artist(name@, Seq::empty(), hits@),
            final(self).cache@ == old(self).cache@.insert(name@, r@),
            r.mbid is None ==> r.artist_tag@ == name@,
    {
        let (d, stored) = if hits.len() > 0 {
            (artist_of_hit(&hits[0]), artist_of_hit(&hits[0]))
        } else {
            (
                ArtistData { artist_tag: name.clone(), mbid: None },
                ArtistData { artist_tag: name.clone(), mbid: None },
            )
        };
        self.cache.insert(name, stored);
        d
    }
}

/// Resolving an artist a second time is answered from the memo with the same
/// artist, without a search, and leaves the memo as it was. An artist resolved
/// without identifier keeps the text it was asked for.
pub proof fn lemma_resolution_memoized(
    memo: Map<Seq<char>, ArtistView>,
    name: Seq<char>,
    exact: Seq<ArtistHit>,
    alias: Seq<ArtistHit>,
)
    ensures
        ({
            let d = resolved_artist(name, exact, alias);
            let after = memo.insert(name, d);
            &&& after.contains_key(name)
            &&& after[name] == d
            &&& after.insert(name, after[name]) == after
            &&& d.1 is None ==> d.0 == name
        }),
{
    let d = resolved_artist(name, exact, alias);
    let after = memo.insert(name, d);
    assert(after.insert(name, after[name]) =~= after);
}

} // verus!
