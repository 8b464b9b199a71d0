//! Pools of unique names and the random sampling of records from them.
use vstd::prelude::*;

use crate::corpus::{
    cardinality, corpus_cardinality, is_phrase, random_phrase, title_case, title_words, PoolError,
};
use crate::query::Scrobble;
use crate::rng::{entropy_rng, random_below};

verus! {

/// Consecutive repeated draws allowed, per phrase the corpus can form, before
/// drawing gives up: the chance of that many repeats while a fresh phrase is
/// left is below e to the minus this many.
pub const REPEATS_PER_PHRASE: u128 = 64;

/// Words in an artist or album name.
pub const LONG_NAME_WORDS: u8 = 3;

/// Words in a track name.
pub const SHORT_NAME_WORDS: u8 = 2;

/// A phrase of lower-case words: letters `a` to `z` and spaces only.
pub open spec fn is_lower_text(p: Seq<char>) -> bool {
    forall|i: int| 0 <= i < p.len() ==> p[i] == ' ' || 'a' <= #[trigger] p[i] <= 'z'
}

/// `s` is the title casing of a lower-case phrase of `words` corpus words.
pub open spec fn is_title_phrase(s: Seq<char>, words: nat) -> bool {
    exists|p: Seq<char>| is_phrase(p, words) && is_lower_text(p) && s == title_words(p)
}

/// No two names of `v` are equal.
pub open spec fn all_distinct(v: Seq<String>) -> bool {
    forall|i: int, j: int| 0 <= i < j < v.len() ==> v[i]@ != v[j]@
}

/// `v` holds exactly `count` distinct title-cased phrases of `words` words.
pub open spec fn is_name_pool(v: Seq<String>, count: nat, words: nat) -> bool {
    &&& v.len() == count
    &&& all_distinct(v)
    &&& forall|i: int| 0 <= i < v.len() ==> is_title_phrase(#[trigger] v[i]@, words)
}

/// `s` is one of the names of `v`.
pub open spec fn is_in(v: Seq<String>, s: Seq<char>) -> bool {
    exists|i: int| 0 <= i < v.len() && v[i]@ == s
}

fn contains_name(names: &Vec<String>, name: &String) -> (r: bool)
    ensures
        r == is_in(names@, name@),
{
    let mut i: usize = 0;
    while i < names.len()
        invariant
            i <= names.len(),
            forall|j: int| 0 <= j < i ==> names@[j]@ != name@,
        decreases names.len() - i,
    {
        if names[i] == *name {
            return true;
        }
        i = i + 1;
    }
    false
}

/// Adds `name` to `names` unless an equal name is already there; tells
/// whether it was added.
pub fn add_unique(names: &mut Vec<String>, name: String) -> (added: bool)
    ensures
        added == !is_in(old(names)@, name@),
        added ==> final(names)@ == old(names)@.push(name),
        !added ==> final(names)@ == old(names)@,
{
    if contains_name(names, &name) {
        false
    } else {
        names.push(name);
        true
    }
}

/// Records one drawn name: adds it to `names` when it is new, which resets
/// the count of repeated draws in a row to 0; otherwise counts one more
/// repeat, and gives up with `DrawLimit` once `repeats` has reached `limit`.
pub fn record_draw(names: &mut Vec<String>, name: String, repeats: u128, limit: u128) -> (r: Result<
    u128,
    PoolError,
>)
    ensures
        !is_in(old(names)@, name@) ==> r == Ok::<u128, PoolError>(0) && final(names)@ == old(
            names,
        )@.push(name),
        is_in(old(names)@, name@) && repeats < limit ==> r == Ok::<u128, PoolError>(
            (repeats + 1) as u128,
        ) && final(names)@ == old(names)@,
        is_in(old(names)@, name@) && repeats >= limit ==> r == Err::<u128, PoolError>(
            PoolError::DrawLimit,
        ) && final(names)@ == old(names)@,
{
    if add_unique(names, name) {
        Ok(0)
    } else if repeats >= limit {
        Err(PoolError::DrawLimit)
    } else {
        Ok(repeats + 1)
    }
}

/// Draws `count` distinct title-cased names of `words` corpus words each.
///
/// Fails with `InsufficientCorpus`, before drawing anything, exactly when the
/// corpus cannot form `count` distinct phrases of that length. Otherwise it
/// draws until the pool is full, and gives up with `DrawLimit` only after
/// `REPEATS_PER_PHRASE` times the cardinality of draws in a row that all
/// repeated a name already taken, as `record_draw` decides. Where it fails
/// fast or is asked for no names, it leaves `rng` as it was.
pub fn random_vec(rng: &mut rand::rngs::SmallRng, count: usize, words: u8) -> (r: Result<
    Vec<String>,
    PoolError,
>)
    ensures
        match r {
            Ok(v) => count <= cardinality(words as nat) && is_name_pool(v@, count as nat, words as nat),
            Err(e) => (e == PoolError::InsufficientCorpus && count > cardinality(words as nat)) || (
            e == PoolError::DrawLimit && 0 < count <= cardinality(words as nat)),
        },
        count > cardinality(words as nat) || count == 0 ==> *final(rng) == *old(rng),
{
    let available = corpus_cardinality(words);
    if count as u128 > available {
        return Err(PoolError::InsufficientCorpus);
    }
    if count == 0 {
        return Ok(Vec::new());
    }
    let limit: u128 = if available > u128::MAX / REPEATS_PER_PHRASE {
        u128::MAX
    } else {
        available * REPEATS_PER_PHRASE
    };
    let mut names: Vec<String> = Vec::new();
    let mut repeats: u128 = 0;
    while names.len() < count
        invariant
            names.len() <= count,
            count <= cardinality(words as nat),
            repeats <= limit,
            all_distinct(names@),
            forall|i: int| 0 <= i < names.len() ==> is_title_phrase(#[trigger] names@[i]@, words as nat),
        decreases count - names.len(), limit - repeats,
    {
        let phrase = random_phrase(rng, words);
        let name = title_case(phrase.as_str());
        assert(is_title_phrase(name@, words as nat));
        let ghost before = names@;
        match record_draw(&mut names, name, repeats, limit) {
            Ok(n) => {
                proof {
                    if names@.len() > before.len() {
                        assert forall|i: int, j: int|
                            0 <= i < j < names@.len() implies names@[i]@ != names@[j]@ by {
                            if j == before.len() {
                                assert(!is_in(before, names@[j]@));
                                assert(before[i] == names@[i]);
                            }
                        }
                        assert(forall|i: int| 0 <= i < before.len() ==> names@[i] == before[i]);
                    }
                }
                repeats = n;
            },
            Err(e) => {
                return Err(e);
            },
        }
    }
    Ok(names)
}

/// The three name pools: artists and albums of three words, tracks of two.
/// Names are unique within a pool; the pools may share names.
pub struct RandomData {
    artists: Vec<String>,
    albums: Vec<String>,
    tracks: Vec<String>,
}

/// The outcome of building pools of the given sizes, by the counts alone:
/// `Ok(())` where building may succeed, else the error it must give.
pub open spec fn pools_outcome(artist_count: nat, album_count: nat, track_count: nat) -> Result<
    (),
    PoolError,
> {
    if artist_count == 0 || album_count == 0 || track_count == 0 {
        Err(PoolError::EmptyPool)
    } else if artist_count > cardinality(LONG_NAME_WORDS as nat) || album_count > cardinality(
        LONG_NAME_WORDS as nat,
    ) || track_count > cardinality(SHORT_NAME_WORDS as nat) {
        Err(PoolError::InsufficientCorpus)
    } else {
        Ok(())
    }
}

/// `r` is what building pools of the given sizes may give: pools of exactly
/// those sizes where the counts allow it, and otherwise the error that the
/// counts call for; `DrawLimit` only where the counts allow the pools.
pub open spec fn built_as_asked(
    r: Result<RandomData, PoolError>,
    artist_count: nat,
    album_count: nat,
    track_count: nat,
) -> bool {
    let outcome = pools_outcome(artist_count, album_count, track_count);
    match r {
        Ok(d) => {
            &&& outcome == Ok::<(), PoolError>(())
            &&& d.wf()
            &&& d.artist_names().len() == artist_count
            &&& d.album_names().len() == album_count
            &&& d.track_names().len() == track_count
        },
        Err(e) => outcome == Err::<(), PoolError>(e) || (outcome == Ok::<(), PoolError>(()) && e
            == PoolError::DrawLimit),
    }
}

impl RandomData {
    /// Every pool is non-empty and holds unique names of its word count.
    pub open spec fn wf(&self) -> bool {
        &&& self.artist_names().len() > 0
        &&& self.album_names().len() > 0
        &&& self.track_names().len() > 0
        &&& is_name_pool(self.artist_names(), self.artist_names().len() as nat, LONG_NAME_WORDS as nat)
        &&& is_name_pool(self.album_names(), self.album_names().len() as nat, LONG_NAME_WORDS as nat)
        &&& is_name_pool(self.track_names(), self.track_names().len() as nat, SHORT_NAME_WORDS as nat)
    }

    /// The artist pool.
    pub closed spec fn artist_names(&self) -> Seq<String> {
        self.artists@
    }

    /// The album pool.
    pub closed spec fn album_names(&self) -> Seq<String> {
        self.albums@
    }

    /// The track pool.
    pub closed spec fn track_names(&self) -> Seq<String> {
        self.tracks@
    }

    /// Builds `artist_count` unique artists, `album_count` unique albums and
    /// `track_count` unique tracks, drawing with `rng`.
    ///
    /// Fails with `EmptyPool` where a count is zero and with
    /// `InsufficientCorpus` where the corpus cannot form a count, both
    /// before drawing anything.
    pub fn with_rng(
        rng: &mut rand::rngs::SmallRng,
        artist_count: usize,
        album_count: usize,
        track_count: usize,
    ) -> (r: Result<Self, PoolError>)
        ensures
            built_as_asked(r, artist_count as nat, album_count as nat, track_count as nat),
            pools_outcome(artist_count as nat, album_count as nat, track_count as nat) is Err
                ==> *final(rng) == *old(rng),
    {
        if artist_count == 0 || album_count == 0 || track_count == 0 {
            return Err(PoolError::EmptyPool);
        }
        let long_available = corpus_cardinality(LONG_NAME_WORDS);
        let short_available = corpus_cardinality(SHORT_NAME_WORDS);
        if artist_count as u128 > long_available || album_count as u128 > long_available
            || track_count as u128 > short_available {
            return Err(PoolError::InsufficientCorpus);
        }
        let artists = match random_vec(rng, artist_count, LONG_NAME_WORDS) {
            Ok(v) => v,
            Err(e) => return Err(e),
        };
        let albums = match random_vec(rng, album_count, LONG_NAME_WORDS) {
            Ok(v) => v,
            Err(e) => return Err(e),
        };
        let tracks = match random_vec(rng, track_count, SHORT_NAME_WORDS) {
            Ok(v) => v,
            Err(e) => return Err(e),
        };
        Ok(RandomData { artists, albums, tracks })
    }

    /// Builds the pools as `with_rng` does, with a generator seeded from the
    /// operating system.
    pub fn new(artist_count: usize, album_count: usize, track_count: usize) -> (r: Result<
        Self,
        PoolError,
    >)
        ensures
            built_as_asked(r, artist_count as nat, album_count as nat, track_count as nat),
    {
        let mut rng = entropy_rng();
        Self::with_rng(&mut rng, artist_count, album_count, track_count)
    }

    /// The artist names.
    pub fn artists(&self) -> (r: &Vec<String>)
        ensures
            r@ == self.artist_names(),
    {
        &self.artists
    }

    /// The album names.
    pub fn albums(&self) -> (r: &Vec<String>)
        ensures
            r@ == self.album_names(),
    {
        &self.albums
    }

    /// The track names.
    pub fn tracks(&self) -> (r: &Vec<String>)
        ensures
            r@ == self.track_names(),
    {
        &self.tracks
    }

    /// The scrobble of the artist, album and track at the given positions.
    pub fn scrobble_at(&self, artist: usize, album: usize, track: usize) -> (r: Scrobble<'_>)
        requires
            artist < self.artist_names().len(),
            album < self.album_names().len(),
            track < self.track_names().len(),
        ensures
            r.artist@ == self.artist_names()[artist as int]@,
            r.album@ == self.album_names()[album as int]@,
            r.track@ == self.track_names()[track as int]@,
    {
        Scrobble {
            artist: self.artists[artist].as_str(),
            album: self.albums[album].as_str(),
            track: self.tracks[track].as_str(),
        }
    }

    /// A scrobble whose artist, album and track are each drawn with `rng`,
    /// uniformly and independently, from their pool.
    pub fn random_scrobble_with(&self, rng: &mut rand::rngs::SmallRng) -> (r: Scrobble<'_>)
        requires
            self.wf(),
        ensures
            self.drawn_from(r),
    {
        let artist = random_below(rng, self.artists.len());
        let album = random_below(rng, self.albums.len());
        let track = random_below(rng, self.tracks.len());
        self.scrobble_at(artist, album, track)
    }

    /// A scrobble drawn as `random_scrobble_with` does, with a generator
    /// seeded from the operating system.
    pub fn random_scrobble(&self) -> (r: Scrobble<'_>)
        requires
            self.wf(),
        ensures
            self.drawn_from(r),
    {
        let mut rng = entropy_rng();
        self.random_scrobble_with(&mut rng)
    }

    /// Each field of `s` is a name of its pool.
    pub open spec fn drawn_from(&self, s: Scrobble) -> bool {
        &&& is_in(self.artist_names(), s.artist@)
        &&& is_in(self.album_names(), s.album@)
        &&& is_in(self.track_names(), s.track@)
    }
}

} // verus!
