//! The playlist cache: a store of the last fetched contents of each playlist,
//! and the decision whether to reuse a stored record.
use vstd::prelude::*;
use crate::ids::{from_serializable, valid_id, CacheError, DeconstructedId, IdView, PlayableId};
use chrono::Utc;
use humantime::format_duration;
use std::time::Duration;

verus! {

/// Model of a cached record: its identifiers in fetch order and the second
/// (Unix time) at which they were fetched.
pub struct RecordView {
    pub ids: Seq<IdView>,
    pub time: int,
}

/// The contents of one playlist as last fetched.
#[derive(Clone, Debug)]
pub struct CachedPlaylist {
    pub ids: Vec<DeconstructedId>,
    /// Fetch time, in seconds since the Unix epoch.
    pub time: i64,
}

impl View for CachedPlaylist {
    type V = RecordView;

    open spec fn view(&self) -> RecordView {
        RecordView { ids: ids_view(self.ids@), time: self.time as int }
    }
}

/// The models of a sequence of serializable identifiers.
pub open spec fn ids_view(ids: Seq<DeconstructedId>) -> Seq<IdView> {
    ids.map_values(|d: DeconstructedId| d@)
}

/// The store after saving `ids`, fetched at `time`, under `key`.
pub open spec fn saved(
    store: Map<Seq<char>, RecordView>,
    key: Seq<char>,
    ids: Seq<IdView>,
    time: int,
) -> Map<Seq<char>, RecordView> {
    store.insert(key, RecordView { ids, time })
}

/// A map from playlist id to the record of its last fetch.
pub struct PlaylistCache {
    keys: Vec<String>,
    records: Vec<CachedPlaylist>,
    contents: Ghost<Map<Seq<char>, RecordView>>,
}

impl View for PlaylistCache {
    type V = Map<Seq<char>, RecordView>;

    closed spec fn view(&self) -> Map<Seq<char>, RecordView> {
        self.contents@
    }
}

impl PlaylistCache {
    /// Keys are unique, and the stored pairs are exactly the model's entries.
    pub closed spec fn wf(&self) -> bool {
        &&& self.keys.len() == self.records.len()
        &&& forall|i: int, j: int|
            0 <= i < j < self.keys.len() ==> #[trigger] self.keys[i]@ != #[trigger] self.keys[j]@
        &&& forall|i: int|
            0 <= i < self.keys.len() ==> #[trigger] self.contents@.contains_key(self.keys[i]@)
                && self.contents@[self.keys[i]@] == self.records[i]@
        &&& forall|k: Seq<char>|
            #[trigger] self.contents@.contains_key(k) ==> exists|i: int|
                0 <= i < self.keys.len() && #[trigger] self.keys[i]@ == k
    }

    /// An empty store: the state of a cold cache.
    pub fn new() -> (r: PlaylistCache)
        ensures
            r.wf(),
            r@ == Map::<Seq<char>, RecordView>::empty(),
    {
        PlaylistCache { keys: Vec::new(), records: Vec::new(), contents: Ghost(Map::empty()) }
    }

    /// The position of `key` among the stored keys, if it is there.
    fn find(&self, key: &str) -> (r: Option<usize>)
        requires
            self.wf(),
        ensures
            match r {
                Some(i) => i < self.keys.len() && self.keys[i as int]@ == key@,
                None => !self@.contains_key(key@),
            },
    {
        let wanted = key.to_owned();
        let mut i: usize = 0;
        while i < self.keys.len()
            invariant
                self.wf(),
                wanted@ == key@,
                i <= self.keys.len(),
                forall|j: int| 0 <= j < i ==> self.keys[j]@ != key@,
            decreases self.keys.len() - i,
        {
            if self.keys[i] == wanted {
                return Some(i);
            }
            i = i + 1;
        }
        None
    }

    /// The record stored under `key`, if any.
    pub fn get(&self, key: &str) -> (r: Option<&CachedPlaylist>)
        requires
            self.wf(),
        ensures
            r is Some <==> self@.contains_key(key@),
            r matches Some(c) ==> c@ == self@[key@],
    {
        match self.find(key) {
            Some(i) => {
                assert(self@.contains_key(self.keys[i as int]@));
                Some(&self.records[i])
            },
            None => None,
        }
    }

    /// The number of stored records.
    pub fn len(&self) -> (r: usize)
        requires
            self.wf(),
        ensures
            r == self@.dom().len(),
    {
        proof {
            self.lemma_len();
        }
        self.keys.len()
    }

    proof fn lemma_len(&self)
        requires
            self.wf(),
        ensures
            self.keys.len() == self@.dom().len(),
    {
        let ks = self.keys@.map_values(|s: String| s@);
        assert(ks.no_duplicates()) by {
            assert forall|i: int, j: int| 0 <= i < ks.len() && 0 <= j < ks.len() && i != j implies ks[i]
                != ks[j] by {
                if i < j {
                    assert(self.keys[i]@ != self.keys[j]@);
                } else {
                    assert(self.keys[j]@ != self.keys[i]@);
                }
            }
        }
        assert(ks.to_set() =~= self@.dom()) by {
            assert forall|k: Seq<char>| #[trigger] self@.dom().contains(k) implies ks.to_set().contains(k) by {
                let i = choose|i: int| 0 <= i < self.keys.len() && #[trigger] self.keys[i]@ == k;
                assert(ks[i] == k);
            }
        }
        ks.unique_seq_to_set();
    }

    /// The `i`-th stored key and its record, in an order of the store's own.
    pub fn entry(&self, i: usize) -> (r: (&String, &CachedPlaylist))
        requires
            self.wf(),
            i < self@.dom().len(),
        ensures
            self@.contains_key(r.0@),
            self@[r.0@] == r.1@,
    {
        proof {
            self.lemma_len();
        }
        (&self.keys[i], &self.records[i])
    }

    /// Stores `record` under `key`, replacing any record stored there before.
    pub fn insert(&mut self, key: String, record: CachedPlaylist)
        requires
            old(self).wf(),
        ensures
            final(self).wf(),
            final(self)@ == old(self)@.insert(key@, record@),
    {
        let ghost k = key@;
        let ghost r = record@;
        let ghost before = self.contents@;
        let ghost old_keys = self.keys@;
        let ghost old_records = self.records@;
        match self.find(key.as_str()) {
            Some(i) => {
                self.records[i] = record;
                self.contents = Ghost(before.insert(k, r));
                assert forall|j: int| 0 <= j < self.keys.len() implies #[trigger] self.contents@.contains_key(
                    self.keys[j]@,
                ) && self.contents@[self.keys[j]@] == self.records[j]@ by {
                    assert(before.contains_key(old_keys[j]@));
                    if j != i {
                        if j < i {
                            assert(self.keys[j]@ != self.keys[i as int]@);
                        } else {
                            assert(self.keys[i as int]@ != self.keys[j]@);
                        }
                    }
                }
                assert forall|q: Seq<char>| #[trigger] self.contents@.contains_key(q) implies exists|j: int|
                    0 <= j < self.keys.len() && #[trigger] self.keys[j]@ == q by {
                    if q == k {
                        assert(self.keys[i as int]@ == q);
                    } else {
                        assert(before.contains_key(q));
                        let j = choose|j: int| 0 <= j < old_keys.len() && #[trigger] old_keys[j]@ == q;
                        assert(self.keys[j]@ == q);
                    }
                }
            },
            None => {
                self.keys.push(key);
                self.records.push(record);
                self.contents = Ghost(before.insert(k, r));
                let ghost n = self.keys.len() - 1;
                assert forall|a: int, b: int|
                    0 <= a < b < self.keys.len() implies #[trigger] self.keys[a]@
                    != #[trigger] self.keys[b]@ by {
                    if b == n {
                        assert(before.contains_key(old_keys[a]@));
                    } else {
                        assert(old_keys[a]@ != old_keys[b]@);
                    }
                }
                assert forall|j: int| 0 <= j < self.keys.len() implies #[trigger] self.contents@.contains_key(
                    self.keys[j]@,
                ) && self.contents@[self.keys[j]@] == self.records[j]@ by {
                    if j < n {
                        assert(before.contains_key(old_keys[j]@));
                    }
                }
                assert forall|q: Seq<char>| #[trigger] self.contents@.contains_key(q) implies exists|j: int|
                    0 <= j < self.keys.len() && #[trigger] self.keys[j]@ == q by {
                    if q == k {
                        assert(self.keys[n]@ == q);
                    } else {
                        assert(before.contains_key(q));
                        let j = choose|j: int| 0 <= j < old_keys.len() && #[trigger] old_keys[j]@ == q;
                        assert(self.keys[j]@ == q);
                    }
                }
            },
        }
    }
}

/// What `humantime::format_duration` writes for a span of `secs` seconds.
pub uninterp spec fn duration_text(secs: nat) -> Seq<char>;

/// Relies on humantime's `format_duration`: the text it writes for a whole
/// number of seconds depends on that number alone.
#[verifier::external_body]
fn format_age(secs: u64) -> (r: String)
    ensures
        r@ == duration_text(secs as nat),
{
    format_duration(Duration::from_secs(secs)).to_string()
}

/// Relies on chrono's `Utc::now`: the current time, in whole seconds since
/// the Unix epoch. Nothing is known of its value.
#[verifier::external_body]
fn now_timestamp() -> (r: i64) {
    Utc::now().timestamp()
}

/// The age of a record fetched at `time`, seen at `now`; a record from the
/// future (clock skew) has age zero.
pub open spec fn age_of(now: int, time: int) -> int {
    if now > time {
        now - time
    } else {
        0
    }
}

/// Model of a cache decision.
pub enum DecisionView {
    NoEntry,
    Confirm { age_secs: int, age_text: Seq<char> },
    Declined,
    Use(Seq<IdView>),
}

/// The outcome of looking a playlist up in the cache.
#[derive(Debug)]
pub enum CacheDecision {
    /// The store holds no record for the playlist.
    NoEntry,
    /// A record exists and nobody has said whether to use it: ask, showing
    /// its age, then decide again with the answer.
    Confirm { age_secs: u64, age_text: String },
    /// A record exists and was declined.
    Declined,
    /// The record's items, rebuilt as live identifiers, in stored order.
    Use(Vec<PlayableId>),
}

impl View for CacheDecision {
    type V = DecisionView;

    open spec fn view(&self) -> DecisionView {
        match self {
            CacheDecision::NoEntry => DecisionView::NoEntry,
            CacheDecision::Confirm { age_secs, age_text } => DecisionView::Confirm {
                age_secs: *age_secs as int,
                age_text: age_text@,
            },
            CacheDecision::Declined => DecisionView::Declined,
            CacheDecision::Use(v) => DecisionView::Use(v@.map_values(|p: PlayableId| p@)),
        }
    }
}

/// Whether every identifier of a record can be rebuilt.
pub open spec fn all_valid(ids: Seq<IdView>) -> bool {
    forall|i: int| 0 <= i < ids.len() ==> valid_id(#[trigger] ids[i].id)
}

/// The decision for `key` in `store` at time `now`, given the caller's
/// explicit choice, if any.
pub open spec fn decision(
    store: Map<Seq<char>, RecordView>,
    key: Seq<char>,
    use_cache: Option<bool>,
    now: int,
) -> Result<DecisionView, CacheError> {
    if !store.contains_key(key) {
        Ok(DecisionView::NoEntry)
    } else {
        let rec = store[key];
        match use_cache {
            None => Ok(
                DecisionView::Confirm {
                    age_secs: age_of(now, rec.time),
                    age_text: duration_text(age_of(now, rec.time) as nat),
                },
            ),
            Some(false) => Ok(DecisionView::Declined),
            Some(true) => if all_valid(rec.ids) {
                Ok(DecisionView::Use(rec.ids))
            } else {
                Err(CacheError::MalformedIdentifier)
            },
        }
    }
}

/// Whether an executable result stands for a modelled one.
pub open spec fn decided(r: Result<CacheDecision, CacheError>, d: Result<DecisionView, CacheError>) -> bool {
    match r {
        Ok(c) => d == Ok::<DecisionView, CacheError>(c@),
        Err(e) => d == Err::<DecisionView, CacheError>(e),
    }
}

/// Seconds between `time` and `now`, zero when `time` lies ahead.
pub fn record_age(now: i64, time: i64) -> (r: u64)
    ensures
        r as int == age_of(now as int, time as int),
{
    if now > time {
        (now as i128 - time as i128) as u64
    } else {
        0
    }
}

/// Rebuilds every identifier of a record, failing on the first one that is
/// not valid for its kind.
pub fn restore_all(ids: &Vec<DeconstructedId>) -> (r: Result<Vec<PlayableId>, CacheError>)
    ensures
        r is Ok <==> all_valid(ids_view(ids@)),
        r matches Ok(v) ==> v@.map_values(|p: PlayableId| p@) == ids_view(ids@),
        r matches Err(e) ==> e == CacheError::MalformedIdentifier,
{
    let ghost model = ids_view(ids@);
    let mut out: Vec<PlayableId> = Vec::new();
    let mut i: usize = 0;
    while i < ids.len()
        invariant
            i <= ids.len(),
            model == ids_view(ids@),
            out.len() == i,
            forall|j: int| 0 <= j < i ==> (#[trigger] out[j])@ == model[j],
            forall|j: int| 0 <= j < i ==> valid_id(#[trigger] model[j].id),
        decreases ids.len() - i,
    {
        match from_serializable(&ids[i]) {
            Ok(p) => {
                out.push(p);
            },
            Err(e) => {
                assert(!valid_id(model[i as int].id));
                return Err(e);
            },
        }
        i = i + 1;
    }
    assert(out@.map_values(|p: PlayableId| p@) =~= model);
    Ok(out)
}

/// Looks `playlist_id` up in `store` as of `now` and decides whether to reuse
/// its record: an explicit `use_cache` is honoured; without one the caller is
/// asked to confirm, given the record's age.
pub fn decide_cache(playlist_id: &str, use_cache: Option<bool>, store: &PlaylistCache, now: i64) -> (r:
    Result<CacheDecision, CacheError>)
    requires
        store.wf(),
    ensures
        decided(r, decision(store@, playlist_id@, use_cache, now as int)),
{
    match store.get(playlist_id) {
        None => Ok(CacheDecision::NoEntry),
        Some(rec) => match use_cache {
            None => {
                let age_secs = record_age(now, rec.time);
                let age_text = format_age(age_secs);
                Ok(CacheDecision::Confirm { age_secs, age_text })
            },
            Some(false) => Ok(CacheDecision::Declined),
            Some(true) => match restore_all(&rec.ids) {
                Ok(v) => Ok(CacheDecision::Use(v)),
                Err(e) => Err(e),
            },
        },
    }
}

/// `decide_cache` as of the current time.
pub fn handle_cache(playlist_id: &str, use_cache: Option<bool>, store: &PlaylistCache) -> (r: Result<
    CacheDecision,
    CacheError,
>)
    requires
        store.wf(),
    ensures
        exists|now: i64| #[trigger] decided(r, decision(store@, playlist_id@, use_cache, now as int)),
{
    let now = now_timestamp();
    let r = decide_cache(playlist_id, use_cache, store, now);
    assert(decided(r, decision(store@, playlist_id@, use_cache, now as int)));
    r
}

/// Saves `ids`, fetched at `time`, as the record of `playlist_id`, replacing
/// the one stored before and leaving every other playlist's record as it was.
pub fn store_record(store: &mut PlaylistCache, playlist_id: String, ids: Vec<DeconstructedId>, time: i64)
    requires
        old(store).wf(),
    ensures
        final(store).wf(),
        final(store)@ == saved(
            old(store)@,
            playlist_id@,
            ids_view(ids@),
            time as int,
        ),
{
    store.insert(playlist_id, CachedPlaylist { ids, time });
}

/// `store_record` stamped with the current time.
pub fn cache_playlist(store: &mut PlaylistCache, playlist_id: String, ids: Vec<DeconstructedId>)
    requires
        old(store).wf(),
    ensures
        final(store).wf(),
        exists|time: i64|
            final(store)@ == #[trigger] saved(
                old(store)@,
                playlist_id@,
                ids_view(ids@),
                time as int,
            ),
{
    let now = now_timestamp();
    store_record(store, playlist_id, ids, now);
}

/// Saving twice under one playlist id leaves a single record for it, the one
/// of the second save.
pub proof fn lemma_save_overwrites(
    store: Map<Seq<char>, RecordView>,
    key: Seq<char>,
    first: Seq<IdView>,
    first_time: int,
    second: Seq<IdView>,
    second_time: int,
)
    ensures
        saved(saved(store, key, first, first_time), key, second, second_time) == saved(
            store,
            key,
            second,
            second_time,
        ),
        saved(saved(store, key, first, first_time), key, second, second_time).dom() == store.dom().insert(key),
        saved(saved(store, key, first, first_time), key, second, second_time)[key] == (RecordView { ids: second, time: second_time }),
{
    assert(saved(saved(store, key, first, first_time), key, second, second_time) =~= saved(
        store,
        key,
        second,
        second_time,
    ));
}

/// A record saved from valid identifiers comes back whole when its use is
/// asked for explicitly, whatever the time.
pub proof fn lemma_saved_record_restores(
    store: Map<Seq<char>, RecordView>,
    key: Seq<char>,
    ids: Seq<IdView>,
    time: int,
    now: int,
)
    requires
        all_valid(ids),
    ensures
        decision(saved(store, key, ids, time), key, Some(true), now) == Ok::<DecisionView, CacheError>(
            DecisionView::Use(ids),
        ),
{
}

/// Saving a record for one playlist leaves the record of any other playlist
/// in place and unchanged.
pub proof fn lemma_save_isolated(
    store: Map<Seq<char>, RecordView>,
    key: Seq<char>,
    ids: Seq<IdView>,
    time: int,
    other: Seq<char>,
)
    requires
        other != key,
        store.contains_key(other),
    ensures
        saved(store, key, ids, time).contains_key(other),
        saved(store, key, ids, time)[other] == store[other],
{
}

} // verus!
