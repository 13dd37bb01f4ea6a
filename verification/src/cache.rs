//! The read-through cache: one snapshot of the station list, the instant it
//! was taken, and the rules that decide when it has to be taken again.

use vstd::prelude::*;
use crate::api::{station_views, StationStatus, StationView, StatusApiData};
use crate::instant::{Timestamp, TTL_NANOS};
use crate::matcher::{filter_matches, is_match, name_matches};

verus! {

/// Why a lookup or an archival run failed.
#[derive(Debug, PartialEq, Eq)]
pub enum CacheError {
    /// The upstream feed could not be read: transport, timeout or decoding.
    SourceUnavailable(String),
    /// The archive refused a snapshot. Never the outcome of a lookup.
    ArchivalFailure(String),
}

/// A [`CacheError`] with its cause as a sequence of characters.
pub ghost enum CacheErrorView {
    SourceUnavailable(Seq<char>),
    ArchivalFailure(Seq<char>),
}

impl View for CacheError {
    type V = CacheErrorView;

    open spec fn view(&self) -> CacheErrorView {
        match self {
            CacheError::SourceUnavailable(cause) => CacheErrorView::SourceUnavailable(cause@),
            CacheError::ArchivalFailure(cause) => CacheErrorView::ArchivalFailure(cause@),
        }
    }
}

impl CacheErrorView {
    /// The cause, as the collaborator that failed worded it.
    pub open spec fn message(self) -> Seq<char> {
        match self {
            CacheErrorView::SourceUnavailable(cause) => cause,
            CacheErrorView::ArchivalFailure(cause) => cause,
        }
    }
}

impl CacheError {
    /// The cause, as the collaborator that failed worded it.
    pub fn message(&self) -> (text: String)
        ensures
            text@ == self@.message(),
    {
        match self {
            CacheError::SourceUnavailable(cause) => cause.clone(),
            CacheError::ArchivalFailure(cause) => cause.clone(),
        }
    }
}

/// What a lookup has to do before it can answer.
#[derive(Clone, Copy, Debug, PartialEq, Eq, Structural)]
pub enum Step {
    /// Ask the upstream feed, then hand the outcome to the cache.
    Fetch,
    /// Answer from the snapshot as it stands.
    Serve,
}

/// The outcome of asking the upstream feed, as the cache's model sees it.
pub type OutcomeView = Result<Seq<StationView>, CacheErrorView>;

/// The answer to a lookup, as the cache's model sees it: the stations that
/// passed the filter and the instant of their snapshot, or the failure.
pub type AnswerView = Result<(Seq<StationView>, int), CacheErrorView>;

/// The model of an upstream outcome.
pub open spec fn outcome_view(outcome: Result<StatusApiData, CacheError>) -> OutcomeView {
    match outcome {
        Ok(data) => Ok(data@),
        Err(error) => Err(error@),
    }
}

/// The model of a lookup's answer.
pub open spec fn answer_view(answer: Result<(Vec<StationStatus>, Timestamp), CacheError>)
    -> AnswerView {
    match answer {
        Ok((stations, timestamp)) => Ok((station_views(stations@), timestamp@)),
        Err(error) => Err(error@),
    }
}

/// The model of an optional name filter.
pub open spec fn filter_view(name: Option<&str>) -> Option<Seq<char>> {
    match name {
        Some(query) => Some(query@),
        None => None,
    }
}

/// The stations of `entries` that answer `filter`, in the order of `entries`.
pub open spec fn matching(entries: Seq<StationView>, filter: Option<Seq<char>>) -> Seq<
    StationView,
> {
    entries.filter(|s: StationView| filter_matches(filter, s.name))
}

/// The model of a [`Cache`]: the snapshot, and whether it may still be served.
pub ghost struct CacheView {
    /// The instant of the last successful refresh; the epoch before the first.
    pub timestamp: int,
    /// The stations of the last successful refresh, in upstream order.
    pub entries: Seq<StationView>,
    /// False before the first refresh and after an invalidation.
    pub valid: bool,
}

impl CacheView {
    /// The cache at process start: never refreshed, nothing to serve.
    pub open spec fn initial() -> CacheView {
        CacheView { timestamp: 0, entries: Seq::empty(), valid: false }
    }

    /// Whether the snapshot is too old to serve at `now`, or was never
    /// taken, or was invalidated.
    pub open spec fn is_expired(self, now: int) -> bool {
        !self.valid || now - self.timestamp > TTL_NANOS
    }

    /// What a lookup at `now` has to do first.
    pub open spec fn step(self, force_refresh: bool, now: int) -> Step {
        if force_refresh || self.is_expired(now) {
            Step::Fetch
        } else {
            Step::Serve
        }
    }

    /// The cache after an invalidation: the snapshot stays, its validity goes.
    pub open spec fn invalidate(self) -> CacheView {
        CacheView { valid: false, ..self }
    }

    /// The cache after a refresh at `now` came back with `outcome`: a whole
    /// new snapshot on success, the old state on failure.
    pub open spec fn refresh(self, outcome: OutcomeView, now: int) -> CacheView {
        match outcome {
            Ok(entries) => CacheView { timestamp: now, entries, valid: true },
            Err(_) => self,
        }
    }

    /// The stations of the snapshot that answer `filter`, in snapshot order;
    /// all of them where there is no filter.
    pub open spec fn select(self, filter: Option<Seq<char>>) -> Seq<StationView> {
        match filter {
            None => self.entries,
            Some(_) => matching(self.entries, filter),
        }
    }

    /// The answer the cache gives as it stands.
    pub open spec fn answer(self, filter: Option<Seq<char>>) -> AnswerView {
        Ok((self.select(filter), self.timestamp))
    }

    /// The cache after a whole lookup at `now`, where `outcome` is what the
    /// upstream feed returns if it is asked.
    pub open spec fn after_lookup(self, force_refresh: bool, now: int, outcome: OutcomeView)
        -> CacheView {
        match self.step(force_refresh, now) {
            Step::Serve => self,
            Step::Fetch => self.refresh(outcome, now),
        }
    }

    /// The answer of a whole lookup at `now`, where `outcome` is what the
    /// upstream feed returns if it is asked.
    pub open spec fn lookup(
        self,
        filter: Option<Seq<char>>,
        force_refresh: bool,
        now: int,
        outcome: OutcomeView,
    ) -> AnswerView {
        match self.step(force_refresh, now) {
            Step::Serve => self.answer(filter),
            Step::Fetch => match outcome {
                Ok(_) => self.refresh(outcome, now).answer(filter),
                Err(error) => Err(error),
            },
        }
    }
}

/// The snapshot of the station list and its time-to-live bookkeeping.
#[derive(Debug)]
pub struct Cache {
    timestamp: Timestamp,
    entries: Vec<StationStatus>,
    valid: bool,
}

impl View for Cache {
    type V = CacheView;

    closed spec fn view(&self) -> CacheView {
        CacheView {
            timestamp: self.timestamp@,
            entries: station_views(self.entries@),
            valid: self.valid,
        }
    }
}

/// Without a filter every station matches.
pub proof fn lemma_no_filter_keeps_all(entries: Seq<StationView>)
    ensures
        matching(entries, None) == entries,
    decreases entries.len(),
{
    reveal(Seq::filter);
    if entries.len() > 0 {
        lemma_no_filter_keeps_all(entries.drop_last());
        assert(entries.drop_last().push(entries.last()) =~= entries);
    }
}

impl Cache {
    /// A cache that was never refreshed.
    pub fn new() -> (cache: Cache)
        ensures
            cache@ == CacheView::initial(),
    {
        let cache = Cache { timestamp: Timestamp::epoch(), entries: Vec::new(), valid: false };
        assert(station_views(cache.entries@) =~= Seq::empty());
        cache
    }

    /// The instant of the last successful refresh; the epoch before the first.
    pub fn timestamp(&self) -> (t: Timestamp)
        ensures
            t@ == self@.timestamp,
    {
        self.timestamp
    }

    /// Whether the snapshot must not be served at `now` without a refresh.
    pub fn is_expired(&self, now: Timestamp) -> (expired: bool)
        ensures
            expired == self@.is_expired(now@),
    {
        !self.valid || now.unix_nanos() - self.timestamp.unix_nanos() > TTL_NANOS
    }

    /// Marks the snapshot as expired whatever its age, and keeps its stations
    /// and its timestamp.
    pub fn invalidate(&mut self)
        ensures
            final(self)@ == old(self)@.invalidate(),
    {
        self.valid = false;
    }

    /// What a lookup at `now` has to do before it answers.
    pub fn next_step(&self, force_refresh: bool, now: Timestamp) -> (step: Step)
        ensures
            step == self@.step(force_refresh, now@),
    {
        if force_refresh || self.is_expired(now) {
            Step::Fetch
        } else {
            Step::Serve
        }
    }

    /// Takes in what the upstream feed returned at `now`. A station list
    /// replaces stations and timestamp together; a failure leaves the cache
    /// as it was and is handed back.
    pub fn complete_refresh(&mut self, outcome: Result<StatusApiData, CacheError>, now: Timestamp)
        -> (done: Result<(), CacheError>)
        ensures
            final(self)@ == old(self)@.refresh(outcome_view(outcome), now@),
            match outcome {
                Ok(_) => done is Ok,
                Err(error) => done == Err::<(), CacheError>(error),
            },
    {
        match outcome {
            Ok(data) => {
                self.entries = data.result;
                self.timestamp = now;
                self.valid = true;
                Ok(())
            },
            Err(error) => Err(error),
        }
    }

    /// The stations of the snapshot that answer `name`, copied in snapshot order.
    pub fn select(&self, name: Option<&str>) -> (found: Vec<StationStatus>)
        ensures
            station_views(found@) == self@.select(filter_view(name)),
    {
        let ghost all = station_views(self.entries@);
        let ghost filter = filter_view(name);
        let ghost keep = |s: StationView| filter_matches(filter, s.name);
        let mut found: Vec<StationStatus> = Vec::new();
        let mut i: usize = 0;
        proof {
            reveal(Seq::filter);
            assert(station_views(found@) =~= all.take(0).filter(keep));
        }
        while i < self.entries.len()
            invariant
                i <= self.entries.len(),
                all == station_views(self.entries@),
                filter == filter_view(name),
                keep == |s: StationView| filter_matches(filter, s.name),
                station_views(found@) == all.take(i as int).filter(keep),
            decreases self.entries.len() - i,
        {
            let station = &self.entries[i];
            let kept = match name {
                Some(query) => is_match(query, station.name.as_str()),
                None => true,
            };
            let ghost before = found@;
            if kept {
                found.push(station.clone());
            }
            proof {
                reveal(Seq::filter);
                let longer = all.take(i + 1);
                assert(longer.drop_last() =~= all.take(i as int));
                assert(longer.last() == station@);
                assert(kept == keep(station@));
                if kept {
                    assert(station_views(found@) =~= station_views(before).push(station@));
                }
            }
            i += 1;
        }
        proof {
            assert(all.take(i as int) =~= all);
            if name is None {
                lemma_no_filter_keeps_all(all);
            }
        }
        found
    }

    /// Refreshes the snapshot at `now` if it is expired or `force_refresh` is
    /// set, asking `fetch` for the station list at most once and only then.
    pub fn refresh<F: FnOnce() -> Result<StatusApiData, CacheError>>(
        &mut self,
        force_refresh: bool,
        now: Timestamp,
        fetch: F,
    ) -> (done: Result<(), CacheError>)
        requires
            old(self)@.step(force_refresh, now@) == Step::Fetch ==> fetch.requires(()),
        ensures
            old(self)@.step(force_refresh, now@) == Step::Serve ==> final(self)@ == old(self)@
                && done is Ok,
            old(self)@.step(force_refresh, now@) == Step::Fetch ==> exists|
                outcome: Result<StatusApiData, CacheError>,
            |
                {
                    &&& fetch.ensures((), outcome)
                    &&& final(self)@ == old(self)@.refresh(outcome_view(outcome), now@)
                    &&& match outcome {
                        Ok(_) => done is Ok,
                        Err(error) => done == Err::<(), CacheError>(error),
                    }
                },
    {
        match self.next_step(force_refresh, now) {
            Step::Serve => Ok(()),
            Step::Fetch => {
                let outcome = fetch();
                self.complete_refresh(outcome, now)
            },
        }
    }

    /// A whole lookup at `now`: refreshes first where [`Cache::refresh`]
    /// would, then answers with the stations that match `name` and the
    /// snapshot's timestamp. A failed refresh is the answer, and leaves the
    /// cache as it was.
    pub fn lookup<F: FnOnce() -> Result<StatusApiData, CacheError>>(
        &mut self,
        name: Option<&str>,
        force_refresh: bool,
        now: Timestamp,
        fetch: F,
    ) -> (answer: Result<(Vec<StationStatus>, Timestamp), CacheError>)
        requires
            old(self)@.step(force_refresh, now@) == Step::Fetch ==> fetch.requires(()),
        ensures
            old(self)@.step(force_refresh, now@) == Step::Serve ==> final(self)@ == old(self)@
                && answer_view(answer) == old(self)@.answer(filter_view(name)),
            old(self)@.step(force_refresh, now@) == Step::Fetch ==> exists|
                outcome: Result<StatusApiData, CacheError>,
            |
                {
                    &&& fetch.ensures((), outcome)
                    &&& final(self)@ == old(self)@.after_lookup(
                        force_refresh,
                        now@,
                        outcome_view(outcome),
                    )
                    &&& answer_view(answer) == old(self)@.lookup(
                        filter_view(name),
                        force_refresh,
                        now@,
                        outcome_view(outcome),
                    )
                },
    {
        match self.refresh(force_refresh, now, fetch) {
            Ok(()) => Ok((self.select(name), self.timestamp)),
            Err(error) => Err(error),
        }
    }
}

impl CacheView {
    /// The snapshot as a pair: the instant it was taken and its stations.
    pub open spec fn snapshot(self) -> (int, Seq<StationView>) {
        (self.timestamp, self.entries)
    }
}

/// A cache that was never refreshed asks the upstream feed on its first
/// lookup, whatever the clock says.
pub proof fn lemma_first_lookup_fetches(force_refresh: bool, now: int)
    ensures
        CacheView::initial().step(force_refresh, now) == Step::Fetch,
{
}

/// A snapshot taken at `taken` is expired at `now` exactly when more than
/// the time-to-live lies between the two, whatever the cache held before.
pub proof fn lemma_refreshed_expires_after_ttl(
    cache: CacheView,
    entries: Seq<StationView>,
    taken: int,
    now: int,
)
    ensures
        cache.refresh(Ok(entries), taken).is_expired(now) <==> now - taken > TTL_NANOS,
        TTL_NANOS == 5 * 60 * 1_000_000_000,
{
}

/// Timestamp and stations always come from one and the same fetch: an
/// invalidation and a failed refresh keep the pair as it was, a successful
/// refresh at `now` replaces both halves, and so does a whole lookup.
pub proof fn lemma_snapshot_is_never_mixed(
    cache: CacheView,
    force_refresh: bool,
    now: int,
    outcome: OutcomeView,
)
    ensures
        cache.invalidate().snapshot() == cache.snapshot(),
        outcome is Err ==> cache.refresh(outcome, now) == cache,
        outcome is Ok ==> cache.refresh(outcome, now).snapshot() == (now, outcome->Ok_0),
        cache.after_lookup(force_refresh, now, outcome).snapshot() == cache.snapshot()
            || (outcome is Ok && cache.after_lookup(force_refresh, now, outcome).snapshot() == (
                now,
                outcome->Ok_0,
            )),
{
}

/// What a lookup answers is read off the snapshot it leaves behind: the
/// stations are a selection of that snapshot's stations, the timestamp is
/// that snapshot's timestamp.
pub proof fn lemma_answer_matches_snapshot(
    cache: CacheView,
    filter: Option<Seq<char>>,
    force_refresh: bool,
    now: int,
    outcome: OutcomeView,
)
    ensures
        cache.lookup(filter, force_refresh, now, outcome) is Ok ==> cache.lookup(
            filter,
            force_refresh,
            now,
            outcome,
        ) == cache.after_lookup(force_refresh, now, outcome).answer(filter),
        cache.lookup(filter, force_refresh, now, outcome) is Err ==> cache.after_lookup(
            force_refresh,
            now,
            outcome,
        ) == cache,
{
}

/// Once a lookup at `now` has fetched successfully, no lookup that follows
/// within the time-to-live fetches again unless it is forced to: of many
/// lookups queued behind an expired cache, only the first asks upstream.
pub proof fn lemma_one_fetch_serves_all(
    cache: CacheView,
    force_refresh: bool,
    now: int,
    entries: Seq<StationView>,
    later: int,
    filter: Option<Seq<char>>,
    outcome: OutcomeView,
)
    requires
        cache.step(force_refresh, now) == Step::Fetch,
        later - now <= TTL_NANOS,
    ensures
        cache.after_lookup(force_refresh, now, Ok(entries)).step(false, later) == Step::Serve,
        cache.after_lookup(force_refresh, now, Ok(entries)).after_lookup(false, later, outcome)
            == cache.after_lookup(force_refresh, now, Ok(entries)),
        cache.after_lookup(force_refresh, now, Ok(entries)).lookup(filter, false, later, outcome)
            == Ok::<(Seq<StationView>, int), CacheErrorView>(
            (
                CacheView { timestamp: now, entries, valid: true }.select(filter),
                now,
            ),
        ),
{
}

/// One lookup as the cache's model sees it: whether it forces a refresh, the
/// instant it is made, and what the upstream feed returns if it is asked.
pub ghost struct Request {
    pub force_refresh: bool,
    pub now: int,
    pub outcome: OutcomeView,
}

/// How often the upstream feed is asked while `requests` are served one
/// after the other, starting from `cache`.
pub open spec fn fetch_count(cache: CacheView, requests: Seq<Request>) -> nat
    decreases requests.len(),
{
    if requests.len() == 0 {
        0
    } else {
        let first = requests[0];
        let asked: nat = if cache.step(first.force_refresh, first.now) == Step::Fetch {
            1
        } else {
            0
        };
        asked + fetch_count(
            cache.after_lookup(first.force_refresh, first.now, first.outcome),
            requests.drop_first(),
        )
    }
}

/// Lookups that are not forced and fall within the time-to-live of a valid
/// snapshot never ask the upstream feed, however many they are.
pub proof fn lemma_fresh_cache_never_fetches(cache: CacheView, requests: Seq<Request>)
    requires
        cache.valid,
        forall|i: int|
            0 <= i < requests.len() ==> !(#[trigger] requests[i]).force_refresh && requests[i].now
                - cache.timestamp <= TTL_NANOS,
    ensures
        fetch_count(cache, requests) == 0,
    decreases requests.len(),
{
    if requests.len() > 0 {
        let rest = requests.drop_first();
        assert(!requests[0].force_refresh);
        assert forall|i: int| 0 <= i < rest.len() implies !(#[trigger] rest[i]).force_refresh
            && rest[i].now - cache.timestamp <= TTL_NANOS by {
            assert(rest[i] == requests[i + 1]);
        }
        lemma_fresh_cache_never_fetches(cache, rest);
    }
}

/// Of any number of lookups that come one after the other against an
/// expired cache, none of them forced and all within the time-to-live of the
/// first, exactly one asks the upstream feed, provided that one succeeds.
pub proof fn lemma_queued_lookups_fetch_once(cache: CacheView, requests: Seq<Request>)
    requires
        requests.len() > 0,
        cache.is_expired(requests[0].now),
        requests[0].outcome is Ok,
        forall|i: int|
            0 <= i < requests.len() ==> !(#[trigger] requests[i]).force_refresh && requests[i].now
                - requests[0].now <= TTL_NANOS,
    ensures
        fetch_count(cache, requests) == 1,
{
    let first = requests[0];
    let rest = requests.drop_first();
    let refreshed = cache.after_lookup(first.force_refresh, first.now, first.outcome);
    assert forall|i: int| 0 <= i < rest.len() implies !(#[trigger] rest[i]).force_refresh
        && rest[i].now - refreshed.timestamp <= TTL_NANOS by {
        assert(rest[i] == requests[i + 1]);
    }
    lemma_fresh_cache_never_fetches(refreshed, rest);
}

/// A failed refresh costs nothing: where the snapshot could be served at
/// `now` before a forced refresh at `attempt` failed, it is served at `now`
/// afterwards too, unchanged and without asking the upstream feed.
pub proof fn lemma_stale_on_failure(
    cache: CacheView,
    attempt: int,
    error: CacheErrorView,
    now: int,
    filter: Option<Seq<char>>,
    outcome: OutcomeView,
)
    requires
        !cache.is_expired(now),
    ensures
        cache.lookup(filter, true, attempt, Err(error)) == Err::<
            (Seq<StationView>, int),
            CacheErrorView,
        >(error),
        cache.after_lookup(true, attempt, Err(error)) == cache,
        cache.after_lookup(true, attempt, Err(error)).step(false, now) == Step::Serve,
        cache.after_lookup(true, attempt, Err(error)).lookup(filter, false, now, outcome)
            == cache.answer(filter),
{
}

/// After an invalidation the next lookup asks the upstream feed, however
/// young the snapshot is; the stations of the snapshot are still there.
pub proof fn lemma_invalidate_forces_refresh(
    cache: CacheView,
    now: int,
    filter: Option<Seq<char>>,
    entries: Seq<StationView>,
)
    ensures
        cache.invalidate().is_expired(now),
        cache.invalidate().step(false, now) == Step::Fetch,
        cache.invalidate().entries == cache.entries,
        cache.invalidate().after_lookup(false, now, Ok(entries)) == (CacheView {
            timestamp: now,
            entries,
            valid: true,
        }),
        fetch_count(
            cache.invalidate(),
            seq![(Request { force_refresh: false, now, outcome: Ok(entries) })],
        ) == 1,
{
    lemma_queued_lookups_fetch_once(
        cache.invalidate(),
        seq![(Request { force_refresh: false, now, outcome: Ok(entries) })],
    );
}

/// Without a filter a selection is the whole snapshot, in snapshot order.
pub proof fn lemma_select_without_filter(cache: CacheView)
    ensures
        cache.select(None) == cache.entries,
        matching(cache.entries, None) == cache.entries,
{
    lemma_no_filter_keeps_all(cache.entries);
}

/// With a filter a selection holds exactly the stations whose name answers
/// it: each station selected does, and each station of the snapshot that
/// does is selected.
pub proof fn lemma_select_is_exact(cache: CacheView, query: Seq<char>)
    ensures
        forall|i: int|
            0 <= i < cache.select(Some(query)).len() ==> name_matches(
                query,
                (#[trigger] cache.select(Some(query))[i]).name,
            ) && cache.entries.contains(cache.select(Some(query))[i]),
        forall|i: int|
            0 <= i < cache.entries.len() && name_matches(query, (#[trigger] cache.entries[i]).name)
                ==> cache.select(Some(query)).contains(cache.entries[i]),
        cache.select(Some(query)).len() <= cache.entries.len(),
{
    let keep = |s: StationView| filter_matches(Some(query), s.name);
    broadcast use vstd::seq_lib::group_filter_ensures;
    assert forall|i: int| 0 <= i < cache.select(Some(query)).len() implies cache.entries.contains(
        #[trigger] cache.select(Some(query))[i],
    ) by {
        let found = cache.select(Some(query));
        assert(found.contains(found[i]));
        cache.entries.lemma_filter_contains_rev(keep, found[i]);
    }
}

/// A selection keeps the snapshot's order: selecting from two lists laid end
/// to end gives the two selections laid end to end, and a single station is
/// selected or dropped on its own name alone.
pub proof fn lemma_select_keeps_order(
    front: Seq<StationView>,
    back: Seq<StationView>,
    station: StationView,
    filter: Option<Seq<char>>,
)
    ensures
        matching(front + back, filter) == matching(front, filter) + matching(back, filter),
        matching(seq![station], filter) == if filter_matches(filter, station.name) {
            seq![station]
        } else {
            Seq::<StationView>::empty()
        },
{
    let keep = |s: StationView| filter_matches(filter, s.name);
    Seq::filter_distributes_over_add(front, back, keep);
    reveal_with_fuel(Seq::filter, 2);
    assert(seq![station].drop_last() =~= Seq::<StationView>::empty());
    assert(Seq::<StationView>::empty().push(station) =~= seq![station]);
}

} // verus!
