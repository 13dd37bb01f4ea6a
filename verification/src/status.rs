//! Answering one request for the stations' status.

use vstd::prelude::*;
use vstd::string::*;
use crate::api::{station_views, StationStatus, StationView, StatusApiData};
use crate::cache::{
    filter_view,
    outcome_view,
    Cache,
    CacheError,
    CacheErrorView,
    CacheView,
    OutcomeView,
    Step,
};
use crate::instant::{Timestamp, TTL_NANOS};

verus! {

/// What a request asks for.
#[derive(Debug, PartialEq, Eq)]
pub struct StationQuery {
    name: Option<String>,
    cached: bool,
}

impl StationQuery {
    /// Whether a request that does not say so may be answered from the cache: it may.
    pub fn default_cached_value() -> (cached: bool)
        ensures
            cached,
    {
        true
    }

    /// The name filter, if the request has one.
    pub closed spec fn filter(&self) -> Option<Seq<char>> {
        match self.name {
            Some(name) => Some(name@),
            None => None,
        }
    }

    /// Whether the request may be answered from the cache.
    pub closed spec fn allows_cached(&self) -> bool {
        self.cached
    }

    /// A request with the name filter `name`; where `cached` is missing the
    /// default stands in.
    pub fn new(name: Option<String>, cached: Option<bool>) -> (query: StationQuery)
        ensures
            query.filter() == match name {
                Some(text) => Some(text@),
                None => None,
            },
            query.allows_cached() == match cached {
                Some(flag) => flag,
                None => true,
            },
    {
        let cached = match cached {
            Some(flag) => flag,
            None => Self::default_cached_value(),
        };
        StationQuery { name, cached }
    }

    /// The name filter, if the request has one.
    pub fn name(&self) -> (name: Option<&str>)
        ensures
            filter_view(name) == self.filter(),
    {
        match &self.name {
            Some(text) => Some(text.as_str()),
            None => None,
        }
    }

    /// Whether the request may be answered from the cache.
    #[verifier::when_used_as_spec(allows_cached)]
    pub fn cached(&self) -> (cached: bool)
        ensures
            cached == self.allows_cached(),
    {
        self.cached
    }
}

/// The answer to a request: the stations that matched, and the instant of
/// the snapshot they were read from.
#[derive(Debug, PartialEq, Eq)]
pub struct StationResponse {
    pub timestamp: Timestamp,
    pub stations: Vec<StationStatus>,
}

impl View for StationResponse {
    type V = (Seq<StationView>, int);

    open spec fn view(&self) -> (Seq<StationView>, int) {
        (station_views(self.stations@), self.timestamp@)
    }
}

/// Errors that can occur when retrieving the status of a bike station.
#[derive(Debug, PartialEq, Eq)]
pub enum StatusError {
    Cache(CacheError),
}

impl View for StatusError {
    type V = CacheErrorView;

    open spec fn view(&self) -> CacheErrorView {
        match self {
            StatusError::Cache(error) => error@,
        }
    }
}

impl StatusError {
    /// The text that the message of a failed request starts with.
    pub open spec fn prefix() -> Seq<char> {
        "Error retrieving bikeshare data from the cache: "@
    }

    /// The message shown to the caller: the fixed prefix, then the cause.
    pub fn message(&self) -> (text: String)
        ensures
            text@ == Self::prefix() + self@.message(),
    {
        match self {
            StatusError::Cache(error) => {
                let cause = error.message();
                String::from_str("Error retrieving bikeshare data from the cache: ").concat(
                    cause.as_str(),
                )
            },
        }
    }

    /// The HTTP status that goes with a failed request: 500.
    pub fn status_code(&self) -> (code: u16)
        ensures
            code == 500,
    {
        500
    }
}

/// What a request that could be answered hands back.
#[derive(Debug, PartialEq, Eq)]
pub struct Served {
    /// The answer to the request.
    pub response: StationResponse,
    /// The stations owed to the archive, under the answer's timestamp:
    /// the whole snapshot where the request refreshed it, nothing otherwise.
    pub to_archive: Option<Vec<StationStatus>>,
}

/// The model of a [`Served`]: the answer, and what is owed to the archive.
pub type ServedView = ((Seq<StationView>, int), Option<Seq<StationView>>);

impl View for Served {
    type V = ServedView;

    open spec fn view(&self) -> ServedView {
        (
            self.response@,
            match self.to_archive {
                Some(stations) => Some(station_views(stations@)),
                None => None,
            },
        )
    }
}

/// The model of a request's result.
pub open spec fn served_view(served: Result<Served, StatusError>) -> Result<
    ServedView,
    CacheErrorView,
> {
    match served {
        Ok(found) => Ok(found@),
        Err(error) => Err(error@),
    }
}

/// The cache as a request finds it once its wish for fresh data has been
/// heeded: invalidated where the request does not allow cached data.
pub open spec fn received(cache: CacheView, cached: bool) -> CacheView {
    if cached {
        cache
    } else {
        cache.invalidate()
    }
}

/// [`received`] for the request `query`.
pub open spec fn admitted(cache: CacheView, query: &StationQuery) -> CacheView {
    received(cache, query.allows_cached())
}

/// What a request is handed from a snapshot that needed no refresh: the
/// stations that answer `filter` with the snapshot's timestamp, and nothing
/// for the archive.
pub open spec fn answered(cache: CacheView, filter: Option<Seq<char>>) -> ServedView {
    ((cache.select(filter), cache.timestamp), None)
}

/// What a request is handed once the fetch it waited for at `now` came back
/// with `outcome`: on success the answer from the new snapshot and that
/// whole snapshot for the archive, on failure the failure.
pub open spec fn completed(
    cache: CacheView,
    filter: Option<Seq<char>>,
    now: int,
    outcome: OutcomeView,
) -> Result<ServedView, CacheErrorView> {
    match outcome {
        Ok(entries) => Ok(((cache.refresh(outcome, now).select(filter), now), Some(entries))),
        Err(error) => Err(error),
    }
}

/// What a whole request at `now` is handed by a cache that has admitted it,
/// where `outcome` is what the upstream feed returns if it is asked.
pub open spec fn requested(
    cache: CacheView,
    filter: Option<Seq<char>>,
    now: int,
    outcome: OutcomeView,
) -> Result<ServedView, CacheErrorView> {
    match cache.step(false, now) {
        Step::Serve => Ok(answered(cache, filter)),
        Step::Fetch => completed(cache, filter, now, outcome),
    }
}

/// Opens a request at `now`: invalidates the cache where the request does
/// not allow cached data, and says what has to be done before the answer.
pub fn begin_request(cache: &mut Cache, query: &StationQuery, now: Timestamp) -> (step: Step)
    ensures
        final(cache)@ == admitted(old(cache)@, query),
        step == final(cache)@.step(false, now@),
{
    if !query.cached() {
        cache.invalidate();
    }
    cache.next_step(false, now)
}

/// Closes a request that needed no refresh: the stations of the snapshot
/// that answer the request's filter, in snapshot order, with the snapshot's
/// timestamp, and nothing for the archive.
pub fn finish_request(cache: &Cache, query: &StationQuery) -> (served: Served)
    ensures
        served@ == answered(cache@, query.filter()),
{
    let stations = cache.select(query.name());
    Served { response: StationResponse { timestamp: cache.timestamp(), stations }, to_archive: None }
}

/// Closes a request that waited for a fetch, with what the upstream feed
/// returned at `now`. A station list becomes the new snapshot, the request
/// is answered from it, and the whole of it is owed to the archive; a
/// failure leaves the cache as it was, is the request's result, and owes
/// the archive nothing.
pub fn complete_request(
    cache: &mut Cache,
    query: &StationQuery,
    outcome: Result<StatusApiData, CacheError>,
    now: Timestamp,
) -> (served: Result<Served, StatusError>)
    ensures
        final(cache)@ == old(cache)@.refresh(outcome_view(outcome), now@),
        served_view(served) == completed(old(cache)@, query.filter(), now@, outcome_view(outcome)),
{
    match cache.complete_refresh(outcome, now) {
        Ok(()) => {
            let stations = cache.select(query.name());
            let snapshot = cache.select(None);
            Ok(
                Served {
                    response: StationResponse { timestamp: cache.timestamp(), stations },
                    to_archive: Some(snapshot),
                },
            )
        },
        Err(error) => Err(StatusError::Cache(error)),
    }
}

/// Answers one request at `now`: invalidates the cache where the request
/// does not allow cached data, refreshes it through `fetch` where it is
/// expired, and answers from the snapshot, handing over the snapshot for
/// the archive where it was refreshed. A failed refresh is the result, and
/// leaves the snapshot as it was.
pub fn station_status<F: FnOnce() -> Result<StatusApiData, CacheError>>(
    cache: &mut Cache,
    query: &StationQuery,
    now: Timestamp,
    fetch: F,
) -> (served: Result<Served, StatusError>)
    requires
        admitted(old(cache)@, query).step(false, now@) == Step::Fetch ==> fetch.requires(()),
    ensures
        admitted(old(cache)@, query).step(false, now@) == Step::Serve ==> final(cache)@
            == admitted(old(cache)@, query) && served_view(served) == Ok::<
            ServedView,
            CacheErrorView,
        >(answered(final(cache)@, query.filter())),
        admitted(old(cache)@, query).step(false, now@) == Step::Fetch ==> exists|
            outcome: Result<StatusApiData, CacheError>,
        |
            {
                &&& fetch.ensures((), outcome)
                &&& final(cache)@ == admitted(old(cache)@, query).after_lookup(
                    false,
                    now@,
                    outcome_view(outcome),
                )
                &&& served_view(served) == requested(
                    admitted(old(cache)@, query),
                    query.filter(),
                    now@,
                    outcome_view(outcome),
                )
            },
{
    match begin_request(cache, query, now) {
        Step::Serve => Ok(finish_request(cache, query)),
        Step::Fetch => {
            let outcome = fetch();
            complete_request(cache, query, outcome, now)
        },
    }
}

/// The archive is owed a snapshot exactly when a request refreshed the
/// cache: then it is owed the very stations that were fetched, under the
/// instant of the refresh, which is also the answer's timestamp and the
/// cache's. A request served from the cache and a request that failed owe
/// it nothing.
pub proof fn lemma_archive_follows_refresh(
    cache: CacheView,
    filter: Option<Seq<char>>,
    now: int,
    outcome: OutcomeView,
)
    ensures
        (requested(cache, filter, now, outcome) is Ok && requested(
            cache,
            filter,
            now,
            outcome,
        )->Ok_0.1 is Some) <==> (cache.step(false, now) == Step::Fetch && outcome is Ok),
        cache.step(false, now) == Step::Fetch && outcome is Ok ==> {
            &&& requested(cache, filter, now, outcome)->Ok_0.1 == Some(outcome->Ok_0)
            &&& requested(cache, filter, now, outcome)->Ok_0.0.1 == now
            &&& cache.after_lookup(false, now, outcome).snapshot() == (now, outcome->Ok_0)
        },
        requested(cache, filter, now, outcome) is Ok ==> requested(
            cache,
            filter,
            now,
            outcome,
        )->Ok_0.0 == (
            cache.after_lookup(false, now, outcome).select(filter),
            cache.after_lookup(false, now, outcome).timestamp,
        ),
        requested(cache, filter, now, outcome) is Err ==> cache.after_lookup(false, now, outcome)
            == cache,
{
}

/// One request as the model sees it: whether it allows cached data, the
/// instant it is made, and what the upstream feed returns if it is asked.
pub ghost struct Arrival {
    pub cached: bool,
    pub now: int,
    pub outcome: OutcomeView,
}

/// How often the upstream feed is asked while the requests `arrivals` are
/// answered one after the other, starting from `cache`.
pub open spec fn requests_fetch_count(cache: CacheView, arrivals: Seq<Arrival>) -> nat
    decreases arrivals.len(),
{
    if arrivals.len() == 0 {
        0
    } else {
        let first = arrivals[0];
        let found = received(cache, first.cached);
        let asked: nat = if found.step(false, first.now) == Step::Fetch {
            1
        } else {
            0
        };
        asked + requests_fetch_count(
            found.after_lookup(false, first.now, first.outcome),
            arrivals.drop_first(),
        )
    }
}

/// Requests that allow cached data and fall within the time-to-live of a
/// valid snapshot never ask the upstream feed, however many they are.
pub proof fn lemma_fresh_cache_answers_all(cache: CacheView, arrivals: Seq<Arrival>)
    requires
        cache.valid,
        forall|i: int|
            0 <= i < arrivals.len() ==> (#[trigger] arrivals[i]).cached && arrivals[i].now
                - cache.timestamp <= TTL_NANOS,
    ensures
        requests_fetch_count(cache, arrivals) == 0,
    decreases arrivals.len(),
{
    if arrivals.len() > 0 {
        let rest = arrivals.drop_first();
        assert(arrivals[0].cached);
        assert forall|i: int| 0 <= i < rest.len() implies (#[trigger] rest[i]).cached && rest[i].now
            - cache.timestamp <= TTL_NANOS by {
            assert(rest[i] == arrivals[i + 1]);
        }
        lemma_fresh_cache_answers_all(cache, rest);
    }
}

/// Of any number of requests that are answered one after the other against
/// an expired cache, all of them allowing cached data and all within the
/// time-to-live of the first, exactly one asks the upstream feed, provided
/// that one succeeds.
pub proof fn lemma_queued_requests_fetch_once(cache: CacheView, arrivals: Seq<Arrival>)
    requires
        arrivals.len() > 0,
        cache.is_expired(arrivals[0].now),
        arrivals[0].outcome is Ok,
        forall|i: int|
            0 <= i < arrivals.len() ==> (#[trigger] arrivals[i]).cached && arrivals[i].now
                - arrivals[0].now <= TTL_NANOS,
    ensures
        requests_fetch_count(cache, arrivals) == 1,
{
    let first = arrivals[0];
    let rest = arrivals.drop_first();
    assert(first.cached);
    let refreshed = received(cache, first.cached).after_lookup(false, first.now, first.outcome);
    assert forall|i: int| 0 <= i < rest.len() implies (#[trigger] rest[i]).cached && rest[i].now
        - refreshed.timestamp <= TTL_NANOS by {
        assert(rest[i] == arrivals[i + 1]);
    }
    lemma_fresh_cache_answers_all(refreshed, rest);
}

} // verus!
