use vstd::prelude::*;
use crate::preview::{generate_hash, hash_token};
use crate::repository::{enrich_repositories, enriched_all, views, RepoView, Repository};
use crate::text::push_str_chars;

verus! {

/// Namespace of the cache entries.
pub open spec fn cache_prefix() -> Seq<char> {
    "github_repos_"@
}

/// Suffix of the key under which the time of a cache write is kept.
pub open spec fn timestamp_suffix() -> Seq<char> {
    "_timestamp"@
}

/// Key of the cache entry that holds a user's repository listing.
pub open spec fn cache_key_of(username: Seq<char>) -> Seq<char> {
    cache_prefix() + username
}

/// Key under which the time of writing the entry `key` is kept.
pub open spec fn timestamp_key_of(key: Seq<char>) -> Seq<char> {
    key + timestamp_suffix()
}

/// Address of the listing of a user's ten most recently updated repositories.
pub open spec fn listing_url_of(username: Seq<char>) -> Seq<char> {
    "https://api.github.com/users/"@ + username + "/repos?sort=updated&per_page=10"@
}

/// Value of the `Accept` header of a listing request.
pub open spec fn api_media_type() -> Seq<char> {
    "application/vnd.github.v3+json"@
}

/// Pause before the one retry after a rate-limited response, in milliseconds.
pub const RETRY_DELAY_MS: u32 = 1000;

/// Status of a rate-limited response.
pub const STATUS_RATE_LIMITED: u16 = 429;

pub open spec fn is_success(status: u16) -> bool {
    200 <= status <= 299
}

/// Key of the cache entry that holds a user's repository listing.
pub fn cache_key(username: &str) -> (r: String)
    ensures
        r@ == cache_key_of(username@),
{
    let mut s = String::new();
    push_str_chars(&mut s, "github_repos_");
    push_str_chars(&mut s, username);
    s
}

/// Key under which the time of writing the entry `key` is kept.
pub fn timestamp_key(key: &str) -> (r: String)
    ensures
        r@ == timestamp_key_of(key@),
{
    let mut s = String::new();
    push_str_chars(&mut s, key);
    push_str_chars(&mut s, "_timestamp");
    s
}

/// Address of the listing request for a user.
pub fn listing_url(username: &str) -> (r: String)
    ensures
        r@ == listing_url_of(username@),
{
    let mut s = String::new();
    push_str_chars(&mut s, "https://api.github.com/users/");
    push_str_chars(&mut s, username);
    push_str_chars(&mut s, "/repos?sort=updated&per_page=10");
    s
}

/// Why a fetch ended without a listing.
#[derive(PartialEq, Eq, Structural, Clone, Copy, Debug)]
pub enum FetchError {
    /// The host environment (its window or runtime context) is missing.
    EnvironmentUnavailable,
    /// The request could not be made or brought no response.
    Transport,
    /// The service answered with this unsuccessful status.
    Api(u16),
    /// The response body is not a repository listing.
    Decode,
}

/// Where a fetch stands.
#[derive(PartialEq, Eq, Structural, Clone, Copy, Debug)]
pub enum Phase {
    /// Nothing done yet.
    Idle,
    /// The cache entry has been asked for.
    AwaitingCache,
    /// A request is out; `retried` tells whether it is the second one.
    AwaitingResponse { retried: bool },
    /// Pausing after a rate-limited first request.
    AwaitingDelay,
    /// A successful response is being decoded.
    AwaitingBody,
    /// A result has been handed out.
    Done,
}

/// What happened since the last step, as the environment reports it.
#[derive(Clone, PartialEq, Eq, Debug)]
pub enum Event {
    /// The caller asked for the listing.
    Start,
    /// The cache entry, if there was one and it parsed as a listing.
    CacheRead(Option<Vec<Repository>>),
    /// The request failed without a response.
    TransportFailed,
    /// A response came with this status.
    Response { status: u16 },
    /// The pause before the retry is over.
    DelayElapsed,
    /// The body did not decode as a listing.
    DecodeFailed,
    /// The decoded listing, and the clock in milliseconds since the epoch.
    Decoded { records: Vec<Repository>, now_ms: u64 },
    /// The host environment turned out to be missing.
    EnvironmentMissing,
}

/// What the environment is to do next.
#[derive(PartialEq, Eq, Debug)]
pub enum Action {
    /// Read the cache entry under `key`.
    ReadCache { key: String },
    /// Send a GET request to `url` with `accept` as its `Accept` header.
    Request { url: String, accept: String },
    /// Wait `ms` milliseconds, then report `DelayElapsed`.
    Wait { ms: u32 },
    /// Decode the body of the response that just came.
    DecodeBody,
    /// Write `repos` under `key` and the time under `timestamp_key`, as far as
    /// the store allows, then hand `repos` to the caller.
    StoreAndFinish { key: String, timestamp_key: String, timestamp_ms: u64, repos: Vec<Repository> },
    /// Hand this result to the caller.
    Finish(Result<Vec<Repository>, FetchError>),
    /// The event did not fit the phase; nothing changed.
    Ignore,
}

pub enum EventView {
    Start,
    CacheRead(Option<Seq<RepoView>>),
    TransportFailed,
    Response { status: u16 },
    DelayElapsed,
    DecodeFailed,
    Decoded { records: Seq<RepoView>, now_ms: u64 },
    EnvironmentMissing,
}

pub enum ActionView {
    ReadCache { key: Seq<char> },
    Request { url: Seq<char>, accept: Seq<char> },
    Wait { ms: u32 },
    DecodeBody,
    StoreAndFinish { key: Seq<char>, timestamp_key: Seq<char>, timestamp_ms: u64, repos: Seq<RepoView> },
    Finish(Result<Seq<RepoView>, FetchError>),
    Ignore,
}

impl View for Event {
    type V = EventView;

    open spec fn view(&self) -> EventView {
        match self {
            Event::Start => EventView::Start,
            Event::CacheRead(c) => EventView::CacheRead(
                match c {
                    Some(v) => Some(views(v@)),
                    None => None,
                },
            ),
            Event::TransportFailed => EventView::TransportFailed,
            Event::Response { status } => EventView::Response { status: *status },
            Event::DelayElapsed => EventView::DelayElapsed,
            Event::DecodeFailed => EventView::DecodeFailed,
            Event::Decoded { records, now_ms } => EventView::Decoded {
                records: views(records@),
                now_ms: *now_ms,
            },
            Event::EnvironmentMissing => EventView::EnvironmentMissing,
        }
    }
}

impl View for Action {
    type V = ActionView;

    open spec fn view(&self) -> ActionView {
        match self {
            Action::ReadCache { key } => ActionView::ReadCache { key: key@ },
            Action::Request { url, accept } => ActionView::Request { url: url@, accept: accept@ },
            Action::Wait { ms } => ActionView::Wait { ms: *ms },
            Action::DecodeBody => ActionView::DecodeBody,
            Action::StoreAndFinish { key, timestamp_key, timestamp_ms, repos } =>
                ActionView::StoreAndFinish {
                key: key@,
                timestamp_key: timestamp_key@,
                timestamp_ms: *timestamp_ms,
                repos: views(repos@),
            },
            Action::Finish(r) => ActionView::Finish(
                match r {
                    Ok(v) => Ok(views(v@)),
                    Err(e) => Err(*e),
                },
            ),
            Action::Ignore => ActionView::Ignore,
        }
    }
}

/// The mathematical value of a [`RepoFetcher`].
pub struct FetcherState {
    pub username: Seq<char>,
    pub phase: Phase,
}

/// The request that a fetch for `username` sends.
pub open spec fn request_of(username: Seq<char>) -> ActionView {
    ActionView::Request { url: listing_url_of(username), accept: api_media_type() }
}

/// One step of a fetch: the next state and the action, for every state and
/// event.
pub open spec fn transition(s: FetcherState, e: EventView) -> (FetcherState, ActionView) {
    let done = FetcherState { phase: Phase::Done, ..s };
    match (s.phase, e) {
        (Phase::Done, _) => (s, ActionView::Ignore),
        (_, EventView::EnvironmentMissing) => (
            done,
            ActionView::Finish(Err(FetchError::EnvironmentUnavailable)),
        ),
        (Phase::Idle, EventView::Start) => (
            FetcherState { phase: Phase::AwaitingCache, ..s },
            ActionView::ReadCache { key: cache_key_of(s.username) },
        ),
        (Phase::AwaitingCache, EventView::CacheRead(Some(cached))) => (
            done,
            ActionView::Finish(Ok(cached)),
        ),
        (Phase::AwaitingCache, EventView::CacheRead(None)) => (
            FetcherState { phase: Phase::AwaitingResponse { retried: false }, ..s },
            request_of(s.username),
        ),
        (Phase::AwaitingResponse { .. }, EventView::TransportFailed) => (
            done,
            ActionView::Finish(Err(FetchError::Transport)),
        ),
        (Phase::AwaitingResponse { retried }, EventView::Response { status }) => if is_success(
            status,
        ) {
            (FetcherState { phase: Phase::AwaitingBody, ..s }, ActionView::DecodeBody)
        } else if status == STATUS_RATE_LIMITED && !retried {
            (
                FetcherState { phase: Phase::AwaitingDelay, ..s },
                ActionView::Wait { ms: RETRY_DELAY_MS },
            )
        } else {
            (done, ActionView::Finish(Err(FetchError::Api(status))))
        },
        (Phase::AwaitingDelay, EventView::DelayElapsed) => (
            FetcherState { phase: Phase::AwaitingResponse { retried: true }, ..s },
            request_of(s.username),
        ),
        (Phase::AwaitingBody, EventView::DecodeFailed) => (
            done,
            ActionView::Finish(Err(FetchError::Decode)),
        ),
        (Phase::AwaitingBody, EventView::Decoded { records, now_ms }) => (
            done,
            ActionView::StoreAndFinish {
                key: cache_key_of(s.username),
                timestamp_key: timestamp_key_of(cache_key_of(s.username)),
                timestamp_ms: now_ms,
                repos: enriched_all(records, hash_token(now_ms as nat)),
            },
        ),
        _ => (s, ActionView::Ignore),
    }
}

/// A fetch of one user's repository listing: asks the cache first, then the
/// service, retrying once after a rate-limited answer, derives the preview
/// addresses and hands the listing back for caching.
pub struct RepoFetcher {
    username: String,
    phase: Phase,
}

impl View for RepoFetcher {
    type V = FetcherState;

    closed spec fn view(&self) -> FetcherState {
        FetcherState { username: self.username@, phase: self.phase }
    }
}

impl RepoFetcher {
    /// A fetch for `username` that has not started.
    pub fn new(username: &str) -> (r: RepoFetcher)
        ensures
            r@ == (FetcherState { username: username@, phase: Phase::Idle }),
    {
        RepoFetcher { username: username.to_owned(), phase: Phase::Idle }
    }

    pub fn phase(&self) -> (r: Phase)
        ensures
            r == self@.phase,
    {
        self.phase
    }

    fn request(&self) -> (a: Action)
        ensures
            a@ == request_of(self@.username),
    {
        let mut accept = String::new();
        push_str_chars(&mut accept, "application/vnd.github.v3+json");
        Action::Request { url: listing_url(self.username.as_str()), accept }
    }

    /// Takes one event and says what to do next.
    pub fn step(&mut self, event: Event) -> (a: Action)
        ensures
            (final(self)@, a@) == transition(old(self)@, event@),
    {
        if self.phase == Phase::Done {
            return Action::Ignore;
        }
        match event {
            Event::EnvironmentMissing => {
                self.phase = Phase::Done;
                Action::Finish(Err(FetchError::EnvironmentUnavailable))
            },
            Event::Start => {
                if self.phase == Phase::Idle {
                    self.phase = Phase::AwaitingCache;
                    Action::ReadCache { key: cache_key(self.username.as_str()) }
                } else {
                    Action::Ignore
                }
            },
            Event::CacheRead(cached) => {
                if self.phase == Phase::AwaitingCache {
                    match cached {
                        Some(v) => {
                            self.phase = Phase::Done;
                            Action::Finish(Ok(v))
                        },
                        None => {
                            self.phase = Phase::AwaitingResponse { retried: false };
                            self.request()
                        },
                    }
                } else {
                    Action::Ignore
                }
            },
            Event::TransportFailed => {
                match self.phase {
                    Phase::AwaitingResponse { .. } => {
                        self.phase = Phase::Done;
                        Action::Finish(Err(FetchError::Transport))
                    },
                    _ => Action::Ignore,
                }
            },
            Event::Response { status } => {
                match self.phase {
                    Phase::AwaitingResponse { retried } => {
                        if 200 <= status && status <= 299 {
                            self.phase = Phase::AwaitingBody;
                            Action::DecodeBody
                        } else if status == STATUS_RATE_LIMITED && !retried {
                            self.phase = Phase::AwaitingDelay;
                            Action::Wait { ms: RETRY_DELAY_MS }
                        } else {
                            self.phase = Phase::Done;
                            Action::Finish(Err(FetchError::Api(status)))
                        }
                    },
                    _ => Action::Ignore,
                }
            },
            Event::DelayElapsed => {
                if self.phase == Phase::AwaitingDelay {
                    self.phase = Phase::AwaitingResponse { retried: true };
                    self.request()
                } else {
                    Action::Ignore
                }
            },
            Event::DecodeFailed => {
                if self.phase == Phase::AwaitingBody {
                    self.phase = Phase::Done;
                    Action::Finish(Err(FetchError::Decode))
                } else {
                    Action::Ignore
                }
            },
            Event::Decoded { records, now_ms } => {
                if self.phase == Phase::AwaitingBody {
                    self.phase = Phase::Done;
                    let hash = generate_hash(now_ms);
                    let repos = enrich_repositories(&records, hash.as_str());
                    let key = cache_key(self.username.as_str());
                    let timestamp_key = timestamp_key(key.as_str());
                    Action::StoreAndFinish { key, timestamp_key, timestamp_ms: now_ms, repos }
                } else {
                    Action::Ignore
                }
            },
        }
    }
}

/// The state reached and the actions taken after a sequence of events.
pub open spec fn run(s: FetcherState, events: Seq<EventView>) -> (FetcherState, Seq<ActionView>)
    decreases events.len(),
{
    if events.len() == 0 {
        (s, Seq::<ActionView>::empty())
    } else {
        let prev = run(s, events.drop_last());
        let step = transition(prev.0, events.last());
        (step.0, prev.1.push(step.1))
    }
}

pub open spec fn idle(username: Seq<char>) -> FetcherState {
    FetcherState { username, phase: Phase::Idle }
}

pub proof fn lemma_run_concat(s: FetcherState, a: Seq<EventView>, b: Seq<EventView>)
    ensures
        run(s, a + b) == (run(run(s, a).0, b).0, run(s, a).1 + run(run(s, a).0, b).1),
    decreases b.len(),
{
    if b.len() == 0 {
        assert(a + b =~= a);
        assert(run(s, a).1 + run(run(s, a).0, b).1 =~= run(s, a).1);
    } else {
        assert((a + b).drop_last() =~= a + b.drop_last());
        assert((a + b).last() == b.last());
        lemma_run_concat(s, a, b.drop_last());
        let mid = run(s, a).0;
        assert(run(s, a).1 + run(mid, b).1 =~= (run(s, a).1 + run(mid, b.drop_last()).1).push(
            transition(run(mid, b.drop_last()).0, b.last()).1,
        ));
    }
}

pub proof fn lemma_run_len(s: FetcherState, events: Seq<EventView>)
    ensures
        run(s, events).1.len() == events.len(),
        run(s, events).0.username == s.username,
    decreases events.len(),
{
    if events.len() > 0 {
        lemma_run_len(s, events.drop_last());
    }
}

/// Once a fetch has handed out its result, no event makes it act again.
pub proof fn lemma_done_stays_quiet(s: FetcherState, events: Seq<EventView>)
    requires
        s.phase == Phase::Done,
    ensures
        run(s, events).0 == s,
        run(s, events).1.len() == events.len(),
        forall|i: int| 0 <= i < events.len() ==> #[trigger] run(s, events).1[i] == ActionView::Ignore,
    decreases events.len(),
{
    if events.len() > 0 {
        lemma_done_stays_quiet(s, events.drop_last());
    }
}

proof fn lemma_run_two(s: FetcherState, e0: EventView, e1: EventView)
    ensures
        run(s, seq![e0, e1]) == (
            transition(transition(s, e0).0, e1).0,
            seq![transition(s, e0).1, transition(transition(s, e0).0, e1).1],
        ),
{
    let evs = seq![e0, e1];
    assert(evs.drop_last() =~= seq![e0]);
    assert(seq![e0].drop_last() =~= Seq::<EventView>::empty());
    assert(seq![e0].last() == e0);
    assert(evs.last() == e1);
    assert(run(s, Seq::<EventView>::empty()).1 =~= Seq::<ActionView>::empty());
    assert(run(s, seq![e0]).0 == transition(s, e0).0);
    assert(run(s, seq![e0]).1 =~= seq![transition(s, e0).1]);
    assert(run(s, evs).1 =~= seq![transition(s, e0).1, transition(transition(s, e0).0, e1).1]);
}

/// A fetch whose cache entry is present hands out exactly that entry and never
/// sends a request, whatever events follow.
pub proof fn lemma_cache_hit_sends_no_request(
    username: Seq<char>,
    cached: Seq<RepoView>,
    later: Seq<EventView>,
)
    ensures
        ({
            let acts = run(
                idle(username),
                seq![EventView::Start, EventView::CacheRead(Some(cached))] + later,
            ).1;
            &&& acts[0] == ActionView::ReadCache { key: cache_key_of(username) }
            &&& acts[1] == ActionView::Finish(Ok(cached))
            &&& forall|i: int| 0 <= i < acts.len() ==> !(#[trigger] acts[i] is Request)
        }),
{
    let first = seq![EventView::Start, EventView::CacheRead(Some(cached))];
    lemma_run_two(idle(username), EventView::Start, EventView::CacheRead(Some(cached)));
    lemma_run_concat(idle(username), first, later);
    let mid = run(idle(username), first).0;
    lemma_done_stays_quiet(mid, later);
    let acts = run(idle(username), first + later).1;
    assert forall|i: int| 0 <= i < acts.len() implies !(#[trigger] acts[i] is Request) by {
        if i >= 2 {
            assert(acts[i] == run(mid, later).1[i - 2]);
        }
    }
}

/// Every listing that a fetch hands back for caching is stored under the
/// user's cache key.
pub proof fn lemma_stored_under_user_key(
    username: Seq<char>,
    events: Seq<EventView>,
    i: int,
    key: Seq<char>,
    timestamp_key: Seq<char>,
    timestamp_ms: u64,
    repos: Seq<RepoView>,
)
    requires
        0 <= i < events.len(),
        run(idle(username), events).1[i] == (ActionView::StoreAndFinish {
            key,
            timestamp_key,
            timestamp_ms,
            repos,
        }),
    ensures
        key == cache_key_of(username),
        timestamp_key == timestamp_key_of(cache_key_of(username)),
    decreases events.len(),
{
    let prev = events.drop_last();
    lemma_run_len(idle(username), prev);
    if i < events.len() - 1 {
        lemma_stored_under_user_key(username, prev, i, key, timestamp_key, timestamp_ms, repos);
    }
}

/// A second fetch for the same user, after the first one stored its listing,
/// reads the same cache entry and hands out the same listing without a
/// request.
pub proof fn lemma_second_fetch_hits_cache(
    username: Seq<char>,
    first: Seq<EventView>,
    i: int,
    key: Seq<char>,
    timestamp_key: Seq<char>,
    timestamp_ms: u64,
    repos: Seq<RepoView>,
)
    requires
        0 <= i < first.len(),
        run(idle(username), first).1[i] == (ActionView::StoreAndFinish {
            key,
            timestamp_key,
            timestamp_ms,
            repos,
        }),
    ensures
        run(idle(username), seq![EventView::Start, EventView::CacheRead(Some(repos))]).1 == seq![
            ActionView::ReadCache { key },
            ActionView::Finish(Ok(repos)),
        ],
{
    lemma_stored_under_user_key(username, first, i, key, timestamp_key, timestamp_ms, repos);
    lemma_run_two(idle(username), EventView::Start, EventView::CacheRead(Some(repos)));
}

/// How many of the actions are requests.
pub open spec fn request_count(acts: Seq<ActionView>) -> nat
    decreases acts.len(),
{
    if acts.len() == 0 {
        0
    } else {
        request_count(acts.drop_last()) + if acts.last() is Request {
            1nat
        } else {
            0nat
        }
    }
}

/// Requests that a fetch in this phase may have sent so far.
pub open spec fn requests_allowed(p: Phase) -> nat {
    match p {
        Phase::Idle => 0,
        Phase::AwaitingCache => 0,
        Phase::AwaitingResponse { retried } => if retried {
            2
        } else {
            1
        },
        Phase::AwaitingDelay => 1,
        _ => 2,
    }
}

proof fn lemma_requests_within_phase(username: Seq<char>, events: Seq<EventView>)
    ensures
        request_count(run(idle(username), events).1) <= requests_allowed(
            run(idle(username), events).0.phase,
        ),
    decreases events.len(),
{
    if events.len() > 0 {
        lemma_requests_within_phase(username, events.drop_last());
        let prev = run(idle(username), events.drop_last());
        assert(run(idle(username), events).1.drop_last() =~= prev.1);
    }
}

/// A fetch sends at most two requests, whatever the events: the first one
/// and at most one retry.
pub proof fn lemma_at_most_two_requests(username: Seq<char>, events: Seq<EventView>)
    ensures
        request_count(run(idle(username), events).1) <= 2,
{
    lemma_requests_within_phase(username, events);
}

} // verus!
