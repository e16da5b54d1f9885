//! The cache-aside protocol as a state machine. The machine decides; its caller reads and
//! writes the cache, runs the statement, and reports what came of it.

use crate::error::{ApiError, ApiErrorView};
use crate::models::response::{
    Cacheable, ConstituentsResponse, InstrumentsResponse, PivotResponse,
};
use vstd::prelude::*;

verus! {

/// Where a cached response is kept, and for how long.
#[derive(Debug, Clone, PartialEq, Eq)]
pub struct CacheSlot {
    pub key: String,
    pub ttl_seconds: u64,
}

/// One way of running a statement.
#[derive(Debug, Clone, PartialEq, Eq)]
pub enum Executor {
    /// The database client runs `statement`.
    Client { statement: String },
    /// `body` is posted to `url`.
    Http { url: String, body: String },
}

/// What is settled of a valid request before the first input or output: where the response
/// is cached, if it is, and whether a second executor stands by. The statement is not among
/// it: it is compiled when the protocol asks for a run, so a hit compiles nothing.
#[derive(Debug, Clone, PartialEq, Eq)]
pub struct Job {
    pub cache: Option<CacheSlot>,
    pub fallback: bool,
}

/// A compiled statement: its text, how it is run, and how it is run if that fails.
#[derive(Debug, Clone, PartialEq, Eq)]
pub struct Statement {
    pub sql: String,
    pub primary: Executor,
    pub fallback: Option<Executor>,
}

pub struct CacheSlotView {
    pub key: Seq<char>,
    pub ttl_seconds: u64,
}

impl View for CacheSlot {
    type V = CacheSlotView;

    open spec fn view(&self) -> CacheSlotView {
        CacheSlotView { key: self.key@, ttl_seconds: self.ttl_seconds }
    }
}

impl DeepView for CacheSlot {
    type V = CacheSlotView;

    open spec fn deep_view(&self) -> CacheSlotView {
        self@
    }
}

pub enum ExecutorView {
    Client { statement: Seq<char> },
    Http { url: Seq<char>, body: Seq<char> },
}

impl View for Executor {
    type V = ExecutorView;

    open spec fn view(&self) -> ExecutorView {
        match self {
            Executor::Client { statement } => ExecutorView::Client { statement: statement@ },
            Executor::Http { url, body } => ExecutorView::Http { url: url@, body: body@ },
        }
    }
}

impl DeepView for Executor {
    type V = ExecutorView;

    open spec fn deep_view(&self) -> ExecutorView {
        self@
    }
}

pub struct JobView {
    pub cache: Option<CacheSlotView>,
    pub fallback: bool,
}

impl View for Job {
    type V = JobView;

    open spec fn view(&self) -> JobView {
        JobView { cache: self.cache.deep_view(), fallback: self.fallback }
    }
}

pub struct StatementView {
    pub sql: Seq<char>,
    pub primary: ExecutorView,
    pub fallback: Option<ExecutorView>,
}

impl View for Statement {
    type V = StatementView;

    open spec fn view(&self) -> StatementView {
        StatementView {
            sql: self.sql@,
            primary: self.primary@,
            fallback: self.fallback.deep_view(),
        }
    }
}

/// The cache slot of a request: none where the request bypasses the cache or the cache is
/// switched off.
pub open spec fn slot_for(use_cache: bool, enabled: bool, key: Seq<char>, ttl_seconds: u64) -> Option<
    CacheSlotView,
> {
    if use_cache && enabled {
        Some(CacheSlotView { key, ttl_seconds })
    } else {
        None
    }
}

/// What the machine is waiting for.
#[derive(Debug, Clone, Copy, PartialEq, Eq, Structural)]
pub enum Phase {
    /// Nothing was done yet.
    Idle,
    /// The cache is being read.
    Lookup,
    /// The primary executor is running the statement.
    Query,
    /// The fallback executor is running the statement.
    Fallback,
    /// The request was answered.
    Done,
}

/// What came of reading the cache.
#[derive(Debug)]
pub enum CacheRead<R> {
    /// The cache could not be read.
    Failed,
    /// The cache holds nothing under the key.
    Absent,
    /// The cache holds something under the key that is not a response.
    Undecodable,
    /// The cache holds a response under the key.
    Found(R),
}

impl<R> CacheRead<R> {
    /// The response that was found. Everything else is a miss.
    pub open spec fn hit(self) -> Option<R> {
        match self {
            CacheRead::Found(response) => Some(response),
            _ => None,
        }
    }
}

/// What the caller reports.
#[derive(Debug)]
pub enum Event<R> {
    /// The request is ready to be served.
    Begin,
    /// The cache was read `elapsed_ms` into the request.
    Cached { read: CacheRead<R>, elapsed_ms: u64 },
    /// The statement ran and its rows were assembled into a response.
    Computed(R),
    /// The executor failed.
    Failed(String),
}

pub enum EventView<R> {
    Begin,
    Cached { read: CacheRead<R>, elapsed_ms: u64 },
    Computed(R),
    Failed(Seq<char>),
}

impl<R> View for Event<R> {
    type V = EventView<R>;

    open spec fn view(&self) -> EventView<R> {
        match self {
            Event::Begin => EventView::Begin,
            Event::Cached { read, elapsed_ms } => EventView::Cached {
                read: *read,
                elapsed_ms: *elapsed_ms,
            },
            Event::Computed(response) => EventView::Computed(*response),
            Event::Failed(message) => EventView::Failed(message@),
        }
    }
}

/// What the caller is asked to do next.
#[derive(Debug)]
pub enum Action<R> {
    /// Read the cache at the key of the job.
    ReadCache,
    /// Compile the statement and run it on its primary executor.
    RunPrimary,
    /// Run the statement on its fallback executor.
    RunFallback,
    /// Write the response to the cache at the key of the job, whether or not the write
    /// succeeds, and answer with it.
    Store(R),
    /// Answer with the response.
    Reply(R),
    /// Answer with the error.
    Fail(ApiError),
}

pub enum ActionView<R> {
    ReadCache,
    RunPrimary,
    RunFallback,
    Store(R),
    Reply(R),
    Fail(ApiErrorView),
}

impl<R> View for Action<R> {
    type V = ActionView<R>;

    open spec fn view(&self) -> ActionView<R> {
        match self {
            Action::ReadCache => ActionView::ReadCache,
            Action::RunPrimary => ActionView::RunPrimary,
            Action::RunFallback => ActionView::RunFallback,
            Action::Store(response) => ActionView::Store(*response),
            Action::Reply(response) => ActionView::Reply(*response),
            Action::Fail(error) => ActionView::Fail(error@),
        }
    }
}

/// The error for a report that does not answer what was asked.
pub open spec fn out_of_turn() -> ApiErrorView {
    ApiErrorView::Internal("unexpected event"@)
}

/// The protocol. With a cache slot the cache is read first; a hit is served with its
/// metadata refreshed, and nothing is compiled or run; a miss runs the statement, and so does a read
/// that failed or found something that is not a response. A failure of the primary
/// executor moves on to the fallback where there is one. A fresh response is stored where
/// there is a cache slot, and answered either way.
pub open spec fn step<R: Cacheable>(
    caching: bool,
    has_fallback: bool,
    phase: Phase,
    event: EventView<R>,
) -> (Phase, ActionView<R>) {
    match (phase, event) {
        (Phase::Idle, EventView::Begin) => if caching {
            (Phase::Lookup, ActionView::ReadCache)
        } else {
            (Phase::Query, ActionView::RunPrimary)
        },
        (Phase::Lookup, EventView::Cached { read, elapsed_ms }) => match read.hit() {
            Some(response) => (Phase::Done, ActionView::Reply(response.as_served(elapsed_ms))),
            None => (Phase::Query, ActionView::RunPrimary),
        },
        (Phase::Query, EventView::Computed(response)) => if caching {
            (Phase::Done, ActionView::Store(response))
        } else {
            (Phase::Done, ActionView::Reply(response))
        },
        (Phase::Query, EventView::Failed(message)) => if has_fallback {
            (Phase::Fallback, ActionView::RunFallback)
        } else {
            (Phase::Done, ActionView::Fail(ApiErrorView::Database(message)))
        },
        (Phase::Fallback, EventView::Computed(response)) => if caching {
            (Phase::Done, ActionView::Store(response))
        } else {
            (Phase::Done, ActionView::Reply(response))
        },
        (Phase::Fallback, EventView::Failed(message)) => (
            Phase::Done,
            ActionView::Fail(ApiErrorView::Database(message)),
        ),
        _ => (Phase::Done, ActionView::Fail(out_of_turn())),
    }
}

fn refuse<R>() -> (result: (Phase, Action<R>))
    ensures
        result.0 == Phase::Done,
        result.1@ == ActionView::<R>::Fail(out_of_turn()),
{
    (Phase::Done, Action::Fail(ApiError::Internal("unexpected event".to_owned())))
}

/// Takes one report and says what to do next.
pub fn advance<R: Cacheable>(job: &Job, phase: Phase, event: Event<R>) -> (result: (
    Phase,
    Action<R>,
))
    ensures
        (result.0, result.1@) == step(job.cache is Some, job.fallback, phase, event@),
{
    let caching = job.cache.is_some();
    match phase {
        Phase::Idle => match event {
            Event::Begin => if caching {
                (Phase::Lookup, Action::ReadCache)
            } else {
                (Phase::Query, Action::RunPrimary)
            },
            _ => refuse(),
        },
        Phase::Lookup => match event {
            Event::Cached { read, elapsed_ms } => match read {
                CacheRead::Found(response) => (
                    Phase::Done,
                    Action::Reply(response.served_from_cache(elapsed_ms)),
                ),
                _ => (Phase::Query, Action::RunPrimary),
            },
            _ => refuse(),
        },
        Phase::Query => match event {
            Event::Computed(response) => if caching {
                (Phase::Done, Action::Store(response))
            } else {
                (Phase::Done, Action::Reply(response))
            },
            Event::Failed(message) => if job.fallback {
                (Phase::Fallback, Action::RunFallback)
            } else {
                (Phase::Done, Action::Fail(ApiError::Database(message)))
            },
            _ => refuse(),
        },
        Phase::Fallback => match event {
            Event::Computed(response) => if caching {
                (Phase::Done, Action::Store(response))
            } else {
                (Phase::Done, Action::Reply(response))
            },
            Event::Failed(message) => (Phase::Done, Action::Fail(ApiError::Database(message))),
            _ => refuse(),
        },
        Phase::Done => refuse(),
    }
}

/// Round trip: a fresh response is stored as it is, and when the next request reads it
/// back, it is answered with the same response but for its metadata, and nothing is
/// compiled or run.
pub proof fn lemma_cache_round_trip<R: Cacheable>(has_fallback: bool, response: R, elapsed_ms: u64)
    ensures
        step(true, has_fallback, Phase::Query, EventView::Computed(response)) == (
            Phase::Done,
            ActionView::Store(response),
        ),
        step(true, has_fallback, Phase::Idle, EventView::<R>::Begin) == (
            Phase::Lookup,
            ActionView::<R>::ReadCache,
        ),
        step(
            true,
            has_fallback,
            Phase::Lookup,
            EventView::Cached { read: CacheRead::Found(response), elapsed_ms },
        ) == (Phase::Done, ActionView::Reply(response.as_served(elapsed_ms))),
{
}

/// A cache that fails, holds nothing or holds garbage never fails the request: the
/// statement is run as if there were no cache entry.
pub proof fn lemma_cache_trouble_is_a_miss<R: Cacheable>(
    caching: bool,
    has_fallback: bool,
    read: CacheRead<R>,
    elapsed_ms: u64,
)
    requires
        read !is Found,
    ensures
        step(caching, has_fallback, Phase::Lookup, EventView::Cached { read, elapsed_ms }) == (
            Phase::Query,
            ActionView::<R>::RunPrimary,
        ),
{
}

/// What a pivot response becomes when it is served from the cache: the same rows and row
/// counts, flagged as cached, with the latency of the request that it is served in.
pub proof fn lemma_served_pivot_response(response: PivotResponse, elapsed_ms: u64)
    ensures
        response.as_served(elapsed_ms).data == response.data,
        response.as_served(elapsed_ms).metadata.cached,
        response.as_served(elapsed_ms).metadata.query_time_ms == elapsed_ms,
        response.as_served(elapsed_ms).metadata.total_rows == response.metadata.total_rows,
        response.as_served(elapsed_ms).metadata.returned_rows == response.metadata.returned_rows,
{
}

/// What a listing becomes when it is served from the cache: the same instruments and the
/// same count, flagged as cached, with the latency of the request that it is served in.
pub proof fn lemma_served_listing(response: InstrumentsResponse, elapsed_ms: u64)
    ensures
        response.as_served(elapsed_ms).instruments == response.instruments,
        response.as_served(elapsed_ms).count == response.count,
        response.as_served(elapsed_ms).metadata.cached,
        response.as_served(elapsed_ms).metadata.query_time_ms == elapsed_ms,
        response.as_served(elapsed_ms).metadata.total_rows == response.metadata.total_rows,
        response.as_served(elapsed_ms).metadata.returned_rows == response.metadata.returned_rows,
{
}

/// The same holds of the constituent listing.
pub proof fn lemma_served_constituents(response: ConstituentsResponse, elapsed_ms: u64)
    ensures
        response.as_served(elapsed_ms).constituents == response.constituents,
        response.as_served(elapsed_ms).count == response.count,
        response.as_served(elapsed_ms).metadata.cached,
        response.as_served(elapsed_ms).metadata.query_time_ms == elapsed_ms,
        response.as_served(elapsed_ms).metadata.total_rows == response.metadata.total_rows,
        response.as_served(elapsed_ms).metadata.returned_rows == response.metadata.returned_rows,
{
}

/// Without a cache slot the cache is neither read nor written.
pub proof fn lemma_bypass_never_touches_cache<R: Cacheable>(
    has_fallback: bool,
    phase: Phase,
    event: EventView<R>,
)
    ensures
        step(false, has_fallback, phase, event).1 !is ReadCache,
        step(false, has_fallback, phase, event).1 !is Store,
{
}

/// An answer ends the request: after it, nothing is read, run or written.
pub proof fn lemma_done_is_final<R: Cacheable>(
    caching: bool,
    has_fallback: bool,
    event: EventView<R>,
)
    ensures
        step(caching, has_fallback, Phase::Done, event) == (
            Phase::Done,
            ActionView::<R>::Fail(out_of_turn()),
        ),
{
}

/// The phase tells what was asked: the machine is done exactly when it answers.
pub proof fn lemma_answers_end_the_request<R: Cacheable>(
    caching: bool,
    has_fallback: bool,
    phase: Phase,
    event: EventView<R>,
)
    ensures
        ({
            let (next, action) = step(caching, has_fallback, phase, event);
            &&& next == Phase::Done <==> (action is Store || action is Reply || action is Fail)
            &&& next == Phase::Lookup <==> action is ReadCache
            &&& next == Phase::Query <==> action is RunPrimary
            &&& next == Phase::Fallback <==> action is RunFallback
            &&& next != Phase::Idle
        }),
{
}

} // verus!
