use vstd::prelude::*;

use crate::ids::TextId;
use crate::metrics::{Metrics, MetricsView};
use crate::text::{contains, contains_term, has_white_space, has_whitespace};

verus! {

/// How long, in seconds, a cache entry lives; every cache write uses it.
pub const EXPIRE: u64 = 7200;

/// Why a request did not succeed.
#[derive(Clone, Copy, Debug, PartialEq, Eq, Structural)]
pub enum ServiceError {
    /// The store holds no record under the identifier.
    NotFound,
    /// The identifier is not a UUID.
    MalformedId,
    /// The search term holds white space.
    InvalidTerm,
    /// The store failed.
    InfrastructureFailure,
    /// The store reported more than one record deleted for one identifier.
    InvariantViolation,
}

/// The outcome of a request. `T` is the text type: `String` at run time,
/// `Seq<char>` in specifications.
#[derive(Clone, Debug, PartialEq, Eq)]
pub enum Reply<T> {
    Created(TextId),
    Text(T),
    Found(bool),
    Deleted,
    Failed(ServiceError),
}

/// A request to the text service.
#[derive(Clone, Debug, PartialEq, Eq)]
pub enum Operation<T> {
    Insert { id: TextId, data: T },
    Get { id: TextId },
    Delete { id: TextId },
    Search { id: TextId, term: T },
}

/// What the caller is to do next: one call into the cache or the store, or
/// answer the request.
#[derive(Clone, Debug, PartialEq, Eq)]
pub enum Action<T> {
    CacheGet(TextId),
    /// Write the text under the identifier, to live for `EXPIRE` seconds.
    CacheSet(TextId, T),
    CacheDelete(TextId),
    StoreInsert(TextId, T),
    StoreFind(TextId),
    StoreDelete(TextId),
    Respond(Reply<T>),
}

/// What the call asked for by the last action came back with. A cache that
/// fails to answer a lookup is a miss; a cache write or delete is
/// acknowledged whether or not it took effect.
#[derive(Clone, Debug, PartialEq, Eq)]
pub enum Event<T> {
    CacheHit(T),
    CacheMiss,
    CacheDone,
    StoreInserted,
    StoreFound(T),
    StoreAbsent,
    StoreDeleted(u64),
    StoreFailed,
}

/// Where a request stands between two calls.
#[derive(Clone, Debug, PartialEq, Eq)]
pub enum Stage<T> {
    /// Insert: waiting for the store to take the record.
    Writing { id: TextId, data: T },
    /// Insert: waiting for the cache to take the new record.
    Seeding { id: TextId },
    /// Get or search (with its term): waiting for the cache lookup.
    Looking { id: TextId, term: Option<T> },
    /// Get or search: waiting for the store lookup after a miss.
    Fetching { id: TextId, term: Option<T> },
    /// Get or search: waiting for the cache refill, then answering `reply`.
    Refilling { reply: Reply<T> },
    /// Delete: waiting for the cache entry to be dropped.
    Invalidating { id: TextId },
    /// Delete: waiting for the store to delete the record.
    Removing { id: TextId },
    /// Answered.
    Done,
}

/// What a step adds to the cache counters.
#[derive(Clone, Copy, Debug, PartialEq, Eq, Structural)]
pub enum Tally {
    Nothing,
    Hit,
    Miss,
}

pub open spec fn view_opt(o: Option<String>) -> Option<Seq<char>> {
    match o {
        Some(s) => Some(s@),
        None => None,
    }
}

impl View for Reply<String> {
    type V = Reply<Seq<char>>;

    open spec fn view(&self) -> Reply<Seq<char>> {
        match self {
            Reply::Created(id) => Reply::Created(*id),
            Reply::Text(s) => Reply::Text(s@),
            Reply::Found(b) => Reply::Found(*b),
            Reply::Deleted => Reply::Deleted,
            Reply::Failed(e) => Reply::Failed(*e),
        }
    }
}

impl View for Operation<String> {
    type V = Operation<Seq<char>>;

    open spec fn view(&self) -> Operation<Seq<char>> {
        match self {
            Operation::Insert { id, data } => Operation::Insert { id: *id, data: data@ },
            Operation::Get { id } => Operation::Get { id: *id },
            Operation::Delete { id } => Operation::Delete { id: *id },
            Operation::Search { id, term } => Operation::Search { id: *id, term: term@ },
        }
    }
}

impl View for Action<String> {
    type V = Action<Seq<char>>;

    open spec fn view(&self) -> Action<Seq<char>> {
        match self {
            Action::CacheGet(id) => Action::CacheGet(*id),
            Action::CacheSet(id, s) => Action::CacheSet(*id, s@),
            Action::CacheDelete(id) => Action::CacheDelete(*id),
            Action::StoreInsert(id, s) => Action::StoreInsert(*id, s@),
            Action::StoreFind(id) => Action::StoreFind(*id),
            Action::StoreDelete(id) => Action::StoreDelete(*id),
            Action::Respond(r) => Action::Respond(r@),
        }
    }
}

impl View for Event<String> {
    type V = Event<Seq<char>>;

    open spec fn view(&self) -> Event<Seq<char>> {
        match self {
            Event::CacheHit(s) => Event::CacheHit(s@),
            Event::CacheMiss => Event::CacheMiss,
            Event::CacheDone => Event::CacheDone,
            Event::StoreInserted => Event::StoreInserted,
            Event::StoreFound(s) => Event::StoreFound(s@),
            Event::StoreAbsent => Event::StoreAbsent,
            Event::StoreDeleted(n) => Event::StoreDeleted(*n),
            Event::StoreFailed => Event::StoreFailed,
        }
    }
}

impl View for Stage<String> {
    type V = Stage<Seq<char>>;

    open spec fn view(&self) -> Stage<Seq<char>> {
        match self {
            Stage::Writing { id, data } => Stage::Writing { id: *id, data: data@ },
            Stage::Seeding { id } => Stage::Seeding { id: *id },
            Stage::Looking { id, term } => Stage::Looking { id: *id, term: view_opt(*term) },
            Stage::Fetching { id, term } => Stage::Fetching { id: *id, term: view_opt(*term) },
            Stage::Refilling { reply } => Stage::Refilling { reply: reply@ },
            Stage::Invalidating { id } => Stage::Invalidating { id: *id },
            Stage::Removing { id } => Stage::Removing { id: *id },
            Stage::Done => Stage::Done,
        }
    }
}

/// The answer to a get (no term) or a search (a term) on a text `value`.
pub open spec fn answer_spec(value: Seq<char>, term: Option<Seq<char>>) -> Reply<Seq<char>> {
    match term {
        None => Reply::Text(value),
        Some(t) => Reply::Found(contains(value, t)),
    }
}

pub open spec fn fail(e: ServiceError) -> (Stage<Seq<char>>, Action<Seq<char>>, Tally) {
    (Stage::Done, Action::Respond(Reply::Failed(e)), Tally::Nothing)
}

/// The first stage and action of a request. Insert writes the store first;
/// get and search look in the cache first; delete drops the cache entry
/// first. A search term with white space is refused before any call.
pub open spec fn start_spec(op: Operation<Seq<char>>) -> (Stage<Seq<char>>, Action<Seq<char>>) {
    match op {
        Operation::Insert { id, data } => (Stage::Writing { id, data }, Action::StoreInsert(id, data)),
        Operation::Get { id } => (Stage::Looking { id, term: None }, Action::CacheGet(id)),
        Operation::Search { id, term } => if has_white_space(term) {
            (Stage::Done, Action::Respond(Reply::Failed(ServiceError::InvalidTerm)))
        } else {
            (Stage::Looking { id, term: Some(term) }, Action::CacheGet(id))
        },
        Operation::Delete { id } => (Stage::Invalidating { id }, Action::CacheDelete(id)),
    }
}

/// The counters after a request has started: a search counts its term,
/// whatever comes of it.
pub open spec fn started_metrics(m: MetricsView, op: Operation<Seq<char>>) -> MetricsView {
    match op {
        Operation::Search { term, .. } => m.with_search(term),
        _ => m,
    }
}

/// One step of a request: the stage it was in and what the last call came
/// back with give the next stage, the next action and what to count.
/// An event that does not answer the stage's call ends the request as an
/// infrastructure failure.
pub open spec fn step_spec(stage: Stage<Seq<char>>, event: Event<Seq<char>>) -> (Stage<Seq<char>>, Action<Seq<char>>, Tally) {
    match stage {
        Stage::Writing { id, data } => match event {
            Event::StoreInserted => (Stage::Seeding { id }, Action::CacheSet(id, data), Tally::Nothing),
            _ => fail(ServiceError::InfrastructureFailure),
        },
        Stage::Seeding { id } => match event {
            Event::CacheDone => (Stage::Done, Action::Respond(Reply::Created(id)), Tally::Nothing),
            _ => fail(ServiceError::InfrastructureFailure),
        },
        Stage::Looking { id, term } => match event {
            Event::CacheHit(v) => (Stage::Done, Action::Respond(answer_spec(v, term)), Tally::Hit),
            Event::CacheMiss => (Stage::Fetching { id, term }, Action::StoreFind(id), Tally::Miss),
            _ => fail(ServiceError::InfrastructureFailure),
        },
        Stage::Fetching { id, term } => match event {
            Event::StoreFound(v) => (
                Stage::Refilling { reply: answer_spec(v, term) },
                Action::CacheSet(id, v),
                Tally::Nothing,
            ),
            Event::StoreAbsent => fail(ServiceError::NotFound),
            _ => fail(ServiceError::InfrastructureFailure),
        },
        Stage::Refilling { reply } => match event {
            Event::CacheDone => (Stage::Done, Action::Respond(reply), Tally::Nothing),
            _ => fail(ServiceError::InfrastructureFailure),
        },
        Stage::Invalidating { id } => match event {
            Event::CacheDone => (Stage::Removing { id }, Action::StoreDelete(id), Tally::Nothing),
            _ => fail(ServiceError::InfrastructureFailure),
        },
        Stage::Removing { id } => match event {
            Event::StoreDeleted(n) => if n == 0 {
                fail(ServiceError::NotFound)
            } else if n == 1 {
                (Stage::Done, Action::Respond(Reply::Deleted), Tally::Nothing)
            } else {
                fail(ServiceError::InvariantViolation)
            },
            _ => fail(ServiceError::InfrastructureFailure),
        },
        Stage::Done => fail(ServiceError::InfrastructureFailure),
    }
}

/// The counters after a step that counts `t`.
pub open spec fn tallied(m: MetricsView, t: Tally) -> MetricsView {
    match t {
        Tally::Nothing => m,
        Tally::Hit => m.with_hit(),
        Tally::Miss => m.with_miss(),
    }
}

/// The HTTP status that answers a reply.
pub open spec fn status_of(r: Reply<Seq<char>>) -> u16 {
    match r {
        Reply::Created(_) => 201,
        Reply::Text(_) => 200,
        Reply::Found(_) => 200,
        Reply::Deleted => 204,
        Reply::Failed(ServiceError::NotFound) => 404,
        Reply::Failed(ServiceError::MalformedId) => 400,
        Reply::Failed(ServiceError::InvalidTerm) => 400,
        Reply::Failed(_) => 500,
    }
}

/// The answer to a get (no term) or a search (a term) on a text `value`.
pub fn answer(value: String, term: Option<String>) -> (r: Reply<String>)
    ensures
        r@ == answer_spec(value@, view_opt(term)),
{
    match term {
        None => Reply::Text(value),
        Some(t) => Reply::Found(contains_term(value.as_str(), t.as_str())),
    }
}

fn failed(e: ServiceError) -> (r: (Stage<String>, Action<String>))
    ensures
        r.0@ == fail(e).0,
        r.1@ == fail(e).1,
{
    (Stage::Done, Action::Respond(Reply::Failed(e)))
}

/// Starts a request: its first stage and action. A search counts its term.
pub fn start(op: Operation<String>, metrics: &mut Metrics) -> (r: (Stage<String>, Action<String>))
    requires
        old(metrics).wf(),
    ensures
        final(metrics).wf(),
        final(metrics)@ == started_metrics(old(metrics)@, op@),
        r.0@ == start_spec(op@).0,
        r.1@ == start_spec(op@).1,
{
    match op {
        Operation::Insert { id, data } => {
            let d = data.clone();
            (Stage::Writing { id, data }, Action::StoreInsert(id, d))
        },
        Operation::Get { id } => (Stage::Looking { id, term: None }, Action::CacheGet(id)),
        Operation::Search { id, term } => {
            metrics.record_search(term.as_str());
            if has_whitespace(term.as_str()) {
                (Stage::Done, Action::Respond(Reply::Failed(ServiceError::InvalidTerm)))
            } else {
                (Stage::Looking { id, term: Some(term) }, Action::CacheGet(id))
            }
        },
        Operation::Delete { id } => (Stage::Invalidating { id }, Action::CacheDelete(id)),
    }
}

/// Moves a request on by one step, given what its last call came back with.
pub fn step(stage: Stage<String>, event: Event<String>, metrics: &mut Metrics) -> (r: (Stage<String>, Action<String>))
    requires
        old(metrics).wf(),
    ensures
        final(metrics).wf(),
        final(metrics)@ == tallied(old(metrics)@, step_spec(stage@, event@).2),
        r.0@ == step_spec(stage@, event@).0,
        r.1@ == step_spec(stage@, event@).1,
{
    match stage {
        Stage::Writing { id, data } => match event {
            Event::StoreInserted => (Stage::Seeding { id }, Action::CacheSet(id, data)),
            _ => failed(ServiceError::InfrastructureFailure),
        },
        Stage::Seeding { id } => match event {
            Event::CacheDone => (Stage::Done, Action::Respond(Reply::Created(id))),
            _ => failed(ServiceError::InfrastructureFailure),
        },
        Stage::Looking { id, term } => match event {
            Event::CacheHit(v) => {
                metrics.record_hit();
                (Stage::Done, Action::Respond(answer(v, term)))
            },
            Event::CacheMiss => {
                metrics.record_miss();
                (Stage::Fetching { id, term }, Action::StoreFind(id))
            },
            _ => failed(ServiceError::InfrastructureFailure),
        },
        Stage::Fetching { id, term } => match event {
            Event::StoreFound(v) => {
                let reply = answer(v.clone(), term);
                (Stage::Refilling { reply }, Action::CacheSet(id, v))
            },
            Event::StoreAbsent => failed(ServiceError::NotFound),
            _ => failed(ServiceError::InfrastructureFailure),
        },
        Stage::Refilling { reply } => match event {
            Event::CacheDone => (Stage::Done, Action::Respond(reply)),
            _ => failed(ServiceError::InfrastructureFailure),
        },
        Stage::Invalidating { id } => match event {
            Event::CacheDone => (Stage::Removing { id }, Action::StoreDelete(id)),
            _ => failed(ServiceError::InfrastructureFailure),
        },
        Stage::Removing { id } => match event {
            Event::StoreDeleted(n) => if n == 0 {
                failed(ServiceError::NotFound)
            } else if n == 1 {
                (Stage::Done, Action::Respond(Reply::Deleted))
            } else {
                failed(ServiceError::InvariantViolation)
            },
            _ => failed(ServiceError::InfrastructureFailure),
        },
        Stage::Done => failed(ServiceError::InfrastructureFailure),
    }
}

impl Reply<String> {
    /// The HTTP status that answers this reply.
    pub fn status_code(&self) -> (r: u16)
        ensures
            r == status_of(self@),
    {
        match self {
            Reply::Created(_) => 201,
            Reply::Text(_) => 200,
            Reply::Found(_) => 200,
            Reply::Deleted => 204,
            Reply::Failed(ServiceError::NotFound) => 404,
            Reply::Failed(ServiceError::MalformedId) => 400,
            Reply::Failed(ServiceError::InvalidTerm) => 400,
            Reply::Failed(_) => 500,
        }
    }
}

} // verus!
