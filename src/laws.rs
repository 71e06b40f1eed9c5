use vstd::prelude::*;

use crate::ids::TextId;
use crate::metrics::MetricsView;
use crate::protocol::{
    start_spec, started_metrics, step_spec, tallied, Action, Event, Operation, Reply,
    ServiceError, Stage,
};
use crate::text::{contains, has_white_space};

verus! {

/// A model of the two stores that the protocol drives: the durable store,
/// and the cache in front of it (keyed, like the store, by identifier).
pub ghost struct World {
    pub store: Map<TextId, Seq<char>>,
    pub cache: Map<TextId, Seq<char>>,
}

/// How a sound store and cache answer an action. The store always answers.
/// The cache answers only when `cache_up`; when it is down a lookup misses
/// and a write or delete is acknowledged without effect.
pub open spec fn respond(w: World, a: Action<Seq<char>>, cache_up: bool) -> (Event<Seq<char>>, World) {
    match a {
        Action::CacheGet(id) => if cache_up && w.cache.contains_key(id) {
            (Event::CacheHit(w.cache[id]), w)
        } else {
            (Event::CacheMiss, w)
        },
        Action::CacheSet(id, v) => (
            Event::CacheDone,
            if cache_up {
                World { cache: w.cache.insert(id, v), ..w }
            } else {
                w
            },
        ),
        Action::CacheDelete(id) => (
            Event::CacheDone,
            if cache_up {
                World { cache: w.cache.remove(id), ..w }
            } else {
                w
            },
        ),
        Action::StoreInsert(id, d) => (Event::StoreInserted, World { store: w.store.insert(id, d), ..w }),
        Action::StoreFind(id) => if w.store.contains_key(id) {
            (Event::StoreFound(w.store[id]), w)
        } else {
            (Event::StoreAbsent, w)
        },
        Action::StoreDelete(id) => if w.store.contains_key(id) {
            (Event::StoreDeleted(1), World { store: w.store.remove(id), ..w })
        } else {
            (Event::StoreDeleted(0), w)
        },
        Action::Respond(_) => (Event::CacheDone, w),
    }
}

/// Runs a request from `stage` and `action` against `w` for at most `fuel`
/// calls: its reply, the world after, and the counters after.
pub open spec fn run(
    stage: Stage<Seq<char>>,
    action: Action<Seq<char>>,
    w: World,
    m: MetricsView,
    cache_up: bool,
    fuel: nat,
) -> (Reply<Seq<char>>, World, MetricsView)
    decreases fuel,
{
    match action {
        Action::Respond(r) => (r, w, m),
        _ => if fuel == 0 {
            (Reply::Failed(ServiceError::InfrastructureFailure), w, m)
        } else {
            let (ev, w2) = respond(w, action, cache_up);
            let (s2, a2, t) = step_spec(stage, ev);
            run(s2, a2, w2, tallied(m, t), cache_up, (fuel - 1) as nat)
        },
    }
}

/// One whole request against `w` (no request makes more than three calls).
pub open spec fn perform(op: Operation<Seq<char>>, w: World, m: MetricsView, cache_up: bool) -> (
    Reply<Seq<char>>,
    World,
    MetricsView,
) {
    run(start_spec(op).0, start_spec(op).1, w, started_metrics(m, op), cache_up, 3)
}

/// An identifier that neither store has seen.
pub open spec fn fresh(w: World, id: TextId) -> bool {
    !w.store.contains_key(id) && !w.cache.contains_key(id)
}

/// Write-then-read: an insert under a fresh identifier, then a get of it,
/// returns the inserted text, whether or not the cache was up either time.
pub proof fn law_insert_then_get(w: World, m: MetricsView, id: TextId, data: Seq<char>, up1: bool, up2: bool)
    requires
        fresh(w, id),
    ensures
        perform(Operation::Insert { id, data }, w, m, up1).0 == Reply::<Seq<char>>::Created(id),
        perform(
            Operation::Get { id },
            perform(Operation::Insert { id, data }, w, m, up1).1,
            perform(Operation::Insert { id, data }, w, m, up1).2,
            up2,
        ).0 == Reply::Text(data),
{
    reveal_with_fuel(run, 4);
}

/// A get of an identifier that neither store holds finds nothing: it counts
/// one miss and no hit, and writes nothing to the cache.
pub proof fn law_get_absent(w: World, m: MetricsView, id: TextId, up: bool)
    requires
        fresh(w, id),
    ensures
        perform(Operation::Get { id }, w, m, up).0 == Reply::<Seq<char>>::Failed(ServiceError::NotFound),
        perform(Operation::Get { id }, w, m, up).1 == w,
        perform(Operation::Get { id }, w, m, up).2 == m.with_miss(),
{
    reveal_with_fuel(run, 4);
}

/// A get after a delete (made while the cache was up) finds nothing.
pub proof fn law_get_after_delete(w: World, m: MetricsView, id: TextId, up: bool)
    ensures
        perform(
            Operation::Get { id },
            perform(Operation::Delete { id }, w, m, true).1,
            perform(Operation::Delete { id }, w, m, true).2,
            up,
        ).0 == Reply::<Seq<char>>::Failed(ServiceError::NotFound),
{
    reveal_with_fuel(run, 4);
}

/// A delete of a stored record succeeds once; a second delete of it finds
/// nothing.
pub proof fn law_delete_once(w: World, m: MetricsView, id: TextId, up1: bool, up2: bool)
    requires
        w.store.contains_key(id),
    ensures
        perform(Operation::Delete { id }, w, m, up1).0 == Reply::<Seq<char>>::Deleted,
        perform(
            Operation::Delete { id },
            perform(Operation::Delete { id }, w, m, up1).1,
            perform(Operation::Delete { id }, w, m, up1).2,
            up2,
        ).0 == Reply::<Seq<char>>::Failed(ServiceError::NotFound),
{
    reveal_with_fuel(run, 4);
}

/// A get of a record that only the store holds (its cache entry was never
/// written or has expired), with the cache up, answers the stored text,
/// counts one miss and no hit, and writes the text to the cache.
pub proof fn law_get_miss_refills(w: World, m: MetricsView, id: TextId)
    requires
        w.store.contains_key(id),
        !w.cache.contains_key(id),
    ensures
        perform(Operation::Get { id }, w, m, true).0 == Reply::Text(w.store[id]),
        perform(Operation::Get { id }, w, m, true).2 == m.with_miss(),
        perform(Operation::Get { id }, w, m, true).1 == (World {
            cache: w.cache.insert(id, w.store[id]),
            ..w
        }),
{
    reveal_with_fuel(run, 4);
}

/// A get of a stored record, with the cache up, leaves the record's text in
/// the cache, so that the next get with the cache up is a hit: it counts one
/// hit, no miss, and returns the stored text.
pub proof fn law_get_fills_cache(w: World, m: MetricsView, id: TextId)
    requires
        w.store.contains_key(id),
        w.cache.contains_key(id) ==> w.cache[id] == w.store[id],
    ensures
        perform(Operation::Get { id }, w, m, true).1.cache.contains_key(id),
        perform(Operation::Get { id }, w, m, true).1.cache[id] == w.store[id],
        perform(
            Operation::Get { id },
            perform(Operation::Get { id }, w, m, true).1,
            perform(Operation::Get { id }, w, m, true).2,
            true,
        ).2 == perform(Operation::Get { id }, w, m, true).2.with_hit(),
        perform(
            Operation::Get { id },
            perform(Operation::Get { id }, w, m, true).1,
            perform(Operation::Get { id }, w, m, true).2,
            true,
        ).0 == Reply::Text(w.store[id]),
{
    reveal_with_fuel(run, 4);
}

/// After an insert (the cache up or not) and a get with the cache up, the
/// second get with the cache up is a hit.
pub proof fn law_second_get_hits(w: World, m: MetricsView, id: TextId, data: Seq<char>, up: bool)
    requires
        fresh(w, id),
    ensures
        ({
            let (_, w1, m1) = perform(Operation::Insert { id, data }, w, m, up);
            let (_, w2, m2) = perform(Operation::Get { id }, w1, m1, true);
            perform(Operation::Get { id }, w2, m2, true).2 == m2.with_hit()
        }),
{
    reveal_with_fuel(run, 4);
    let (_, w1, m1) = perform(Operation::Insert { id, data }, w, m, up);
    law_get_fills_cache(w1, m1, id);
}

/// After one insert and two gets of it, all with the cache up, the hit
/// counter has grown by at least one (both gets are hits).
pub proof fn law_hits_counted(w: World, m: MetricsView, id: TextId, data: Seq<char>)
    requires
        fresh(w, id),
        m.hits + 2 <= u64::MAX,
    ensures
        ({
            let (_, w1, m1) = perform(Operation::Insert { id, data }, w, m, true);
            let (_, w2, m2) = perform(Operation::Get { id }, w1, m1, true);
            let m3 = perform(Operation::Get { id }, w2, m2, true).2;
            &&& m3.hits >= m.hits + 1
            &&& m3.hits == m.hits + 2
            &&& m3.misses == m.misses
        }),
{
    reveal_with_fuel(run, 4);
}

/// Gets of a cached record, with the cache up, are hits: each returns the
/// cached text, counts one hit and no miss, and leaves both stores as they
/// were.
pub proof fn law_cached_get_repeats(w: World, m: MetricsView, id: TextId)
    requires
        w.cache.contains_key(id),
    ensures
        perform(Operation::Get { id }, w, m, true).0 == Reply::Text(w.cache[id]),
        perform(Operation::Get { id }, w, m, true).1 == w,
        perform(Operation::Get { id }, w, m, true).2 == m.with_hit(),
        perform(
            Operation::Get { id },
            perform(Operation::Get { id }, w, m, true).1,
            perform(Operation::Get { id }, w, m, true).2,
            true,
        ).0 == Reply::Text(w.cache[id]),
{
    reveal_with_fuel(run, 4);
}

/// Search after insert: a term without white space is found exactly when it
/// stands in the inserted text as a literal substring.
pub proof fn law_insert_then_search(
    w: World,
    m: MetricsView,
    id: TextId,
    data: Seq<char>,
    term: Seq<char>,
    up1: bool,
    up2: bool,
)
    requires
        fresh(w, id),
        !has_white_space(term),
    ensures
        perform(
            Operation::Search { id, term },
            perform(Operation::Insert { id, data }, w, m, up1).1,
            perform(Operation::Insert { id, data }, w, m, up1).2,
            up2,
        ).0 == Reply::<Seq<char>>::Found(contains(data, term)),
{
    reveal_with_fuel(run, 4);
}

/// Every cache entry holds what the store holds under its identifier.
pub open spec fn consistent(w: World) -> bool {
    forall|id: TextId| #[trigger]
        w.cache.contains_key(id) ==> w.store.contains_key(id) && w.store[id] == w.cache[id]
}

/// The cache only ever takes text that went through the store: a request
/// keeps every cache entry equal to the stored record, provided an insert
/// uses a fresh identifier and a delete finds the cache up (a delete whose
/// invalidation fails may leave a stale entry until it expires).
pub proof fn law_cache_follows_store(w: World, m: MetricsView, op: Operation<Seq<char>>, up: bool)
    requires
        consistent(w),
        op is Insert ==> fresh(w, op->Insert_id),
        op is Delete ==> up,
    ensures
        consistent(perform(op, w, m, up).1),
{
    reveal_with_fuel(run, 4);
    let w1 = perform(op, w, m, up).1;
    assert forall|k: TextId| #[trigger] w1.cache.contains_key(k) implies w1.store.contains_key(k)
        && w1.store[k] == w1.cache[k] by {
        assert(w.cache.contains_key(k) ==> w.store.contains_key(k));
    }
}

/// A search with a term that holds white space is refused before any call,
/// whatever the identifier.
pub proof fn law_spaced_term_refused(id: TextId, term: Seq<char>)
    requires
        has_white_space(term),
    ensures
        start_spec(Operation::Search { id, term }).1 == Action::Respond(
            Reply::<Seq<char>>::Failed(ServiceError::InvalidTerm),
        ),
{
}

/// The store holds `data` under `id`, and the cache holds nothing else there.
pub open spec fn agrees(w: World, id: TextId, data: Seq<char>) -> bool {
    &&& w.store.contains_key(id)
    &&& w.store[id] == data
    &&& w.cache.contains_key(id) ==> w.cache[id] == data
}

/// Where a get of `id` may stand, with the action it is waiting on, while
/// the stores agree on `data`: it only ever answers `data`.
pub open spec fn get_in_flight(s: Stage<Seq<char>>, a: Action<Seq<char>>, id: TextId, data: Seq<char>) -> bool {
    match s {
        Stage::Looking { id: i, term: None } => i == id && a == Action::<Seq<char>>::CacheGet(id),
        Stage::Fetching { id: i, term: None } => i == id && a == Action::<Seq<char>>::StoreFind(id),
        Stage::Refilling { reply } => reply == Reply::Text(data) && a == Action::CacheSet(id, data),
        Stage::Done => a == Action::Respond(Reply::Text(data)),
        _ => false,
    }
}

/// An insert under a fresh identifier leaves the stores agreeing on its text.
pub proof fn law_insert_agrees(w: World, m: MetricsView, id: TextId, data: Seq<char>, up: bool)
    requires
        fresh(w, id),
    ensures
        agrees(perform(Operation::Insert { id, data }, w, m, up).1, id, data),
{
    reveal_with_fuel(run, 4);
}

/// A get that starts is in flight.
pub proof fn law_get_starts_in_flight(id: TextId, data: Seq<char>)
    ensures
        get_in_flight(start_spec(Operation::Get { id }).0, start_spec(Operation::Get { id }).1, id, data),
{
}

/// Concurrent gets: while the stores agree on `data`, any call of any get
/// in flight, with the cache up or not, keeps them agreeing and keeps that
/// get in flight. So gets interleaved in any order each answer `data`, by a
/// hit or by a miss that the store resolves, and never fail.
pub proof fn law_concurrent_get_step(
    w: World,
    s: Stage<Seq<char>>,
    a: Action<Seq<char>>,
    id: TextId,
    data: Seq<char>,
    up: bool,
)
    requires
        agrees(w, id, data),
        get_in_flight(s, a, id, data),
        !(a is Respond),
    ensures
        agrees(respond(w, a, up).1, id, data),
        get_in_flight(step_spec(s, respond(w, a, up).0).0, step_spec(s, respond(w, a, up).0).1, id, data),
{
}

/// A cache entry may expire at any moment; that keeps the stores agreeing.
pub proof fn law_expiry_agrees(w: World, k: TextId, id: TextId, data: Seq<char>)
    requires
        agrees(w, id, data),
    ensures
        agrees(World { cache: w.cache.remove(k), ..w }, id, data),
{
}

/// A request in flight: its stage and the action it waits on.
pub type Flight = (Stage<Seq<char>>, Action<Seq<char>>);

/// How many flights satisfy `f`.
pub open spec fn count_where(fl: Seq<Flight>, f: spec_fn(Flight) -> bool) -> nat
    decreases fl.len(),
{
    if fl.len() == 0 {
        0
    } else {
        count_where(fl.drop_last(), f) + if f(fl.last()) {
            1nat
        } else {
            0nat
        }
    }
}

proof fn lemma_count_update(fl: Seq<Flight>, f: spec_fn(Flight) -> bool, i: int, x: Flight)
    requires
        0 <= i < fl.len(),
    ensures
        count_where(fl.update(i, x), f) as int == count_where(fl, f) as int - (if f(fl[i]) {
            1int
        } else {
            0int
        }) + (if f(x) {
            1int
        } else {
            0int
        }),
    decreases fl.len(),
{
    if i == fl.len() - 1 {
        assert(fl.update(i, x).drop_last() =~= fl.drop_last());
    } else {
        lemma_count_update(fl.drop_last(), f, i, x);
        assert(fl.update(i, x).drop_last() =~= fl.drop_last().update(i, x));
    }
}

/// One call made by flight `i`, if it still waits on one, against `w`
/// (`up`: whether the cache answers): the world, flights and counters after.
pub open spec fn advance(w: World, fl: Seq<Flight>, m: MetricsView, i: int, up: bool) -> (
    World,
    Seq<Flight>,
    MetricsView,
) {
    if 0 <= i < fl.len() && !(fl[i].1 is Respond) {
        let (ev, w2) = respond(w, fl[i].1, up);
        let (s2, a2, t) = step_spec(fl[i].0, ev);
        (w2, fl.update(i, (s2, a2)), tallied(m, t))
    } else {
        (w, fl, m)
    }
}

/// Requests in flight together, their calls made in the order `order` gives
/// (which flight calls next, and whether the cache answers it).
pub open spec fn interleave(w: World, fl: Seq<Flight>, m: MetricsView, order: Seq<(int, bool)>) -> (
    World,
    Seq<Flight>,
    MetricsView,
)
    decreases order.len(),
{
    if order.len() == 0 {
        (w, fl, m)
    } else {
        let (w2, fl2, m2) = advance(w, fl, m, order[0].0, order[0].1);
        interleave(w2, fl2, m2, order.drop_first())
    }
}

pub open spec fn is_looking(f: Flight) -> bool {
    f.0 is Looking
}

/// Concurrent gets of one record: any number of gets of `id`, started
/// together while the stores agree on `data`, their calls interleaved in any
/// order with the cache up or down at each call. Every get stays in flight,
/// so each one that has answered answered `data`, none failed; the stores
/// still agree; and hits and misses together grew by one for each get that
/// has looked in the cache (by the number of gets, once all have).
pub proof fn law_concurrent_gets(
    w: World,
    fl: Seq<Flight>,
    m: MetricsView,
    order: Seq<(int, bool)>,
    id: TextId,
    data: Seq<char>,
)
    requires
        agrees(w, id, data),
        forall|j: int| 0 <= j < fl.len() ==> #[trigger] is_looking(fl[j]) && get_in_flight(fl[j].0, fl[j].1, id, data),
        m.hits + fl.len() <= u64::MAX,
        m.misses + fl.len() <= u64::MAX,
    ensures
        ({
            let (w2, fl2, m2) = interleave(w, fl, m, order);
            &&& agrees(w2, id, data)
            &&& fl2.len() == fl.len()
            &&& forall|j: int| 0 <= j < fl2.len() ==> get_in_flight(#[trigger] fl2[j].0, fl2[j].1, id, data)
            &&& m2.hits + m2.misses == m.hits + m.misses + fl.len() - count_where(fl2, |f: Flight| is_looking(f))
        }),
{
    lemma_count_all(fl, |f: Flight| is_looking(f));
    assert forall|j: int| 0 <= j < fl.len() implies get_in_flight(#[trigger] fl[j].0, fl[j].1, id, data) by {
        assert(is_looking(fl[j]));
    }
    lemma_gets_interleave(w, fl, m, order, id, data, m.hits as int, m.misses as int, fl.len() as int);
}

proof fn lemma_count_all(fl: Seq<Flight>, f: spec_fn(Flight) -> bool)
    requires
        forall|j: int| 0 <= j < fl.len() ==> #[trigger] f(fl[j]),
    ensures
        count_where(fl, f) == fl.len(),
    decreases fl.len(),
{
    if fl.len() > 0 {
        lemma_count_all(fl.drop_last(), f);
        assert(f(fl[fl.len() - 1]));
    }
}

proof fn lemma_count_le(fl: Seq<Flight>, f: spec_fn(Flight) -> bool)
    ensures
        count_where(fl, f) <= fl.len(),
    decreases fl.len(),
{
    if fl.len() > 0 {
        lemma_count_le(fl.drop_last(), f);
    }
}

proof fn lemma_gets_interleave(
    w: World,
    fl: Seq<Flight>,
    m: MetricsView,
    order: Seq<(int, bool)>,
    id: TextId,
    data: Seq<char>,
    h0: int,
    m0: int,
    n: int,
)
    requires
        agrees(w, id, data),
        forall|j: int| 0 <= j < fl.len() ==> get_in_flight(#[trigger] fl[j].0, fl[j].1, id, data),
        fl.len() == n,
        h0 + n <= u64::MAX,
        m0 + n <= u64::MAX,
        m.hits >= h0,
        m.misses >= m0,
        m.hits + m.misses - h0 - m0 == n - count_where(fl, |f: Flight| is_looking(f)),
    ensures
        ({
            let (w2, fl2, m2) = interleave(w, fl, m, order);
            &&& agrees(w2, id, data)
            &&& fl2.len() == n
            &&& forall|j: int| 0 <= j < fl2.len() ==> get_in_flight(#[trigger] fl2[j].0, fl2[j].1, id, data)
            &&& m2.hits + m2.misses - h0 - m0 == n - count_where(fl2, |f: Flight| is_looking(f))
        }),
    decreases order.len(),
{
    if order.len() > 0 {
        let i = order[0].0;
        let up = order[0].1;
        let (w2, fl2, m2) = advance(w, fl, m, i, up);
        if 0 <= i < fl.len() && !(fl[i].1 is Respond) {
            law_concurrent_get_step(w, fl[i].0, fl[i].1, id, data, up);
            let (ev, w3) = respond(w, fl[i].1, up);
            let x = (step_spec(fl[i].0, ev).0, step_spec(fl[i].0, ev).1);
            lemma_count_update(fl, |f: Flight| is_looking(f), i, x);
            lemma_count_le(fl, |f: Flight| is_looking(f));
            assert forall|j: int| 0 <= j < fl2.len() implies get_in_flight(#[trigger] fl2[j].0, fl2[j].1, id, data) by {
                if j != i {
                    assert(fl2[j] == fl[j]);
                }
            }
        }
        lemma_gets_interleave(w2, fl2, m2, order.drop_first(), id, data, h0, m0, n);
    }
}

/// Where a delete of `id` may stand, with the action it waits on.
pub open spec fn delete_in_flight(s: Stage<Seq<char>>, a: Action<Seq<char>>, id: TextId) -> bool {
    match s {
        Stage::Invalidating { id: i } => i == id && a == Action::<Seq<char>>::CacheDelete(id),
        Stage::Removing { id: i } => i == id && a == Action::<Seq<char>>::StoreDelete(id),
        Stage::Done => a == Action::Respond(Reply::<Seq<char>>::Deleted) || a == Action::Respond(
            Reply::<Seq<char>>::Failed(ServiceError::NotFound),
        ),
        _ => false,
    }
}

pub open spec fn is_deleted(f: Flight) -> bool {
    f.1 == Action::Respond(Reply::<Seq<char>>::Deleted)
}

pub open spec fn in_store(w: World, id: TextId) -> nat {
    if w.store.contains_key(id) {
        1
    } else {
        0
    }
}

/// Concurrent deletes of one record: any number of deletes of `id`, started
/// together while the store holds it, their calls interleaved in any order
/// with the cache up or down at each call. Each one that has answered
/// answered success or not-found; at most one succeeded, and one did exactly
/// when the store no longer holds the record, which is so once any has
/// answered. So once all have answered, exactly one succeeded.
pub proof fn law_concurrent_deletes(
    w: World,
    fl: Seq<Flight>,
    m: MetricsView,
    order: Seq<(int, bool)>,
    id: TextId,
)
    requires
        w.store.contains_key(id),
        forall|j: int| 0 <= j < fl.len() ==> (#[trigger] fl[j]) == (Stage::<Seq<char>>::Invalidating { id }, Action::<Seq<char>>::CacheDelete(id)),
    ensures
        ({
            let (w2, fl2, m2) = interleave(w, fl, m, order);
            &&& fl2.len() == fl.len()
            &&& forall|j: int| 0 <= j < fl2.len() ==> delete_in_flight(#[trigger] fl2[j].0, fl2[j].1, id)
            &&& count_where(fl2, |f: Flight| is_deleted(f)) + in_store(w2, id) == 1
            &&& forall|j: int| 0 <= j < fl2.len() && (#[trigger] fl2[j]).0 is Done ==> !w2.store.contains_key(id)
        }),
{
    assert(count_where(fl, |f: Flight| is_deleted(f)) == 0) by {
        lemma_count_none(fl, |f: Flight| is_deleted(f));
    }
    lemma_deletes_interleave(w, fl, m, order, id);
}

proof fn lemma_count_none(fl: Seq<Flight>, f: spec_fn(Flight) -> bool)
    requires
        forall|j: int| 0 <= j < fl.len() ==> !f(#[trigger] fl[j]),
    ensures
        count_where(fl, f) == 0,
    decreases fl.len(),
{
    if fl.len() > 0 {
        lemma_count_none(fl.drop_last(), f);
        assert(!f(fl[fl.len() - 1]));
    }
}

proof fn lemma_deletes_interleave(w: World, fl: Seq<Flight>, m: MetricsView, order: Seq<(int, bool)>, id: TextId)
    requires
        forall|j: int| 0 <= j < fl.len() ==> delete_in_flight(#[trigger] fl[j].0, fl[j].1, id),
        count_where(fl, |f: Flight| is_deleted(f)) + in_store(w, id) == 1,
        forall|j: int| 0 <= j < fl.len() && (#[trigger] fl[j]).0 is Done ==> !w.store.contains_key(id),
    ensures
        ({
            let (w2, fl2, m2) = interleave(w, fl, m, order);
            &&& fl2.len() == fl.len()
            &&& forall|j: int| 0 <= j < fl2.len() ==> delete_in_flight(#[trigger] fl2[j].0, fl2[j].1, id)
            &&& count_where(fl2, |f: Flight| is_deleted(f)) + in_store(w2, id) == 1
            &&& forall|j: int| 0 <= j < fl2.len() && (#[trigger] fl2[j]).0 is Done ==> !w2.store.contains_key(id)
        }),
    decreases order.len(),
{
    if order.len() > 0 {
        let i = order[0].0;
        let up = order[0].1;
        let (w2, fl2, m2) = advance(w, fl, m, i, up);
        if 0 <= i < fl.len() && !(fl[i].1 is Respond) {
            let (ev, w3) = respond(w, fl[i].1, up);
            let x = (step_spec(fl[i].0, ev).0, step_spec(fl[i].0, ev).1);
            lemma_count_update(fl, |f: Flight| is_deleted(f), i, x);
            assert(fl2[i] == x);
            assert forall|j: int| 0 <= j < fl2.len() implies delete_in_flight(#[trigger] fl2[j].0, fl2[j].1, id) by {
                if j != i {
                    assert(fl2[j] == fl[j]);
                }
            }
            assert forall|j: int| 0 <= j < fl2.len() && (#[trigger] fl2[j]).0 is Done implies !w2.store.contains_key(id) by {
                if j != i {
                    assert(fl2[j] == fl[j]);
                }
            }
        }
        lemma_deletes_interleave(w2, fl2, m2, order.drop_first(), id);
    }
}

} // verus!
