//! The connections of the pool to the database, and what a request to sleep leaves on
//! its connection when it is cancelled: its transaction, which all later requests then
//! run in, because the pool has no other connection.
//!
//! This is a model of what the database does with the statements that reach it; the
//! laws hold of a database that does so, and of a pool that keeps to its size.
use vstd::prelude::*;

use crate::model::{
    counted, counter_is, law_client_is_told_the_count, served, served_in_turn, slept, Counter,
    Served, SleepEnd, Table,
};
use crate::pool::{
    law_one_connection, lemma_stays_in_the_pool, pool_did, pool_ran, Connections, PoolConfig,
    PoolEvent,
};

verus! {

/// The database, as the connections to it see it.
pub struct Database {
    /// The table as it is committed.
    pub committed: Table,
    /// The table inside the transaction that is open on a connection, for each on which
    /// one is.
    pub open: Map<int, Table>,
}

impl Database {
    /// The table as a request on this connection finds it.
    pub open spec fn seen(self, connection: int) -> Table {
        if self.open.contains_key(connection) {
            self.open[connection]
        } else {
            self.committed
        }
    }
}

/// What can happen.
pub enum Event {
    /// A request was answered on this connection.
    Served(int, Served),
    /// A request to sleep on this connection was cancelled while it slept: its
    /// transaction was begun, and nothing ends it.
    SleepCancelled(int),
    /// The pool opened a connection.
    Opened(int),
    /// The pool handed out a connection.
    CheckedOut(int),
    /// The pool took a connection back.
    Returned(int),
    /// The pool dropped a connection.
    Discarded(int),
}

impl Event {
    /// What it is to the pool.
    pub open spec fn in_the_pool(self) -> PoolEvent {
        match self {
            Event::Served(c, _) => PoolEvent::Use(c),
            Event::SleepCancelled(c) => PoolEvent::Use(c),
            Event::Opened(c) => PoolEvent::Open(c),
            Event::CheckedOut(c) => PoolEvent::CheckOut(c),
            Event::Returned(c) => PoolEvent::Return(c),
            Event::Discarded(c) => PoolEvent::Discard(c),
        }
    }

    /// The request as its client saw it. One that was cancelled in its sleep changed no
    /// more than one that slept through, and the pool changes nothing.
    pub open spec fn request(self) -> Served {
        match self {
            Event::Served(_, request) => request,
            _ => Served::Sleep,
        }
    }
}

/// What an event does to the database. A request that is answered inside a transaction
/// changes what the transaction holds; outside of one, what is committed. A transaction
/// that is begun starts from what its connection sees, and inside another is part of that
/// one. A connection that is dropped takes its open transaction with it, and a new one has
/// none.
pub open spec fn happened(event: Event, pre: Database, post: Database) -> bool {
    match event {
        Event::Served(c, request) => {
            &&& served(request, pre.seen(c), post.seen(c))
            &&& if pre.open.contains_key(c) {
                &&& post.committed == pre.committed
                &&& post.open == pre.open.insert(c, post.open[c])
            } else {
                post.open == pre.open
            }
        },
        Event::SleepCancelled(c) => {
            &&& post.committed == pre.committed
            &&& post.open == pre.open.insert(c, post.open[c])
            &&& slept(SleepEnd::Cancelled, pre.seen(c), post.seen(c))
        },
        Event::Opened(c) | Event::Discarded(c) => {
            &&& post.committed == pre.committed
            &&& post.open == pre.open.remove(c)
        },
        Event::CheckedOut(_) | Event::Returned(_) => post == pre,
    }
}

/// The events happened one after the other, on a pool of at most so many connections.
/// `pools` is what the pool held and `databases` what the database did, before the first
/// of the events and after each. At first there is no connection, and no transaction.
pub open spec fn ran(
    max_size: nat,
    events: Seq<Event>,
    pools: Seq<Connections>,
    databases: Seq<Database>,
) -> bool {
    &&& pool_ran(max_size, events.map_values(|event: Event| event.in_the_pool()), pools)
    &&& databases.len() == events.len() + 1
    &&& databases[0].open == Map::<int, Table>::empty()
    &&& forall|i: int|
        #![trigger events[i]]
        0 <= i < events.len() ==> happened(events[i], databases[i], databases[i + 1])
}

/// The pool dropped no connection in the course of these events.
pub open spec fn none_discarded(events: Seq<Event>, from: int, to: int) -> bool {
    forall|i: int| from <= i < to ==> !(#[trigger] events[i] is Discarded)
}

/// The requests as their clients saw them, in the course of these events.
pub open spec fn requests(events: Seq<Event>, from: int, to: int) -> Seq<Served> {
    Seq::new((to - from) as nat, |i: int| events[from + i].request())
}

/// What the connection sees, before the first of these events and after each.
pub open spec fn tables(
    databases: Seq<Database>,
    from: int,
    to: int,
    connection: int,
) -> Seq<Table> {
    Seq::new((to - from + 1) as nat, |i: int| databases[from + i].seen(connection))
}

/// A request to sleep that is cancelled in its sleep leaves its connection inside its
/// transaction. The table is as it was, inside the transaction and out.
pub proof fn law_cancelled_sleep_leaves_a_transaction(
    connection: int,
    pre: Database,
    post: Database,
)
    requires
        happened(Event::SleepCancelled(connection), pre, post),
    ensures
        post.open.contains_key(connection),
        post.seen(connection) == pre.seen(connection),
        post.committed == pre.committed,
{
    assert(post.open.contains_key(connection));
}

/// A request that is answered on a connection with no transaction left open is committed.
pub proof fn law_served_is_committed(
    connection: int,
    request: Served,
    pre: Database,
    post: Database,
)
    requires
        happened(Event::Served(connection, request), pre, post),
        !pre.open.contains_key(connection),
    ensures
        !post.open.contains_key(connection),
        served(request, pre.committed, post.committed),
{
}

/// The event is to the pool what the run says.
proof fn lemma_pool_step(
    max_size: nat,
    events: Seq<Event>,
    pools: Seq<Connections>,
    databases: Seq<Database>,
    i: int,
)
    requires
        ran(max_size, events, pools, databases),
        0 <= i < events.len(),
    ensures
        pool_did(max_size, events[i].in_the_pool(), pools[i], pools[i + 1]),
        happened(events[i], databases[i], databases[i + 1]),
{
    let pool_events = events.map_values(|event: Event| event.in_the_pool());
    assert(pool_events[i] == events[i].in_the_pool());
}

/// A connection stays in the pool, and is the only one there, until one is dropped.
proof fn lemma_the_only_connection<L>(
    log: L,
    db_url: Seq<char>,
    config: PoolConfig<L>,
    events: Seq<Event>,
    pools: Seq<Connections>,
    databases: Seq<Database>,
    from: int,
    to: int,
    connection: int,
    other: int,
)
    requires
        config.is_for(log, db_url),
        ran(config.max_size as nat, events, pools, databases),
        0 <= from <= to <= events.len(),
        none_discarded(events, from, to),
        pools[from].all().contains(connection),
    ensures
        pools[to].all().contains(connection),
        pools[to].all().contains(other) ==> other == connection,
{
    let max_size = config.max_size as nat;
    let pool_events = events.map_values(|event: Event| event.in_the_pool());
    assert forall|i: int| from <= i < to implies !(#[trigger] pool_events[i] is Discard) by {
        assert(!(events[i] is Discarded));
    }
    lemma_stays_in_the_pool(max_size, pool_events, pools, from, to, connection);
    if pools[to].all().contains(other) {
        law_one_connection(log, db_url, config, pool_events, pools, to, other, connection);
    }
}

/// Every request that is answered after a sleep was cancelled gets the connection that
/// the sleep was on, and runs inside the transaction that was left open there, unless the
/// pool dropped a connection meanwhile.
pub proof fn law_later_requests_run_in_the_transaction<L>(
    log: L,
    db_url: Seq<char>,
    config: PoolConfig<L>,
    events: Seq<Event>,
    pools: Seq<Connections>,
    databases: Seq<Database>,
    cancelled: int,
    later: int,
)
    requires
        config.is_for(log, db_url),
        ran(config.max_size as nat, events, pools, databases),
        0 <= cancelled < later < events.len(),
        events[cancelled] is SleepCancelled,
        events[later] is Served,
        none_discarded(events, cancelled, later),
    ensures
        events[later]->Served_0 == events[cancelled]->SleepCancelled_0,
        databases[later].open.contains_key(events[later]->Served_0),
{
    let c = events[cancelled]->SleepCancelled_0;
    let max_size = config.max_size as nat;
    law_nothing_is_committed_any_more(
        log,
        db_url,
        config,
        events,
        pools,
        databases,
        cancelled,
        later,
    );
    lemma_pool_step(max_size, events, pools, databases, cancelled);
    lemma_pool_step(max_size, events, pools, databases, later);
    lemma_the_only_connection(
        log,
        db_url,
        config,
        events,
        pools,
        databases,
        cancelled,
        later,
        c,
        events[later]->Served_0,
    );
}

/// Once a sleep was cancelled, its transaction stays open and nothing that a request does
/// is committed, unless the pool drops a connection.
pub proof fn law_nothing_is_committed_any_more<L>(
    log: L,
    db_url: Seq<char>,
    config: PoolConfig<L>,
    events: Seq<Event>,
    pools: Seq<Connections>,
    databases: Seq<Database>,
    cancelled: int,
    later: int,
)
    requires
        config.is_for(log, db_url),
        ran(config.max_size as nat, events, pools, databases),
        0 <= cancelled < later <= events.len(),
        events[cancelled] is SleepCancelled,
        none_discarded(events, cancelled, later),
    ensures
        databases[later].open.contains_key(events[cancelled]->SleepCancelled_0),
        databases[later].committed == databases[cancelled].committed,
    decreases later - cancelled,
{
    let c = events[cancelled]->SleepCancelled_0;
    let max_size = config.max_size as nat;
    lemma_pool_step(max_size, events, pools, databases, cancelled);
    if later == cancelled + 1 {
        law_cancelled_sleep_leaves_a_transaction(c, databases[cancelled], databases[later]);
    } else {
        let last = later - 1;
        law_nothing_is_committed_any_more(
            log,
            db_url,
            config,
            events,
            pools,
            databases,
            cancelled,
            last,
        );
        lemma_pool_step(max_size, events, pools, databases, last);
        let other = match events[last] {
            Event::Served(d, _) => d,
            _ => c,
        };
        lemma_the_only_connection(
            log,
            db_url,
            config,
            events,
            pools,
            databases,
            cancelled,
            last,
            c,
            other,
        );
        assert(!(events[last] is Discarded));
    }
}

/// A transaction is open on a connection of the pool only.
proof fn lemma_open_in_the_pool(
    max_size: nat,
    events: Seq<Event>,
    pools: Seq<Connections>,
    databases: Seq<Database>,
    i: int,
    connection: int,
)
    requires
        ran(max_size, events, pools, databases),
        0 <= i <= events.len(),
        databases[i].open.contains_key(connection),
    ensures
        pools[i].all().contains(connection),
    decreases i,
{
    if i > 0 {
        lemma_pool_step(max_size, events, pools, databases, i - 1);
        if databases[i - 1].open.contains_key(connection) {
            lemma_open_in_the_pool(max_size, events, pools, databases, i - 1, connection);
        }
    }
}

/// What was done since a sleep was cancelled is lost with its connection: once the pool
/// has dropped that, the table is, on every connection, as it was committed when the sleep
/// was cancelled.
pub proof fn law_work_after_a_cancelled_sleep_is_lost<L>(
    log: L,
    db_url: Seq<char>,
    config: PoolConfig<L>,
    events: Seq<Event>,
    pools: Seq<Connections>,
    databases: Seq<Database>,
    cancelled: int,
    dropped: int,
    connection: int,
)
    requires
        config.is_for(log, db_url),
        ran(config.max_size as nat, events, pools, databases),
        0 <= cancelled < dropped < events.len(),
        events[cancelled] is SleepCancelled,
        events[dropped] is Discarded,
        none_discarded(events, cancelled, dropped),
    ensures
        databases[dropped + 1].seen(connection) == databases[cancelled].committed,
{
    let c = events[cancelled]->SleepCancelled_0;
    let d = events[dropped]->Discarded_0;
    let max_size = config.max_size as nat;
    law_nothing_is_committed_any_more(
        log,
        db_url,
        config,
        events,
        pools,
        databases,
        cancelled,
        dropped,
    );
    lemma_pool_step(max_size, events, pools, databases, cancelled);
    lemma_pool_step(max_size, events, pools, databases, dropped);
    lemma_the_only_connection(
        log,
        db_url,
        config,
        events,
        pools,
        databases,
        cancelled,
        dropped,
        c,
        d,
    );
    if databases[dropped].open.contains_key(connection) {
        lemma_open_in_the_pool(max_size, events, pools, databases, dropped, connection);
        lemma_the_only_connection(
            log,
            db_url,
            config,
            events,
            pools,
            databases,
            cancelled,
            dropped,
            c,
            connection,
        );
    }
}

/// What a connection sees follows the requests that were answered while it was in the
/// pool, whether a transaction was left open on it or not.
pub proof fn law_connection_sees_its_requests<L>(
    log: L,
    db_url: Seq<char>,
    config: PoolConfig<L>,
    events: Seq<Event>,
    pools: Seq<Connections>,
    databases: Seq<Database>,
    from: int,
    to: int,
    connection: int,
)
    requires
        config.is_for(log, db_url),
        ran(config.max_size as nat, events, pools, databases),
        0 <= from <= to <= events.len(),
        none_discarded(events, from, to),
        pools[from].all().contains(connection),
    ensures
        served_in_turn(requests(events, from, to), tables(databases, from, to, connection)),
{
    let max_size = config.max_size as nat;
    let asked = requests(events, from, to);
    let seen = tables(databases, from, to, connection);
    assert forall|i: int| #![trigger asked[i]] 0 <= i < asked.len() implies served(
        asked[i],
        seen[i],
        seen[i + 1],
    ) by {
        let k = from + i;
        lemma_pool_step(max_size, events, pools, databases, k);
        assert(!(events[k] is Discarded));
        let other = match events[k] {
            Event::Served(d, _) => d,
            Event::SleepCancelled(d) => d,
            _ => connection,
        };
        assert(none_discarded(events, from, k));
        lemma_the_only_connection(
            log,
            db_url,
            config,
            events,
            pools,
            databases,
            from,
            k,
            connection,
            other,
        );
        assert(seen[i] == databases[k].seen(connection));
        assert(seen[i + 1] == databases[k + 1].seen(connection));
    }
}

/// The clients do not notice: as long as the pool drops no connection, one that fetches
/// the counter is told of every bump, whether a transaction was left open or not.
pub proof fn law_clients_do_not_notice<L>(
    log: L,
    db_url: Seq<char>,
    config: PoolConfig<L>,
    events: Seq<Event>,
    pools: Seq<Connections>,
    databases: Seq<Database>,
    from: int,
    fetch: int,
    connection: int,
    start: Option<int>,
    answer: Counter,
)
    requires
        config.is_for(log, db_url),
        ran(config.max_size as nat, events, pools, databases),
        0 <= from <= fetch < events.len(),
        none_discarded(events, from, fetch),
        pools[from].all().contains(connection),
        start matches Some(value) ==> counter_is(databases[from].seen(connection), value),
        events[fetch] is Served,
        events[fetch]->Served_1 == Served::GetCounter(answer),
        counted(start, requests(events, from, fetch + 1)) is Some,
    ensures
        answer.count == counted(start, requests(events, from, fetch + 1))->0,
{
    assert(none_discarded(events, from, fetch + 1));
    law_connection_sees_its_requests(
        log,
        db_url,
        config,
        events,
        pools,
        databases,
        from,
        fetch + 1,
        connection,
    );
    law_client_is_told_the_count(
        start,
        requests(events, from, fetch + 1),
        tables(databases, from, fetch + 1, connection),
        answer,
    );
}

} // verus!
