//! The pool of database connections: how it is made, where its errors go, and what it
//! does with its connections.
//!
//! The last of these is a model of a pool that keeps to its size; the laws hold of a
//! pool that does so.
use vstd::prelude::*;

use crate::error::{joined, law_context_stands_first, ErrorChain, ErrorWrap};
use crate::log::{Level, LogEvent};

verus! {

/// Where the pool hands the errors of its connections: they are logged to `log`.
#[derive(Debug)]
pub struct LoggingErrorSink<L> {
    pub log: L,
}

impl<L: Clone> Clone for LoggingErrorSink<L> {
    /// A sink that logs to a clone of the log.
    fn clone(&self) -> (copy: LoggingErrorSink<L>)
        ensures
            cloned(self.log, copy.log),
    {
        LoggingErrorSink { log: self.log.clone() }
    }
}

/// A line, and the log that it is for.
#[derive(Debug)]
pub struct LogEntry<'a, L> {
    pub log: &'a L,
    pub event: LogEvent,
}

impl<L> LoggingErrorSink<L> {
    /// A sink that logs to `log`.
    pub fn new(log: L) -> (sink: LoggingErrorSink<L>)
        ensures
            sink.log == log,
    {
        LoggingErrorSink { log }
    }

    /// The entry that an error with this text gives.
    pub open spec fn reports(self, error_message: Seq<char>, entry: LogEntry<L>) -> bool {
        &&& *entry.log == self.log
        &&& entry.event matches LogEvent::ConnectionError { error_message: text }
        &&& text@ == error_message
    }

    /// What is logged, and where, when the pool hands over an error with this text.
    pub fn sink(&self, error_message: String) -> (entry: LogEntry<L>)
        ensures
            self.reports(error_message@, entry),
            *entry.log == self.log,
            entry.event == (LogEvent::ConnectionError { error_message }),
    {
        LogEntry { log: &self.log, event: LogEvent::ConnectionError { error_message } }
    }
}

/// How the pool is made.
#[derive(Debug)]
pub struct PoolConfig<L> {
    /// Where the database is.
    pub db_url: String,
    /// Where the errors of the connections go.
    pub error_sink: LoggingErrorSink<L>,
    /// How many connections the pool holds at most.
    pub max_size: u32,
}

impl<L> PoolConfig<L> {
    /// It is for the database at `db_url`, and its errors go to `log`.
    pub open spec fn is_for(self, log: L, db_url: Seq<char>) -> bool {
        &&& self.db_url@ == db_url
        &&& self.error_sink.log == log
        &&& self.max_size == MAX_CONNECTIONS
    }
}

/// One connection at most: once a connection is broken, every later request is
/// sure to get it.
pub const MAX_CONNECTIONS: u32 = 1;

/// How the pool for this database is made.
pub fn pool_config<L>(log: L, db_url: &str) -> (config: PoolConfig<L>)
    ensures
        config.is_for(log, db_url@),
        config.db_url@ == db_url@,
        config.error_sink.log == log,
        config.max_size == 1,
{
    PoolConfig {
        db_url: db_url.to_owned(),
        error_sink: LoggingErrorSink::new(log),
        max_size: MAX_CONNECTIONS,
    }
}

/// What becomes of the pool.
pub open spec fn pool_outcome<P>(built: Result<P, ErrorChain>, pool: Result<P, ErrorWrap>) -> bool {
    match built {
        Ok(p) => pool == Ok::<P, ErrorWrap>(p),
        Err(chain) => pool matches Err(error) && error@ == seq!["building pool"@] + chain@,
    }
}

/// The pool, or why it could not be built.
pub fn create_pool<P>(built: Result<P, ErrorChain>) -> (pool: Result<P, ErrorWrap>)
    ensures
        pool_outcome(built, pool),
        match built {
            Ok(p) => pool == Ok::<P, ErrorWrap>(p),
            Err(chain) => pool matches Err(error) && error@ == seq!["building pool"@] + chain@,
        },
{
    match built {
        Ok(pool) => Ok(pool),
        Err(chain) => Err(ErrorWrap::from_chain(chain).context("building pool")),
    }
}

/// A pool that was built is handed on as it is. Of one that was not, all that was reported
/// is told, behind what was being done.
pub proof fn law_pool_outcome<P>(built: Result<P, ErrorChain>, pool: Result<P, ErrorWrap>)
    requires
        pool_outcome(built, pool),
    ensures
        pool is Ok <==> built is Ok,
        pool is Ok ==> pool->Ok_0 == built->Ok_0,
        pool is Err ==> joined(pool->Err_0@) == "building pool"@ + seq![':', ' '] + joined(
            built->Err_0@,
        ),
{
    if let Err(chain) = built {
        law_context_stands_first("building pool"@, chain@);
    }
}

/// The pool is made for the database that was asked for, whatever its URL: none of the URL
/// is left out and nothing is added.
pub proof fn law_pool_is_for_its_database<L>(log: L, db_url: Seq<char>, config: PoolConfig<L>)
    requires
        config.is_for(log, db_url),
    ensures
        config.db_url@ == db_url,
        config.db_url@.len() == db_url.len(),
        config.error_sink.log == log,
{
}

/// Pools for two databases go to two databases.
pub proof fn law_pools_are_told_apart<L>(
    log: L,
    first_url: Seq<char>,
    second_url: Seq<char>,
    first: PoolConfig<L>,
    second: PoolConfig<L>,
)
    requires
        first.is_for(log, first_url),
        second.is_for(log, second_url),
    ensures
        first.db_url@ == second.db_url@ <==> first_url == second_url,
        first.max_size == second.max_size,
{
}

/// A pool can work: whatever the database, it may open a connection when it has none, hand
/// it out and serve a request on it. It may open one and no more.
pub proof fn law_pool_opens_one_connection<L>(
    log: L,
    db_url: Seq<char>,
    config: PoolConfig<L>,
    connection: int,
    another: int,
    post: Connections,
)
    requires
        config.is_for(log, db_url),
    ensures
        config.max_size == 1,
        pool_did(
            config.max_size as nat,
            PoolEvent::Open(connection),
            Connections { idle: Set::empty(), held: Set::empty() },
            Connections { idle: Set::empty().insert(connection), held: Set::empty() },
        ),
        pool_did(
            config.max_size as nat,
            PoolEvent::CheckOut(connection),
            Connections { idle: Set::empty().insert(connection), held: Set::empty() },
            Connections { idle: Set::empty(), held: Set::empty().insert(connection) },
        ),
        !pool_did(
            config.max_size as nat,
            PoolEvent::Open(another),
            Connections { idle: Set::empty(), held: Set::empty().insert(connection) },
            post,
        ),
{
    let none = Set::<int>::empty();
    let one = none.insert(connection);
    assert(none.union(none) =~= none);
    assert(none.union(one) =~= one);
    assert(one.remove(connection) =~= none);
}

/// No error of a connection is dropped silently: one that the pool hands to its sink
/// is logged to the log that the pool was made with, as an error, with its text.
pub proof fn law_connection_errors_are_logged<L>(
    log: L,
    db_url: Seq<char>,
    config: PoolConfig<L>,
    error_message: Seq<char>,
    entry: LogEntry<L>,
)
    requires
        config.is_for(log, db_url),
        config.error_sink.reports(error_message, entry),
    ensures
        *entry.log == log,
        entry.event.logged_at() == Level::Error,
        entry.event.text() == "database connection error"@,
        entry.event.reported_under() == Some("error_message"@),
        entry.event matches LogEvent::ConnectionError { error_message: text } && text@
            == error_message,
{
}

/// The connections of a pool, each under a number of its own.
pub struct Connections {
    /// Those that are there to be checked out.
    pub idle: Set<int>,
    /// Those that are checked out.
    pub held: Set<int>,
}

impl Connections {
    /// All connections of the pool.
    pub open spec fn all(self) -> Set<int> {
        self.idle.union(self.held)
    }

    /// No connection is both, and there are no more than the pool may hold.
    pub open spec fn within(self, max_size: nat) -> bool {
        &&& self.idle.disjoint(self.held)
        &&& self.all().finite()
        &&& self.all().len() <= max_size
    }
}

/// What a pool does, or what is done with a connection of it.
pub enum PoolEvent {
    /// It opens a new connection.
    Open(int),
    /// It hands out a connection.
    CheckOut(int),
    /// A connection that was handed out is used.
    Use(int),
    /// It takes a connection back.
    Return(int),
    /// It drops a connection, because it has gone bad or has grown old.
    Discard(int),
}

/// What a pool that holds at most so many connections does with them. It opens a new one
/// only where that leaves it within its size.
pub open spec fn pool_did(
    max_size: nat,
    event: PoolEvent,
    pre: Connections,
    post: Connections,
) -> bool {
    match event {
        PoolEvent::Open(c) => {
            &&& !pre.all().contains(c)
            &&& pre.all().len() < max_size
            &&& post.idle == pre.idle.insert(c)
            &&& post.held == pre.held
        },
        PoolEvent::CheckOut(c) => {
            &&& pre.idle.contains(c)
            &&& post.idle == pre.idle.remove(c)
            &&& post.held == pre.held.insert(c)
        },
        PoolEvent::Use(c) => {
            &&& pre.held.contains(c)
            &&& post == pre
        },
        PoolEvent::Return(c) => {
            &&& pre.held.contains(c)
            &&& post.idle == pre.idle.insert(c)
            &&& post.held == pre.held.remove(c)
        },
        PoolEvent::Discard(c) => {
            &&& pre.all().contains(c)
            &&& post.idle == pre.idle.remove(c)
            &&& post.held == pre.held.remove(c)
        },
    }
}

/// The pool did this, one after the other; `states` is what it held before the first of
/// the events and after each. It starts with no connection.
pub open spec fn pool_ran(
    max_size: nat,
    events: Seq<PoolEvent>,
    states: Seq<Connections>,
) -> bool {
    &&& states.len() == events.len() + 1
    &&& states[0].all() == Set::<int>::empty()
    &&& forall|i: int|
        #![trigger events[i]]
        0 <= i < events.len() ==> pool_did(max_size, events[i], states[i], states[i + 1])
}

/// What a pool does keeps it within its size.
proof fn lemma_step_within(max_size: nat, event: PoolEvent, pre: Connections, post: Connections)
    requires
        pre.within(max_size),
        pool_did(max_size, event, pre, post),
    ensures
        post.within(max_size),
{
    match event {
        PoolEvent::Open(c) => {
            assert(post.all() =~= pre.all().insert(c));
        },
        PoolEvent::CheckOut(_) | PoolEvent::Use(_) | PoolEvent::Return(_) => {
            assert(post.all() =~= pre.all());
        },
        PoolEvent::Discard(c) => {
            assert(post.all() =~= pre.all().remove(c));
        },
    }
}

/// A pool never holds more connections than its size.
pub proof fn law_pool_stays_within_its_size(
    max_size: nat,
    events: Seq<PoolEvent>,
    states: Seq<Connections>,
    i: int,
)
    requires
        pool_ran(max_size, events, states),
        0 <= i < states.len(),
    ensures
        states[i].within(max_size),
    decreases i,
{
    if i == 0 {
        assert(states[0].all() =~= Set::<int>::empty());
        assert forall|c: int| !(states[0].idle.contains(c) && states[0].held.contains(c)) by {
            assert(!states[0].all().contains(c));
        }
    } else {
        law_pool_stays_within_its_size(max_size, events, states, i - 1);
        assert(pool_did(max_size, events[i - 1], states[i - 1], states[i]));
        lemma_step_within(max_size, events[i - 1], states[i - 1], states[i]);
    }
}

/// Of a set of at most one connection, two are the same.
proof fn lemma_only_one(connections: Set<int>, a: int, b: int)
    requires
        connections.finite(),
        connections.len() <= 1,
        connections.contains(a),
        connections.contains(b),
    ensures
        a == b,
{
    if a != b {
        assert(connections.remove(a).contains(b));
        assert(connections.remove(a).len() == 0);
    }
}

/// At no moment does the pool hold two connections, so no two are checked out at once.
pub proof fn law_one_connection<L>(
    log: L,
    db_url: Seq<char>,
    config: PoolConfig<L>,
    events: Seq<PoolEvent>,
    states: Seq<Connections>,
    i: int,
    a: int,
    b: int,
)
    requires
        config.is_for(log, db_url),
        pool_ran(config.max_size as nat, events, states),
        0 <= i < states.len(),
        states[i].all().contains(a),
        states[i].all().contains(b),
    ensures
        a == b,
{
    law_pool_stays_within_its_size(config.max_size as nat, events, states, i);
    lemma_only_one(states[i].all(), a, b);
}

/// A connection that was taken back, and not dropped since, is the one that is handed
/// out next.
pub proof fn law_next_request_gets_the_connection<L>(
    log: L,
    db_url: Seq<char>,
    config: PoolConfig<L>,
    events: Seq<PoolEvent>,
    states: Seq<Connections>,
    returned: int,
    next: int,
)
    requires
        config.is_for(log, db_url),
        pool_ran(config.max_size as nat, events, states),
        0 <= returned < next < events.len(),
        events[returned] is Return,
        events[next] is CheckOut,
        forall|i: int| returned < i < next ==> !(#[trigger] events[i] is Discard),
    ensures
        events[next]->CheckOut_0 == events[returned]->Return_0,
{
    let c = events[returned]->Return_0;
    assert(pool_did(
        config.max_size as nat,
        events[returned],
        states[returned],
        states[returned + 1],
    ));
    lemma_stays_in_the_pool(config.max_size as nat, events, states, returned + 1, next, c);
    assert(pool_did(config.max_size as nat, events[next], states[next], states[next + 1]));
    law_one_connection(log, db_url, config, events, states, next, c, events[next]->CheckOut_0);
}

/// A connection stays in the pool until one is dropped.
pub proof fn lemma_stays_in_the_pool(
    max_size: nat,
    events: Seq<PoolEvent>,
    states: Seq<Connections>,
    from: int,
    to: int,
    c: int,
)
    requires
        pool_ran(max_size, events, states),
        0 <= from <= to < states.len(),
        states[from].all().contains(c),
        forall|i: int| from <= i < to ==> !(#[trigger] events[i] is Discard),
    ensures
        states[to].all().contains(c),
    decreases to - from,
{
    if from < to {
        lemma_stays_in_the_pool(max_size, events, states, from, to - 1, c);
        assert(!(events[to - 1] is Discard));
        assert(pool_did(max_size, events[to - 1], states[to - 1], states[to]));
    }
}

} // verus!
