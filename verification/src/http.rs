//! The endpoints: where each is found, and what it answers once the database has.
use vstd::prelude::*;

use crate::error::{
    joined, law_chain_is_message_and_causes, law_context_stands_first, law_every_message_is_shown,
    ErrorChain, ErrorWrap, HttpError,
};
use crate::log::LogEvent;
use crate::model::{
    counter_is, law_bump_adds_one, law_get_answers_the_counter, served, Counter, Served, SleepEnd,
    Table,
};

verus! {

/// The method of an HTTP request.
#[derive(Clone, Copy, Debug, PartialEq, Eq, Structural)]
pub enum Method {
    Get,
    Post,
}

/// What a client can ask of the server.
#[derive(Clone, Copy, Debug, PartialEq, Eq, Structural)]
pub enum Endpoint {
    /// Wipe the database and start again
    Reset,
    /// Fetch the current value of the counter.
    GetCounter,
    /// Bump the current value of the counter.
    BumpCounter,
    /// Sleep a bit inside a database transaction
    Sleep,
}

impl Endpoint {
    /// The method that it answers to.
    pub open spec fn method(self) -> Method {
        match self {
            Endpoint::Reset | Endpoint::BumpCounter => Method::Post,
            Endpoint::GetCounter | Endpoint::Sleep => Method::Get,
        }
    }

    /// The path that it is found under.
    pub open spec fn path(self) -> Seq<char> {
        match self {
            Endpoint::Reset => "/reset"@,
            Endpoint::GetCounter => "/counter"@,
            Endpoint::BumpCounter => "/bump"@,
            Endpoint::Sleep => "/sleep"@,
        }
    }

    /// Its name in the description of the API.
    pub open spec fn operation_id(self) -> Seq<char> {
        match self {
            Endpoint::Reset => "api_reset"@,
            Endpoint::GetCounter => "api_get_counter"@,
            Endpoint::BumpCounter => "api_bump_counter"@,
            Endpoint::Sleep => "api_sleep"@,
        }
    }

    /// What the description of the API says of it.
    pub open spec fn summary(self) -> Seq<char> {
        match self {
            Endpoint::Reset => "Wipe the database and start again"@,
            Endpoint::GetCounter => "Fetch the current value of the counter."@,
            Endpoint::BumpCounter => "Bump the current value of the counter."@,
            Endpoint::Sleep => "Sleep a bit inside a database transaction"@,
        }
    }

    /// What its errors say was being done.
    pub open spec fn context(self) -> Seq<char> {
        match self {
            Endpoint::Reset => "setting up database"@,
            Endpoint::GetCounter => "loading counter"@,
            Endpoint::BumpCounter => "executing update"@,
            Endpoint::Sleep => "executing transaction"@,
        }
    }

    /// The error that it answers when the database reports `chain`: status 500,
    /// with what was being done and the whole of what was reported.
    pub open spec fn answers_failure(self, chain: Seq<Seq<char>>, error: HttpError) -> bool {
        error.is_internal(joined(seq![self.context()] + chain))
    }

    /// How it is registered with the server.
    pub fn route(self) -> (route: Route)
        ensures
            route.is_of(self),
    {
        match self {
            Endpoint::Reset => Route {
                endpoint: self,
                operation_id: "api_reset",
                method: Method::Post,
                path: "/reset",
                summary: "Wipe the database and start again",
            },
            Endpoint::GetCounter => Route {
                endpoint: self,
                operation_id: "api_get_counter",
                method: Method::Get,
                path: "/counter",
                summary: "Fetch the current value of the counter.",
            },
            Endpoint::BumpCounter => Route {
                endpoint: self,
                operation_id: "api_bump_counter",
                method: Method::Post,
                path: "/bump",
                summary: "Bump the current value of the counter.",
            },
            Endpoint::Sleep => Route {
                endpoint: self,
                operation_id: "api_sleep",
                method: Method::Get,
                path: "/sleep",
                summary: "Sleep a bit inside a database transaction",
            },
        }
    }
}

/// How an endpoint is registered with the server.
#[derive(Clone, Copy, Debug)]
pub struct Route {
    pub endpoint: Endpoint,
    pub operation_id: &'static str,
    pub method: Method,
    pub path: &'static str,
    pub summary: &'static str,
}

impl Route {
    /// All that it says is what holds of `endpoint`.
    pub open spec fn is_of(self, endpoint: Endpoint) -> bool {
        &&& self.endpoint == endpoint
        &&& self.operation_id@ == endpoint.operation_id()
        &&& self.method == endpoint.method()
        &&& self.path@ == endpoint.path()
        &&& self.summary@ == endpoint.summary()
    }
}

/// The endpoints of the server, in the order in which they are registered.
pub open spec fn endpoints() -> Seq<Endpoint> {
    seq![Endpoint::Reset, Endpoint::GetCounter, Endpoint::BumpCounter, Endpoint::Sleep]
}

/// These are the routes of the endpoints, in their order.
pub open spec fn are_the_routes(routes: Seq<Route>) -> bool {
    &&& routes.len() == endpoints().len()
    &&& forall|i: int| 0 <= i < routes.len() ==> (#[trigger] routes[i]).is_of(endpoints()[i])
}

/// How the endpoints are registered, in their order.
pub fn routes() -> (routes: Vec<Route>)
    ensures
        are_the_routes(routes@),
{
    let mut routes: Vec<Route> = Vec::new();
    routes.push(Endpoint::Reset.route());
    routes.push(Endpoint::GetCounter.route());
    routes.push(Endpoint::BumpCounter.route());
    routes.push(Endpoint::Sleep.route());
    routes
}

/// The context of a request consists of just the database connection pool.
#[derive(Debug)]
pub struct ExampleContext<P> {
    pub pool: P,
}

impl<P> ExampleContext<P> {
    /// The context with this pool.
    pub fn new(pool: P) -> (context: ExampleContext<P>)
        ensures
            context.pool == pool,
    {
        ExampleContext { pool }
    }
}

/// What the server is made from.
#[derive(Debug)]
pub struct ServerSetup<C, L, P> {
    pub config: C,
    pub routes: Vec<Route>,
    pub context: ExampleContext<P>,
    pub log: L,
}

/// What the server is made from: all endpoints, each of which gets at the pool, and the
/// configuration and the log that it is given.
pub fn server_setup<C, L, P>(config: C, log: L, pool: P) -> (setup: ServerSetup<C, L, P>)
    ensures
        setup.config == config,
        are_the_routes(setup.routes@),
        setup.routes@.len() == 4,
        setup.routes@[0].endpoint == Endpoint::Reset,
        setup.routes@[0].method == Method::Post,
        setup.routes@[0].path@ == "/reset"@,
        setup.routes@[1].endpoint == Endpoint::GetCounter,
        setup.routes@[1].method == Method::Get,
        setup.routes@[1].path@ == "/counter"@,
        setup.routes@[2].endpoint == Endpoint::BumpCounter,
        setup.routes@[2].method == Method::Post,
        setup.routes@[2].path@ == "/bump"@,
        setup.routes@[3].endpoint == Endpoint::Sleep,
        setup.routes@[3].method == Method::Get,
        setup.routes@[3].path@ == "/sleep"@,
        setup.context.pool == pool,
        setup.log == log,
{
    ServerSetup { config, routes: routes(), context: ExampleContext::new(pool), log }
}

/// What becomes of the server.
pub open spec fn server_outcome<S>(
    started: Result<S, String>,
    server: Result<S, ErrorWrap>,
) -> bool {
    match started {
        Ok(s) => server == Ok::<S, ErrorWrap>(s),
        Err(detail) => server matches Err(error) && error@
            == seq!["creating Dropshot server: "@ + detail@],
    }
}

/// The server, or why it could not be made: one message, which ends with what the
/// server's maker said.
pub fn create_dropshot_server<S>(started: Result<S, String>) -> (server: Result<S, ErrorWrap>)
    ensures
        server_outcome(started, server),
        match started {
            Ok(s) => server == Ok::<S, ErrorWrap>(s),
            Err(detail) => server matches Err(error) && error@
                == seq!["creating Dropshot server: "@ + detail@],
        },
{
    match started {
        Ok(server) => Ok(server),
        Err(detail) => {
            let mut message = "creating Dropshot server: ".to_owned();
            message.append(detail.as_str());
            Err(ErrorWrap::msg(message))
        },
    }
}

/// The error that an endpoint answers for what the database reported.
fn failure(chain: ErrorChain, context: &str) -> (error: HttpError)
    ensures
        error.is_internal(joined(seq![context@] + chain@)),
{
    HttpError::from(ErrorWrap::from_chain(chain).context(context))
}

/// What a reset is answered.
pub open spec fn reset_answered(
    executed: Result<(), ErrorChain>,
    reply: Result<&'static str, HttpError>,
) -> bool {
    match executed {
        Ok(_) => reply matches Ok(body) && body@ == "ok"@,
        Err(chain) => reply matches Err(error) && Endpoint::Reset.answers_failure(chain@, error),
    }
}

/// What a fetch is answered.
pub open spec fn get_answered(
    loaded: Result<Counter, ErrorChain>,
    reply: Result<i32, HttpError>,
) -> bool {
    match loaded {
        Ok(counter) => reply == Ok::<i32, HttpError>(counter.count),
        Err(chain) => reply matches Err(error) && Endpoint::GetCounter.answers_failure(
            chain@,
            error,
        ),
    }
}

/// What a bump is answered, and what the log is told of it.
pub open spec fn bump_answered(
    executed: Result<usize, ErrorChain>,
    reply: Result<(), HttpError>,
    event: Option<LogEvent>,
) -> bool {
    match executed {
        Ok(nrows) => {
            &&& reply is Ok
            &&& event == Some(LogEvent::BumpedCounter { nrows_updated: nrows })
        },
        Err(chain) => {
            &&& reply matches Err(error) && Endpoint::BumpCounter.answers_failure(chain@, error)
            &&& event is None
        },
    }
}

/// What a request to sleep is answered.
pub open spec fn sleep_answered(
    ended: Result<(), ErrorChain>,
    reply: Result<&'static str, HttpError>,
) -> bool {
    match ended {
        Ok(_) => reply matches Ok(body) && body@ == "ok"@,
        Err(chain) => reply matches Err(error) && Endpoint::Sleep.answers_failure(chain@, error),
    }
}

/// Wipe the database and start again: what is answered once the batch has run.
pub fn api_reset(executed: Result<(), ErrorChain>) -> (reply: Result<&'static str, HttpError>)
    ensures
        reset_answered(executed, reply),
        match executed {
            Ok(()) => reply matches Ok(body) && body@ == "ok"@,
            Err(chain) => reply matches Err(error) && Endpoint::Reset.answers_failure(chain@, error),
        },
{
    match executed {
        Ok(()) => Ok("ok"),
        Err(chain) => Err(failure(chain, "setting up database")),
    }
}

/// Fetch the current value of the counter: what is answered once its row was
/// asked for.
pub fn api_get_counter(loaded: Result<Counter, ErrorChain>) -> (reply: Result<i32, HttpError>)
    ensures
        get_answered(loaded, reply),
        match loaded {
            Ok(counter) => reply matches Ok(count) && count == counter.count,
            Err(chain) => reply matches Err(error) && Endpoint::GetCounter.answers_failure(
                chain@,
                error,
            ),
        },
{
    match loaded {
        Ok(counter) => Ok(counter.count),
        Err(chain) => Err(failure(chain, "loading counter")),
    }
}

/// Bump the current value of the counter: what is answered once the update has run,
/// and what the log is told. Any number of updated rows will do, none included.
pub fn api_bump_counter(executed: Result<usize, ErrorChain>) -> (reply: (
    Result<(), HttpError>,
    Option<LogEvent>,
))
    ensures
        bump_answered(executed, reply.0, reply.1),
        match executed {
            Ok(nrows) => {
                &&& reply.0 is Ok
                &&& reply.1 == Some(LogEvent::BumpedCounter { nrows_updated: nrows })
            },
            Err(chain) => {
                &&& reply.0 matches Err(error) && Endpoint::BumpCounter.answers_failure(
                    chain@,
                    error,
                )
                &&& reply.1 is None
            },
        },
{
    match executed {
        Ok(nrows) => (Ok(()), Some(LogEvent::BumpedCounter { nrows_updated: nrows })),
        Err(chain) => (Err(failure(chain, "executing update")), None),
    }
}

/// Stands by while a request to sleep is served, and speaks up when it is dropped
/// before the request was through.
#[derive(Debug)]
pub struct Finished {
    finished: bool,
}

impl View for Finished {
    type V = bool;

    /// Whether the request is through.
    closed spec fn view(&self) -> bool {
        self.finished
    }
}

impl Finished {
    /// The request has only come in.
    pub fn new() -> (guard: Finished)
        ensures
            !guard@,
    {
        Finished { finished: false }
    }

    /// What the log is told when the guard is dropped.
    pub fn dropped(&self) -> (event: Option<LogEvent>)
        ensures
            event == dropped_event(self@),
            self@ ==> event is None,
            !self@ ==> event == Some(LogEvent::SleepCancelled),
    {
        if self.finished {
            None
        } else {
            Some(LogEvent::SleepCancelled)
        }
    }
}

/// What the log is told when a guard is dropped: nothing once the request is through.
pub open spec fn dropped_event(finished: bool) -> Option<LogEvent> {
    if finished {
        None
    } else {
        Some(LogEvent::SleepCancelled)
    }
}

/// Whether the request is through once its transaction has ended: if it was
/// committed.
pub open spec fn finished_after(finished: bool, committed: bool) -> bool {
    finished || committed
}

/// Sleep a bit inside a database transaction: what is answered once the transaction
/// has ended.
pub fn api_sleep(guard: &mut Finished, ended: Result<(), ErrorChain>) -> (reply: Result<
    &'static str,
    HttpError,
>)
    ensures
        final(guard)@ == finished_after(old(guard)@, ended is Ok),
        final(guard)@ == (old(guard)@ || ended is Ok),
        sleep_answered(ended, reply),
        match ended {
            Ok(()) => reply matches Ok(body) && body@ == "ok"@,
            Err(chain) => reply matches Err(error) && Endpoint::Sleep.answers_failure(chain@, error),
        },
{
    match ended {
        Ok(()) => {
            guard.finished = true;
            Ok("ok")
        },
        Err(chain) => Err(failure(chain, "executing transaction")),
    }
}

/// What the log is told in the course of a request to sleep that ends so.
pub open spec fn sleep_event(end: SleepEnd) -> Option<LogEvent> {
    dropped_event(
        match end {
            SleepEnd::Cancelled => false,
            SleepEnd::Failed => finished_after(false, false),
            SleepEnd::Committed => finished_after(false, true),
        },
    )
}

/// A request to sleep that is cancelled is reported, as is one whose transaction
/// fails. One whose transaction is committed is not.
pub proof fn law_sleep_reports_cancellation(end: SleepEnd)
    ensures
        sleep_event(end) == (if end is Committed {
            None
        } else {
            Some(LogEvent::SleepCancelled)
        }),
{
}

/// A request that is through stays through, one whose transaction is committed is
/// through, and no other is. The log is told of a cancellation when the guard of one that
/// is not through is dropped, and only then.
pub proof fn law_guard_speaks_for_unfinished_requests(finished: bool, committed: bool)
    ensures
        finished_after(finished, committed) <==> (finished || committed),
        dropped_event(finished) == Some(LogEvent::SleepCancelled) <==> !finished,
        dropped_event(finished) is None <==> finished,
{
}

/// Every failure that an endpoint answers has status 500 and no code, and its text is
/// what the endpoint was doing and then what the database reported, for the client and for
/// the log.
pub proof fn law_endpoint_failure(endpoint: Endpoint, chain: ErrorChain, error: HttpError)
    requires
        endpoint.answers_failure(chain@, error),
    ensures
        error.status_code == 500,
        error.error_code is None,
        error.internal_message@ == error.external_message@,
        endpoint is Reset ==> error.external_message@ == "setting up database"@ + seq![':', ' ']
            + joined(chain@),
        endpoint is GetCounter ==> error.external_message@ == "loading counter"@ + seq![':', ' ']
            + joined(chain@),
        endpoint is BumpCounter ==> error.external_message@ == "executing update"@ + seq![':', ' ']
            + joined(chain@),
        endpoint is Sleep ==> error.external_message@ == "executing transaction"@ + seq![':', ' ']
            + joined(chain@),
{
    law_chain_is_message_and_causes(chain);
    law_context_stands_first(endpoint.context(), chain@);
}

/// Nothing that the database reported is kept from the client: the text of a failure ends
/// with the message and every cause of it, in their order.
pub proof fn law_endpoint_failure_tells_all(
    endpoint: Endpoint,
    chain: ErrorChain,
    error: HttpError,
    i: int,
)
    requires
        endpoint.answers_failure(chain@, error),
        0 <= i < chain.causes@.len(),
    ensures
        exists|start: int|
            0 <= start <= error.external_message@.len() - chain.causes@[i]@.len()
                && #[trigger] error.external_message@.subrange(
                start,
                start + chain.causes@[i]@.len(),
            ) == chain.causes@[i]@,
{
    let messages = seq![endpoint.context()] + chain@;
    law_chain_is_message_and_causes(chain);
    assert(messages[i + 2] == chain.causes@[i]@);
    law_every_message_is_shown(messages, i + 2);
}

/// A request succeeds if and only if the database did what it was asked, and is else
/// answered with status 500.
pub proof fn law_requests_succeed_with_the_database(
    executed: Result<(), ErrorChain>,
    reset: Result<&'static str, HttpError>,
    loaded: Result<Counter, ErrorChain>,
    get: Result<i32, HttpError>,
    updated: Result<usize, ErrorChain>,
    bump: Result<(), HttpError>,
    event: Option<LogEvent>,
    ended: Result<(), ErrorChain>,
    sleep: Result<&'static str, HttpError>,
)
    requires
        reset_answered(executed, reset),
        get_answered(loaded, get),
        bump_answered(updated, bump, event),
        sleep_answered(ended, sleep),
    ensures
        reset is Ok <==> executed is Ok,
        reset is Ok ==> reset->Ok_0@ == "ok"@,
        reset is Err ==> reset->Err_0.status_code == 500,
        get is Ok <==> loaded is Ok,
        get is Err ==> get->Err_0.status_code == 500,
        bump is Ok <==> updated is Ok,
        bump is Err ==> bump->Err_0.status_code == 500,
        sleep is Ok <==> ended is Ok,
        sleep is Ok ==> sleep->Ok_0@ == "ok"@,
        sleep is Err ==> sleep->Err_0.status_code == 500,
{
}

/// A client that fetches the counter is told what it stands at in the database, whatever
/// that is.
pub proof fn law_get_tells_the_counter(
    pre: Table,
    value: int,
    row: Counter,
    post: Table,
    reply: Result<i32, HttpError>,
)
    requires
        counter_is(pre, value),
        served(Served::GetCounter(row), pre, post),
        get_answered(Ok(row), reply),
    ensures
        reply is Ok,
        reply->Ok_0 == value,
{
    law_get_answers_the_counter(pre, value, row, post);
}

/// The log is told of each bump that was carried out, with the number of rows that the
/// database says it changed, and of no other. A bump of the counter changes one row.
pub proof fn law_bump_is_logged(
    pre: Table,
    value: int,
    executed: Result<usize, ErrorChain>,
    post: Table,
    reply: Result<(), HttpError>,
    event: Option<LogEvent>,
)
    requires
        bump_answered(executed, reply, event),
    ensures
        event is Some <==> executed is Ok,
        event is Some ==> event->0 is BumpedCounter && event->0->nrows_updated == executed->Ok_0,
        executed is Ok && counter_is(pre, value) && served(
            Served::BumpCounter(executed->Ok_0 as nat),
            pre,
            post,
        ) ==> event->0->nrows_updated == 1 && counter_is(post, value + 1),
{
    if executed is Ok && counter_is(pre, value) && served(
        Served::BumpCounter(executed->Ok_0 as nat),
        pre,
        post,
    ) {
        law_bump_adds_one(pre, value, executed->Ok_0 as nat, post);
    }
}

/// A server that was made is handed on as it is. Of one that was not, all that its maker
/// said is told, behind what was being done.
pub proof fn law_server_outcome<S>(started: Result<S, String>, server: Result<S, ErrorWrap>)
    requires
        server_outcome(started, server),
    ensures
        server is Ok <==> started is Ok,
        server is Ok ==> server->Ok_0 == started->Ok_0,
        server is Err ==> joined(server->Err_0@) == "creating Dropshot server: "@
            + started->Err_0@,
{
}

/// The server registers the four endpoints, one after the other.
pub proof fn law_routes_come_in_turn(routes: Seq<Route>)
    requires
        are_the_routes(routes),
    ensures
        routes.len() == 4,
        routes[0].endpoint == Endpoint::Reset,
        routes[1].endpoint == Endpoint::GetCounter,
        routes[2].endpoint == Endpoint::BumpCounter,
        routes[3].endpoint == Endpoint::Sleep,
{
    assert(routes[0].is_of(endpoints()[0]));
    assert(routes[1].is_of(endpoints()[1]));
    assert(routes[2].is_of(endpoints()[2]));
    assert(routes[3].is_of(endpoints()[3]));
}

/// What a client asks for by its path is what is served there: each path leads to its own
/// endpoint, and no endpoint is found under another.
pub proof fn law_path_leads_to_its_endpoint(routes: Seq<Route>, i: int)
    requires
        are_the_routes(routes),
        0 <= i < routes.len(),
    ensures
        routes[i].path@ == "/reset"@ <==> routes[i].endpoint == Endpoint::Reset,
        routes[i].path@ == "/counter"@ <==> routes[i].endpoint == Endpoint::GetCounter,
        routes[i].path@ == "/bump"@ <==> routes[i].endpoint == Endpoint::BumpCounter,
        routes[i].path@ == "/sleep"@ <==> routes[i].endpoint == Endpoint::Sleep,
        routes[i].operation_id@ == "api_reset"@ <==> routes[i].endpoint == Endpoint::Reset,
        routes[i].operation_id@ == "api_get_counter"@ <==> routes[i].endpoint
            == Endpoint::GetCounter,
        routes[i].operation_id@ == "api_bump_counter"@ <==> routes[i].endpoint
            == Endpoint::BumpCounter,
        routes[i].operation_id@ == "api_sleep"@ <==> routes[i].endpoint == Endpoint::Sleep,
{
    let endpoint = endpoints()[i];
    assert(routes[i].is_of(endpoint));
    lemma_paths_and_names_differ();
}

/// What only reads is asked for with `GET`, and what changes the table with `POST`.
pub proof fn law_methods_of_the_paths(routes: Seq<Route>, i: int)
    requires
        are_the_routes(routes),
        0 <= i < routes.len(),
    ensures
        routes[i].path@ == "/reset"@ ==> routes[i].method == Method::Post,
        routes[i].path@ == "/bump"@ ==> routes[i].method == Method::Post,
        routes[i].path@ == "/counter"@ ==> routes[i].method == Method::Get,
        routes[i].path@ == "/sleep"@ ==> routes[i].method == Method::Get,
{
    assert(routes[i].is_of(endpoints()[i]));
    lemma_paths_and_names_differ();
}

/// What the description of the API says under a path is said of its endpoint.
pub proof fn law_summaries_of_the_paths(routes: Seq<Route>, i: int)
    requires
        are_the_routes(routes),
        0 <= i < routes.len(),
    ensures
        routes[i].path@ == "/reset"@ ==> routes[i].summary@ == "Wipe the database and start again"@,
        routes[i].path@ == "/counter"@ ==> routes[i].summary@
            == "Fetch the current value of the counter."@,
        routes[i].path@ == "/bump"@ ==> routes[i].summary@
            == "Bump the current value of the counter."@,
        routes[i].path@ == "/sleep"@ ==> routes[i].summary@
            == "Sleep a bit inside a database transaction"@,
{
    assert(routes[i].is_of(endpoints()[i]));
    lemma_paths_and_names_differ();
}

/// How an endpoint is registered, whichever it is.
pub proof fn law_route_of_an_endpoint(route: Route, endpoint: Endpoint)
    requires
        route.is_of(endpoint),
    ensures
        route.endpoint == endpoint,
        endpoint is Reset ==> route.path@ == "/reset"@ && route.method == Method::Post
            && route.operation_id@ == "api_reset"@,
        endpoint is GetCounter ==> route.path@ == "/counter"@ && route.method == Method::Get
            && route.operation_id@ == "api_get_counter"@,
        endpoint is BumpCounter ==> route.path@ == "/bump"@ && route.method == Method::Post
            && route.operation_id@ == "api_bump_counter"@,
        endpoint is Sleep ==> route.path@ == "/sleep"@ && route.method == Method::Get
            && route.operation_id@ == "api_sleep"@,
{
}

/// The paths are four texts, and so are the names.
proof fn lemma_paths_and_names_differ()
    ensures
        "/reset"@ != "/counter"@,
        "/reset"@ != "/bump"@,
        "/reset"@ != "/sleep"@,
        "/counter"@ != "/bump"@,
        "/counter"@ != "/sleep"@,
        "/bump"@ != "/sleep"@,
        "api_reset"@ != "api_get_counter"@,
        "api_reset"@ != "api_bump_counter"@,
        "api_reset"@ != "api_sleep"@,
        "api_get_counter"@ != "api_bump_counter"@,
        "api_get_counter"@ != "api_sleep"@,
        "api_bump_counter"@ != "api_sleep"@,
{
    reveal_strlit("/reset");
    reveal_strlit("/counter");
    reveal_strlit("/bump");
    reveal_strlit("/sleep");
    reveal_strlit("api_reset");
    reveal_strlit("api_get_counter");
    reveal_strlit("api_bump_counter");
    reveal_strlit("api_sleep");
    assert("/reset"@[1] == 'r' && "/counter"@[1] == 'c' && "/bump"@[1] == 'b' && "/sleep"@[1] == 's');
    assert("api_reset"@[4] == 'r' && "api_get_counter"@[4] == 'g' && "api_bump_counter"@[4] == 'b'
        && "api_sleep"@[4] == 's');
}

/// No two endpoints answer to the same method and path, and no two have the same
/// name.
pub proof fn law_endpoints_are_told_apart(a: Endpoint, b: Endpoint)
    requires
        a != b,
    ensures
        a.method() != b.method() || a.path() != b.path(),
        a.operation_id() != b.operation_id(),
{
    reveal_strlit("/reset");
    reveal_strlit("/counter");
    reveal_strlit("/bump");
    reveal_strlit("/sleep");
    reveal_strlit("api_reset");
    reveal_strlit("api_get_counter");
    reveal_strlit("api_bump_counter");
    reveal_strlit("api_sleep");
    if a.method() == b.method() {
        assert(a.path().len() != b.path().len());
    }
    if a.operation_id() == b.operation_id() {
        assert(a.operation_id().len() == b.operation_id().len());
        assert(a.operation_id()[4] == b.operation_id()[4]);
        assert(a.operation_id()[5] == b.operation_id()[5]);
    }
}

/// Each endpoint is registered, once.
pub proof fn law_endpoints_are_registered(endpoint: Endpoint)
    ensures
        endpoints().contains(endpoint),
        endpoints().no_duplicates(),
{
    assert(endpoints()[0] == Endpoint::Reset);
    assert(endpoints()[1] == Endpoint::GetCounter);
    assert(endpoints()[2] == Endpoint::BumpCounter);
    assert(endpoints()[3] == Endpoint::Sleep);
}

/// The errors of two endpoints do not say that the same was being done.
pub proof fn law_contexts_are_told_apart(a: Endpoint, b: Endpoint)
    requires
        a != b,
    ensures
        a.context() != b.context(),
{
    reveal_strlit("setting up database");
    reveal_strlit("loading counter");
    reveal_strlit("executing update");
    reveal_strlit("executing transaction");
    assert(a.context().len() != b.context().len());
}

} // verus!
