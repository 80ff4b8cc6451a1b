//! The `counter` table: its rows, the statements that are issued on it, and what
//! each of them does to it.
//!
//! What a statement does is the meaning that SQL gives it, as a model; the laws hold of
//! a database that goes by it.
use vstd::prelude::*;

use crate::http::Endpoint;

verus! {

/// One row of the `counter` table.
#[derive(Clone, Copy, Debug, PartialEq, Eq, Structural)]
pub struct Counter {
    pub id: i32,
    pub count: i32,
}

/// The row that holds the counter.
pub const COUNTER_ID: i32 = 1;

/// What the counter starts at.
pub const INITIAL_COUNT: i32 = 1;

/// `SELECT .. FROM counter WHERE id = {id} LIMIT 1`
#[derive(Clone, Copy, Debug, PartialEq, Eq, Structural)]
pub struct CounterQuery {
    pub id: i32,
}

/// `UPDATE counter SET count = count + {by} WHERE id = {id}`
#[derive(Clone, Copy, Debug, PartialEq, Eq, Structural)]
pub struct CounterUpdate {
    pub id: i32,
    pub by: i32,
}

/// A statement of the batch that wipes the table and starts again.
#[derive(Clone, Copy, Debug, PartialEq, Eq, Structural)]
pub enum Statement {
    /// Drop the table, if there is one.
    DropTable,
    /// Create the table, with no row.
    CreateTable,
    /// Insert this row.
    Insert(Counter),
}

/// The number as SQL writes it.
pub open spec fn decimal(n: int) -> Seq<char>
    decreases (if n < 0 { 1 - n } else { n }),
{
    if n < 0 {
        seq!['-'] + decimal(-n)
    } else if n < 10 {
        seq![("0123456789"@)[n]]
    } else {
        decimal(n / 10).push(("0123456789"@)[n % 10])
    }
}

impl Statement {
    /// The statement in SQL.
    pub open spec fn text(self) -> Seq<char> {
        match self {
            Statement::DropTable => "DROP TABLE IF EXISTS counter;"@,
            Statement::CreateTable => "CREATE TABLE counter (id INT4, count INT4);"@,
            Statement::Insert(row) => "INSERT INTO counter (id, count) VALUES ("@ + decimal(
                row.id as int,
            ) + ", "@ + decimal(row.count as int) + ");"@,
        }
    }

    /// What the statement does when it is carried out.
    pub open spec fn executed(self, pre: Table, post: Table) -> bool {
        match self {
            Statement::DropTable => post is None,
            Statement::CreateTable => pre is None && post == Some(Map::<int, Counter>::empty()),
            Statement::Insert(row) => {
                &&& pre matches Some(before)
                &&& post matches Some(after)
                &&& exists|number: int|
                    !before.contains_key(number) && after == #[trigger] before.insert(number, row)
            },
        }
    }
}

/// The break between two statements of a batch.
pub open spec fn line_break() -> Seq<char> {
    "\n        "@
}

/// The statements in SQL, each on a line of its own.
pub open spec fn batch_text(statements: Seq<Statement>) -> Seq<char>
    decreases statements.len(),
{
    if statements.len() == 0 {
        line_break()
    } else {
        line_break() + statements[0].text() + batch_text(statements.drop_first())
    }
}

/// What the statements do when all are carried out, one after the other.
pub open spec fn batch_executed(statements: Seq<Statement>, pre: Table, post: Table) -> bool
    decreases statements.len(),
{
    if statements.len() == 0 {
        post == pre
    } else {
        exists|mid: Table| #[trigger]
            statements[0].executed(pre, mid) && batch_executed(statements.drop_first(), mid, post)
    }
}

/// The batch that wipes the table and starts again.
pub open spec fn reset_statements() -> Seq<Statement> {
    seq![
        Statement::DropTable,
        Statement::CreateTable,
        Statement::Insert(Counter { id: COUNTER_ID, count: INITIAL_COUNT }),
    ]
}

/// The text of the batch that wipes the table and starts again.
pub open spec fn reset_sql() -> Seq<char> {
    "\n        DROP TABLE IF EXISTS counter;\n        CREATE TABLE counter (id INT4, count INT4);\n        INSERT INTO counter (id, count) VALUES (1, 1);\n        "@
}

/// The text of the batch is its statements in SQL.
pub proof fn law_reset_text()
    ensures
        reset_sql() == batch_text(reset_statements()),
{
    reveal_strlit("\n        DROP TABLE IF EXISTS counter;\n        CREATE TABLE counter (id INT4, count INT4);\n        INSERT INTO counter (id, count) VALUES (1, 1);\n        ");
    reveal_strlit("DROP TABLE IF EXISTS counter;");
    reveal_strlit("CREATE TABLE counter (id INT4, count INT4);");
    reveal_strlit("INSERT INTO counter (id, count) VALUES (");
    reveal_strlit(", ");
    reveal_strlit(");");
    reveal_strlit("\n        ");
    reveal_strlit("0123456789");
    reveal_with_fuel(batch_text, 4);
    let statements = reset_statements();
    assert(statements.drop_first().drop_first()[0] == statements[2]);
    assert(decimal(1) =~= seq!['1']);
    assert(reset_sql() =~= batch_text(statements));
}

/// The batch that wipes the table and starts again.
pub fn reset_batch() -> (sql: &'static str)
    ensures
        sql@ == reset_sql(),
        sql@ == batch_text(reset_statements()),
{
    proof {
        law_reset_text();
    }
    "\n        DROP TABLE IF EXISTS counter;\n        CREATE TABLE counter (id INT4, count INT4);\n        INSERT INTO counter (id, count) VALUES (1, 1);\n        "
}

/// The query that loads the counter.
pub fn counter_query() -> (query: CounterQuery)
    ensures
        query == (CounterQuery { id: COUNTER_ID }),
        query.id == 1,
{
    CounterQuery { id: COUNTER_ID }
}

/// The update that adds one to the counter.
pub fn counter_update() -> (update: CounterUpdate)
    ensures
        update == (CounterUpdate { id: COUNTER_ID, by: 1 }),
        update.id == 1,
        update.by == 1,
{
    CounterUpdate { id: COUNTER_ID, by: 1 }
}

/// The table in the database: nothing where there is no such table, else its
/// rows, in no order, each under a number of its own.
pub type Table = Option<Map<int, Counter>>;

/// What `SELECT .. WHERE id = {id} LIMIT 1` says: the answer is a row of the table
/// with that id. Where several have it, it is any of them.
pub open spec fn query_loaded(query: CounterQuery, table: Table, answer: Counter) -> bool {
    &&& answer.id == query.id
    &&& table matches Some(rows)
    &&& exists|row: int| #[trigger] rows.contains_key(row) && rows[row] == answer
}

/// The rows that `WHERE id = {id}` selects.
pub open spec fn selected(rows: Map<int, Counter>, id: i32) -> Set<int> {
    rows.dom().filter(|row: int| rows[row].id == id)
}

/// What `UPDATE .. SET count = count + {by} WHERE id = {id}` says: that is added in
/// the selected rows, the others stay as they were, and the answer is how many
/// were selected. A sum that is no `INT4` is an error, so there is none here.
pub open spec fn update_executed(
    update: CounterUpdate,
    pre: Table,
    nrows: nat,
    post: Table,
) -> bool {
    &&& pre matches Some(before)
    &&& post matches Some(after)
    &&& after.dom() == before.dom()
    &&& forall|row: int| #[trigger]
        before.contains_key(row) ==> {
            &&& after[row].id == before[row].id
            &&& after[row].count == before[row].count + (if before[row].id == update.id {
                update.by as int
            } else {
                0
            })
        }
    &&& selected(before, update.id).finite()
    &&& nrows == selected(before, update.id).len()
}

/// The counter stands at `value`: it is in one row of the table and in no other.
pub open spec fn counter_is(table: Table, value: int) -> bool {
    &&& table matches Some(rows)
    &&& exists|row: int| #[trigger] counter_in(rows, row, value)
}

/// The counter stands at `value`, in this row and in no other.
pub open spec fn counter_in(rows: Map<int, Counter>, row: int, value: int) -> bool {
    &&& rows.contains_key(row)
    &&& rows[row].count == value
    &&& forall|other: int| #[trigger]
        rows.contains_key(other) ==> (rows[other].id == COUNTER_ID <==> other == row)
}

/// A request that the database answered.
///
/// One that was carried out is given with the answer: all that it asks was done on its
/// connection, and where no transaction was left open there, what was done is committed.
/// One that was refused was answered with an error. A request whose connection broke
/// before there was an answer is neither.
pub enum Served {
    Reset,
    GetCounter(Counter),
    BumpCounter(nat),
    Sleep,
    Refused(Endpoint),
}

impl Served {
    /// What was asked.
    pub open spec fn asked(self) -> Endpoint {
        match self {
            Served::Reset => Endpoint::Reset,
            Served::GetCounter(_) => Endpoint::GetCounter,
            Served::BumpCounter(_) => Endpoint::BumpCounter,
            Served::Sleep => Endpoint::Sleep,
            Served::Refused(endpoint) => endpoint,
        }
    }
}

/// What a request that was answered did to the table, as its connection sees it.
pub open spec fn served(request: Served, pre: Table, post: Table) -> bool {
    match request {
        Served::Reset => batch_executed(reset_statements(), pre, post),
        Served::GetCounter(answer) => {
            &&& query_loaded(CounterQuery { id: COUNTER_ID }, pre, answer)
            &&& post == pre
        },
        Served::BumpCounter(nrows) => update_executed(
            CounterUpdate { id: COUNTER_ID, by: 1 },
            pre,
            nrows,
            post,
        ),
        Served::Sleep => slept(SleepEnd::Committed, pre, post),
        Served::Refused(endpoint) => refused(endpoint, pre, post),
    }
}

/// What a refused request leaves of the table. A single statement that is refused
/// changes nothing. The batch is one message to the database and so one transaction: if
/// a statement of it is refused, none is done.
pub open spec fn refused(endpoint: Endpoint, pre: Table, post: Table) -> bool {
    match endpoint {
        Endpoint::Reset | Endpoint::GetCounter | Endpoint::BumpCounter => post == pre,
        Endpoint::Sleep => slept(SleepEnd::Failed, pre, post),
    }
}

/// How a request to sleep can end.
pub enum SleepEnd {
    /// It was dropped before its transaction had ended.
    Cancelled,
    /// Its transaction failed.
    Failed,
    /// Its transaction was committed.
    Committed,
}

/// What a transaction of these statements can leave of the table when it ends so: a
/// committed one has done all of them; of one that failed, or whose end was not
/// waited for, all or nothing is done.
pub open spec fn transaction_ended(
    statements: Seq<Statement>,
    end: SleepEnd,
    pre: Table,
    post: Table,
) -> bool {
    match end {
        SleepEnd::Committed => batch_executed(statements, pre, post),
        SleepEnd::Failed | SleepEnd::Cancelled => post == pre || batch_executed(
            statements,
            pre,
            post,
        ),
    }
}

/// The statements of the transaction that sleeps: there are none.
pub open spec fn sleep_statements() -> Seq<Statement> {
    Seq::empty()
}

/// The transaction that sleeps.
#[derive(Debug)]
pub struct SleepTransaction {
    /// The statements that it issues first, in SQL.
    pub statements: Vec<&'static str>,
    /// How long it then sleeps, in seconds.
    pub sleep_secs: u64,
}

/// How long a request to sleep keeps its transaction open, in seconds.
pub const SLEEP_SECS: u64 = 5;

/// The transaction that sleeps: it issues no statement.
pub fn sleep_transaction() -> (transaction: SleepTransaction)
    ensures
        transaction.statements@.len() == sleep_statements().len(),
        forall|i: int|
            0 <= i < transaction.statements@.len() ==> (#[trigger] transaction.statements@[i])@
                == sleep_statements()[i].text(),
        transaction.sleep_secs == SLEEP_SECS,
        transaction.statements@.len() == 0,
        transaction.sleep_secs == 5,
{
    SleepTransaction { statements: Vec::new(), sleep_secs: SLEEP_SECS }
}

/// What a request to sleep leaves of the table when it ends so.
pub open spec fn slept(end: SleepEnd, pre: Table, post: Table) -> bool {
    transaction_ended(sleep_statements(), end, pre, post)
}

/// A request to sleep leaves the table as it was, whether its transaction is
/// committed, fails or is cancelled, and asks for no table to be there.
pub proof fn law_sleep_leaves_the_table(end: SleepEnd, pre: Table, post: Table)
    ensures
        slept(end, pre, post) <==> post == pre,
{
}

/// The requests were answered one after the other on one connection; `tables` is
/// the table as the connection sees it, before the first of them and after each.
pub open spec fn served_in_turn(requests: Seq<Served>, tables: Seq<Table>) -> bool {
    &&& tables.len() == requests.len() + 1
    &&& forall|i: int|
        #![trigger requests[i]]
        0 <= i < requests.len() ==> served(requests[i], tables[i], tables[i + 1])
}

/// What the requests leave the counter at, if it stood at `start`: the initial count
/// after a reset, and one more for each bump since. Where nothing is known of the
/// start, nothing is known until there is a reset.
pub open spec fn counted(start: Option<int>, requests: Seq<Served>) -> Option<int>
    decreases requests.len(),
{
    if requests.len() == 0 {
        start
    } else {
        match requests.last() {
            Served::Reset => Some(INITIAL_COUNT as int),
            Served::BumpCounter(_) => match counted(start, requests.drop_last()) {
                Some(value) => Some(value + 1),
                None => None,
            },
            _ => counted(start, requests.drop_last()),
        }
    }
}

/// How many of the requests are bumps that were carried out.
pub open spec fn bumps(requests: Seq<Served>) -> nat
    decreases requests.len(),
{
    if requests.len() == 0 {
        0
    } else if requests.last() is BumpCounter {
        bumps(requests.drop_last()) + 1
    } else {
        bumps(requests.drop_last())
    }
}

/// A reset leaves the counter at its initial value, whatever was there before, and
/// no other row.
pub proof fn law_reset_starts_again(pre: Table, post: Table)
    requires
        served(Served::Reset, pre, post),
    ensures
        counter_is(post, INITIAL_COUNT as int),
        exists|row: int|
            post == Some(
                #[trigger] Map::<int, Counter>::empty().insert(
                    row,
                    Counter { id: COUNTER_ID, count: INITIAL_COUNT },
                ),
            ),
{
    reveal_with_fuel(batch_executed, 4);
    let statements = reset_statements();
    let rest = statements.drop_first();
    assert(rest[0] == Statement::CreateTable);
    assert(rest.drop_first()[0] == statements[2]);
    let rows = post->0;
    let fresh = Map::<int, Counter>::empty();
    let counter = Counter { id: COUNTER_ID, count: INITIAL_COUNT };
    let row = choose|row: int|
        !fresh.contains_key(row) && rows == #[trigger] fresh.insert(row, counter);
    assert(counter_in(rows, row, INITIAL_COUNT as int));
}

/// A fetch answers what the counter stands at and changes nothing.
pub proof fn law_get_answers_the_counter(pre: Table, value: int, answer: Counter, post: Table)
    requires
        counter_is(pre, value),
        served(Served::GetCounter(answer), pre, post),
    ensures
        answer.count == value,
        post == pre,
{
}

/// A bump adds one to the counter and touches that one row.
pub proof fn law_bump_adds_one(pre: Table, value: int, nrows: nat, post: Table)
    requires
        counter_is(pre, value),
        served(Served::BumpCounter(nrows), pre, post),
    ensures
        counter_is(post, value + 1),
        nrows == 1,
{
    let before = pre->0;
    let after = post->0;
    let row = choose|row: int| #[trigger] counter_in(before, row, value);
    assert forall|other: int| #[trigger] after.contains_key(other) implies (after[other].id
        == COUNTER_ID <==> other == row) by {
        assert(before.contains_key(other));
    }
    assert(counter_in(after, row, value + 1));
    assert(selected(before, COUNTER_ID) =~= Set::<int>::empty().insert(row));
}

/// A bump leaves the rows that do not hold the counter as they were.
pub proof fn law_bump_leaves_other_rows(pre: Table, nrows: nat, post: Table, row: int)
    requires
        served(Served::BumpCounter(nrows), pre, post),
        pre->0.contains_key(row),
        pre->0[row].id != COUNTER_ID,
    ensures
        post->0.contains_key(row),
        post->0[row] == pre->0[row],
{
}

/// A bump of a table without the counter is carried out all the same: it changes
/// nothing and says that no row was updated.
pub proof fn law_bump_without_the_counter(pre: Table, nrows: nat, post: Table)
    requires
        served(Served::BumpCounter(nrows), pre, post),
        forall|row: int| #[trigger] pre->0.contains_key(row) ==> pre->0[row].id != COUNTER_ID,
    ensures
        post == pre,
        nrows == 0,
{
    assert(post->0 =~= pre->0) by {
        assert forall|row: int| #[trigger] pre->0.contains_key(row) implies post->0[row]
            == pre->0[row] by {}
    }
    assert(selected(pre->0, COUNTER_ID) =~= Set::<int>::empty());
}

/// A request that is refused leaves the table as it was, whatever was asked.
pub proof fn law_refused_leaves_the_table(endpoint: Endpoint, pre: Table, post: Table)
    ensures
        served(Served::Refused(endpoint), pre, post) <==> post == pre,
{
    law_sleep_leaves_the_table(SleepEnd::Failed, pre, post);
}

/// A fetch from a table without the counter is refused.
pub proof fn law_get_without_the_counter(request: Served, pre: Table, post: Table)
    requires
        request.asked() == Endpoint::GetCounter,
        served(request, pre, post),
        pre is Some,
        forall|row: int| #[trigger] pre->0.contains_key(row) ==> pre->0[row].id != COUNTER_ID,
    ensures
        request is Refused,
        post == pre,
{
}

/// Where there is no table, a fetch or a bump is refused, and there is none after it.
pub proof fn law_no_table(request: Served, post: Table)
    requires
        request.asked() == Endpoint::GetCounter || request.asked() == Endpoint::BumpCounter,
        served(request, None, post),
    ensures
        request is Refused,
        post is None,
{
}

/// A bump of a counter at the largest `INT4` is refused and leaves it there.
pub proof fn law_bump_at_the_limit(request: Served, pre: Table, post: Table)
    requires
        request.asked() == Endpoint::BumpCounter,
        served(request, pre, post),
        counter_is(pre, i32::MAX as int),
    ensures
        request is Refused,
        post == pre,
{
    if request is BumpCounter {
        let row = choose|row: int| #[trigger] counter_in(pre->0, row, i32::MAX as int);
        assert(pre->0.contains_key(row));
        assert(post->0[row].count == i32::MAX + 1);
    }
}

/// Whatever requests were answered, the counter stands at its initial value after
/// a reset, else at what it stood at before, and one more for each bump since that was
/// carried out.
pub proof fn law_counter_counts_bumps(
    start: Option<int>,
    requests: Seq<Served>,
    tables: Seq<Table>,
)
    requires
        served_in_turn(requests, tables),
        start matches Some(value) ==> counter_is(tables[0], value),
        counted(start, requests) is Some,
    ensures
        counter_is(tables.last(), counted(start, requests)->0),
    decreases requests.len(),
{
    if requests.len() > 0 {
        let n = requests.len() - 1;
        let earlier = requests.drop_last();
        let before = tables.drop_last();
        let pre = tables[n];
        let post = tables[n + 1];
        assert(served(requests[n], pre, post));
        assert(served_in_turn(earlier, before)) by {
            assert forall|i: int| #![trigger earlier[i]] 0 <= i < earlier.len() implies served(
                earlier[i],
                before[i],
                before[i + 1],
            ) by {
                assert(earlier[i] == requests[i]);
            }
        }
        if requests.last() is Reset {
            law_reset_starts_again(pre, post);
        } else {
            law_counter_counts_bumps(start, earlier, before);
            assert(before.last() == pre);
            if let Served::BumpCounter(nrows) = requests.last() {
                law_bump_adds_one(pre, counted(start, earlier)->0, nrows, post);
            }
        }
    }
}

/// No bump is lost: without a reset, a counter that stood at `start` stands that much
/// higher as there were bumps.
pub proof fn law_no_bump_is_lost(start: int, requests: Seq<Served>, tables: Seq<Table>)
    requires
        served_in_turn(requests, tables),
        counter_is(tables[0], start),
        forall|i: int| 0 <= i < requests.len() ==> !(#[trigger] requests[i] is Reset),
    ensures
        counter_is(tables.last(), start + bumps(requests)),
{
    lemma_counted_without_reset(start, requests);
    law_counter_counts_bumps(Some(start), requests, tables);
}

/// Without a reset, the bumps are added to what the counter stood at.
proof fn lemma_counted_without_reset(start: int, requests: Seq<Served>)
    requires
        forall|i: int| 0 <= i < requests.len() ==> !(#[trigger] requests[i] is Reset),
    ensures
        counted(Some(start), requests) == Some(start + bumps(requests)),
    decreases requests.len(),
{
    if requests.len() > 0 {
        let earlier = requests.drop_last();
        assert forall|i: int| 0 <= i < earlier.len() implies !(#[trigger] earlier[i] is Reset) by {
            assert(earlier[i] == requests[i]);
        }
        lemma_counted_without_reset(start, earlier);
        assert(!(requests[requests.len() - 1] is Reset));
    }
}

/// A client that fetches the counter is told what it was reset to or stood at, and one
/// more for each bump since.
pub proof fn law_client_is_told_the_count(
    start: Option<int>,
    requests: Seq<Served>,
    tables: Seq<Table>,
    answer: Counter,
)
    requires
        requests.len() > 0,
        served_in_turn(requests, tables),
        start matches Some(value) ==> counter_is(tables[0], value),
        counted(start, requests) is Some,
        requests.last() == Served::GetCounter(answer),
    ensures
        answer.count == counted(start, requests)->0,
{
    let n = requests.len() - 1;
    assert(served(requests[n], tables[n], tables[n + 1]));
    law_counter_counts_bumps(start, requests, tables);
}

} // verus!
