# cancel-repro

An HTTP server that keeps one counter in a PostgreSQL/CockroachDB database, made to
show what goes wrong when a request is cancelled inside a database transaction.

| Request        | What it does                                        |
|----------------|-----------------------------------------------------|
| `POST /reset`  | wipes the table and starts the counter again at 1   |
| `GET /counter` | fetches the counter                                 |
| `POST /bump`   | adds one to the counter                             |
| `GET /sleep`   | sleeps for five seconds inside a transaction        |

Cancel `GET /sleep` while it sleeps, and the connection stays in its transaction. The
pool holds one connection only, so the next request gets that one: clients are still told
of every bump, but nothing is committed any more.

`src/` is the library, verified with Verus: the statements that are issued (`model.rs`),
the endpoints and their answers (`http.rs`), errors (`error.rs`), log lines (`log.rs`), how
the pool is made (`pool.rs`) and the set-up of the program (`startup.rs`). `app/` is the
program: it talks to the database, to the clients and to the log.

The database and the pool are not verified. What the statements do to the table
(`model.rs`), what a cancelled request leaves on its connection (`session.rs`) and what a
pool does with its connections (`pool.rs`) are models: the meaning that SQL and the pool's
size are given here. The laws, the paragraph on cancellation among them, are proved of
these models.
