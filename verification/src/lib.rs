//! An HTTP server around one counter that is kept in a database: clients reset,
//! fetch and bump the counter, or sleep inside a database transaction. When a request
//! to sleep is cancelled, its transaction is left open on the one connection, and what
//! later requests do is not committed: [`session`] proves that, of a model of the
//! database.
//!
//! What the server asks of the database, what it answers and what its log lines say is
//! decided here; the program around it does the asking, the answering and the logging.
pub mod error;
pub mod http;
pub mod log;
pub mod model;
pub mod pool;
pub mod session;
pub mod startup;
