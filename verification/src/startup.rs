//! How the program is set up, and why it ends.
use vstd::prelude::*;

use crate::error::{joined, law_context_stands_first, ErrorChain, ErrorWrap};
use crate::log::Level;

verus! {

/// What becomes of a log file that is there already.
#[derive(Clone, Copy, Debug, PartialEq, Eq, Structural)]
pub enum IfExists {
    /// The program does not start.
    Fail,
    /// It is emptied.
    Truncate,
    /// The log goes on behind it.
    Append,
}

/// What the program runs with.
#[derive(Clone, Copy, Debug)]
pub struct Config {
    /// Where the database is.
    pub db_url: &'static str,
    /// The address that the server listens on.
    pub bind_address: &'static str,
    /// The file that the log goes to.
    pub log_path: &'static str,
    /// What becomes of that file if it is there already.
    pub log_if_exists: IfExists,
    /// The least grave lines that are logged.
    pub log_level: Level,
    /// The name that the log lines carry.
    pub log_name: &'static str,
}

/// What the program runs with.
pub fn config() -> (config: Config)
    ensures
        config.db_url@ == "postgresql://root@127.0.0.1:12345/defaultdb?sslmode=disable"@,
        config.bind_address@ == "127.0.0.1:12344"@,
        config.log_path@ == "/dev/stdout"@,
        config.log_if_exists == IfExists::Append,
        config.log_level == Level::Debug,
        config.log_name@ == "cancel-repro"@,
{
    Config {
        db_url: "postgresql://root@127.0.0.1:12345/defaultdb?sslmode=disable",
        bind_address: "127.0.0.1:12344",
        log_path: "/dev/stdout",
        log_if_exists: IfExists::Append,
        log_level: Level::Debug,
        log_name: "cancel-repro",
    }
}

/// What becomes of the logger.
pub open spec fn logger_outcome<L>(
    created: Result<L, ErrorChain>,
    logger: Result<L, ErrorWrap>,
) -> bool {
    match created {
        Ok(l) => logger == Ok::<L, ErrorWrap>(l),
        Err(chain) => logger matches Err(error) && error@ == seq!["creating logger"@] + chain@,
    }
}

/// What becomes of the program once its server has stopped.
pub open spec fn stopped_outcome(stopped: Result<(), String>, end: Result<(), ErrorWrap>) -> bool {
    match stopped {
        Ok(_) => end is Ok,
        Err(detail) => end matches Err(error) && error@ == seq!["waiting for server: "@ + detail@],
    }
}

/// What becomes of the program once there is a pool, or none.
pub open spec fn pool_outcome<P>(created: Result<P, ErrorWrap>, pool: Result<P, ErrorWrap>) -> bool {
    match created {
        Ok(p) => pool == Ok::<P, ErrorWrap>(p),
        Err(cause) => pool matches Err(error) && error@ == seq!["setting up database pool"@]
            + cause@,
    }
}

/// The logger, or why there is none.
pub fn logger_created<L>(created: Result<L, ErrorChain>) -> (logger: Result<L, ErrorWrap>)
    ensures
        logger_outcome(created, logger),
        match created {
            Ok(l) => logger == Ok::<L, ErrorWrap>(l),
            Err(chain) => logger matches Err(error) && error@ == seq!["creating logger"@] + chain@,
        },
{
    match created {
        Ok(logger) => Ok(logger),
        Err(chain) => Err(ErrorWrap::from_chain(chain).context("creating logger")),
    }
}

/// The pool, or why the program cannot go on without it.
pub fn pool_created<P>(created: Result<P, ErrorWrap>) -> (pool: Result<P, ErrorWrap>)
    ensures
        pool_outcome(created, pool),
        match created {
            Ok(p) => pool == Ok::<P, ErrorWrap>(p),
            Err(cause) => pool matches Err(error) && {
                &&& error@ == seq!["setting up database pool"@] + cause@
                &&& joined(error@) == "setting up database pool"@ + seq![':', ' '] + joined(cause@)
            },
        },
{
    match created {
        Ok(pool) => Ok(pool),
        Err(cause) => Err(cause.context("setting up database pool")),
    }
}

/// Why the server stopped: of its own accord, or with what it said.
pub fn server_stopped(stopped: Result<(), String>) -> (end: Result<(), ErrorWrap>)
    ensures
        stopped_outcome(stopped, end),
        match stopped {
            Ok(()) => end is Ok,
            Err(detail) => end matches Err(error) && error@ == seq!["waiting for server: "@
                + detail@],
        },
{
    match stopped {
        Ok(()) => Ok(()),
        Err(detail) => {
            let mut message = "waiting for server: ".to_owned();
            message.append(detail.as_str());
            Err(ErrorWrap::msg(message))
        },
    }
}

/// The program goes on with the logger that was made. Where there is none, all that was
/// reported is told, behind what was being done.
pub proof fn law_logger_outcome<L>(created: Result<L, ErrorChain>, logger: Result<L, ErrorWrap>)
    requires
        logger_outcome(created, logger),
    ensures
        logger is Ok <==> created is Ok,
        logger is Ok ==> logger->Ok_0 == created->Ok_0,
        logger is Err ==> joined(logger->Err_0@) == "creating logger"@ + seq![':', ' '] + joined(
            created->Err_0@,
        ),
{
    if let Err(chain) = created {
        law_context_stands_first("creating logger"@, chain@);
    }
}

/// The program goes on with the pool that was made. Where there is none, what was being done
/// stands before every message of the error.
pub proof fn law_pool_outcome<P>(created: Result<P, ErrorWrap>, pool: Result<P, ErrorWrap>)
    requires
        pool_outcome(created, pool),
    ensures
        pool is Ok <==> created is Ok,
        pool is Ok ==> pool->Ok_0 == created->Ok_0,
        pool is Err ==> pool->Err_0@.len() == created->Err_0@.len() + 1,
        pool is Err ==> pool->Err_0@[0] == "setting up database pool"@,
        pool is Err ==> pool->Err_0@.drop_first() == created->Err_0@,
{
    if let Err(cause) = created {
        assert((seq!["setting up database pool"@] + cause@).drop_first() =~= cause@);
    }
}

/// The program ends well if its server did. Else all that the server said is told, behind
/// what was being done.
pub proof fn law_stopped_outcome(stopped: Result<(), String>, end: Result<(), ErrorWrap>)
    requires
        stopped_outcome(stopped, end),
    ensures
        end is Ok <==> stopped is Ok,
        end is Err ==> joined(end->Err_0@) == "waiting for server: "@ + stopped->Err_0@,
{
}

} // verus!
