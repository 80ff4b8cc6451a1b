use cancel_repro::error::ErrorChain;
use cancel_repro::log::{Level, LogEvent};
use cancel_repro::model::{
    counter_query, counter_update, reset_batch, sleep_transaction, CounterQuery, CounterUpdate, COUNTER_ID,
    INITIAL_COUNT,
};
use cancel_repro::pool::{create_pool, pool_config, LoggingErrorSink};

#[test]
fn reset_wipes_and_starts_again() {
    assert_eq!(
        reset_batch(),
        r#"
        DROP TABLE IF EXISTS counter;
        CREATE TABLE counter (id INT4, count INT4);
        INSERT INTO counter (id, count) VALUES (1, 1);
        "#
    );
    let insert = format!("VALUES ({}, {});", COUNTER_ID, INITIAL_COUNT);
    assert!(reset_batch().contains(&insert));
}

#[test]
fn statements_on_the_counter() {
    assert_eq!(counter_query(), CounterQuery { id: 1 });
    assert_eq!(counter_update(), CounterUpdate { id: 1, by: 1 });
}

#[test]
fn transaction_that_sleeps_issues_nothing() {
    let transaction = sleep_transaction();
    assert!(transaction.statements.is_empty());
    assert_eq!(transaction.sleep_secs, 5);
}

#[test]
fn pool_holds_one_connection() {
    let config = pool_config("the log", "postgresql://somewhere/db");
    assert_eq!(config.db_url, "postgresql://somewhere/db");
    assert_eq!(config.max_size, 1);
    assert_eq!(config.error_sink.log, "the log");
}

#[test]
fn pool_that_is_built_is_handed_on() {
    assert_eq!(create_pool(Ok("pool")).unwrap(), "pool");
}

#[test]
fn pool_that_is_not_built() {
    let chain = ErrorChain { message: "bad URL".to_string(), causes: vec!["parse".to_string()] };
    let error = create_pool::<()>(Err(chain)).unwrap_err().into_error();
    let messages: Vec<String> = error.chain().map(|cause| cause.to_string()).collect();
    assert_eq!(messages, vec!["building pool", "bad URL", "parse"]);
}

#[test]
fn connection_errors_are_logged() {
    let config = pool_config("the log", "postgresql://somewhere/db");
    let entry = config.error_sink.sink("broken pipe".to_string());
    assert_eq!(*entry.log, "the log");
    assert_eq!(entry.event.level(), Level::Error);
    assert_eq!(entry.event.message(), "database connection error");
    assert_eq!(entry.event.key(), Some("error_message"));
    assert!(
        matches!(entry.event, LogEvent::ConnectionError { error_message } if error_message == "broken pipe")
    );
}

#[test]
fn sink_that_is_cloned_logs_to_the_same_log() {
    let sink = LoggingErrorSink::new("the log").clone();
    assert_eq!(*sink.sink("gone".to_string()).log, "the log");
}
