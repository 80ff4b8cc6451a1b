use cancel_repro::error::{ErrorChain, HttpError};
use cancel_repro::http::{
    api_bump_counter, api_get_counter, api_reset, api_sleep, create_dropshot_server, routes,
    server_setup, Endpoint, ExampleContext, Finished, Method,
};
use cancel_repro::log::{Level, LogEvent};
use cancel_repro::model::Counter;

fn failed() -> ErrorChain {
    ErrorChain {
        message: "Failure accessing a connection".to_string(),
        causes: vec!["Record not found".to_string()],
    }
}

fn assert_internal(error: HttpError, message: &str) {
    assert_eq!(error.status_code, 500);
    assert_eq!(error.error_code, None);
    assert_eq!(error.external_message, message);
    assert_eq!(error.internal_message, message);
}

#[test]
fn reset_answers_ok() {
    assert_eq!(api_reset(Ok(())).unwrap(), "ok");
}

#[test]
fn reset_answers_failure() {
    assert_internal(
        api_reset(Err(failed())).unwrap_err(),
        "setting up database: Failure accessing a connection: Record not found",
    );
}

#[test]
fn get_answers_the_count() {
    assert_eq!(api_get_counter(Ok(Counter { id: 1, count: 7 })).unwrap(), 7);
    assert_eq!(api_get_counter(Ok(Counter { id: 1, count: i32::MIN })).unwrap(), i32::MIN);
}

#[test]
fn get_answers_failure() {
    assert_internal(
        api_get_counter(Err(failed())).unwrap_err(),
        "loading counter: Failure accessing a connection: Record not found",
    );
}

#[test]
fn bump_answers_and_logs() {
    for nrows in [1, 0, 3] {
        let (reply, event) = api_bump_counter(Ok(nrows));
        assert!(reply.is_ok());
        let event = event.unwrap();
        assert!(
            matches!(event, LogEvent::BumpedCounter { nrows_updated } if nrows_updated == nrows)
        );
        assert_eq!(event.level(), Level::Info);
        assert_eq!(event.message(), "bumped counter");
        assert_eq!(event.key(), Some("nrows_updated"));
    }
}

#[test]
fn bump_answers_failure() {
    let (reply, event) = api_bump_counter(Err(failed()));
    assert_internal(
        reply.unwrap_err(),
        "executing update: Failure accessing a connection: Record not found",
    );
    assert!(event.is_none());
}

#[test]
fn sleep_that_is_through_is_not_logged() {
    let mut guard = Finished::new();
    assert_eq!(api_sleep(&mut guard, Ok(())).unwrap(), "ok");
    assert!(guard.dropped().is_none());
}

#[test]
fn sleep_that_is_cancelled_is_logged() {
    let event = Finished::new().dropped().unwrap();
    assert!(matches!(event, LogEvent::SleepCancelled));
    assert_eq!(event.level(), Level::Error);
    assert_eq!(event.message(), "api_sleep() cancelled");
    assert_eq!(event.key(), None);
}

#[test]
fn sleep_that_fails_is_answered_and_logged() {
    let mut guard = Finished::new();
    assert_internal(
        api_sleep(&mut guard, Err(failed())).unwrap_err(),
        "executing transaction: Failure accessing a connection: Record not found",
    );
    assert!(matches!(guard.dropped(), Some(LogEvent::SleepCancelled)));
}

#[test]
fn routes_of_the_server() {
    let found: Vec<_> = routes()
        .iter()
        .map(|r| (r.endpoint, r.method, r.path, r.operation_id, r.summary))
        .collect();
    assert_eq!(
        found,
        vec![
            (
                Endpoint::Reset,
                Method::Post,
                "/reset",
                "api_reset",
                "Wipe the database and start again",
            ),
            (
                Endpoint::GetCounter,
                Method::Get,
                "/counter",
                "api_get_counter",
                "Fetch the current value of the counter.",
            ),
            (
                Endpoint::BumpCounter,
                Method::Post,
                "/bump",
                "api_bump_counter",
                "Bump the current value of the counter.",
            ),
            (
                Endpoint::Sleep,
                Method::Get,
                "/sleep",
                "api_sleep",
                "Sleep a bit inside a database transaction",
            ),
        ]
    );
}

#[test]
fn routes_are_told_apart() {
    let routes = routes();
    for (i, a) in routes.iter().enumerate() {
        for b in &routes[i + 1..] {
            assert!(a.method != b.method || a.path != b.path);
            assert_ne!(a.operation_id, b.operation_id);
        }
    }
}

#[test]
fn server_that_starts_is_handed_on() {
    assert_eq!(create_dropshot_server(Ok(12)).unwrap(), 12);
}

#[test]
fn server_that_does_not_start() {
    let error = create_dropshot_server::<()>(Err("address in use".to_string())).unwrap_err();
    let error = error.into_error();
    assert_eq!(error.to_string(), "creating Dropshot server: address in use");
    assert_eq!(error.chain().count(), 1);
}

#[test]
fn server_is_made_from_what_it_is_given() {
    let setup = server_setup("config", "log", "pool");
    assert_eq!(setup.config, "config");
    assert_eq!(setup.log, "log");
    assert_eq!(setup.context.pool, "pool");
    let paths: Vec<&str> = setup.routes.iter().map(|route| route.path).collect();
    assert_eq!(paths, vec!["/reset", "/counter", "/bump", "/sleep"]);
}

#[test]
fn context_is_the_pool() {
    assert_eq!(ExampleContext::new(9).pool, 9);
}
