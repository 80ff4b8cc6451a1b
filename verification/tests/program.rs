use cancel_repro::error::{ErrorChain, ErrorWrap};
use cancel_repro::log::{Level, LogEvent};
use cancel_repro::startup::{config, logger_created, pool_created, server_stopped, IfExists};

fn messages(error: ErrorWrap) -> Vec<String> {
    error.into_error().chain().map(|cause| cause.to_string()).collect()
}

#[test]
fn configuration() {
    let config = config();
    assert_eq!(
        config.db_url,
        "postgresql://root@127.0.0.1:12345/defaultdb?sslmode=disable"
    );
    assert_eq!(config.bind_address, "127.0.0.1:12344");
    assert_eq!(config.log_path, "/dev/stdout");
    assert_eq!(config.log_if_exists, IfExists::Append);
    assert_eq!(config.log_level, Level::Debug);
    assert_eq!(config.log_name, "cancel-repro");
}

#[test]
fn logger() {
    assert_eq!(logger_created(Ok(3)).unwrap(), 3);
    let chain = ErrorChain { message: "no such file".to_string(), causes: vec![] };
    assert_eq!(
        messages(logger_created::<()>(Err(chain)).unwrap_err()),
        vec!["creating logger", "no such file"]
    );
}

#[test]
fn pool() {
    assert_eq!(pool_created(Ok(3)).unwrap(), 3);
    let cause = ErrorWrap::msg("refused".to_string()).context("building pool");
    assert_eq!(
        messages(pool_created::<()>(Err(cause)).unwrap_err()),
        vec!["setting up database pool", "building pool", "refused"]
    );
}

#[test]
fn server() {
    assert!(server_stopped(Ok(())).is_ok());
    assert_eq!(
        messages(server_stopped(Err("broken".to_string())).unwrap_err()),
        vec!["waiting for server: broken"]
    );
}

#[test]
fn server_is_logged() {
    let event = LogEvent::SettingUpServer;
    assert_eq!(event.level(), Level::Info);
    assert_eq!(event.message(), "setting up dropshot server");
    assert_eq!(event.key(), None);
    let event = LogEvent::SetUpServer { local_address: "127.0.0.1:12344".to_string() };
    assert_eq!(event.level(), Level::Info);
    assert_eq!(event.message(), "set up dropshot server");
    assert_eq!(event.key(), Some("local_address"));
}

#[test]
fn pool_error_text_goes_on_behind_the_context() {
    let cause = ErrorWrap::msg("refused".to_string()).context("building pool");
    let error = pool_created::<()>(Err(cause)).unwrap_err().into_error();
    assert_eq!(
        format!("{:#}", error),
        "setting up database pool: building pool: refused"
    );
}
