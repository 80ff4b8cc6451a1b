use cancel_repro::error::{ErrorChain, ErrorWrap, HttpError};

fn chain(messages: &[&str]) -> ErrorChain {
    ErrorChain {
        message: messages[0].to_string(),
        causes: messages[1..].iter().map(|m| m.to_string()).collect(),
    }
}

fn messages(error: &anyhow::Error) -> Vec<String> {
    error.chain().map(|cause| cause.to_string()).collect()
}

#[test]
fn chain_of_one_message() {
    let error = ErrorWrap::from_chain(chain(&["no route to host"])).into_error();
    assert_eq!(messages(&error), vec!["no route to host"]);
}

#[test]
fn chain_keeps_its_order() {
    let error = ErrorWrap::from_chain(chain(&["a", "b", "c", "d"])).into_error();
    assert_eq!(messages(&error), vec!["a", "b", "c", "d"]);
    assert_eq!(error.root_cause().to_string(), "d");
}

#[test]
fn context_goes_outermost() {
    let error = ErrorWrap::msg("refused".to_string())
        .context("connecting")
        .context("starting")
        .into_error();
    assert_eq!(messages(&error), vec!["starting", "connecting", "refused"]);
}

#[test]
fn http_error_shows_the_whole_chain() {
    let error = HttpError::from(ErrorWrap::from_chain(chain(&["x", "", "y: z"])));
    assert_eq!(error.status_code, 500);
    assert_eq!(error.error_code, None);
    assert_eq!(error.external_message, "x: : y: z");
    assert_eq!(error.internal_message, "x: : y: z");
}

#[test]
fn http_error_of_a_lone_message() {
    let error = HttpError::from(ErrorWrap::msg("gone".to_string()));
    assert_eq!(error.status_code, 500);
    assert_eq!(error.error_code, None);
    assert_eq!(error.external_message, "gone");
    assert_eq!(error.internal_message, "gone");
}

#[test]
fn context_stands_first_in_the_text() {
    let error = HttpError::from(ErrorWrap::from_chain(chain(&["a", "b"])).context("doing"));
    assert_eq!(error.external_message, "doing: a: b");
}

#[test]
fn every_message_is_in_the_text() {
    let parts = ["outer", "middle", "inner"];
    let error = HttpError::from(ErrorWrap::from_chain(chain(&parts)));
    for part in parts {
        assert!(error.external_message.contains(part));
    }
}
