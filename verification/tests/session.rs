use bidibot::client::Bot;
use bidibot::client::Capabilities;
use bidibot::error::BotError;
use webdriverbidi::webdriver::capabilities::CapabilityRequest;

fn caps() -> Capabilities {
    Capabilities::new(CapabilityRequest::new())
}

#[test]
fn new_controller_has_no_browsing_context() {
    let bot = Bot::new(caps(), "localhost", 4444);
    assert!(bot.browsing_context.is_none());
}

#[test]
fn open_success_stores_first_context() {
    let mut bot = Bot::new(caps(), "localhost", 4444);
    assert!(bot.apply_session_start(Ok(())).is_ok());
    let r = bot.apply_context_tree(Ok(vec!["ctx-1".to_string()]));
    assert!(r.is_ok());
    assert_eq!(bot.browsing_context, Some("ctx-1".to_string()));
}

#[test]
fn open_takes_first_of_many_contexts() {
    let mut bot = Bot::new(caps(), "localhost", 4444);
    assert!(bot.apply_session_start(Ok(())).is_ok());
    let tree = vec!["ctx-a".to_string(), "ctx-b".to_string(), "ctx-c".to_string()];
    assert!(bot.apply_context_tree(Ok(tree)).is_ok());
    assert_eq!(bot.browsing_context, Some("ctx-a".to_string()));
}

#[test]
fn session_start_failure_wraps_cause() {
    let mut bot = Bot::new(caps(), "localhost", 4444);
    let r = bot.apply_session_start(Err("boom".to_string()));
    match r {
        Err(BotError::SessionCreationError(m)) => {
            assert_eq!(m, "Starting the WebDriverBiDi session failed: boom");
        }
        other => panic!("expected SessionCreationError, got {:?}", other),
    }
    assert!(bot.browsing_context.is_none());
}

#[test]
fn context_tree_failure_wraps_cause() {
    let mut bot = Bot::new(caps(), "localhost", 4444);
    assert!(bot.apply_session_start(Ok(())).is_ok());
    let r = bot.apply_context_tree(Err("timed out".to_string()));
    match r {
        Err(BotError::SessionCreationError(m)) => {
            assert_eq!(m, "The browsingContext.getTree command failed: timed out");
        }
        other => panic!("expected SessionCreationError, got {:?}", other),
    }
    assert!(bot.browsing_context.is_none());
}

#[test]
fn rerun_discovery_overwrites_context() {
    let mut bot = Bot::new(caps(), "localhost", 4444);
    assert!(bot.apply_session_start(Ok(())).is_ok());
    assert!(bot.apply_context_tree(Ok(vec!["ctx-1".to_string()])).is_ok());
    assert!(bot.apply_context_tree(Ok(vec!["ctx-2".to_string()])).is_ok());
    assert_eq!(bot.browsing_context, Some("ctx-2".to_string()));
}

#[test]
fn failed_rerun_keeps_old_context() {
    let mut bot = Bot::new(caps(), "localhost", 4444);
    assert!(bot.apply_session_start(Ok(())).is_ok());
    assert!(bot.apply_context_tree(Ok(vec!["ctx-1".to_string()])).is_ok());
    assert!(bot.apply_context_tree(Err("gone".to_string())).is_err());
    assert_eq!(bot.browsing_context, Some("ctx-1".to_string()));
}

#[test]
fn close_failure_wraps_cause() {
    let mut bot = Bot::new(caps(), "localhost", 4444);
    assert!(bot.apply_session_start(Ok(())).is_ok());
    assert!(bot.apply_context_tree(Ok(vec!["ctx-1".to_string()])).is_ok());
    let r = bot.close(Err("connection reset".to_string()));
    match r {
        Err(BotError::SessionClosingError(m)) => {
            assert_eq!(m, "Closing the WebDriver BiDi session failed: connection reset");
        }
        other => panic!("expected SessionClosingError, got {:?}", other),
    }
    // close does not clear the stored browsing context
    assert_eq!(bot.browsing_context, Some("ctx-1".to_string()));
}

#[test]
fn close_success_returns_ok() {
    let mut bot = Bot::new(caps(), "localhost", 4444);
    assert!(bot.close(Ok(())).is_ok());
}
