use vstd::prelude::*;
use vstd::string::StringExecFns;

use crate::error::BotError;
use crate::error::context_tree_failure_msg;
use crate::error::no_context_msg;
use crate::error::session_close_failure_msg;
use crate::error::session_start_failure_msg;
use crate::nav;
use crate::nav::NavigateCommand;
use crate::nav::Readiness;

verus! {

#[verifier::external_type_specification]
#[verifier::external_body]
pub struct ExWebDriverBiDiSession(webdriverbidi::session::WebDriverBiDiSession);

#[verifier::external_type_specification]
#[verifier::external_body]
pub struct ExCapabilitiesRequest(webdriverbidi::webdriver::capabilities::CapabilitiesRequest);

/// Requested capability set, forwarded uninterpreted to the protocol client.
pub type Capabilities = webdriverbidi::webdriver::capabilities::CapabilitiesRequest;

/// Relies on WebDriverBiDiSession::new: pure construction that stores the
/// host, port and capabilities and derives the base URL from them; it opens
/// no connection and cannot fail.
#[verifier::external_body]
fn new_session(host: &str, port: u16, capabilities: Capabilities) -> webdriverbidi::session::WebDriverBiDiSession {
    webdriverbidi::session::WebDriverBiDiSession::new(host.to_string(), port, capabilities)
}

/// Session controller: owns the protocol client handle and the browsing
/// context identifier that every navigation operation uses.
pub struct Bot {
    pub webdriverbidi_session: webdriverbidi::session::WebDriverBiDiSession,
    pub browsing_context: Option<String>,
}

impl Bot {
    /// Create a controller for a protocol client at `host`:`port` with the
    /// given capabilities. Pure initialization: no network contact, and no
    /// browsing context is stored until `apply_context_tree` succeeds.
    pub fn new(capabilities: Capabilities, host: &str, port: u16) -> (bot: Bot)
        ensures
            bot.browsing_context is None,
    {
        Bot { webdriverbidi_session: new_session(host, port, capabilities), browsing_context: None }
    }

    /// First step of opening the session: fold in the protocol client's answer
    /// to the session-start request. A failure is surfaced as a
    /// `SessionCreationError` wrapping the cause's text, and the stored state
    /// — in particular `browsing_context` — is left untouched.
    pub fn apply_session_start(&mut self, outcome: Result<(), String>) -> (r: Result<(), BotError>)
        ensures
            *final(self) == *old(self),
            outcome matches Ok(_) ==> r matches Ok(_),
            outcome matches Err(cause) ==> (r matches Err(e)
                && e matches BotError::SessionCreationError(m)
                && m@ == session_start_failure_msg(cause@)),
    {
        match outcome {
            Ok(_) => Ok(()),
            Err(cause) => Err(BotError::SessionCreationError(
                String::from_str("Starting the WebDriverBiDi session failed: ").concat(
                    cause.as_str(),
                ),
            )),
        }
    }

    /// Second step of opening the session: fold in the protocol client's
    /// answer to the context-tree query, the ordered identifiers of the tree's
    /// top-level contexts. On success the first identifier becomes the stored
    /// browsing context; on failure nothing is stored and the failure is
    /// surfaced as a `SessionCreationError` — context discovery is part of
    /// session establishment, not a distinct failure class. Re-running
    /// discovery on an already-opened controller silently overwrites the
    /// stored context; a failed re-run leaves the old one in place.
    pub fn apply_context_tree(&mut self, outcome: Result<Vec<String>, String>) -> (r: Result<
        (),
        BotError,
    >)
        requires
            outcome matches Ok(contexts) ==> contexts@.len() >= 1,
        ensures
            final(self).webdriverbidi_session == old(self).webdriverbidi_session,
            outcome matches Ok(contexts) ==> (r matches Ok(_)
                && final(self).browsing_context matches Some(c)
                && c@ == contexts@[0]@),
            outcome matches Err(cause) ==> (r matches Err(e)
                && e matches BotError::SessionCreationError(m)
                && m@ == context_tree_failure_msg(cause@)
                && *final(self) == *old(self)),
    {
        match outcome {
            Ok(mut contexts) => {
                let first = contexts.remove(0);
                self.browsing_context = Some(first);
                Ok(())
            },
            Err(cause) => Err(BotError::SessionCreationError(
                String::from_str("The browsingContext.getTree command failed: ").concat(
                    cause.as_str(),
                ),
            )),
        }
    }

    /// Decide the navigate command for `url`. With no browsing context stored
    /// — `open` never called, or failed — this fails fast with a
    /// `NavigationError` and no command is produced, so the protocol client is
    /// never contacted. With a stored context it returns the command to
    /// dispatch: that context, the URL, readiness fixed to a complete load.
    pub fn goto(&self, url: &str) -> (r: Result<NavigateCommand, BotError>)
        ensures
            self.browsing_context matches Some(ctx) ==> (r matches Ok(cmd)
                && cmd.context@ == ctx@
                && cmd.url@ == url@
                && cmd.wait == Readiness::Complete),
            self.browsing_context is None ==> (r matches Err(e)
                && e matches BotError::NavigationError(m)
                && m@ == no_context_msg()),
    {
        match &self.browsing_context {
            Some(ctx) => Ok(nav::goto(ctx.clone(), url)),
            None => Err(BotError::NavigationError(
                String::from_str("No browsing context available"),
            )),
        }
    }

    /// Fold in the protocol client's answer to the session-close request. A
    /// failure is surfaced as a `SessionClosingError` wrapping the cause's
    /// text. The stored browsing context is not cleared: no further use of it
    /// is expected, but that is not enforced.
    pub fn close(&mut self, outcome: Result<(), String>) -> (r: Result<(), BotError>)
        ensures
            *final(self) == *old(self),
            outcome matches Ok(_) ==> r matches Ok(_),
            outcome matches Err(cause) ==> (r matches Err(e)
                && e matches BotError::SessionClosingError(m)
                && m@ == session_close_failure_msg(cause@)),
    {
        match outcome {
            Ok(_) => Ok(()),
            Err(cause) => Err(BotError::SessionClosingError(
                String::from_str("Closing the WebDriver BiDi session failed: ").concat(
                    cause.as_str(),
                ),
            )),
        }
    }
}

} // verus!
