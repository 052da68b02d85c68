use vstd::prelude::*;
use vstd::string::StringExecFns;

verus! {

/// Closed taxonomy of failures surfaced by the public operations.
///
/// Every operation wraps protocol-level failures into one of these kinds,
/// carrying a human-readable message that includes the original cause's text;
/// no protocol-internal error type leaks to callers. `ActionError`,
/// `ElementError`, `CookieError`, `JavaScriptError` and `ScreenshotError` are
/// reserved for operations outside this core (element interaction, cookies,
/// script evaluation, screenshots) but are part of the stable error surface.
#[derive(Debug)]
pub enum BotError {
    SessionCreationError(String),
    SessionClosingError(String),
    NavigationError(String),
    ActionError(String),
    ElementError(String),
    CookieError(String),
    JavaScriptError(String),
    ScreenshotError(String),
    UnknownError(String),
}

impl BotError {
    /// The descriptive message carried by the error, whatever its kind.
    pub open spec fn message(self) -> Seq<char> {
        match self {
            BotError::SessionCreationError(m) => m@,
            BotError::SessionClosingError(m) => m@,
            BotError::NavigationError(m) => m@,
            BotError::ActionError(m) => m@,
            BotError::ElementError(m) => m@,
            BotError::CookieError(m) => m@,
            BotError::JavaScriptError(m) => m@,
            BotError::ScreenshotError(m) => m@,
            BotError::UnknownError(m) => m@,
        }
    }

    /// The static phase description that `describe` puts before the message.
    pub open spec fn kind_prefix(self) -> Seq<char> {
        match self {
            BotError::SessionCreationError(_) => "Session creation error: "@,
            BotError::SessionClosingError(_) => "Session closing error: "@,
            BotError::NavigationError(_) => "Navigation error: "@,
            BotError::ActionError(_) => "Action error: "@,
            BotError::ElementError(_) => "Element error: "@,
            BotError::CookieError(_) => "Cookie error: "@,
            BotError::JavaScriptError(_) => "JavaScript error: "@,
            BotError::ScreenshotError(_) => "Screenshot error: "@,
            BotError::UnknownError(_) => "Unknown error: "@,
        }
    }

    /// Render the error as its phase description followed by its message.
    pub fn describe(&self) -> (r: String)
        ensures
            r@ == self.kind_prefix() + self.message(),
    {
        match self {
            BotError::SessionCreationError(m) => {
                String::from_str("Session creation error: ").concat(m.as_str())
            },
            BotError::SessionClosingError(m) => {
                String::from_str("Session closing error: ").concat(m.as_str())
            },
            BotError::NavigationError(m) => {
                String::from_str("Navigation error: ").concat(m.as_str())
            },
            BotError::ActionError(m) => String::from_str("Action error: ").concat(m.as_str()),
            BotError::ElementError(m) => String::from_str("Element error: ").concat(m.as_str()),
            BotError::CookieError(m) => String::from_str("Cookie error: ").concat(m.as_str()),
            BotError::JavaScriptError(m) => {
                String::from_str("JavaScript error: ").concat(m.as_str())
            },
            BotError::ScreenshotError(m) => {
                String::from_str("Screenshot error: ").concat(m.as_str())
            },
            BotError::UnknownError(m) => String::from_str("Unknown error: ").concat(m.as_str()),
        }
    }
}

/// Message wrapping a protocol failure during session start.
pub open spec fn session_start_failure_msg(cause: Seq<char>) -> Seq<char> {
    "Starting the WebDriverBiDi session failed: "@ + cause
}

/// Message wrapping a protocol failure during context-tree discovery.
pub open spec fn context_tree_failure_msg(cause: Seq<char>) -> Seq<char> {
    "The browsingContext.getTree command failed: "@ + cause
}

/// Message wrapping a protocol failure while closing the session.
pub open spec fn session_close_failure_msg(cause: Seq<char>) -> Seq<char> {
    "Closing the WebDriver BiDi session failed: "@ + cause
}

/// Message wrapping a protocol failure during history traversal.
pub open spec fn history_failure_msg(cause: Seq<char>) -> Seq<char> {
    "Navigating the history failed: "@ + cause
}

/// Message of the fail-fast navigation error when no context is stored.
pub open spec fn no_context_msg() -> Seq<char> {
    "No browsing context available"@
}

} // verus!
