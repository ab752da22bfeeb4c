//! Errors of the runtime.

use vstd::prelude::*;
use vstd::string::*;

verus! {

/// What can go wrong between a client thread and the event loop.
#[derive(Clone, Debug, PartialEq, Eq)]
pub enum Error {
    /// The native toolkit could not build the webview; its own words.
    CreateWebview(String),
    /// The event loop is gone: nothing receives messages any more.
    FailedToSendMessage,
    /// The icon could not be read or decoded; the cause in words.
    InvalidIcon(String),
    /// The native toolkit could not build the system tray; its own words.
    SystemTray(String),
}

/// The text of an error: a fixed sentence, followed by the cause where the
/// error carries one.
pub open spec fn error_text(error: Error) -> Seq<char> {
    match error {
        Error::CreateWebview(cause) => "failed to create webview: "@ + cause@,
        Error::FailedToSendMessage => "failed to send message to the webview"@,
        Error::InvalidIcon(cause) => "invalid icon: "@ + cause@,
        Error::SystemTray(cause) => "error encountered during tray setup: "@ + cause@,
    }
}

impl Error {
    /// The error in words.
    pub fn message(&self) -> (text: String)
        ensures
            text@ == error_text(*self),
    {
        match self {
            Error::CreateWebview(cause) => String::from_str("failed to create webview: ").concat(
                cause.as_str(),
            ),
            Error::FailedToSendMessage => String::from_str("failed to send message to the webview"),
            Error::InvalidIcon(cause) => String::from_str("invalid icon: ").concat(cause.as_str()),
            Error::SystemTray(cause) => String::from_str(
                "error encountered during tray setup: ",
            ).concat(cause.as_str()),
        }
    }
}

} // verus!
