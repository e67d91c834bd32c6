use vstd::prelude::*;

use crate::pages::{
    create_error_page, create_success_page, ERROR_PAGE_HEAD, ERROR_PAGE_TAIL, SUCCESS_PAGE,
};

verus! {

/// How long the authorization flow waits for the browser, in seconds.
pub const OAUTH_WAIT_SECONDS: u32 = 120;

/// What a request to the local authorization callback carries.
#[derive(Debug, PartialEq, Eq)]
pub enum OAuthCallback {
    /// The provider granted access with this code.
    Authorized(String),
    /// The provider refused with this error code.
    Refused(String),
    /// Neither a code nor an error: not the callback.
    Ignored,
}

/// Classifies a callback request by its `code` and `error` query parameters;
/// a code wins over an error.
pub fn classify_callback(code: Option<String>, error: Option<String>) -> (r: OAuthCallback)
    ensures
        match code {
            Some(c) => r == OAuthCallback::Authorized(c),
            None => match error {
                Some(e) => r == OAuthCallback::Refused(e),
                None => r == OAuthCallback::Ignored,
            },
        },
{
    match code {
        Some(c) => OAuthCallback::Authorized(c),
        None => match error {
            Some(e) => OAuthCallback::Refused(e),
            None => OAuthCallback::Ignored,
        },
    }
}

/// The page to answer a callback with, if it is one; the server stops after
/// answering.
pub fn callback_page(callback: &OAuthCallback) -> (r: Option<String>)
    ensures
        match callback {
            OAuthCallback::Authorized(_) => r is Some && r->Some_0@ == SUCCESS_PAGE@,
            OAuthCallback::Refused(e) => r is Some && r->Some_0@ == ERROR_PAGE_HEAD@ + e@
                + ERROR_PAGE_TAIL@,
            OAuthCallback::Ignored => r is None,
        },
{
    match callback {
        OAuthCallback::Authorized(_) => Some(create_success_page()),
        OAuthCallback::Refused(e) => Some(create_error_page(e.as_str())),
        OAuthCallback::Ignored => None,
    }
}

/// What the waiting side does after each second.
#[derive(Debug, PartialEq, Eq)]
pub enum PollAction {
    /// A code arrived: hand it to the caller.
    Deliver(String),
    /// Keep waiting.
    Wait,
    /// The wait is over without a code.
    TimedOut,
}

/// The decision after `elapsed` seconds of waiting, given the code received
/// so far.
pub fn poll_decision(elapsed: u32, received: Option<String>) -> (r: PollAction)
    ensures
        match received {
            Some(c) => r == PollAction::Deliver(c),
            None => if elapsed >= OAUTH_WAIT_SECONDS {
                r == PollAction::TimedOut
            } else {
                r == PollAction::Wait
            },
        },
{
    match received {
        Some(c) => PollAction::Deliver(c),
        None => if elapsed >= OAUTH_WAIT_SECONDS {
            PollAction::TimedOut
        } else {
            PollAction::Wait
        },
    }
}

} // verus!
