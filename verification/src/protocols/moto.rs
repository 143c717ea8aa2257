//! The `moto:` scheme: well-known shortcuts that stand for pages shipped with
//! the browser.
//!
//! Recognised shortcuts:
//! - `moto:newtab`, the page of a new tab
//! - `moto:config`, the page behind the preferences editor

use vstd::prelude::*;
use vstd::string::*;

verus! {

/// The resource that a shortcut stands for, if the shortcut is known.
pub open spec fn shortcut_resource(path: Seq<char>) -> Option<Seq<char>> {
    if path == "newtab"@ || path == "config"@ {
        Some("/newtab.html"@)
    } else {
        None
    }
}

/// The message of the answer to an unknown shortcut.
pub open spec fn invalid_shortcut() -> Seq<char> {
    "Invalid shortcut"@
}

/// The answer to a request under the `moto:` scheme.
#[derive(Clone, Debug, PartialEq, Eq)]
pub enum MotoResponse {
    /// Serve the shipped resource at this path.
    Resource(String),
    /// Fail the request with this message.
    NetworkError(String),
}

/// The mathematical content of a [`MotoResponse`].
pub enum MotoResponseView {
    Resource(Seq<char>),
    NetworkError(Seq<char>),
}

impl View for MotoResponse {
    type V = MotoResponseView;

    open spec fn view(&self) -> MotoResponseView {
        match *self {
            MotoResponse::Resource(path) => MotoResponseView::Resource(path@),
            MotoResponse::NetworkError(message) => MotoResponseView::NetworkError(message@),
        }
    }
}

/// The answer that the scheme gives for a path.
pub open spec fn moto_response(path: Seq<char>) -> MotoResponseView {
    match shortcut_resource(path) {
        Some(resource) => MotoResponseView::Resource(resource),
        None => MotoResponseView::NetworkError(invalid_shortcut()),
    }
}

/// Answers requests under the `moto:` scheme.
#[derive(Clone, Copy, Debug, Default)]
pub struct MotoProtocolHandler {}

impl MotoProtocolHandler {
    /// Answers the request for the address whose path is `path`: with the
    /// resource of a known shortcut, with an error for anything else.
    pub fn load(&self, path: &str) -> (response: MotoResponse)
        ensures
            response@ == moto_response(path@),
    {
        if path.eq("newtab") || path.eq("config") {
            MotoResponse::Resource(String::from_str("/newtab.html"))
        } else {
            MotoResponse::NetworkError(String::from_str("Invalid shortcut"))
        }
    }
}

} // verus!
