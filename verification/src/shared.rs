//! Types that every part of the browser shares.

use vstd::prelude::*;
use vstd::string::StringExecFns;
use crate::text::{decimal, push_decimal};

verus! {

/// Identifier of a browser tab.
#[derive(Debug, Clone, Copy, PartialEq, Eq, Hash, Structural)]
pub struct TabId(pub usize);

impl TabId {
    /// The identifier in words: `Tab(` and the number and `)`.
    pub open spec fn display(self) -> Seq<char> {
        "Tab("@ + decimal(self.0 as nat) + ")"@
    }

    /// The identifier in words.
    pub fn to_string(&self) -> (text: String)
        ensures
            text@ == self.display(),
    {
        let mut text = "Tab(".to_owned();
        push_decimal(&mut text, self.0);
        text.append(")");
        text
    }
}

/// The kinds of error that every part of the browser knows.
#[derive(Debug)]
pub enum BrowserError {
    /// An address that is no URL.
    InvalidUrl(String),
    /// The network failed.
    Network(String),
    /// The renderer failed.
    Rendering(String),
    /// The persistent store failed.
    Storage(String),
    /// A message between the parts of the browser could not be handled.
    Ipc(String),
}

impl BrowserError {
    /// The error in one line.
    pub open spec fn display(self) -> Seq<char> {
        match self {
            BrowserError::InvalidUrl(detail) => "Invalid URL: "@ + detail@,
            BrowserError::Network(detail) => "Network error: "@ + detail@,
            BrowserError::Rendering(detail) => "Rendering error: "@ + detail@,
            BrowserError::Storage(detail) => "Storage error: "@ + detail@,
            BrowserError::Ipc(detail) => "IPC error: "@ + detail@,
        }
    }

    /// The error in one line.
    pub fn to_string(&self) -> (text: String)
        ensures
            text@ == self.display(),
    {
        let (head, detail) = match self {
            BrowserError::InvalidUrl(detail) => ("Invalid URL: ", detail),
            BrowserError::Network(detail) => ("Network error: ", detail),
            BrowserError::Rendering(detail) => ("Rendering error: ", detail),
            BrowserError::Storage(detail) => ("Storage error: ", detail),
            BrowserError::Ipc(detail) => ("IPC error: ", detail),
        };
        let mut text = head.to_owned();
        text.append(detail.as_str());
        text
    }
}

} // verus!
