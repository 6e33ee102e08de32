//! The error type shared by the processes.

use vstd::prelude::*;
use vstd::std_specs::convert::FromSpecImpl;
use vstd::string::to_string_from_display_ensures;

verus! {

/// `std::io::Error`, carried through as it is.
#[verifier::external_type_specification]
#[verifier::external_body]
pub struct ExIoError(std::io::Error);

/// `serde_json::Error`, carried through as it is.
#[verifier::external_type_specification]
#[verifier::external_body]
pub struct ExJsonError(serde_json::Error);

/// What can go wrong in any of the processes, by kind.
#[derive(Debug)]
pub enum MyClawError {
    WebSocket(String),
    Protocol(String),
    Config(String),
    Gateway(String),
    Io(std::io::Error),
    Json(serde_json::Error),
}

impl MyClawError {
    /// What stands before the detail in the error's text.
    pub open spec fn prefix(self) -> Seq<char> {
        match self {
            MyClawError::WebSocket(_) => "WebSocket error: "@,
            MyClawError::Protocol(_) => "Protocol error: "@,
            MyClawError::Config(_) => "Config error: "@,
            MyClawError::Gateway(_) => "Gateway error: "@,
            MyClawError::Io(_) => "IO error: "@,
            MyClawError::Json(_) => "JSON error: "@,
        }
    }

    /// Whether `detail` is the detail of the error: the message it was made
    /// with, or the rendering of the error it wraps.
    pub open spec fn has_detail(self, detail: String) -> bool {
        match self {
            MyClawError::WebSocket(msg) => detail@ == msg@,
            MyClawError::Protocol(msg) => detail@ == msg@,
            MyClawError::Config(msg) => detail@ == msg@,
            MyClawError::Gateway(msg) => detail@ == msg@,
            MyClawError::Io(e) => to_string_from_display_ensures::<std::io::Error>(&e, detail),
            MyClawError::Json(e) => to_string_from_display_ensures::<serde_json::Error>(
                &e,
                detail,
            ),
        }
    }

    /// The error as one line of text: what kind of error it is, then the
    /// detail.
    pub fn message(&self) -> (text: String)
        ensures
            exists|detail: String| #[trigger]
                self.has_detail(detail) && text@ == self.prefix() + detail@,
    {
        let (mut text, detail) = match self {
            MyClawError::WebSocket(msg) => ("WebSocket error: ".to_owned(), msg.clone()),
            MyClawError::Protocol(msg) => ("Protocol error: ".to_owned(), msg.clone()),
            MyClawError::Config(msg) => ("Config error: ".to_owned(), msg.clone()),
            MyClawError::Gateway(msg) => ("Gateway error: ".to_owned(), msg.clone()),
            MyClawError::Io(e) => ("IO error: ".to_owned(), e.to_string()),
            MyClawError::Json(e) => ("JSON error: ".to_owned(), e.to_string()),
        };
        text.append(detail.as_str());
        assert(self.has_detail(detail));
        text
    }
}

impl From<std::io::Error> for MyClawError {
    fn from(e: std::io::Error) -> (error: MyClawError) {
        MyClawError::Io(e)
    }
}

impl FromSpecImpl<std::io::Error> for MyClawError {
    open spec fn obeys_from_spec() -> bool {
        true
    }

    open spec fn from_spec(e: std::io::Error) -> MyClawError {
        MyClawError::Io(e)
    }
}

impl From<serde_json::Error> for MyClawError {
    fn from(e: serde_json::Error) -> (error: MyClawError) {
        MyClawError::Json(e)
    }
}

impl FromSpecImpl<serde_json::Error> for MyClawError {
    open spec fn obeys_from_spec() -> bool {
        true
    }

    open spec fn from_spec(e: serde_json::Error) -> MyClawError {
        MyClawError::Json(e)
    }
}

} // verus!
