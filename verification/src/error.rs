//! The failures that a call into the host can end in.
use crate::outside::canceled_text;
use futures::channel::oneshot::Canceled;
use serde_json::Value;
use vstd::prelude::*;
use vstd::string::StringExecFns;

verus! {

/// What kind of value the host rejected a call with.
pub enum RejectionKind {
    /// A host string, with its text where the text could be taken over.
    Text(Option<String>),
    /// A host error object, with its message.
    Exception(String),
    /// Anything else.
    Other,
}

/// What the host handed back when it rejected a call, reduced to what the
/// library reads of it.
pub struct Rejection {
    pub kind: RejectionKind,
    /// The value as JSON, where it could be read as JSON.
    pub payload: Option<Value>,
    /// The debug rendering of the value.
    pub debug: String,
}

/// Every way in which a call into the host can fail.
#[derive(Debug)]
pub enum Error {
    Tauri(String),
    SerdeWasm(String),
    JsStringToString,
    InvalidType(String),
    Invoke { payload: Option<Value>, debug: String },
    FuturesOneshotCanceled(Canceled),
    Js(String),
    RawClientWrapperInnerEmpty,
}

impl Error {
    /// The text that describes this error to a reader.
    pub open spec fn spec_message(self) -> Seq<char> {
        match self {
            Error::Tauri(message) => message@,
            Error::SerdeWasm(message) => message@,
            Error::JsStringToString => "Cannot convert a JsString to an Rust string"@,
            Error::InvalidType(expected) => "invalid type expected "@ + expected@,
            Error::Invoke { payload, debug } => "invoke error: "@ + debug@,
            Error::FuturesOneshotCanceled(_) => "oneshot canceled"@,
            Error::Js(message) => message@,
            Error::RawClientWrapperInnerEmpty => {
                "Invalid logic: The inner client was already dropped"@
            },
        }
    }

    /// The error for a host string, as `From<Rejection>` classifies it.
    pub open spec fn spec_from_text(text: Option<String>) -> Error {
        match text {
            Some(message) => Error::Tauri(message),
            None => Error::JsStringToString,
        }
    }

    /// The error for a rejected call: a host string is a plain message, or
    /// the failure to take its text over; a host error object is its
    /// message; anything else is kept as it came.
    pub open spec fn spec_from_rejection(rejection: Rejection) -> Error {
        match rejection.kind {
            RejectionKind::Text(text) => Self::spec_from_text(text),
            RejectionKind::Exception(message) => Error::Js(message),
            RejectionKind::Other => Error::Invoke {
                payload: rejection.payload,
                debug: rejection.debug,
            },
        }
    }

    pub fn tauri(message: String) -> (error: Error)
        ensures
            error == Error::Tauri(message),
    {
        Error::Tauri(message)
    }

    pub fn tauri_js_string_ref(message: &Option<String>) -> (error: Error)
        ensures
            error == Self::spec_from_text(*message),
    {
        match message {
            Some(message) => Self::tauri(message.clone()),
            None => Error::JsStringToString,
        }
    }

    pub fn tauri_js_string(message: Option<String>) -> (error: Error)
        ensures
            error == Self::spec_from_text(message),
    {
        match message {
            Some(message) => Self::tauri(message),
            None => Error::JsStringToString,
        }
    }

    /// The JSON payload of a rejected invocation, for the caller to decode:
    /// present exactly for `Invoke` errors whose payload could be read.
    pub fn parse_invoke_error(&self) -> (payload: Option<&Value>)
        ensures
            payload == match *self {
                Error::Invoke { payload: Some(value), debug } => Some(&value),
                _ => None,
            },
    {
        match self {
            Error::Invoke { payload: Some(value), debug } => Some(value),
            _ => None,
        }
    }

    pub fn message(&self) -> (text: String)
        ensures
            text@ == self.spec_message(),
    {
        match self {
            Error::Tauri(message) => message.clone(),
            Error::SerdeWasm(message) => message.clone(),
            Error::JsStringToString => String::from_str(
                "Cannot convert a JsString to an Rust string",
            ),
            Error::InvalidType(expected) => String::from_str("invalid type expected ").concat(
                expected.as_str(),
            ),
            Error::Invoke { payload, debug } => String::from_str("invoke error: ").concat(
                debug.as_str(),
            ),
            Error::FuturesOneshotCanceled(canceled) => canceled_text(canceled),
            Error::Js(message) => message.clone(),
            Error::RawClientWrapperInnerEmpty => String::from_str(
                "Invalid logic: The inner client was already dropped",
            ),
        }
    }
}

impl From<Rejection> for Error {
    fn from(value: Rejection) -> (error: Error)
    {
        match value.kind {
            RejectionKind::Text(text) => Error::tauri_js_string(text),
            RejectionKind::Exception(message) => Error::Js(message),
            RejectionKind::Other => Error::Invoke { payload: value.payload, debug: value.debug },
        }
    }
}

impl vstd::std_specs::convert::FromSpecImpl<Rejection> for Error {
    open spec fn obeys_from_spec() -> bool {
        true
    }

    open spec fn from_spec(value: Rejection) -> Error {
        Error::spec_from_rejection(value)
    }
}

impl From<Canceled> for Error {
    fn from(value: Canceled) -> (error: Error)
    {
        Error::FuturesOneshotCanceled(value)
    }
}

impl vstd::std_specs::convert::FromSpecImpl<Canceled> for Error {
    open spec fn obeys_from_spec() -> bool {
        true
    }

    open spec fn from_spec(value: Canceled) -> Error {
        Error::FuturesOneshotCanceled(value)
    }
}

} // verus!
