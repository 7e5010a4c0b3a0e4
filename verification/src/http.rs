//! The HTTP client of the host, seen from the front end: verbs, response
//! interpretation hints, and the modules that model requests and the client.
pub mod actor;
pub mod body;
pub mod json;
pub mod raw;
pub mod send_sync_client;
pub mod timeout;

use vstd::prelude::*;

verus! {

/// How the host should interpret the body of a response.
#[derive(Debug, Clone, Copy, PartialEq, Eq, Structural, PartialOrd, Ord, Hash)]
pub enum ResponseType {
    JSON,
    Text,
    Binary,
}

impl ResponseType {
    /// The number the host knows this hint by.
    pub open spec fn spec_repr(self) -> u8 {
        match self {
            ResponseType::JSON => 1,
            ResponseType::Text => 2,
            ResponseType::Binary => 3,
        }
    }

    /// The hint with the given number, if there is one.
    pub open spec fn spec_from_repr(code: u8) -> Option<ResponseType> {
        if code == 1 {
            Some(ResponseType::JSON)
        } else if code == 2 {
            Some(ResponseType::Text)
        } else if code == 3 {
            Some(ResponseType::Binary)
        } else {
            None
        }
    }

    pub fn repr(&self) -> (code: u8)
        ensures
            code == self.spec_repr(),
            1 <= code <= 3,
    {
        match self {
            ResponseType::JSON => 1,
            ResponseType::Text => 2,
            ResponseType::Binary => 3,
        }
    }

    pub fn from_repr(code: u8) -> (hint: Option<ResponseType>)
        ensures
            hint == Self::spec_from_repr(code),
            hint.is_some() <==> 1 <= code <= 3,
            hint matches Some(h) ==> h.spec_repr() == code,
    {
        if code == 1 {
            Some(ResponseType::JSON)
        } else if code == 2 {
            Some(ResponseType::Text)
        } else if code == 3 {
            Some(ResponseType::Binary)
        } else {
            None
        }
    }

    /// Every hint, in declaration order.
    pub fn all_variants() -> (all: Vec<ResponseType>)
        ensures
            all@ == seq![ResponseType::JSON, ResponseType::Text, ResponseType::Binary],
    {
        vec![ResponseType::JSON, ResponseType::Text, ResponseType::Binary]
    }

    /// Reading back the number of a hint gives the hint.
    pub proof fn lemma_repr_round_trip(hint: ResponseType)
        ensures
            Self::spec_from_repr(hint.spec_repr()) == Some(hint),
    {
    }
}

/// The fixed set of request verbs.
#[derive(Debug, Clone, Copy, PartialEq, Eq, Structural, PartialOrd, Ord, Hash)]
pub enum HttpVerb {
    Get,
    Post,
    Put,
    Delete,
    Patch,
    Head,
    Options,
    Connect,
    Trace,
}

impl HttpVerb {
    /// The upper-case name under which the verb crosses to the host.
    pub open spec fn spec_name(self) -> Seq<char> {
        match self {
            HttpVerb::Get => "GET"@,
            HttpVerb::Post => "POST"@,
            HttpVerb::Put => "PUT"@,
            HttpVerb::Delete => "DELETE"@,
            HttpVerb::Patch => "PATCH"@,
            HttpVerb::Head => "HEAD"@,
            HttpVerb::Options => "OPTIONS"@,
            HttpVerb::Connect => "CONNECT"@,
            HttpVerb::Trace => "TRACE"@,
        }
    }

    pub fn name(&self) -> (name: &'static str)
        ensures
            name@ == self.spec_name(),
    {
        match self {
            HttpVerb::Get => "GET",
            HttpVerb::Post => "POST",
            HttpVerb::Put => "PUT",
            HttpVerb::Delete => "DELETE",
            HttpVerb::Patch => "PATCH",
            HttpVerb::Head => "HEAD",
            HttpVerb::Options => "OPTIONS",
            HttpVerb::Connect => "CONNECT",
            HttpVerb::Trace => "TRACE",
        }
    }

    /// Every verb, in declaration order.
    pub fn all_variants() -> (all: Vec<HttpVerb>)
        ensures
            all@ == seq![
                HttpVerb::Get,
                HttpVerb::Post,
                HttpVerb::Put,
                HttpVerb::Delete,
                HttpVerb::Patch,
                HttpVerb::Head,
                HttpVerb::Options,
                HttpVerb::Connect,
                HttpVerb::Trace,
            ],
    {
        vec![
            HttpVerb::Get,
            HttpVerb::Post,
            HttpVerb::Put,
            HttpVerb::Delete,
            HttpVerb::Patch,
            HttpVerb::Head,
            HttpVerb::Options,
            HttpVerb::Connect,
            HttpVerb::Trace,
        ]
    }
}

} // verus!
