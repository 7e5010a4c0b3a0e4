//! The values that cross to the host's HTTP client and come back from it:
//! timeouts, client and request options, bodies and their parts, responses,
//! and the owner of the remote client.
pub use super::body::{
    spec_form_object, spec_optional_text, spec_text_view, Body, FilePart, FilePartFile,
    FilePartFileView, FilePartView, Form, FormField, Part, PartView, RawBody, RawBodyView, RawEntry,
    RawField, RawPart, RawPartView, RawValue, RawValueView,
};
use super::{HttpVerb, ResponseType};
use crate::error::Error;
use serde_json::Value;
use std::collections::HashMap;
use vstd::prelude::*;
use vstd::string::StringExecFns;

verus! {

/// Nanoseconds in one second.
pub const NANOS_PER_SEC: u64 = 1_000_000_000;

/// A timeout in either of the two shapes the host accepts.
#[derive(Debug, Clone, Copy, PartialEq, Eq, Structural)]
pub enum ConnectTimout {
    /// A plain number of seconds, fraction included, held as the count of
    /// nanoseconds it amounts to.
    Number(u128),
    /// Whole seconds and additional nanoseconds.
    Duration { nanos: u64, secs: u64 },
}

impl ConnectTimout {
    /// The length of time that the value stands for, in nanoseconds.
    pub open spec fn spec_total_nanos(self) -> nat {
        match self {
            ConnectTimout::Number(nanos) => nanos as nat,
            ConnectTimout::Duration { nanos, secs } => (secs as nat) * 1_000_000_000 + (
            nanos as nat),
        }
    }

    /// Two timeouts mean the same when they last equally long, whatever
    /// their shapes.
    pub open spec fn spec_same_duration(self, other: ConnectTimout) -> bool {
        self.spec_total_nanos() == other.spec_total_nanos()
    }

    pub fn total_nanos(&self) -> (total: u128)
        ensures
            total as nat == self.spec_total_nanos(),
    {
        match self {
            ConnectTimout::Number(nanos) => *nanos,
            ConnectTimout::Duration { nanos, secs } => {
                let whole: u128 = *secs as u128;
                let rest: u128 = *nanos as u128;
                assert(whole * 1_000_000_000 + rest <= u128::MAX) by {
                    assert(whole <= u64::MAX);
                    assert(rest <= u64::MAX);
                    assert(whole * 1_000_000_000 <= 0xffff_ffff_ffff_ffff * 1_000_000_000)
                        by (nonlinear_arith)
                        requires
                            whole <= 0xffff_ffff_ffff_ffff,
                    ;
                }
                whole * 1_000_000_000 + rest
            },
        }
    }

    pub fn same_duration(&self, other: &ConnectTimout) -> (same: bool)
        ensures
            same == self.spec_same_duration(*other),
    {
        self.total_nanos() == other.total_nanos()
    }

    /// The one structured shape that every timeout of this length of time
    /// normalizes to: whole seconds, and fewer than a second's worth of
    /// nanoseconds. There is none where the whole seconds do not fit.
    pub open spec fn spec_normalized(self) -> Option<ConnectTimout> {
        let total = self.spec_total_nanos();
        if total / 1_000_000_000 <= u64::MAX {
            Some(
                ConnectTimout::Duration {
                    nanos: (total % 1_000_000_000) as u64,
                    secs: (total / 1_000_000_000) as u64,
                },
            )
        } else {
            None
        }
    }

    pub fn normalized(&self) -> (shape: Option<ConnectTimout>)
        ensures
            shape == self.spec_normalized(),
    {
        let total: u128 = self.total_nanos();
        let whole: u128 = total / 1_000_000_000;
        let rest: u128 = total % 1_000_000_000;
        if whole <= u64::MAX as u128 {
            Some(ConnectTimout::Duration { nanos: rest as u64, secs: whole as u64 })
        } else {
            None
        }
    }

    /// Normalizing keeps the length of time, and timeouts of one length of
    /// time normalize to the same shape.
    pub proof fn lemma_normalized_is_canonical(a: ConnectTimout, b: ConnectTimout)
        ensures
            a.spec_normalized() matches Some(shape) ==> shape.spec_same_duration(a) && (
            shape matches ConnectTimout::Duration { nanos, secs } && nanos < NANOS_PER_SEC),
            a.spec_same_duration(b) ==> a.spec_normalized() == b.spec_normalized(),
            a.spec_normalized().is_some() && a.spec_normalized() == b.spec_normalized()
                ==> a.spec_same_duration(b),
    {
        let total = a.spec_total_nanos();
        assert((total / 1_000_000_000) * 1_000_000_000 + total % 1_000_000_000 == total)
            by (nonlinear_arith);
        let other = b.spec_total_nanos();
        assert((other / 1_000_000_000) * 1_000_000_000 + other % 1_000_000_000 == other)
            by (nonlinear_arith);
    }

    /// Both shapes of one length of time are the same timeout.
    pub proof fn lemma_shapes_agree(secs: u64, nanos: u64, number: u128)
        requires
            number as nat == (secs as nat) * 1_000_000_000 + (nanos as nat),
        ensures
            (ConnectTimout::Duration { nanos, secs }).spec_same_duration(
                ConnectTimout::Number(number),
            ),
            ConnectTimout::Number(number).spec_same_duration(
                (ConnectTimout::Duration { nanos, secs }),
            ),
    {
    }

    /// Meaning the same is reflexive, symmetric and transitive.
    pub proof fn lemma_same_duration_is_equivalence(
        a: ConnectTimout,
        b: ConnectTimout,
        c: ConnectTimout,
    )
        ensures
            a.spec_same_duration(a),
            a.spec_same_duration(b) ==> b.spec_same_duration(a),
            a.spec_same_duration(b) && b.spec_same_duration(c) ==> a.spec_same_duration(c),
    {
    }
}

impl From<(u64, u64)> for ConnectTimout {
    fn from(value: (u64, u64)) -> (timeout: ConnectTimout)
    {
        ConnectTimout::Duration { nanos: value.1, secs: value.0 }
    }
}

impl vstd::std_specs::convert::FromSpecImpl<(u64, u64)> for ConnectTimout {
    open spec fn obeys_from_spec() -> bool {
        true
    }

    open spec fn from_spec(value: (u64, u64)) -> ConnectTimout {
        ConnectTimout::Duration { nanos: value.1, secs: value.0 }
    }
}

/// What a remote client is created with. Fixed once the client exists.
#[derive(Debug, Clone, Copy, PartialEq, Eq, Structural)]
pub struct ClientsOptions {
    pub max_redirection: Option<u32>,
    pub connect_timout: Option<ConnectTimout>,
}

impl Default for ClientsOptions {
    fn default() -> (options: ClientsOptions)
        ensures
            options.max_redirection.is_none(),
            options.connect_timout.is_none(),
    {
        ClientsOptions { max_redirection: None, connect_timout: None }
    }
}

/// Whether a status code reports success.
pub open spec fn spec_is_success(status: u16) -> bool {
    200 <= status <= 299
}

pub fn is_success(status: u16) -> (ok: bool)
    ensures
        ok == spec_is_success(status),
        ok <==> 200 <= status <= 299,
{
    200 <= status && status <= 299
}

/// What the host reports of a finished request, before any of it is checked.
pub struct RawResponse {
    pub data: Value,
    pub headers: HashMap<String, String>,
    pub ok: bool,
    pub raw_headers: HashMap<String, Vec<String>>,
    /// The status as the host's number, which need not be a status code.
    pub status: i64,
    pub url: String,
}

/// A finished request: the payload, the headers in both of their forms, the
/// status and the address that answered.
#[derive(Debug, Clone)]
pub struct Response<T> {
    pub data: T,
    /// For each header name, the last of its values.
    pub headers: HashMap<String, String>,
    pub ok: bool,
    /// For each header name, all of its values in their order.
    pub raw_headers: HashMap<String, Vec<String>>,
    pub status: u16,
    pub url: String,
}

impl<T> Response<T> {
    /// `ok` says exactly that the status lies between 200 and 299.
    pub open spec fn well_formed(self) -> bool {
        self.ok == spec_is_success(self.status)
    }

    pub fn new(
        data: T,
        headers: HashMap<String, String>,
        raw_headers: HashMap<String, Vec<String>>,
        status: u16,
        url: String,
    ) -> (response: Response<T>)
        ensures
            response.well_formed(),
            response.ok <==> 200 <= status <= 299,
            response.data == data,
            response.headers == headers,
            response.raw_headers == raw_headers,
            response.status == status,
            response.url == url,
    {
        Response { data, headers, ok: is_success(status), raw_headers, status, url }
    }

    /// The same response around another payload.
    pub fn with_data<U>(self, data: U) -> (response: Response<U>)
        ensures
            response.data == data,
            response.headers == self.headers,
            response.ok == self.ok,
            response.raw_headers == self.raw_headers,
            response.status == self.status,
            response.url == self.url,
            self.well_formed() ==> response.well_formed(),
    {
        Response {
            data,
            headers: self.headers,
            ok: self.ok,
            raw_headers: self.raw_headers,
            status: self.status,
            url: self.url,
        }
    }

    /// For every status from 100 to 599, a well-formed response is `ok`
    /// exactly when its status is one of 200 to 299.
    pub proof fn lemma_ok_iff_success(response: Response<T>)
        requires
            response.well_formed(),
            100 <= response.status <= 599,
        ensures
            response.ok <==> 200 <= response.status <= 299,
    {
    }
}

impl Response<Value> {
    /// Whether the host's status number is a status code at all.
    pub open spec fn spec_status_fits(status: i64) -> bool {
        0 <= status <= 65535
    }

    /// Checks what the host reported. The status must be a 16-bit code, else
    /// the report is refused as of an invalid type; `ok` is decided by the
    /// status alone, whatever the host said.
    pub fn parse_response(resp: RawResponse) -> (parsed: Result<Response<Value>, Error>)
        ensures
            parsed.is_ok() <==> Self::spec_status_fits(resp.status),
            parsed matches Ok(response) ==> {
                &&& response.well_formed()
                &&& response.status as int == resp.status
                &&& response.data == resp.data
                &&& response.headers == resp.headers
                &&& response.raw_headers == resp.raw_headers
                &&& response.url == resp.url
            },
            parsed matches Err(error) ==> {
                &&& error matches Error::InvalidType(expected)
                &&& expected@ == "u16"@
            },
    {
        if resp.status < 0 || resp.status > 65535 {
            return Err(Error::InvalidType(String::from_str("u16")));
        }
        let status: u16 = resp.status as u16;
        Ok(Response::new(resp.data, resp.headers, resp.raw_headers, status, resp.url))
    }
}

/// A whole request: the verb, the address and everything that goes with
/// them.
#[derive(Debug, Clone)]
pub struct HttpOptions {
    pub body: Option<Body>,
    pub headers: HashMap<String, String>,
    pub method: HttpVerb,
    pub query: HashMap<String, String>,
    pub response_type: Option<ResponseType>,
    pub timeout: Option<ConnectTimout>,
    pub url: String,
}

/// A request whose address is given beside it.
#[derive(Debug, Clone)]
pub struct FetchOptions {
    pub body: Option<Body>,
    pub headers: HashMap<String, String>,
    pub method: HttpVerb,
    pub query: HashMap<String, String>,
    pub response_type: Option<ResponseType>,
    pub timeout: Option<ConnectTimout>,
}

/// A request whose verb and address are given beside it.
#[derive(Debug, Clone)]
pub struct RequestOptions {
    pub body: Option<Body>,
    pub headers: HashMap<String, String>,
    pub query: HashMap<String, String>,
    pub response_type: Option<ResponseType>,
    pub timeout: Option<ConnectTimout>,
}

impl Default for RequestOptions {
    fn default() -> (options: RequestOptions)
        ensures
            options.body.is_none(),
            options.headers@ == Map::<String, String>::empty(),
            options.query@ == Map::<String, String>::empty(),
            options.response_type.is_none(),
            options.timeout.is_none(),
    {
        RequestOptions {
            body: None,
            headers: HashMap::new(),
            query: HashMap::new(),
            response_type: None,
            timeout: None,
        }
    }
}

impl HttpOptions {
    /// The request that `options` describe for the given verb and address.
    pub open spec fn spec_with(method: HttpVerb, url: String, options: RequestOptions)
        -> HttpOptions {
        HttpOptions {
            body: options.body,
            headers: options.headers,
            method,
            query: options.query,
            response_type: options.response_type,
            timeout: options.timeout,
            url,
        }
    }

    /// The same, for a verb that sends the body given beside the options and
    /// not the one inside them.
    pub open spec fn spec_with_body(
        method: HttpVerb,
        url: String,
        body: Body,
        options: RequestOptions,
    ) -> HttpOptions {
        HttpOptions {
            body: Some(body),
            headers: options.headers,
            method,
            query: options.query,
            response_type: options.response_type,
            timeout: options.timeout,
            url,
        }
    }

    /// The options that go beside the address to the operation of a verb
    /// that sends no body of its own: all of the request's but verb and
    /// address.
    pub open spec fn spec_request_options(self) -> RequestOptions {
        RequestOptions {
            body: self.body,
            headers: self.headers,
            query: self.query,
            response_type: self.response_type,
            timeout: self.timeout,
        }
    }

    /// The options that go beside address and body to the operation of a
    /// verb that sends a body: the same without the body.
    pub open spec fn spec_options_beside_body(self) -> RequestOptions {
        RequestOptions {
            body: None,
            headers: self.headers,
            query: self.query,
            response_type: self.response_type,
            timeout: self.timeout,
        }
    }

    /// The request that fetch options describe for the given address.
    pub open spec fn spec_from_fetch(url: String, options: FetchOptions) -> HttpOptions {
        HttpOptions {
            body: options.body,
            headers: options.headers,
            method: options.method,
            query: options.query,
            response_type: options.response_type,
            timeout: options.timeout,
            url,
        }
    }

    fn with(method: HttpVerb, url: String, options: RequestOptions) -> (request: HttpOptions)
        ensures
            request == Self::spec_with(method, url, options),
    {
        HttpOptions {
            body: options.body,
            headers: options.headers,
            method,
            query: options.query,
            response_type: options.response_type,
            timeout: options.timeout,
            url,
        }
    }

    fn with_body(method: HttpVerb, url: String, body: Body, options: RequestOptions) -> (request:
        HttpOptions)
        ensures
            request == Self::spec_with_body(method, url, body, options),
    {
        HttpOptions {
            body: Some(body),
            headers: options.headers,
            method,
            query: options.query,
            response_type: options.response_type,
            timeout: options.timeout,
            url,
        }
    }

    pub fn get(url: String, options: RequestOptions) -> (request: HttpOptions)
        ensures
            request == Self::spec_with(HttpVerb::Get, url, options),
    {
        Self::with(HttpVerb::Get, url, options)
    }

    pub fn delete(url: String, options: RequestOptions) -> (request: HttpOptions)
        ensures
            request == Self::spec_with(HttpVerb::Delete, url, options),
    {
        Self::with(HttpVerb::Delete, url, options)
    }

    pub fn patch(url: String, options: RequestOptions) -> (request: HttpOptions)
        ensures
            request == Self::spec_with(HttpVerb::Patch, url, options),
    {
        Self::with(HttpVerb::Patch, url, options)
    }

    pub fn post(url: String, body: Body, options: RequestOptions) -> (request: HttpOptions)
        ensures
            request == Self::spec_with_body(HttpVerb::Post, url, body, options),
    {
        Self::with_body(HttpVerb::Post, url, body, options)
    }

    pub fn put(url: String, body: Body, options: RequestOptions) -> (request: HttpOptions)
        ensures
            request == Self::spec_with_body(HttpVerb::Put, url, body, options),
    {
        Self::with_body(HttpVerb::Put, url, body, options)
    }

    pub fn fetch(url: String, options: FetchOptions) -> (request: HttpOptions)
        ensures
            request == Self::spec_from_fetch(url, options),
    {
        HttpOptions {
            body: options.body,
            headers: options.headers,
            method: options.method,
            query: options.query,
            response_type: options.response_type,
            timeout: options.timeout,
            url,
        }
    }
}

/// The properties of a request as they go to the host. What is absent is
/// left out, but for the body, which then goes as `undefined`.
#[derive(Debug, Clone)]
pub struct WireOptions {
    pub body: Option<RawBody>,
    /// The headers, unless there are none.
    pub headers: Option<HashMap<String, String>>,
    /// The verb by its name, where the options hold one.
    pub method: Option<&'static str>,
    /// The query parameters, unless there are none.
    pub query: Option<HashMap<String, String>>,
    /// The response type by its number.
    pub response_type: Option<u8>,
    pub timeout: Option<ConnectTimout>,
    /// The address, where the options hold one that is not empty.
    pub url: Option<String>,
}

/// The map, unless it is empty.
pub open spec fn spec_unless_empty(map: HashMap<String, String>) -> Option<
    HashMap<String, String>,
> {
    if map@.is_empty() {
        None
    } else {
        Some(map)
    }
}

/// Whether `wire` is the body as the host takes it.
pub open spec fn spec_is_wire_body(body: Option<Body>, wire: Option<RawBody>) -> bool {
    match body {
        Some(body) => wire matches Some(raw) && raw@ == body.spec_into_raw(),
        None => wire.is_none(),
    }
}

/// The number of the response type, where there is one.
pub open spec fn spec_wire_response_type(hint: Option<ResponseType>) -> Option<u8> {
    match hint {
        Some(hint) => Some(hint.spec_repr()),
        None => None,
    }
}

impl WireOptions {
    /// Whether these are the properties for the given options, leaving
    /// verb and address aside.
    pub open spec fn spec_carries(
        self,
        body: Option<Body>,
        headers: HashMap<String, String>,
        query: HashMap<String, String>,
        response_type: Option<ResponseType>,
        timeout: Option<ConnectTimout>,
    ) -> bool {
        &&& spec_is_wire_body(body, self.body)
        &&& self.headers == spec_unless_empty(headers)
        &&& self.query == spec_unless_empty(query)
        &&& self.response_type == spec_wire_response_type(response_type)
        &&& self.timeout == timeout
    }

    fn carrying(
        body: Option<Body>,
        headers: HashMap<String, String>,
        query: HashMap<String, String>,
        response_type: Option<ResponseType>,
        timeout: Option<ConnectTimout>,
    ) -> (wire: WireOptions)
        ensures
            wire.spec_carries(body, headers, query, response_type, timeout),
            wire.method.is_none(),
            wire.url.is_none(),
    {
        WireOptions {
            body: match &body {
                Some(body) => Some(body.into_raw()),
                None => None,
            },
            headers: if headers.is_empty() {
                None
            } else {
                Some(headers)
            },
            method: None,
            query: if query.is_empty() {
                None
            } else {
                Some(query)
            },
            response_type: match response_type {
                Some(hint) => Some(hint.repr()),
                None => None,
            },
            timeout,
            url: None,
        }
    }
}

impl RequestOptions {
    /// These options as they go to the host: without verb and address,
    /// which go beside them.
    pub fn into_wire(self) -> (wire: WireOptions)
        ensures
            wire.spec_carries(
                self.body,
                self.headers,
                self.query,
                self.response_type,
                self.timeout,
            ),
            wire.method.is_none(),
            wire.url.is_none(),
    {
        WireOptions::carrying(
            self.body,
            self.headers,
            self.query,
            self.response_type,
            self.timeout,
        )
    }
}

impl FetchOptions {
    /// These options as they go to the host: with the verb, and without
    /// the address, which goes beside them.
    pub fn into_wire(self) -> (wire: WireOptions)
        ensures
            wire.spec_carries(
                self.body,
                self.headers,
                self.query,
                self.response_type,
                self.timeout,
            ),
            wire.method matches Some(name) && name@ == self.method.spec_name(),
            wire.url.is_none(),
    {
        let mut wire = WireOptions::carrying(
            self.body,
            self.headers,
            self.query,
            self.response_type,
            self.timeout,
        );
        wire.method = Some(self.method.name());
        wire
    }
}

impl HttpOptions {
    /// This request as it goes to the host: with the verb, and with the
    /// address unless that is empty.
    pub fn into_wire(self) -> (wire: WireOptions)
        ensures
            wire.spec_carries(
                self.body,
                self.headers,
                self.query,
                self.response_type,
                self.timeout,
            ),
            wire.method matches Some(name) && name@ == self.method.spec_name(),
            wire.url == (if self.url@.len() == 0 {
                None
            } else {
                Some(self.url)
            }),
    {
        let mut wire = WireOptions::carrying(
            self.body,
            self.headers,
            self.query,
            self.response_type,
            self.timeout,
        );
        wire.method = Some(self.method.name());
        if !self.url.as_str().is_empty() {
            wire.url = Some(self.url);
        }
        wire
    }
}

/// The remote client, known by the number the host gave it, if the host gave
/// it one that is a number.
#[derive(Debug, Clone, Copy, PartialEq, Eq, Structural)]
pub struct RawClient {
    pub id: Option<u64>,
}

/// One call on the remote client, ready to be made.
#[derive(Debug, Clone)]
pub enum RemoteCall {
    Delete { client: RawClient, url: String, options: RequestOptions },
    Get { client: RawClient, url: String, options: RequestOptions },
    Patch { client: RawClient, url: String, options: RequestOptions },
    Post { client: RawClient, url: String, body: RawBody, options: RequestOptions },
    Put { client: RawClient, url: String, body: RawBody, options: RequestOptions },
    Request { client: RawClient, request: HttpOptions },
}

/// The owner of the remote client: it holds the client until the one
/// release, and nothing after it.
#[derive(Debug)]
pub struct RawClientWrapper {
    pub inner: Option<RawClient>,
}

impl RawClientWrapper {
    /// Whether the remote client is still held.
    pub open spec fn spec_holds(self) -> bool {
        self.inner.is_some()
    }

    pub fn id(&self) -> (id: Option<u64>)
        ensures
            id == match self.inner {
                Some(client) => client.id,
                None => None,
            },
    {
        match &self.inner {
            Some(client) => client.id,
            None => None,
        }
    }

    pub fn inner(&self) -> (client: Result<&RawClient, Error>)
        ensures
            client == match self.inner {
                Some(held) => Ok::<&RawClient, Error>(&held),
                None => Err(Error::RawClientWrapperInnerEmpty),
            },
    {
        match &self.inner {
            Some(client) => Ok(client),
            None => Err(Error::RawClientWrapperInnerEmpty),
        }
    }

    pub fn raw_delete(&self, url: &str, option: RequestOptions) -> (call: Result<RemoteCall, Error>)
        ensures
            match self.inner {
                Some(held) => call matches Ok(RemoteCall::Delete { client, url: to, options })
                    && client == held && to@ == url@ && options == option,
                None => call == Err::<RemoteCall, Error>(Error::RawClientWrapperInnerEmpty),
            },
    {
        let client = *self.inner()?;
        Ok(RemoteCall::Delete { client, url: String::from_str(url), options: option })
    }

    pub fn raw_get(&self, url: &str, option: RequestOptions) -> (call: Result<RemoteCall, Error>)
        ensures
            match self.inner {
                Some(held) => call matches Ok(RemoteCall::Get { client, url: to, options })
                    && client == held && to@ == url@ && options == option,
                None => call == Err::<RemoteCall, Error>(Error::RawClientWrapperInnerEmpty),
            },
    {
        let client = *self.inner()?;
        Ok(RemoteCall::Get { client, url: String::from_str(url), options: option })
    }

    pub fn raw_patch(&self, url: &str, option: RequestOptions) -> (call: Result<RemoteCall, Error>)
        ensures
            match self.inner {
                Some(held) => call matches Ok(RemoteCall::Patch { client, url: to, options })
                    && client == held && to@ == url@ && options == option,
                None => call == Err::<RemoteCall, Error>(Error::RawClientWrapperInnerEmpty),
            },
    {
        let client = *self.inner()?;
        Ok(RemoteCall::Patch { client, url: String::from_str(url), options: option })
    }

    pub fn raw_post(&self, url: &str, body: RawBody, option: RequestOptions) -> (call: Result<
        RemoteCall,
        Error,
    >)
        ensures
            match self.inner {
                Some(held) => call matches Ok(
                    RemoteCall::Post { client, url: to, body: sent, options },
                ) && client == held && to@ == url@ && sent == body && options == option,
                None => call == Err::<RemoteCall, Error>(Error::RawClientWrapperInnerEmpty),
            },
    {
        let client = *self.inner()?;
        Ok(RemoteCall::Post { client, url: String::from_str(url), body, options: option })
    }

    pub fn raw_put(&self, url: &str, body: RawBody, option: RequestOptions) -> (call: Result<
        RemoteCall,
        Error,
    >)
        ensures
            match self.inner {
                Some(held) => call matches Ok(
                    RemoteCall::Put { client, url: to, body: sent, options },
                ) && client == held && to@ == url@ && sent == body && options == option,
                None => call == Err::<RemoteCall, Error>(Error::RawClientWrapperInnerEmpty),
            },
    {
        let client = *self.inner()?;
        Ok(RemoteCall::Put { client, url: String::from_str(url), body, options: option })
    }

    /// The generic request: refused for an empty address before anything
    /// else is looked at, so that no call is made for it; refused when the
    /// client is gone; else the call to make.
    pub fn raw_request(&self, option: HttpOptions) -> (call: Result<RemoteCall, Error>)
        ensures
            option.url@.len() == 0 ==> (call matches Err(Error::Tauri(message)) && message@
                == "Invalid url: an empty url was given"@),
            option.url@.len() != 0 ==> call == match self.inner {
                Some(client) => Ok::<RemoteCall, Error>(
                    RemoteCall::Request { client, request: option },
                ),
                None => Err(Error::RawClientWrapperInnerEmpty),
            },
            call.is_ok() <==> option.url@.len() != 0 && self.spec_holds(),
    {
        if option.url.as_str().is_empty() {
            return Err(Error::tauri(String::from_str("Invalid url: an empty url was given")));
        }
        let client = *self.inner()?;
        Ok(RemoteCall::Request { client, request: option })
    }

    /// Whether the request goes to the host's generic operation: its verb
    /// has no operation of its own, or has one that needs a body and the
    /// request has none.
    pub open spec fn spec_is_generic(req: HttpOptions) -> bool {
        match req.method {
            HttpVerb::Get | HttpVerb::Delete | HttpVerb::Patch => false,
            HttpVerb::Post | HttpVerb::Put => req.body.is_none(),
            _ => true,
        }
    }

    /// Whether `call` is the call on the held client that the request asks
    /// for. GET, DELETE and PATCH have the operation of their verb, with
    /// the address and the request's options beside it. POST and PUT have
    /// theirs with the request's body as the host takes it, and the other
    /// options beside it. Every other request goes to the generic
    /// operation whole.
    pub open spec fn spec_is_call_for(held: RawClient, req: HttpOptions, call: RemoteCall) -> bool {
        if Self::spec_is_generic(req) {
            call == (RemoteCall::Request { client: held, request: req })
        } else {
            match req.method {
                HttpVerb::Get => call == (RemoteCall::Get {
                    client: held,
                    url: req.url,
                    options: req.spec_request_options(),
                }),
                HttpVerb::Delete => call == (RemoteCall::Delete {
                    client: held,
                    url: req.url,
                    options: req.spec_request_options(),
                }),
                HttpVerb::Patch => call == (RemoteCall::Patch {
                    client: held,
                    url: req.url,
                    options: req.spec_request_options(),
                }),
                HttpVerb::Post => match (call, req.body) {
                    (RemoteCall::Post { client, url, body, options }, Some(sent)) => {
                        &&& client == held
                        &&& url == req.url
                        &&& body@ == sent.spec_into_raw()
                        &&& options == req.spec_options_beside_body()
                    },
                    _ => false,
                },
                HttpVerb::Put => match (call, req.body) {
                    (RemoteCall::Put { client, url, body, options }, Some(sent)) => {
                        &&& client == held
                        &&& url == req.url
                        &&& body@ == sent.spec_into_raw()
                        &&& options == req.spec_options_beside_body()
                    },
                    _ => false,
                },
                _ => false,
            }
        }
    }

    /// A request that `get`, `delete` or `patch` builds is answered by the
    /// host's operation of that verb and by no other call, with exactly
    /// the address and the options that it was built from.
    pub proof fn lemma_convenience_request_keeps_its_verb(
        held: RawClient,
        url: String,
        options: RequestOptions,
        call: RemoteCall,
    )
        ensures
            Self::spec_is_call_for(held, HttpOptions::spec_with(HttpVerb::Get, url, options), call)
                <==> call == (RemoteCall::Get { client: held, url, options }),
            Self::spec_is_call_for(
                held,
                HttpOptions::spec_with(HttpVerb::Delete, url, options),
                call,
            ) <==> call == (RemoteCall::Delete { client: held, url, options }),
            Self::spec_is_call_for(
                held,
                HttpOptions::spec_with(HttpVerb::Patch, url, options),
                call,
            ) <==> call == (RemoteCall::Patch { client: held, url, options }),
    {
    }

    /// A request that `post` or `put` builds is answered by the host's
    /// operation of that verb and by no other call, with the address, the
    /// body as the host takes it, and the options it was built from but
    /// for their own body.
    pub proof fn lemma_body_request_keeps_its_verb(
        held: RawClient,
        url: String,
        body: Body,
        options: RequestOptions,
        call: RemoteCall,
    )
        ensures
            Self::spec_is_call_for(
                held,
                HttpOptions::spec_with_body(HttpVerb::Post, url, body, options),
                call,
            ) <==> (call matches RemoteCall::Post { client, url: to, body: sent, options: beside }
                && client == held && to == url && sent@ == body.spec_into_raw() && beside
                == HttpOptions::spec_with_body(
                HttpVerb::Post,
                url,
                body,
                options,
            ).spec_options_beside_body()),
            Self::spec_is_call_for(
                held,
                HttpOptions::spec_with_body(HttpVerb::Put, url, body, options),
                call,
            ) <==> (call matches RemoteCall::Put { client, url: to, body: sent, options: beside }
                && client == held && to == url && sent@ == body.spec_into_raw() && beside
                == HttpOptions::spec_with_body(
                HttpVerb::Put,
                url,
                body,
                options,
            ).spec_options_beside_body()),
    {
    }

    /// Plans the call for a request by its verb. A request for the generic
    /// operation is refused for an empty address as
    /// [`RawClientWrapper::raw_request`] refuses it, before anything else
    /// is looked at; every other request needs the client to be held, and
    /// is then the call that [`RawClientWrapper::spec_is_call_for`]
    /// describes.
    pub fn dispatch(&self, req: HttpOptions) -> (call: Result<RemoteCall, Error>)
        ensures
            Self::spec_is_generic(req) && req.url@.len() == 0 ==> (call matches Err(
                Error::Tauri(message),
            ) && message@ == "Invalid url: an empty url was given"@),
            !(Self::spec_is_generic(req) && req.url@.len() == 0) ==> match self.inner {
                Some(held) => call matches Ok(planned) && Self::spec_is_call_for(
                    held,
                    req,
                    planned,
                ),
                None => call == Err::<RemoteCall, Error>(Error::RawClientWrapperInnerEmpty),
            },
    {
        let generic = match req.method {
            HttpVerb::Get => false,
            HttpVerb::Delete => false,
            HttpVerb::Patch => false,
            HttpVerb::Post => req.body.is_none(),
            HttpVerb::Put => req.body.is_none(),
            _ => true,
        };
        if generic {
            return self.raw_request(req);
        }
        let client = *self.inner()?;
        let HttpOptions { body, headers, method, query, response_type, timeout, url } = req;
        match method {
            HttpVerb::Get => Ok(
                RemoteCall::Get {
                    client,
                    url,
                    options: RequestOptions { body, headers, query, response_type, timeout },
                },
            ),
            HttpVerb::Delete => Ok(
                RemoteCall::Delete {
                    client,
                    url,
                    options: RequestOptions { body, headers, query, response_type, timeout },
                },
            ),
            HttpVerb::Patch => Ok(
                RemoteCall::Patch {
                    client,
                    url,
                    options: RequestOptions { body, headers, query, response_type, timeout },
                },
            ),
            HttpVerb::Post => match body {
                Some(sent) => Ok(
                    RemoteCall::Post {
                        client,
                        url,
                        body: sent.into_raw(),
                        options: RequestOptions {
                            body: None,
                            headers,
                            query,
                            response_type,
                            timeout,
                        },
                    },
                ),
                None => Err(Error::RawClientWrapperInnerEmpty),
            },
            HttpVerb::Put => match body {
                Some(sent) => Ok(
                    RemoteCall::Put {
                        client,
                        url,
                        body: sent.into_raw(),
                        options: RequestOptions {
                            body: None,
                            headers,
                            query,
                            response_type,
                            timeout,
                        },
                    },
                ),
                None => Err(Error::RawClientWrapperInnerEmpty),
            },
            _ => Err(Error::RawClientWrapperInnerEmpty),
        }
    }

    /// Gives the remote client up for its release. Only the first call
    /// hands a client out; the wrapper holds none afterwards.
    pub fn release(&mut self) -> (released: Option<RawClient>)
        ensures
            released == old(self).inner,
            final(self).inner.is_none(),
    {
        self.inner.take()
    }
}

impl From<RawClient> for RawClientWrapper {
    fn from(value: RawClient) -> (wrapper: RawClientWrapper)
    {
        RawClientWrapper { inner: Some(value) }
    }
}

impl vstd::std_specs::convert::FromSpecImpl<RawClient> for RawClientWrapper {
    open spec fn obeys_from_spec() -> bool {
        true
    }

    open spec fn from_spec(value: RawClient) -> RawClientWrapper {
        RawClientWrapper { inner: Some(value) }
    }
}

} // verus!
