//! The client handle that any caller may hold, clone and use: it only
//! enqueues envelopes for the actor that owns the remote client, and reads
//! each answer from the envelope's own one-shot channel.
use super::actor::Actor;
use super::raw::{
    Body, ClientsOptions, FetchOptions, HttpOptions, RawClientWrapper, RawResponse, RemoteCall,
    RequestOptions, Response,
};
use crate::error::Error;
use crate::outside::{
    json_debug_text, json_error_text, oneshot_channel, oneshot_send, oneshot_try_recv,
    send_error_text, sender_is_closed, spec_json_debug_text, spec_json_error_text,
    spec_send_error_text, unbounded_channel, unbounded_send,
};
use futures::channel::mpsc::{SendError, UnboundedSender};
use futures::channel::oneshot::{Canceled, Receiver, Sender};
use serde_json::Value;
use vstd::prelude::*;
use vstd::string::StringExecFns;

verus! {

/// Every way in which a request through the handle can fail.
#[derive(Debug)]
pub enum HttpError {
    /// The host, or the library on its behalf, refused with a plain message.
    Tauri(String),
    /// The host failed with an error of its runtime.
    Js(String),
    /// The envelope was dropped unanswered.
    Canceled,
    /// The payload is not of the type that the caller asked for.
    Json(serde_json::Error),
    /// The queue takes no more envelopes.
    MPSCSendError(SendError),
    /// The host refused with a structured value, kept as it came.
    Other(Value),
}

/// What the answer to one request is, and what the envelope delivers.
pub type Answer = Result<Response<Value>, HttpError>;

/// The end on which the answer to an enqueued request arrives, or why the
/// request was not enqueued.
pub type Pending = Result<Receiver<Answer>, HttpError>;

impl HttpError {
    /// Whether `error` is what the given failure of the host becomes for a
    /// caller of the handle.
    pub open spec fn spec_is_from(value: Error, error: HttpError) -> bool {
        match value {
            Error::Tauri(message) => error == HttpError::Tauri(message),
            Error::Invoke { payload: Some(json), debug } => error == HttpError::Other(json),
            Error::Invoke { payload: None, debug } => error matches HttpError::Js(text) && text@
                == "Cannot parse the underlying js error"@,
            _ => error matches HttpError::Js(text) && text@ == value.spec_message(),
        }
    }

    /// Whether two failures are the same: of one kind, and with the same
    /// words or the same value inside.
    pub open spec fn spec_same_failure(self, other: HttpError) -> bool {
        match (self, other) {
            (HttpError::Tauri(a), HttpError::Tauri(b)) => a@ == b@,
            (HttpError::Js(a), HttpError::Js(b)) => a@ == b@,
            (HttpError::Canceled, HttpError::Canceled) => true,
            (HttpError::Json(a), HttpError::Json(b)) => a == b,
            (HttpError::MPSCSendError(a), HttpError::MPSCSendError(b)) => a == b,
            (HttpError::Other(a), HttpError::Other(b)) => a == b,
            _ => false,
        }
    }

    /// Whether this is the failure of an enqueue on a queue whose receiving
    /// end is gone: the send error that says so of itself.
    pub open spec fn spec_is_receiver_gone(self) -> bool {
        self matches HttpError::MPSCSendError(error) && spec_send_error_text(error)
            == "send failed because receiver is gone"@
    }

    /// The text that describes this error to a reader. A decoding failure,
    /// a queue failure and a structured value are described in the words of
    /// their own crates.
    pub open spec fn spec_message(self) -> Seq<char> {
        match self {
            HttpError::Tauri(message) => "Tauri error : "@ + message@,
            HttpError::Js(message) => "Js error : "@ + message@,
            HttpError::Canceled => "the oneshot response has been canceled canceled"@,
            HttpError::Json(error) => "Json error "@ + spec_json_error_text(error),
            HttpError::MPSCSendError(error) => spec_send_error_text(error),
            HttpError::Other(value) => spec_json_debug_text(value),
        }
    }

    pub fn message(&self) -> (text: String)
        ensures
            text@ == self.spec_message(),
    {
        match self {
            HttpError::Tauri(message) => String::from_str("Tauri error : ").concat(
                message.as_str(),
            ),
            HttpError::Js(message) => String::from_str("Js error : ").concat(message.as_str()),
            HttpError::Canceled => String::from_str(
                "the oneshot response has been canceled canceled",
            ),
            HttpError::Json(error) => {
                let rest = json_error_text(error);
                String::from_str("Json error ").concat(rest.as_str())
            },
            HttpError::MPSCSendError(error) => send_error_text(error),
            HttpError::Other(value) => json_debug_text(value),
        }
    }
}

impl From<Canceled> for HttpError {
    fn from(value: Canceled) -> (error: HttpError)
    {
        HttpError::Canceled
    }
}

impl vstd::std_specs::convert::FromSpecImpl<Canceled> for HttpError {
    open spec fn obeys_from_spec() -> bool {
        true
    }

    open spec fn from_spec(value: Canceled) -> HttpError {
        HttpError::Canceled
    }
}

impl From<serde_json::Error> for HttpError {
    fn from(value: serde_json::Error) -> (error: HttpError)
    {
        HttpError::Json(value)
    }
}

impl vstd::std_specs::convert::FromSpecImpl<serde_json::Error> for HttpError {
    open spec fn obeys_from_spec() -> bool {
        true
    }

    open spec fn from_spec(value: serde_json::Error) -> HttpError {
        HttpError::Json(value)
    }
}

impl From<SendError> for HttpError {
    fn from(value: SendError) -> (error: HttpError)
    {
        HttpError::MPSCSendError(value)
    }
}

impl vstd::std_specs::convert::FromSpecImpl<SendError> for HttpError {
    open spec fn obeys_from_spec() -> bool {
        true
    }

    open spec fn from_spec(value: SendError) -> HttpError {
        HttpError::MPSCSendError(value)
    }
}

impl From<Error> for HttpError {
    /// A plain message stays one; a rejected invocation keeps its value
    /// where that could be read as JSON, and is a fixed message where not;
    /// every other failure is its own description. The texts are new, which
    /// no spec function can name, so the contract stands here and not in
    /// `from_spec`.
    fn from(value: Error) -> (error: HttpError)
        ensures
            HttpError::spec_is_from(value, error),
    {
        match value {
            Error::Tauri(message) => HttpError::Tauri(message),
            Error::Invoke { payload: Some(json), debug } => HttpError::Other(json),
            Error::Invoke { payload: None, debug } => HttpError::Js(
                String::from_str("Cannot parse the underlying js error"),
            ),
            other => HttpError::Js(other.message()),
        }
    }
}

impl vstd::std_specs::convert::FromSpecImpl<Error> for HttpError {
    open spec fn obeys_from_spec() -> bool {
        false
    }

    open spec fn from_spec(value: Error) -> HttpError {
        arbitrary()
    }
}

/// One request together with the channel on which its answer goes back.
pub struct Request {
    pub req: HttpOptions,
    pub tx: Sender<Answer>,
}

/// The envelope for a request, and the end on which its answer arrives.
pub fn make_request(req: HttpOptions) -> (made: (Request, Receiver<Answer>))
    ensures
        made.0.req == req,
{
    let (tx, rx) = oneshot_channel::<Answer>();
    (Request { req, tx }, rx)
}

/// What a send on an envelope's channel left undelivered: nothing where
/// the answer was taken, and the answer that came back where nobody waits
/// for it any more.
pub fn undelivered(sent: Result<(), Answer>) -> (left: Option<Answer>)
    ensures
        left == match sent {
            Ok(_) => None,
            Err(returned) => Some(returned),
        },
{
    match sent {
        Ok(()) => None,
        Err(returned) => Some(returned),
    }
}

/// Sends the answer to whoever waits for it. A caller that has stopped
/// waiting is no failure: the answer comes back undelivered and goes
/// nowhere else. Whether somebody still waits is the other half's to
/// decide; [`undelivered`] says what is handed back either way.
pub fn respond(tx: Sender<Answer>, answer: Answer) -> (undelivered: Option<Answer>)
    ensures
        undelivered matches Some(returned) ==> returned == answer,
{
    undelivered(oneshot_send(tx, answer))
}

impl Request {
    /// Answers this envelope: see [`respond`].
    pub fn respond(self, answer: Answer) -> (undelivered: Option<Answer>)
        ensures
            undelivered matches Some(returned) ==> returned == answer,
    {
        respond(self.tx, answer)
    }
}

/// What a request's own subtask does before it contacts the host: the call
/// to make, chosen by the verb, or the answer that needs no call. A
/// request made by `get`, `delete` or `patch` has the host's operation of
/// that verb performed, one made by `post` or `put` that of its verb with
/// its body, and any other the generic operation. On the generic
/// operation an empty address is answered at once and the host is not
/// contacted.
pub fn start_request(client: &RawClientWrapper, req: HttpOptions) -> (begun: Result<
    RemoteCall,
    HttpError,
>)
    ensures
        RawClientWrapper::spec_is_generic(req) && req.url@.len() == 0 ==> (begun matches Err(
            HttpError::Tauri(message),
        ) && message@ == "Invalid url: an empty url was given"@),
        !(RawClientWrapper::spec_is_generic(req) && req.url@.len() == 0) ==> match client.inner {
            Some(held) => begun matches Ok(planned) && RawClientWrapper::spec_is_call_for(
                held,
                req,
                planned,
            ),
            None => begun matches Err(HttpError::Js(text)) && text@
                == Error::RawClientWrapperInnerEmpty.spec_message(),
        },
{
    match client.dispatch(req) {
        Ok(call) => Ok(call),
        Err(error) => Err(HttpError::from(error)),
    }
}

/// Whether `answer` is the answer to a request whose own call on the host
/// came to `outcome`: the checked response where the host answered with a
/// status that is one, and the failure in the caller's terms otherwise.
pub open spec fn spec_is_answer_to(outcome: Result<RawResponse, Error>, answer: Answer) -> bool {
    match outcome {
        Ok(raw) => {
            &&& answer.is_ok() <==> Response::<Value>::spec_status_fits(raw.status)
            &&& answer matches Ok(response) ==> {
                &&& response.well_formed()
                &&& response.status as int == raw.status
                &&& response.data == raw.data
                &&& response.headers == raw.headers
                &&& response.raw_headers == raw.raw_headers
                &&& response.url == raw.url
            }
            &&& answer matches Err(error) ==> (error matches HttpError::Js(text) && text@
                == "invalid type expected u16"@)
        },
        Err(failure) => answer matches Err(error) && HttpError::spec_is_from(failure, error),
    }
}

/// Requests end independently of one another. The answer to a request is
/// decided by the outcome of its own call and by nothing else: whatever
/// another request came to, two answers to one outcome are the same
/// response, or the same failure in the same words. So of two requests,
/// the same or not, through one handle or through two, one may succeed
/// while the other fails, and each exactly as its own call did.
pub proof fn lemma_answer_is_decided_by_own_outcome(
    outcome: Result<RawResponse, Error>,
    other: Result<RawResponse, Error>,
    first: Answer,
    second: Answer,
    third: Answer,
)
    requires
        spec_is_answer_to(outcome, first),
        spec_is_answer_to(outcome, second),
        spec_is_answer_to(other, third),
    ensures
        first.is_ok() == second.is_ok(),
        first matches Ok(response) ==> second == Ok::<Response<Value>, HttpError>(response),
        first matches Err(error) ==> second matches Err(again) && error.spec_same_failure(again),
        first.is_ok() == (outcome matches Ok(raw) && Response::<Value>::spec_status_fits(
            raw.status,
        )),
        third.is_ok() == (other matches Ok(raw) && Response::<Value>::spec_status_fits(
            raw.status,
        )),
{
}

/// What a request's own subtask answers once the host has answered it: the
/// checked response, or the failure in the caller's terms. The answer is
/// decided by this request's outcome and by nothing else.
pub fn finish_request(outcome: Result<RawResponse, Error>) -> (answer: Answer)
    ensures
        spec_is_answer_to(outcome, answer),
{
    match outcome {
        Ok(raw) => match Response::parse_response(raw) {
            Ok(response) => Ok(response),
            Err(error) => {
                proof {
                    reveal_strlit("invalid type expected ");
                    reveal_strlit("u16");
                    reveal_strlit("invalid type expected u16");
                    assert("invalid type expected "@ + "u16"@ =~= "invalid type expected u16"@);
                }
                Err(HttpError::from(error))
            },
        },
        Err(failure) => Err(HttpError::from(failure)),
    }
}

/// What the waiting caller gets from its end of the envelope: the answer
/// that was sent, or `Canceled` when the envelope was dropped unanswered.
pub fn settle(received: Result<Answer, Canceled>) -> (answer: Answer)
    ensures
        match received {
            Ok(sent) => answer == sent,
            Err(_) => answer matches Err(HttpError::Canceled),
        },
{
    match received {
        Ok(sent) => sent,
        Err(canceled) => Err(HttpError::from(canceled)),
    }
}

/// What one look at the end of an envelope's channel comes to: nothing
/// while no answer was sent yet, the answer that was sent, or `Canceled`
/// where the envelope was dropped unanswered.
pub fn received(found: Result<Option<Answer>, Canceled>) -> (answer: Option<Answer>)
    ensures
        match found {
            Ok(Some(sent)) => answer == Some(sent),
            Ok(None) => answer.is_none(),
            Err(_) => answer matches Some(Err(HttpError::Canceled)),
        },
{
    match found {
        Ok(Some(sent)) => Some(settle(Ok(sent))),
        Ok(None) => None,
        Err(canceled) => Some(settle(Err(canceled))),
    }
}

/// Looks at the end on which an answer arrives, without waiting. What is
/// found there is the other half's to decide; [`received`] says what each
/// finding comes to.
pub fn try_receive(receiver: &mut Receiver<Answer>) -> (answer: Option<Answer>)
{
    received(oneshot_try_recv(receiver))
}

/// Puts the decoded payload in the place of the JSON payload. A payload
/// that did not decode fails the whole response with the decoder's error.
pub fn deserialize_response_data<T>(
    response: Response<Value>,
    decoded: Result<T, serde_json::Error>,
) -> (typed: Result<Response<T>, serde_json::Error>)
    ensures
        match decoded {
            Ok(data) => typed matches Ok(out) && out.data == data && out.headers
                == response.headers && out.ok == response.ok && out.raw_headers
                == response.raw_headers && out.status == response.status && out.url
                == response.url,
            Err(error) => typed == Err::<Response<T>, serde_json::Error>(error),
        },
{
    match decoded {
        Ok(data) => Ok(response.with_data(data)),
        Err(error) => Err(error),
    }
}

/// What an enqueue comes to for the caller: the end on which the answer
/// will arrive where the envelope was taken, and the send error where it
/// was not.
pub fn enqueued(receiver: Receiver<Answer>, sent: Result<(), SendError>) -> (pending: Pending)
    ensures
        pending == match sent {
            Ok(_) => Ok::<Receiver<Answer>, HttpError>(receiver),
            Err(error) => Err(HttpError::MPSCSendError(error)),
        },
{
    match sent {
        Ok(()) => Ok(receiver),
        Err(error) => Err(HttpError::from(error)),
    }
}

/// The handle. Cloning it clones the sending end of the queue and nothing
/// else: no new actor and no new remote client.
#[derive(Debug, Clone)]
pub struct Client {
    request_tx: UnboundedSender<Request>,
}

impl Client {
    /// A handle, and the actor that will own the remote client made with
    /// `options`. Nothing has been asked of the host yet.
    pub fn new_with_option(options: ClientsOptions) -> (made: (Client, Actor))
        ensures
            made.1.well_formed(),
            made.1@ == crate::http::actor::ActorModel::initial(),
            made.1.spec_options() == options,
    {
        let (request_tx, request_rx) = unbounded_channel::<Request>();
        (Client { request_tx }, Actor::new(options, request_rx))
    }

    /// Whether the actor's end of the queue is gone.
    pub fn is_closed(&self) -> (closed: bool)
    {
        sender_is_closed(&self.request_tx)
    }

    /// Enqueues the request and hands out the end on which its answer will
    /// arrive. Whether the queue takes the envelope is the actor's end to
    /// decide. The only failure is that of a queue whose receiving end is
    /// gone, and [`enqueued`] says what the caller gets either way.
    pub fn send_request(&self, req: HttpOptions) -> (pending: Pending)
        ensures
            pending matches Err(error) ==> error.spec_is_receiver_gone(),
    {
        let (envelope, rx) = make_request(req);
        enqueued(rx, unbounded_send(&self.request_tx, envelope))
    }

    pub fn request(&self, req: HttpOptions) -> (pending: Pending)
        ensures
            pending matches Err(error) ==> error.spec_is_receiver_gone(),
    {
        self.send_request(req)
    }

    pub fn get(&self, url: String, options: RequestOptions) -> (pending: Pending)
        ensures
            pending matches Err(error) ==> error.spec_is_receiver_gone(),
    {
        self.request(HttpOptions::get(url, options))
    }

    pub fn delete(&self, url: String, options: RequestOptions) -> (pending: Pending)
        ensures
            pending matches Err(error) ==> error.spec_is_receiver_gone(),
    {
        self.request(HttpOptions::delete(url, options))
    }

    pub fn patch(&self, url: String, options: RequestOptions) -> (pending: Pending)
        ensures
            pending matches Err(error) ==> error.spec_is_receiver_gone(),
    {
        self.request(HttpOptions::patch(url, options))
    }

    pub fn post(&self, url: String, body: Body, options: RequestOptions) -> (pending: Pending)
        ensures
            pending matches Err(error) ==> error.spec_is_receiver_gone(),
    {
        self.request(HttpOptions::post(url, body, options))
    }

    pub fn put(&self, url: String, body: Body, options: RequestOptions) -> (pending: Pending)
        ensures
            pending matches Err(error) ==> error.spec_is_receiver_gone(),
    {
        self.request(HttpOptions::put(url, body, options))
    }
}

/// A handle made for one request, its actor, and the pending answer.
pub fn fetch(url: String, options: FetchOptions) -> (made: (Actor, Pending))
    ensures
        made.0.well_formed(),
        made.0@ == crate::http::actor::ActorModel::initial(),
        made.0.spec_options().max_redirection.is_none(),
        made.0.spec_options().connect_timout.is_none(),
        made.1 matches Err(error) ==> error.spec_is_receiver_gone(),
{
    let (client, actor) = Client::new_with_option(ClientsOptions::default());
    let pending = client.request(HttpOptions::fetch(url, options));
    (actor, pending)
}

} // verus!
