use futures::channel::oneshot::Receiver;
use serde_json::Value;
use std::collections::HashMap;
use tauri_global_sys::error::Error;
use tauri_global_sys::http::actor::{Actor, ActorAction, ActorEvent, ActorState};
use tauri_global_sys::http::raw::{
    Body, ClientsOptions, ConnectTimout, FetchOptions, HttpOptions, RawBody, RawClient,
    RawResponse, RemoteCall, RequestOptions,
};
use tauri_global_sys::http::send_sync_client::{
    deserialize_response_data, enqueued, fetch, finish_request, make_request, received, respond,
    settle, start_request, try_receive, undelivered, Answer, Client, HttpError, Request,
};
use tauri_global_sys::outside::Polled;
use tauri_global_sys::http::HttpVerb;

fn ready(options: ClientsOptions) -> (Client, Actor) {
    let (client, mut actor) = Client::new_with_option(options);
    let action = actor.step(ActorEvent::Created(RawClient { id: Some(1) }));
    assert!(matches!(action, ActorAction::Listen));
    assert_eq!(actor.state(), ActorState::Ready);
    (client, actor)
}

fn spawned(actor: &mut Actor) -> Request {
    match actor.poll() {
        Some(ActorAction::Spawn(envelope)) => envelope,
        _ => panic!("no envelope was spawned"),
    }
}

fn host_answer(status: i64, body: &str) -> Result<RawResponse, Error> {
    Ok(RawResponse {
        data: Value::String(String::from(body)),
        headers: HashMap::new(),
        ok: true,
        raw_headers: HashMap::new(),
        status,
        url: String::from("https://example.org"),
    })
}

fn body_of(receiver: &mut Receiver<Answer>) -> String {
    match try_receive(receiver) {
        Some(Ok(response)) => match response.data {
            Value::String(text) => text,
            other => panic!("{other:?}"),
        },
        Some(Err(error)) => panic!("{error:?}"),
        None => panic!("no answer yet"),
    }
}

#[test]
fn a_new_actor_waits_for_its_client() {
    let options = ClientsOptions {
        max_redirection: Some(4),
        connect_timout: Some(ConnectTimout::Duration { nanos: 234, secs: 5 }),
    };
    let (client, mut actor) = Client::new_with_option(options);
    assert_eq!(actor.state(), ActorState::Initializing);
    assert_eq!(actor.in_flight(), 0);
    assert_eq!(actor.options(), options);
    assert_eq!(actor.client().id(), None);
    assert!(!client.is_closed());
    assert!(actor.poll().is_none());
    assert_eq!(actor.state(), ActorState::Initializing);
}

#[test]
fn a_failed_creation_ends_every_request() {
    let (client, mut actor) = Client::new_with_option(ClientsOptions::default());
    let mut early = client
        .get(String::from("https://example.org"), RequestOptions::default())
        .unwrap();
    let action = actor.step(ActorEvent::CreationFailed(Error::Tauri(String::from("no host"))));
    assert!(matches!(action, ActorAction::CloseQueue(Error::Tauri(ref m)) if m == "no host"));
    assert_eq!(actor.state(), ActorState::Terminated);
    assert!(client.is_closed());
    assert!(matches!(try_receive(&mut early), Some(Err(HttpError::Canceled))));
    let late = client.get(String::from("https://example.org"), RequestOptions::default());
    assert!(matches!(late, Err(HttpError::MPSCSendError(_))));
    assert!(actor.poll().is_none());
    assert!(matches!(actor.step(ActorEvent::Completed), ActorAction::Idle));
    assert!(matches!(actor.step(ActorEvent::QueueClosed), ActorAction::Idle));
    assert_eq!(actor.state(), ActorState::Terminated);
}

#[test]
fn an_envelope_that_reaches_a_terminated_actor_is_dropped() {
    let (client, mut actor) = Client::new_with_option(ClientsOptions::default());
    actor.step(ActorEvent::CreationFailed(Error::JsStringToString));
    drop(client);
    let (envelope, mut receiver) =
        make_request(HttpOptions::get(String::from("u"), RequestOptions::default()));
    assert!(matches!(actor.step(ActorEvent::Enqueued(envelope)), ActorAction::Refuse));
    assert!(matches!(try_receive(&mut receiver), Some(Err(HttpError::Canceled))));
}

#[test]
fn the_client_is_released_once_after_the_last_subtask() {
    let (client, mut actor) = ready(ClientsOptions::default());
    let clone = client.clone();
    let mut receivers = Vec::new();
    for i in 0..3 {
        let handle = if i % 2 == 0 { &client } else { &clone };
        receivers.push(handle.get(format!("https://example.org/{i}"), RequestOptions::default()));
    }
    let envelopes: Vec<Request> = (0..3).map(|_| spawned(&mut actor)).collect();
    assert_eq!(actor.in_flight(), 3);
    drop(client);
    assert!(actor.poll().is_none());
    drop(clone);
    assert!(matches!(actor.poll(), Some(ActorAction::Wait)));
    assert_eq!(actor.state(), ActorState::Draining);
    let mut releases = 0;
    for (i, envelope) in envelopes.into_iter().enumerate() {
        assert_eq!(envelope.req.url, format!("https://example.org/{i}"));
        assert!(envelope.respond(finish_request(host_answer(200, "done"))).is_none());
        match actor.step(ActorEvent::Completed) {
            ActorAction::Release(released) => {
                assert_eq!(released, RawClient { id: Some(1) });
                assert_eq!(i, 2);
                releases += 1;
            }
            ActorAction::Wait => assert!(i < 2),
            _ => panic!("neither waiting nor releasing"),
        }
    }
    assert_eq!(releases, 1);
    assert_eq!(actor.state(), ActorState::Terminated);
    assert_eq!(actor.client().id(), None);
    for event in [ActorEvent::Completed, ActorEvent::QueueClosed, ActorEvent::Released(Ok(()))] {
        assert!(matches!(actor.step(event), ActorAction::Idle));
    }
    assert!(actor.poll().is_none());
    for receiver in receivers.iter_mut() {
        assert_eq!(body_of(receiver.as_mut().unwrap()), "done");
    }
}

#[test]
fn an_idle_actor_releases_as_soon_as_the_queue_closes() {
    let (client, mut actor) = ready(ClientsOptions::default());
    assert!(actor.poll().is_none());
    drop(client);
    assert!(matches!(
        actor.poll(),
        Some(ActorAction::Release(RawClient { id: Some(1) }))
    ));
    assert_eq!(actor.state(), ActorState::Terminated);
    assert!(actor.poll().is_none());
}

#[test]
fn a_failed_release_is_reported_to_no_caller() {
    let (client, mut actor) = ready(ClientsOptions::default());
    drop(client);
    assert!(matches!(actor.poll(), Some(ActorAction::Release(_))));
    let action = actor.step(ActorEvent::Released(Err(Error::Js(String::from("late")))));
    assert!(matches!(action, ActorAction::Report(Error::Js(ref m)) if m == "late"));
    assert_eq!(actor.state(), ActorState::Terminated);
}

#[test]
fn a_later_request_may_finish_first() {
    let (client, mut actor) = ready(ClientsOptions::default());
    let mut first = client.get(String::from("https://a"), RequestOptions::default()).unwrap();
    let mut second = client.get(String::from("https://b"), RequestOptions::default()).unwrap();
    let a = spawned(&mut actor);
    let b = spawned(&mut actor);
    assert_eq!(a.req.url, "https://a");
    assert_eq!(b.req.url, "https://b");
    assert_eq!(actor.in_flight(), 2);
    assert!(try_receive(&mut first).is_none());
    assert!(try_receive(&mut second).is_none());
    assert!(b.respond(finish_request(host_answer(200, "b"))).is_none());
    assert!(matches!(actor.step(ActorEvent::Completed), ActorAction::Idle));
    assert!(try_receive(&mut first).is_none());
    assert_eq!(body_of(&mut second), "b");
    assert!(a.respond(finish_request(host_answer(200, "a"))).is_none());
    assert!(matches!(actor.step(ActorEvent::Completed), ActorAction::Idle));
    assert_eq!(body_of(&mut first), "a");
    assert_eq!(actor.in_flight(), 0);
    assert_eq!(actor.state(), ActorState::Ready);
}

#[test]
fn the_same_request_through_two_clones_ends_independently() {
    let (client, mut actor) = ready(ClientsOptions::default());
    let clone = client.clone();
    let request = || HttpOptions::get(String::from("https://same"), RequestOptions::default());
    let mut first = client.request(request()).unwrap();
    let mut second = clone.request(request()).unwrap();
    let a = spawned(&mut actor);
    let b = spawned(&mut actor);
    let failure = Err(Error::Tauri(String::from("refused")));
    assert!(a.respond(finish_request(failure)).is_none());
    assert!(b.respond(finish_request(host_answer(200, "fine"))).is_none());
    assert!(matches!(
        try_receive(&mut first),
        Some(Err(HttpError::Tauri(ref m))) if m == "refused"
    ));
    assert_eq!(body_of(&mut second), "fine");
}

fn head(url: &str) -> HttpOptions {
    let mut request = HttpOptions::get(String::from(url), RequestOptions::default());
    request.method = HttpVerb::Head;
    request
}

#[test]
fn an_empty_url_is_answered_without_a_call() {
    let (client, mut actor) = ready(ClientsOptions::default());
    let mut pending = client.request(head("")).unwrap();
    let envelope = spawned(&mut actor);
    let Request { req, tx } = envelope;
    let begun = start_request(actor.client(), req);
    let answer = match begun {
        Err(HttpError::Tauri(message)) => {
            assert_eq!(message, "Invalid url: an empty url was given");
            Err(HttpError::Tauri(message))
        }
        _ => panic!("a call was planned for an empty url"),
    };
    assert!(tx.send(answer).is_ok());
    assert!(matches!(
        try_receive(&mut pending),
        Some(Err(HttpError::Tauri(ref m))) if m == "Invalid url: an empty url was given"
    ));
    assert_eq!(actor.state(), ActorState::Ready);
    assert!(!client.is_closed());
}

#[test]
fn the_generic_operation_refuses_an_empty_url_for_each_of_its_verbs() {
    let (_client, actor) = ready(ClientsOptions::default());
    let verbs = [
        HttpVerb::Head,
        HttpVerb::Options,
        HttpVerb::Connect,
        HttpVerb::Trace,
        HttpVerb::Post,
        HttpVerb::Put,
    ];
    for verb in verbs {
        let mut request = head("");
        request.method = verb;
        assert!(matches!(
            start_request(actor.client(), request),
            Err(HttpError::Tauri(ref m)) if m == "Invalid url: an empty url was given"
        ));
        let mut request = head("https://x");
        request.method = verb;
        match start_request(actor.client(), request) {
            Ok(RemoteCall::Request { client, request }) => {
                assert_eq!(client, RawClient { id: Some(1) });
                assert_eq!(request.method, verb);
                assert_eq!(request.url, "https://x");
                assert!(request.body.is_none());
            }
            _ => panic!("no generic call was planned"),
        }
    }
}

#[test]
fn a_request_made_by_a_convenience_form_has_the_operation_of_its_verb() {
    let (client, mut actor) = ready(ClientsOptions::default());
    let me = RawClient { id: Some(1) };
    let options = || {
        let mut options = RequestOptions::default();
        options.headers.insert(String::from("accept"), String::from("*/*"));
        options.body = Some(Body::Text(String::from("beside")));
        options
    };
    let _get = client.get(String::from("https://g"), options()).unwrap();
    let _delete = client.delete(String::from("https://d"), options()).unwrap();
    let _patch = client.patch(String::from(""), options()).unwrap();
    let _post = client.post(String::from("https://o"), Body::Bytes(vec![1]), options()).unwrap();
    let _put = client.put(String::from("https://u"), Body::Text(String::from("t")), options());
    let next = spawned(&mut actor).req;
    match start_request(actor.client(), next) {
        Ok(RemoteCall::Get { client, url, options }) => {
            assert_eq!((client, url.as_str()), (me, "https://g"));
            assert_eq!(options.headers.get("accept").map(String::as_str), Some("*/*"));
            assert_eq!(options.body, Some(Body::Text(String::from("beside"))));
        }
        _ => panic!("no GET was planned"),
    }
    let next = spawned(&mut actor).req;
    match start_request(actor.client(), next) {
        Ok(RemoteCall::Delete { client, url, options }) => {
            assert_eq!((client, url.as_str()), (me, "https://d"));
            assert_eq!(options.headers.len(), 1);
        }
        _ => panic!("no DELETE was planned"),
    }
    let next = spawned(&mut actor).req;
    match start_request(actor.client(), next) {
        Ok(RemoteCall::Patch { client, url, options }) => {
            assert_eq!((client, url.as_str()), (me, ""));
            assert_eq!(options.headers.len(), 1);
        }
        _ => panic!("no PATCH was planned"),
    }
    let next = spawned(&mut actor).req;
    match start_request(actor.client(), next) {
        Ok(RemoteCall::Post { client, url, body, options }) => {
            assert_eq!((client, url.as_str()), (me, "https://o"));
            assert_eq!(body, RawBody::Bytes(vec![1]));
            assert_eq!(options.body, None);
            assert_eq!(options.headers.len(), 1);
        }
        _ => panic!("no POST was planned"),
    }
    let next = spawned(&mut actor).req;
    match start_request(actor.client(), next) {
        Ok(RemoteCall::Put { client, url, body, options }) => {
            assert_eq!((client, url.as_str()), (me, "https://u"));
            assert_eq!(body, RawBody::Text(String::from("t")));
            assert_eq!(options.body, None);
        }
        _ => panic!("no PUT was planned"),
    }
}

#[test]
fn no_call_is_planned_on_a_client_that_is_gone() {
    let gone = tauri_global_sys::http::raw::RawClientWrapper { inner: None };
    for request in [
        HttpOptions::get(String::from("u"), RequestOptions::default()),
        HttpOptions::post(String::from("u"), Body::default(), RequestOptions::default()),
        head("u"),
    ] {
        assert!(matches!(
            start_request(&gone, request),
            Err(HttpError::Js(ref m)) if m == "Invalid logic: The inner client was already dropped"
        ));
    }
    assert!(matches!(
        gone.dispatch(HttpOptions::get(String::new(), RequestOptions::default())),
        Err(Error::RawClientWrapperInnerEmpty)
    ));
    assert!(matches!(gone.dispatch(head("")), Err(Error::Tauri(_))));
}

#[test]
fn an_answer_for_a_caller_that_left_comes_back() {
    let (client, mut actor) = ready(ClientsOptions::default());
    let pending = client.patch(String::from("https://x"), RequestOptions::default()).unwrap();
    drop(pending);
    let envelope = spawned(&mut actor);
    let undelivered = envelope.respond(finish_request(host_answer(200, "lost")));
    assert!(matches!(
        undelivered,
        Some(Ok(ref response)) if response.data == Value::String(String::from("lost"))
    ));
    assert!(matches!(actor.step(ActorEvent::Completed), ActorAction::Idle));
}

#[test]
fn finish_request_checks_the_status() {
    let answer = finish_request(host_answer(404, "missing")).unwrap();
    assert_eq!(answer.status, 404);
    assert!(!answer.ok);
    assert!(matches!(
        finish_request(host_answer(-5, "x")),
        Err(HttpError::Js(ref m)) if m == "invalid type expected u16"
    ));
    assert!(matches!(
        finish_request(Err(Error::Invoke { payload: Some(Value::Null), debug: String::new() })),
        Err(HttpError::Other(Value::Null))
    ));
}

#[test]
fn settle_turns_a_dropped_envelope_into_canceled() {
    let (envelope, mut receiver) =
        make_request(HttpOptions::get(String::from("u"), RequestOptions::default()));
    assert_eq!(envelope.req.url, "u");
    assert!(try_receive(&mut receiver).is_none());
    drop(envelope);
    assert!(matches!(try_receive(&mut receiver), Some(Err(HttpError::Canceled))));
    let sent: Answer = Err(HttpError::Js(String::from("j")));
    assert!(matches!(settle(Ok(sent)), Err(HttpError::Js(ref m)) if m == "j"));
    let delivered = settle(Ok(finish_request(host_answer(200, "x"))));
    assert_eq!(delivered.unwrap().status, 200);
}

#[test]
fn a_decoded_payload_replaces_the_json_payload() {
    let response = finish_request(host_answer(200, "7")).unwrap();
    let typed = deserialize_response_data(response.clone(), serde_json::from_str::<u8>("7"));
    let typed = typed.unwrap();
    assert_eq!(typed.data, 7);
    assert_eq!(typed.status, 200);
    assert!(typed.ok);
    assert_eq!(typed.url, "https://example.org");
    let failed = deserialize_response_data(response, serde_json::from_str::<u8>("true"));
    let words = serde_json::from_str::<u8>("true").unwrap_err().to_string();
    assert_eq!(failed.unwrap_err().to_string(), words);
}

#[test]
fn post_and_put_enqueue_their_body() {
    let (client, mut actor) = ready(ClientsOptions::default());
    let _a = client.post(String::from("p"), Body::Text(String::from("1")), RequestOptions::default());
    let _b = client.put(String::from("q"), Body::Bytes(vec![2]), RequestOptions::default());
    let first = spawned(&mut actor);
    assert_eq!(first.req.method, HttpVerb::Post);
    assert!(matches!(first.req.body, Some(Body::Text(ref t)) if t == "1"));
    let second = spawned(&mut actor);
    assert_eq!(second.req.method, HttpVerb::Put);
    assert!(matches!(second.req.body, Some(Body::Bytes(ref b)) if b == &[2]));
}

#[test]
fn fetch_enqueues_one_request_and_leaves_no_handle() {
    let options = FetchOptions {
        body: None,
        headers: HashMap::new(),
        method: HttpVerb::Options,
        query: HashMap::new(),
        response_type: None,
        timeout: None,
    };
    let (mut actor, pending) = fetch(String::from("https://example.org"), options);
    let mut pending = pending.unwrap();
    assert_eq!(actor.options(), ClientsOptions::default());
    assert!(matches!(
        actor.step(ActorEvent::Created(RawClient { id: None })),
        ActorAction::Listen
    ));
    let envelope = spawned(&mut actor);
    assert_eq!(envelope.req.method, HttpVerb::Options);
    assert_eq!(envelope.req.url, "https://example.org");
    assert!(matches!(actor.poll(), Some(ActorAction::Wait)));
    assert!(envelope.respond(finish_request(host_answer(200, "got"))).is_none());
    assert!(matches!(actor.step(ActorEvent::Completed), ActorAction::Release(_)));
    assert_eq!(body_of(&mut pending), "got");
}

#[test]
fn events_out_of_place_change_nothing() {
    let (_client, mut actor) = ready(ClientsOptions::default());
    assert!(matches!(
        actor.step(ActorEvent::Created(RawClient { id: Some(9) })),
        ActorAction::Idle
    ));
    assert_eq!(actor.client().id(), Some(1));
    assert!(matches!(
        actor.step(ActorEvent::CreationFailed(Error::JsStringToString)),
        ActorAction::Idle
    ));
    assert!(matches!(actor.step(ActorEvent::Completed), ActorAction::Idle));
    assert!(matches!(actor.step(ActorEvent::Released(Ok(()))), ActorAction::Idle));
    assert_eq!(actor.state(), ActorState::Ready);
    assert_eq!(actor.in_flight(), 0);
}

#[test]
fn a_send_fails_only_because_the_receiver_is_gone() {
    let (client, mut actor) = Client::new_with_option(ClientsOptions::default());
    actor.step(ActorEvent::CreationFailed(Error::JsStringToString));
    let attempts = [
        client.send_request(HttpOptions::get(String::from("u"), RequestOptions::default())),
        client.request(HttpOptions::get(String::from("u"), RequestOptions::default())),
        client.get(String::from("u"), RequestOptions::default()),
        client.delete(String::from("u"), RequestOptions::default()),
        client.patch(String::from("u"), RequestOptions::default()),
        client.post(String::from("u"), Body::default(), RequestOptions::default()),
        client.put(String::from("u"), Body::default(), RequestOptions::default()),
    ];
    for attempt in attempts {
        match attempt {
            Err(error) => {
                assert!(matches!(error, HttpError::MPSCSendError(ref e) if e.is_disconnected()));
                assert_eq!(error.message(), "send failed because receiver is gone");
            }
            Ok(_) => panic!("an envelope was taken by a queue without a receiver"),
        }
    }
}

#[test]
fn an_enqueue_comes_to_the_receiver_or_to_the_send_error() {
    let (envelope, receiver) =
        make_request(HttpOptions::get(String::from("u"), RequestOptions::default()));
    let mut pending = enqueued(receiver, Ok(())).unwrap();
    assert!(envelope.respond(finish_request(host_answer(200, "mine"))).is_none());
    assert_eq!(body_of(&mut pending), "mine");

    let (tx, rx) = futures::channel::mpsc::unbounded::<u8>();
    drop(rx);
    let gone = tx.unbounded_send(1).unwrap_err().into_send_error();
    let (_envelope, receiver) =
        make_request(HttpOptions::get(String::from("u"), RequestOptions::default()));
    match enqueued(receiver, Err(gone.clone())) {
        Err(HttpError::MPSCSendError(error)) => assert_eq!(error, gone),
        _ => panic!("a failed send came to something else than its error"),
    }
}

#[test]
fn a_look_at_an_envelope_comes_to_what_was_found() {
    assert!(received(Ok(None)).is_none());
    let sent: Answer = Err(HttpError::Tauri(String::from("t")));
    assert!(matches!(
        received(Ok(Some(sent))),
        Some(Err(HttpError::Tauri(ref m))) if m == "t"
    ));
    let answered = received(Ok(Some(finish_request(host_answer(201, "x")))));
    assert_eq!(answered.unwrap().unwrap().status, 201);
    let (tx, mut rx) = futures::channel::oneshot::channel::<u8>();
    drop(tx);
    let canceled = rx.try_recv().unwrap_err();
    assert!(matches!(received(Err(canceled)), Some(Err(HttpError::Canceled))));
}

#[test]
fn what_a_send_left_undelivered_is_what_came_back() {
    assert!(undelivered(Ok(())).is_none());
    let back: Answer = Err(HttpError::Js(String::from("j")));
    assert!(matches!(undelivered(Err(back)), Some(Err(HttpError::Js(ref m))) if m == "j"));
    let back = finish_request(host_answer(200, "kept"));
    assert_eq!(body_of_answer(undelivered(Err(back)).unwrap()), "kept");
}

fn body_of_answer(answer: Answer) -> String {
    match answer.unwrap().data {
        Value::String(text) => text,
        other => panic!("{other:?}"),
    }
}

#[test]
fn an_answer_is_delivered_to_the_one_who_waits() {
    let (envelope, mut receiver) =
        make_request(HttpOptions::get(String::from("u"), RequestOptions::default()));
    assert!(respond(envelope.tx, finish_request(host_answer(200, "here"))).is_none());
    assert_eq!(body_of(&mut receiver), "here");
    let (envelope, receiver) =
        make_request(HttpOptions::get(String::from("u"), RequestOptions::default()));
    drop(receiver);
    let back = respond(envelope.tx, finish_request(host_answer(200, "back")));
    assert_eq!(body_of_answer(back.unwrap()), "back");
}

#[test]
fn what_was_found_in_the_queue_is_taken_in_as_its_event() {
    let (_client, mut actor) = ready(ClientsOptions::default());
    assert!(actor.take(Polled::Empty).is_none());
    assert_eq!(actor.state(), ActorState::Ready);
    assert_eq!(actor.in_flight(), 0);
    let (envelope, mut receiver) =
        make_request(HttpOptions::get(String::from("found"), RequestOptions::default()));
    match actor.take(Polled::Message(envelope)) {
        Some(ActorAction::Spawn(spawned)) => {
            assert_eq!(spawned.req.url, "found");
            assert!(spawned.respond(finish_request(host_answer(200, "answered"))).is_none());
        }
        _ => panic!("the envelope that was found was not spawned"),
    }
    assert_eq!(body_of(&mut receiver), "answered");
    assert_eq!(actor.in_flight(), 1);
    assert!(matches!(actor.take(Polled::Closed), Some(ActorAction::Wait)));
    assert_eq!(actor.state(), ActorState::Draining);
    let (late, mut unanswered) =
        make_request(HttpOptions::get(String::from("late"), RequestOptions::default()));
    assert!(matches!(actor.take(Polled::Message(late)), Some(ActorAction::Refuse)));
    assert!(matches!(try_receive(&mut unanswered), Some(Err(HttpError::Canceled))));
    assert!(actor.take(Polled::Empty).is_none());
    assert!(matches!(actor.take(Polled::Closed), Some(ActorAction::Idle)));
    assert!(matches!(actor.step(ActorEvent::Completed), ActorAction::Release(_)));
    assert_eq!(actor.state(), ActorState::Terminated);
}

#[test]
fn a_poll_finds_what_the_handles_left_in_the_queue() {
    let (client, mut actor) = ready(ClientsOptions::default());
    assert!(actor.poll().is_none());
    let _first = client.get(String::from("1"), RequestOptions::default()).unwrap();
    let _second = client.delete(String::from("2"), RequestOptions::default()).unwrap();
    assert!(!client.is_closed());
    let first = spawned(&mut actor);
    assert_eq!((first.req.method, first.req.url.as_str()), (HttpVerb::Get, "1"));
    let second = spawned(&mut actor);
    assert_eq!((second.req.method, second.req.url.as_str()), (HttpVerb::Delete, "2"));
    assert!(actor.poll().is_none());
    drop(client);
    assert!(matches!(actor.poll(), Some(ActorAction::Wait)));
    assert!(actor.poll().is_none());
}
