//! The actor that owns the remote client: it has the client made, hands
//! every envelope to a subtask of its own without waiting for the one
//! before, and releases the client once, after the queue is closed and the
//! last subtask is done. Its decisions are a function from state and event
//! to state and action; whoever runs it performs the actions and reports
//! the events.
use super::raw::{ClientsOptions, RawClient, RawClientWrapper};
use super::send_sync_client::Request;
use crate::error::Error;
use crate::outside::{poll_queue, Polled};
use futures::channel::mpsc::UnboundedReceiver;
use vstd::prelude::*;

verus! {

/// The most subtasks that the actor keeps count of at one time.
pub const MAX_IN_FLIGHT: u64 = 0xffff_ffff_ffff_ffff;

#[derive(Debug, Clone, Copy, PartialEq, Eq, Structural)]
pub enum ActorState {
    /// The remote client is being made.
    Initializing,
    /// The remote client is there and the queue is read.
    Ready,
    /// The queue is closed and empty; subtasks are still under way.
    Draining,
    /// Nothing is left to do. The remote client, if there was one, has been
    /// given up for release.
    Terminated,
}

/// What can happen to the actor, without what comes with it.
pub enum EventKind {
    Created,
    CreationFailed,
    Enqueued,
    QueueClosed,
    Completed,
    Released,
    ReleaseFailed,
}

/// What the actor can ask for, without what comes with it.
pub enum ActionKind {
    /// Start reading the queue.
    Listen,
    /// Run a subtask for the envelope and go on at once.
    Spawn,
    /// The envelope was dropped unanswered.
    Refuse,
    /// Subtasks are under way and nothing else is to do.
    Wait,
    /// Release the remote client.
    Release,
    /// The queue was dropped unread; report why no client was made.
    CloseQueue,
    /// Report why the release failed, to no caller.
    Report,
    Idle,
}

/// The actor as the laws see it.
pub struct ActorModel {
    pub state: ActorState,
    /// The subtasks that were spawned and have not completed.
    pub in_flight: nat,
}

impl ActorModel {
    pub open spec fn initial() -> ActorModel {
        ActorModel { state: ActorState::Initializing, in_flight: 0 }
    }

    pub open spec fn well_formed(self) -> bool {
        &&& self.in_flight <= MAX_IN_FLIGHT
        &&& self.state is Initializing ==> self.in_flight == 0
        &&& self.state is Draining ==> self.in_flight > 0
        &&& self.state is Terminated ==> self.in_flight == 0
    }

    /// The state after an event.
    pub open spec fn next(self, event: EventKind) -> ActorModel {
        match (self.state, event) {
            (ActorState::Initializing, EventKind::Created) => ActorModel {
                state: ActorState::Ready,
                in_flight: 0,
            },
            (ActorState::Initializing, EventKind::CreationFailed) => ActorModel {
                state: ActorState::Terminated,
                in_flight: 0,
            },
            (ActorState::Ready, EventKind::Enqueued) => if self.in_flight < MAX_IN_FLIGHT {
                ActorModel { state: ActorState::Ready, in_flight: self.in_flight + 1 }
            } else {
                self
            },
            (ActorState::Ready, EventKind::Completed) => if self.in_flight > 0 {
                ActorModel { state: ActorState::Ready, in_flight: (self.in_flight - 1) as nat }
            } else {
                self
            },
            (ActorState::Ready, EventKind::QueueClosed) => if self.in_flight == 0 {
                ActorModel { state: ActorState::Terminated, in_flight: 0 }
            } else {
                ActorModel { state: ActorState::Draining, in_flight: self.in_flight }
            },
            (ActorState::Draining, EventKind::Completed) => if self.in_flight <= 1 {
                ActorModel { state: ActorState::Terminated, in_flight: 0 }
            } else {
                ActorModel { state: ActorState::Draining, in_flight: (self.in_flight - 1) as nat }
            },
            _ => self,
        }
    }

    /// What the actor asks for on an event.
    pub open spec fn action(self, event: EventKind) -> ActionKind {
        match (self.state, event) {
            (ActorState::Initializing, EventKind::Created) => ActionKind::Listen,
            (ActorState::Initializing, EventKind::CreationFailed) => ActionKind::CloseQueue,
            (ActorState::Ready, EventKind::Enqueued) => if self.in_flight < MAX_IN_FLIGHT {
                ActionKind::Spawn
            } else {
                ActionKind::Refuse
            },
            (_, EventKind::Enqueued) => ActionKind::Refuse,
            (ActorState::Ready, EventKind::QueueClosed) => if self.in_flight == 0 {
                ActionKind::Release
            } else {
                ActionKind::Wait
            },
            (ActorState::Draining, EventKind::Completed) => if self.in_flight <= 1 {
                ActionKind::Release
            } else {
                ActionKind::Wait
            },
            (ActorState::Terminated, EventKind::ReleaseFailed) => ActionKind::Report,
            _ => ActionKind::Idle,
        }
    }

    /// The state after a run of events.
    pub open spec fn run(self, events: Seq<EventKind>) -> ActorModel
        decreases events.len(),
    {
        if events.len() == 0 {
            self
        } else {
            self.next(events[0]).run(events.drop_first())
        }
    }

    /// How often a run of events has the actor ask for the given action.
    pub open spec fn count(self, events: Seq<EventKind>, wanted: ActionKind) -> nat
        decreases events.len(),
    {
        if events.len() == 0 {
            0
        } else {
            let here: nat = if self.action(events[0]) == wanted {
                1
            } else {
                0
            };
            here + self.next(events[0]).count(events.drop_first(), wanted)
        }
    }

    /// No event leads out of a well-formed state.
    pub proof fn lemma_next_well_formed(self, event: EventKind)
        requires
            self.well_formed(),
        ensures
            self.next(event).well_formed(),
    {
    }

    /// A run that is continued by one more event.
    pub proof fn lemma_run_push(self, events: Seq<EventKind>, last: EventKind, wanted: ActionKind)
        ensures
            self.run(events.push(last)) == self.run(events).next(last),
            self.count(events.push(last), wanted) == self.count(events, wanted) + (if self.run(
                events,
            ).action(last) == wanted {
                1nat
            } else {
                0nat
            }),
        decreases events.len(),
    {
        let longer = events.push(last);
        assert(longer[0] == if events.len() == 0 {
            last
        } else {
            events[0]
        });
        if events.len() == 0 {
            assert(longer.drop_first() =~= events);
            assert(self.next(last).count(events, wanted) == 0);
        } else {
            assert(longer.drop_first() =~= events.drop_first().push(last));
            self.next(events[0]).lemma_run_push(events.drop_first(), last, wanted);
        }
    }

    /// The remote client is released at most once, whatever happens: a run
    /// of events from a well-formed state asks for the release never more
    /// than once, and never after termination. Where a client is held, the
    /// release has been asked for exactly when the run has ended in
    /// termination.
    pub proof fn lemma_release_at_most_once(self, events: Seq<EventKind>)
        requires
            self.well_formed(),
        ensures
            self.run(events).well_formed(),
            self.count(events, ActionKind::Release) <= 1,
            self.state is Terminated ==> self.count(events, ActionKind::Release) == 0
                && self.run(events).state is Terminated,
            self.state is Ready || self.state is Draining ==> (self.count(
                events,
                ActionKind::Release,
            ) == 1 <==> self.run(events).state is Terminated),
            self.count(events, ActionKind::Release) == 1 ==> self.run(events).state is Terminated,
        decreases events.len(),
    {
        if events.len() > 0 {
            self.lemma_next_well_formed(events[0]);
            self.next(events[0]).lemma_release_at_most_once(events.drop_first());
        }
    }

    /// When the last handle is dropped while `self.in_flight` subtasks are
    /// under way, the queue closes and the subtasks complete one by one. No
    /// release is asked for before the last of them is done, and exactly
    /// one once it is.
    pub proof fn lemma_release_after_last_subtask(self, completed: nat)
        requires
            self.well_formed(),
            self.state is Ready,
            completed <= self.in_flight,
        ensures
            ({
                let events = seq![EventKind::QueueClosed] + Seq::new(
                    completed,
                    |i: int| EventKind::Completed,
                );
                if completed == self.in_flight {
                    &&& self.run(events).state is Terminated
                    &&& self.count(events, ActionKind::Release) == 1
                } else {
                    &&& self.run(events).state is Draining
                    &&& self.run(events).in_flight == self.in_flight - completed
                    &&& self.count(events, ActionKind::Release) == 0
                }
            }),
        decreases completed,
    {
        let closed = seq![EventKind::QueueClosed];
        let events = closed + Seq::new(completed, |i: int| EventKind::Completed);
        if completed == 0 {
            assert(events =~= closed);
            assert(closed.drop_first() =~= Seq::<EventKind>::empty());
            assert(self.next(EventKind::QueueClosed).run(closed.drop_first()) == self.next(
                EventKind::QueueClosed,
            ));
            assert(self.next(EventKind::QueueClosed).count(
                closed.drop_first(),
                ActionKind::Release,
            ) == 0);
        } else {
            let before = closed + Seq::new((completed - 1) as nat, |i: int| EventKind::Completed);
            self.lemma_release_after_last_subtask((completed - 1) as nat);
            assert(events =~= before.push(EventKind::Completed));
            self.lemma_run_push(before, EventKind::Completed, ActionKind::Release);
        }
    }

    /// When the remote client cannot be made, the actor terminates without
    /// reading the queue: whatever happens afterwards, no subtask is
    /// spawned and no release is asked for, and every envelope that still
    /// reaches the actor is dropped unanswered.
    pub proof fn lemma_failed_creation_ends_all(events: Seq<EventKind>)
        ensures
            Self::initial().next(EventKind::CreationFailed).state is Terminated,
            Self::initial().action(EventKind::CreationFailed) == ActionKind::CloseQueue,
            Self::initial().next(EventKind::CreationFailed).run(events).state is Terminated,
            Self::initial().next(EventKind::CreationFailed).count(events, ActionKind::Spawn) == 0,
            Self::initial().next(EventKind::CreationFailed).count(events, ActionKind::Release)
                == 0,
            Self::initial().next(EventKind::CreationFailed).count(events, ActionKind::Listen)
                == 0,
    {
        let ended = Self::initial().next(EventKind::CreationFailed);
        ended.lemma_terminated_is_final(events);
    }

    /// Nothing happens after termination but reports of a failed release.
    pub proof fn lemma_terminated_is_final(self, events: Seq<EventKind>)
        requires
            self.state is Terminated,
        ensures
            self.run(events) == self,
            self.count(events, ActionKind::Spawn) == 0,
            self.count(events, ActionKind::Release) == 0,
            self.count(events, ActionKind::Listen) == 0,
        decreases events.len(),
    {
        if events.len() > 0 {
            self.next(events[0]).lemma_terminated_is_final(events.drop_first());
        }
    }

    /// Whether the events are only envelopes taken from the queue and
    /// subtasks that are done.
    pub open spec fn only_requests(events: Seq<EventKind>) -> bool {
        forall|i: int|
            0 <= i < events.len() ==> (#[trigger] events[i]) is Enqueued || events[i] is Completed
    }

    /// How many of the events are envelopes taken from the queue.
    pub open spec fn enqueued(events: Seq<EventKind>) -> nat
        decreases events.len(),
    {
        if events.len() == 0 {
            0
        } else {
            let here: nat = if events[0] is Enqueued {
                1
            } else {
                0
            };
            here + Self::enqueued(events.drop_first())
        }
    }

    /// While handles exist, a ready actor serves every request: however
    /// requests and completions follow one another, each envelope gets its
    /// subtask, none is refused, and the actor stays ready. No request's
    /// fate depends on another request or on how that one ended. (The
    /// count of subtasks under way must stay within what the actor can
    /// count.)
    pub proof fn lemma_ready_serves_every_request(self, events: Seq<EventKind>)
        requires
            self.well_formed(),
            self.state is Ready,
            Self::only_requests(events),
            self.in_flight + events.len() <= MAX_IN_FLIGHT,
        ensures
            self.run(events).state is Ready,
            self.count(events, ActionKind::Spawn) == Self::enqueued(events),
            self.count(events, ActionKind::Refuse) == 0,
            self.count(events, ActionKind::Release) == 0,
        decreases events.len(),
    {
        if events.len() > 0 {
            let rest = events.drop_first();
            assert(events[0] is Enqueued || events[0] is Completed);
            assert forall|i: int| 0 <= i < rest.len() implies (#[trigger] rest[i]) is Enqueued
                || rest[i] is Completed by {
                assert(rest[i] == events[i + 1]);
            }
            self.next(events[0]).lemma_ready_serves_every_request(rest);
        }
    }

    /// Requests do not wait for one another. While the actor is ready, an
    /// envelope is given a subtask whatever is under way, so a second
    /// request is spawned before the first has completed; and each is
    /// spawned or refused by the count alone, never by what another
    /// request was or how it ended.
    pub proof fn lemma_dispatch_does_not_wait(self)
        requires
            self.well_formed(),
            self.state is Ready,
            self.in_flight + 2 <= MAX_IN_FLIGHT,
        ensures
            self.action(EventKind::Enqueued) == ActionKind::Spawn,
            self.next(EventKind::Enqueued).action(EventKind::Enqueued) == ActionKind::Spawn,
            self.next(EventKind::Enqueued).next(EventKind::Enqueued).state is Ready,
            self.next(EventKind::Enqueued).next(EventKind::Enqueued).in_flight == self.in_flight
                + 2,
            self.next(EventKind::Enqueued).next(EventKind::Enqueued).next(
                EventKind::Completed,
            ).next(EventKind::Completed) == self,
    {
    }
}

/// An event together with what comes with it.
pub enum ActorEvent {
    /// The host made the remote client.
    Created(RawClient),
    /// The host could not make the remote client.
    CreationFailed(Error),
    /// An envelope was taken from the queue.
    Enqueued(Request),
    /// The queue is empty and every handle is gone.
    QueueClosed,
    /// A subtask is done.
    Completed,
    /// The host answered the release.
    Released(Result<(), Error>),
}

impl ActorEvent {
    pub open spec fn kind(self) -> EventKind {
        match self {
            ActorEvent::Created(_) => EventKind::Created,
            ActorEvent::CreationFailed(_) => EventKind::CreationFailed,
            ActorEvent::Enqueued(_) => EventKind::Enqueued,
            ActorEvent::QueueClosed => EventKind::QueueClosed,
            ActorEvent::Completed => EventKind::Completed,
            ActorEvent::Released(Ok(_)) => EventKind::Released,
            ActorEvent::Released(Err(_)) => EventKind::ReleaseFailed,
        }
    }
}

/// An action together with what it is to be done with.
pub enum ActorAction {
    Listen,
    Spawn(Request),
    Refuse,
    Wait,
    Release(RawClient),
    CloseQueue(Error),
    Report(Error),
    Idle,
}

impl ActorAction {
    pub open spec fn kind(self) -> ActionKind {
        match self {
            ActorAction::Listen => ActionKind::Listen,
            ActorAction::Spawn(_) => ActionKind::Spawn,
            ActorAction::Refuse => ActionKind::Refuse,
            ActorAction::Wait => ActionKind::Wait,
            ActorAction::Release(_) => ActionKind::Release,
            ActorAction::CloseQueue(_) => ActionKind::CloseQueue,
            ActorAction::Report(_) => ActionKind::Report,
            ActorAction::Idle => ActionKind::Idle,
        }
    }

    /// Whether the action carries on exactly what the event brought or what
    /// the actor held.
    pub open spec fn carries(self, event: ActorEvent, held: Option<RawClient>) -> bool {
        match self {
            ActorAction::Spawn(envelope) => event == ActorEvent::Enqueued(envelope),
            ActorAction::Release(client) => held == Some(client),
            ActorAction::CloseQueue(error) => event == ActorEvent::CreationFailed(error),
            ActorAction::Report(error) => event == ActorEvent::Released(Err(error)),
            _ => true,
        }
    }
}

pub struct Actor {
    state: ActorState,
    in_flight: u64,
    options: ClientsOptions,
    client: RawClientWrapper,
    request_rx: Option<UnboundedReceiver<Request>>,
}

impl View for Actor {
    type V = ActorModel;

    closed spec fn view(&self) -> ActorModel {
        ActorModel { state: self.state, in_flight: self.in_flight as nat }
    }
}

impl Actor {
    /// The options that the remote client is made with.
    pub closed spec fn spec_options(self) -> ClientsOptions {
        self.options
    }

    /// The remote client, while the actor holds it.
    pub closed spec fn spec_client(self) -> Option<RawClient> {
        self.client.inner
    }

    /// Whether the actor still has its end of the queue.
    pub closed spec fn spec_has_queue(self) -> bool {
        self.request_rx.is_some()
    }

    /// The remote client is held exactly while the actor is ready or
    /// draining, and the queue exactly until it is closed or dropped: the
    /// actor that could not have its client made, or that has seen the
    /// queue closed, has no end of the queue left for anyone to send to.
    pub open spec fn well_formed(self) -> bool {
        &&& self@.well_formed()
        &&& self.spec_client().is_some() <==> (self@.state is Ready || self@.state is Draining)
        &&& self.spec_has_queue() <==> (self@.state is Initializing || self@.state is Ready)
    }

    pub fn new(options: ClientsOptions, request_rx: UnboundedReceiver<Request>) -> (actor: Actor)
        ensures
            actor.well_formed(),
            actor@ == ActorModel::initial(),
            actor.spec_options() == options,
            actor.spec_client().is_none(),
            actor.spec_has_queue(),
    {
        Actor {
            state: ActorState::Initializing,
            in_flight: 0,
            options,
            client: RawClientWrapper { inner: None },
            request_rx: Some(request_rx),
        }
    }

    pub fn state(&self) -> (state: ActorState)
        ensures
            state == self@.state,
    {
        self.state
    }

    pub fn in_flight(&self) -> (count: u64)
        ensures
            count as nat == self@.in_flight,
    {
        self.in_flight
    }

    pub fn options(&self) -> (options: ClientsOptions)
        ensures
            options == self.spec_options(),
    {
        self.options
    }

    /// The owner of the remote client, for the subtasks to make their calls
    /// with.
    pub fn client(&self) -> (client: &RawClientWrapper)
        ensures
            client.inner == self.spec_client(),
    {
        &self.client
    }

    /// Takes the event in: moves to the next state and says what is to be
    /// done. An envelope is spawned only while the actor is ready, and is
    /// dropped unanswered otherwise; the remote client is handed out for
    /// release on the one step into termination from a state that held it.
    pub fn step(&mut self, event: ActorEvent) -> (action: ActorAction)
        requires
            old(self).well_formed(),
        ensures
            final(self).well_formed(),
            final(self)@ == old(self)@.next(event.kind()),
            action.kind() == old(self)@.action(event.kind()),
            action.carries(event, old(self).spec_client()),
            final(self).spec_options() == old(self).spec_options(),
            final(self).spec_client() == (match event {
                ActorEvent::Created(client) => if old(self)@.state is Initializing {
                    Some(client)
                } else {
                    old(self).spec_client()
                },
                _ => if final(self)@.state is Terminated {
                    None
                } else {
                    old(self).spec_client()
                },
            }),
    {
        match event {
            ActorEvent::Created(client) => match self.state {
                ActorState::Initializing => {
                    self.client = RawClientWrapper { inner: Some(client) };
                    self.state = ActorState::Ready;
                    ActorAction::Listen
                },
                _ => ActorAction::Idle,
            },
            ActorEvent::CreationFailed(error) => match self.state {
                ActorState::Initializing => {
                    self.request_rx = None;
                    self.state = ActorState::Terminated;
                    ActorAction::CloseQueue(error)
                },
                _ => ActorAction::Idle,
            },
            ActorEvent::Enqueued(envelope) => match self.state {
                ActorState::Ready => {
                    if self.in_flight < MAX_IN_FLIGHT {
                        self.in_flight = self.in_flight + 1;
                        ActorAction::Spawn(envelope)
                    } else {
                        ActorAction::Refuse
                    }
                },
                _ => ActorAction::Refuse,
            },
            ActorEvent::QueueClosed => match self.state {
                ActorState::Ready => {
                    self.request_rx = None;
                    if self.in_flight == 0 {
                        self.terminate()
                    } else {
                        self.state = ActorState::Draining;
                        ActorAction::Wait
                    }
                },
                _ => ActorAction::Idle,
            },
            ActorEvent::Completed => match self.state {
                ActorState::Ready => {
                    if self.in_flight > 0 {
                        self.in_flight = self.in_flight - 1;
                    }
                    ActorAction::Idle
                },
                ActorState::Draining => {
                    if self.in_flight <= 1 {
                        self.in_flight = 0;
                        self.terminate()
                    } else {
                        self.in_flight = self.in_flight - 1;
                        ActorAction::Wait
                    }
                },
                _ => ActorAction::Idle,
            },
            ActorEvent::Released(outcome) => match self.state {
                ActorState::Terminated => match outcome {
                    Ok(_) => ActorAction::Idle,
                    Err(error) => ActorAction::Report(error),
                },
                _ => ActorAction::Idle,
            },
        }
    }

    /// Gives the remote client up, once.
    fn terminate(&mut self) -> (action: ActorAction)
        requires
            old(self).client.inner.is_some(),
        ensures
            action matches ActorAction::Release(client) && old(self).client.inner == Some(client),
            final(self).client.inner.is_none(),
            final(self).state is Terminated,
            final(self).in_flight == old(self).in_flight,
            final(self).options == old(self).options,
            final(self).request_rx == old(self).request_rx,
    {
        self.state = ActorState::Terminated;
        match self.client.release() {
            Some(client) => ActorAction::Release(client),
            None => ActorAction::Idle,
        }
    }

    /// The actor's end of the queue, for whoever runs the actor to wait on
    /// it. It is handed out only while the actor is ready: before the remote
    /// client is there, and after the queue was closed or dropped, there is
    /// nothing to wait for.
    pub fn queue(&mut self) -> (queue: Option<&mut UnboundedReceiver<Request>>)
        requires
            old(self).well_formed(),
        ensures
            queue.is_some() <==> old(self)@.state is Ready,
            final(self).well_formed(),
            final(self)@ == old(self)@,
            final(self).spec_options() == old(self).spec_options(),
            final(self).spec_client() == old(self).spec_client(),
    {
        match self.state {
            ActorState::Ready => self.request_rx.as_mut(),
            _ => None,
        }
    }

    /// The event that one look into the queue amounts to, if it amounts to
    /// one: an envelope that was waiting, or the end of the queue. A queue
    /// that is merely empty is no event.
    pub open spec fn spec_found(polled: Polled<Request>) -> Option<ActorEvent> {
        match polled {
            Polled::Message(envelope) => Some(ActorEvent::Enqueued(envelope)),
            Polled::Empty => None,
            Polled::Closed => Some(ActorEvent::QueueClosed),
        }
    }

    /// Takes in what one look into the queue found, as [`Actor::step`]
    /// takes in the event that it amounts to: the envelope that was found
    /// is the one that is spawned. An empty queue changes nothing and asks
    /// for nothing.
    pub fn take(&mut self, polled: Polled<Request>) -> (action: Option<ActorAction>)
        requires
            old(self).well_formed(),
        ensures
            final(self).well_formed(),
            final(self).spec_options() == old(self).spec_options(),
            match Self::spec_found(polled) {
                Some(event) => {
                    &&& action matches Some(taken)
                    &&& final(self)@ == old(self)@.next(event.kind())
                    &&& taken.kind() == old(self)@.action(event.kind())
                    &&& taken.carries(event, old(self).spec_client())
                    &&& final(self).spec_client() == (if final(self)@.state is Terminated {
                        None
                    } else {
                        old(self).spec_client()
                    })
                },
                None => {
                    &&& action.is_none()
                    &&& final(self)@ == old(self)@
                    &&& final(self).spec_client() == old(self).spec_client()
                },
            },
    {
        match polled {
            Polled::Message(envelope) => Some(self.step(ActorEvent::Enqueued(envelope))),
            Polled::Empty => None,
            Polled::Closed => Some(self.step(ActorEvent::QueueClosed)),
        }
    }

    /// Looks into the queue without waiting and takes in what is found, as
    /// [`Actor::take`] says for each finding. The queue is read only while
    /// the actor is ready: in every other state nothing is found and
    /// nothing changes. What a ready actor finds is the handles' to decide.
    pub fn poll(&mut self) -> (action: Option<ActorAction>)
        requires
            old(self).well_formed(),
        ensures
            final(self).well_formed(),
            final(self).spec_options() == old(self).spec_options(),
            !(old(self)@.state is Ready) ==> action.is_none(),
            action.is_none() ==> final(self)@ == old(self)@ && final(self).spec_client() == old(
                self,
            ).spec_client(),
            action matches Some(taken) ==> {
                ||| (final(self)@ == old(self)@.next(EventKind::Enqueued) && taken.kind() == old(
                    self,
                )@.action(EventKind::Enqueued))
                ||| (final(self)@ == old(self)@.next(EventKind::QueueClosed) && taken.kind()
                    == old(self)@.action(EventKind::QueueClosed))
            },
            action matches Some(ActorAction::Release(client)) ==> old(self).spec_client() == Some(
                client,
            ),
            final(self).spec_client() == (if final(self)@.state is Terminated {
                None
            } else {
                old(self).spec_client()
            }),
    {
        match self.state {
            ActorState::Ready => {},
            _ => {
                return None;
            },
        }
        let polled = match &mut self.request_rx {
            Some(receiver) => poll_queue(receiver),
            None => Polled::Closed,
        };
        self.take(polled)
    }
}

} // verus!
