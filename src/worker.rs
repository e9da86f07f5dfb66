//! The worker's lifecycle: the handshake, the dispatch of the host's requests,
//! and shutdown. Each step takes one event and says what to do next; the
//! caller performs the action and reports the next event.
use crate::context::LogSink;
use crate::fault::{is_invocation_response, InvocationOutcome};
use crate::dispatch::{
    handle_function_load_request, handle_invocation_request, handle_worker_status_request,
    load_bindings, load_outcome, Dispatch, Invocation,
};
use crate::messages::{
    Content, FunctionLoadRequest, InvocationRequest, StartStream, Status, StatusResult,
    StreamingMessage, WorkerInitResponse,
};
use crate::registry::Registry;
use crate::text::{panicked_text, unknown_id_text};
use vstd::prelude::*;

verus! {

#[derive(Clone, Copy, Debug, PartialEq, Eq, Structural)]
pub enum Phase {
    /// The stream is open and the host's init request has not come yet.
    AwaitingInit,
    /// Initialised: requests are dispatched.
    Running,
    /// The stream has ended, or the worker stopped.
    Closed,
}

/// What the worker learns from outside.
pub enum Event {
    Received(StreamingMessage),
    StreamEnded,
    Interrupted,
}

/// What the worker asks its runtime to do.
pub enum Action {
    /// Install the logger sink and the fault handler, then send the message.
    Initialize(LogSink, StreamingMessage),
    /// Send the message.
    Send(StreamingMessage),
    /// Run the invocation on a task of its own.
    Spawn(Invocation),
    /// Nothing to do.
    Ignore,
    /// Close the outbound queue once drained, and exit cleanly.
    Shutdown,
    /// Stop the worker with this diagnostic.
    Fatal(String),
}

pub struct Worker {
    phase: Phase,
    registry: Registry,
    worker_id: String,
    worker_version: String,
    host_version: Option<String>,
}

/// The message is a `FunctionLoadResponse` for `req`, as `load_outcome` says.
pub open spec fn answers_load(
    m: StreamingMessage,
    names: Seq<String>,
    bound: Map<Seq<char>, nat>,
    req: FunctionLoadRequest,
) -> bool {
    match m.content {
        Some(Content::FunctionLoadResponse(r)) => {
            &&& r.function_id == req.function_id
            &&& (r.result.status, r.result.result@) == load_outcome(names, bound, req)
        },
        _ => false,
    }
}

/// The action handles an invocation request as `bound` says: a spawned task
/// for a bound id, an immediate failure for any other.
pub open spec fn handles_invocation(
    a: Action,
    names: Seq<String>,
    bound: Map<Seq<char>, nat>,
    req: InvocationRequest,
) -> bool {
    if bound.contains_key(req.function_id@) {
        match a {
            Action::Spawn(inv) => {
                &&& inv.request == req
                &&& inv.descriptor as nat == bound[req.function_id@]
                &&& inv.descriptor < names.len()
                &&& inv.function_name == names[inv.descriptor as int]
            },
            _ => false,
        }
    } else {
        match a {
            Action::Send(m) => match m.content {
                Some(Content::InvocationResponse(r)) => {
                    &&& r.invocation_id == req.invocation_id
                    &&& r.result.status == Status::Failure
                    &&& r.result.result@ == unknown_id_text(req.function_id@)
                },
                _ => false,
            },
            _ => false,
        }
    }
}

/// A message kind that the worker accepts and does nothing with.
pub open spec fn is_ignored(c: Content) -> bool {
    c is FileChangeEventRequest || c is InvocationCancel || c is FunctionEnvironmentReloadRequest
}

/// `m` is an `InvocationResponse` for invocation `id`.
pub open spec fn is_response_to(m: StreamingMessage, id: Seq<char>) -> bool {
    m.content matches Some(Content::InvocationResponse(r)) && r.invocation_id@ == id
}

/// How many of `ms` are `InvocationResponse`s for invocation `id`.
pub open spec fn responses_to(ms: Seq<StreamingMessage>, id: Seq<char>) -> nat
    decreases ms.len(),
{
    if ms.len() == 0 {
        0
    } else {
        responses_to(ms.drop_last(), id) + if is_response_to(ms.last(), id) {
            1nat
        } else {
            0nat
        }
    }
}

/// `m` is what `finish_invocation` sends for `inv` when the invoker ended with
/// `outcome`, on a task whose context `Invocation::begin` bound.
pub open spec fn completes(inv: Invocation, outcome: InvocationOutcome, m: StreamingMessage) -> bool {
    &&& outcome matches InvocationOutcome::Returned(r) ==> m.content == Some(
        Content::InvocationResponse(r),
    )
    &&& outcome is Faulted ==> is_invocation_response(
        m,
        inv.request.invocation_id@,
        Status::Failure,
        panicked_text(),
    )
}

/// The messages sent on account of an action: what it sends itself, and for
/// a spawned invocation, the message that completes it.
pub open spec fn sent_for(a: Action, completion: StreamingMessage) -> Seq<StreamingMessage> {
    match a {
        Action::Initialize(_, m) => seq![m],
        Action::Send(m) => seq![m],
        Action::Spawn(_) => seq![completion],
        _ => Seq::empty(),
    }
}

/// Every invocation request that the running worker takes in is answered by
/// exactly one message, an `InvocationResponse` carrying the request's
/// invocation id: at once for an unknown function, or when the spawned
/// invocation ends, whether the invoker returned (echoing the id, as invokers
/// do) or faulted.
pub proof fn lemma_invocation_answered_once(
    a: Action,
    names: Seq<String>,
    bound: Map<Seq<char>, nat>,
    req: InvocationRequest,
    outcome: InvocationOutcome,
    completion: StreamingMessage,
)
    requires
        handles_invocation(a, names, bound, req),
        a matches Action::Spawn(inv) ==> completes(inv, outcome, completion),
        outcome matches InvocationOutcome::Returned(r) ==> r.invocation_id == req.invocation_id,
    ensures
        sent_for(a, completion).len() == 1,
        responses_to(sent_for(a, completion), req.invocation_id@) == 1,
{
    let s = sent_for(a, completion);
    assert(s.drop_last() =~= Seq::<StreamingMessage>::empty());
    assert(responses_to(s.drop_last(), req.invocation_id@) == 0);
    assert(is_response_to(s.last(), req.invocation_id@));
}

impl Worker {
    pub closed spec fn phase(&self) -> Phase {
        self.phase
    }

    pub closed spec fn descriptors(&self) -> Seq<String> {
        self.registry.descriptors()
    }

    pub closed spec fn bindings(&self) -> Map<Seq<char>, nat> {
        self.registry.bindings()
    }

    pub closed spec fn worker_id(&self) -> Seq<char> {
        self.worker_id@
    }

    pub closed spec fn worker_version(&self) -> Seq<char> {
        self.worker_version@
    }

    pub closed spec fn host_version(&self) -> Option<String> {
        self.host_version
    }

    pub closed spec fn wf(&self) -> bool {
        self.registry.wf()
    }

    /// A worker whose stream is open, over the given function descriptors.
    pub fn new(worker_id: String, worker_version: String, descriptors: Vec<String>) -> (r: Worker)
        ensures
            r.wf(),
            r.phase() == Phase::AwaitingInit,
            r.descriptors() == descriptors@,
            r.bindings() == Map::<Seq<char>, nat>::empty(),
            r.worker_id() == worker_id@,
            r.worker_version() == worker_version@,
            r.host_version() is None,
    {
        Worker {
            phase: Phase::AwaitingInit,
            registry: Registry::new(descriptors),
            worker_id,
            worker_version,
            host_version: None,
        }
    }

    pub fn current_phase(&self) -> (r: Phase)
        ensures
            r == self.phase(),
    {
        self.phase
    }

    /// The version the host reported at init, once it has.
    pub fn reported_host_version(&self) -> (r: Option<&String>)
        ensures
            r matches Some(v) ==> self.host_version() == Some(*v),
            r is None <==> self.host_version() is None,
    {
        match &self.host_version {
            Some(v) => Some(v),
            None => None,
        }
    }

    /// The first message of the stream, which names this worker.
    pub fn start_stream(&self) -> (m: StreamingMessage)
        ensures
            m.content matches Some(Content::StartStream(s)) && s.worker_id@ == self.worker_id(),
    {
        StreamingMessage {
            content: Some(Content::StartStream(StartStream { worker_id: self.worker_id.clone() })),
        }
    }

    fn handle_worker_init_request(&mut self, req: StreamingMessage) -> (a: Action)
        requires
            old(self).wf(),
            old(self).phase() == Phase::AwaitingInit,
        ensures
            final(self).wf(),
            final(self).descriptors() == old(self).descriptors(),
            final(self).bindings() == old(self).bindings(),
            final(self).worker_id() == old(self).worker_id(),
            final(self).worker_version() == old(self).worker_version(),
            match req.content {
                Some(Content::WorkerInitRequest(init)) => {
                    &&& final(self).phase() == Phase::Running
                    &&& final(self).host_version() == Some(init.host_version)
                    &&& a matches Action::Initialize(sink, m)
                    &&& sink == LogSink::standard_spec()
                    &&& m.content matches Some(Content::WorkerInitResponse(r))
                    &&& r.worker_version@ == old(self).worker_version()
                    &&& r.result.status == Status::Success
                    &&& r.result.result@.len() == 0
                },
                _ => final(self).phase() == Phase::Closed && a is Fatal,
            },
    {
        match req.content {
            Some(Content::WorkerInitRequest(init)) => {
                self.host_version = Some(init.host_version);
                self.phase = Phase::Running;
                let response = WorkerInitResponse {
                    worker_version: self.worker_version.clone(),
                    result: StatusResult { status: Status::Success, result: String::new() },
                };
                Action::Initialize(
                    LogSink::standard(),
                    StreamingMessage { content: Some(Content::WorkerInitResponse(response)) },
                )
            },
            _ => {
                self.phase = Phase::Closed;
                Action::Fatal(String::from_str("expected a worker init request message from the host"))
            },
        }
    }

    fn handle_request(&mut self, req: StreamingMessage) -> (a: Action)
        requires
            old(self).wf(),
            old(self).phase() == Phase::Running,
        ensures
            final(self).wf(),
            final(self).descriptors() == old(self).descriptors(),
            final(self).worker_id() == old(self).worker_id(),
            final(self).worker_version() == old(self).worker_version(),
            final(self).host_version() == old(self).host_version(),
            match req.content {
                Some(Content::FunctionLoadRequest(load)) => {
                    &&& final(self).phase() == Phase::Running
                    &&& final(self).bindings() == load_bindings(
                        old(self).descriptors(),
                        old(self).bindings(),
                        load,
                    )
                    &&& a matches Action::Send(m)
                    &&& answers_load(m, old(self).descriptors(), old(self).bindings(), load)
                },
                Some(Content::InvocationRequest(inv)) => {
                    &&& final(self).phase() == Phase::Running
                    &&& final(self).bindings() == old(self).bindings()
                    &&& handles_invocation(a, old(self).descriptors(), old(self).bindings(), inv)
                },
                Some(Content::WorkerStatusRequest) => {
                    &&& final(self).phase() == Phase::Running
                    &&& final(self).bindings() == old(self).bindings()
                    &&& a matches Action::Send(m)
                    &&& m.content == Some(Content::WorkerStatusResponse)
                },
                Some(c) => if is_ignored(c) {
                    &&& final(self).phase() == Phase::Running
                    &&& final(self).bindings() == old(self).bindings()
                    &&& a is Ignore
                } else {
                    &&& final(self).phase() == Phase::Closed
                    &&& final(self).bindings() == old(self).bindings()
                    &&& a is Fatal
                },
                None => {
                    &&& final(self).phase() == Phase::Closed
                    &&& final(self).bindings() == old(self).bindings()
                    &&& a is Fatal
                },
            },
    {
        match req.content {
            Some(Content::FunctionLoadRequest(load)) => {
                let response = handle_function_load_request(&mut self.registry, load);
                Action::Send(StreamingMessage { content: Some(Content::FunctionLoadResponse(response)) })
            },
            Some(Content::InvocationRequest(inv)) => {
                match handle_invocation_request(&self.registry, inv) {
                    Dispatch::Spawn(invocation) => Action::Spawn(invocation),
                    Dispatch::Reply(response) => Action::Send(
                        StreamingMessage { content: Some(Content::InvocationResponse(response)) },
                    ),
                }
            },
            Some(Content::WorkerStatusRequest) => Action::Send(handle_worker_status_request()),
            Some(Content::FileChangeEventRequest) => Action::Ignore,
            Some(Content::InvocationCancel) => Action::Ignore,
            Some(Content::FunctionEnvironmentReloadRequest) => Action::Ignore,
            _ => {
                self.phase = Phase::Closed;
                Action::Fatal(String::from_str("unexpected message from host"))
            },
        }
    }

    /// One step of the worker: the handshake while awaiting init, dispatch
    /// while running, and shutdown when the stream ends or the worker is
    /// interrupted.
    pub fn step(&mut self, event: Event) -> (a: Action)
        requires
            old(self).wf(),
        ensures
            final(self).wf(),
            final(self).descriptors() == old(self).descriptors(),
            final(self).worker_id() == old(self).worker_id(),
            final(self).worker_version() == old(self).worker_version(),
            old(self).phase() == Phase::Running ==> final(self).host_version() == old(self).host_version(),
            !(event is Received) || old(self).phase() == Phase::Closed ==> {
                &&& final(self).phase() == Phase::Closed
                &&& final(self).bindings() == old(self).bindings()
                &&& final(self).host_version() == old(self).host_version()
                &&& if old(self).phase() == Phase::AwaitingInit && event is StreamEnded {
                    a is Fatal
                } else {
                    a is Shutdown
                }
            },
            old(self).phase() == Phase::AwaitingInit ==> match event {
                Event::Received(m) => match m.content {
                    Some(Content::WorkerInitRequest(init)) => {
                        &&& final(self).phase() == Phase::Running
                        &&& final(self).host_version() == Some(init.host_version)
                        &&& final(self).bindings() == old(self).bindings()
                        &&& a matches Action::Initialize(sink, out)
                        &&& sink == LogSink::standard_spec()
                        &&& out.content matches Some(Content::WorkerInitResponse(r))
                        &&& r.worker_version@ == old(self).worker_version()
                        &&& r.result.status == Status::Success
                    },
                    _ => final(self).phase() == Phase::Closed && a is Fatal,
                },
                _ => true,
            },
            old(self).phase() == Phase::Running ==> match event {
                Event::Received(m) => match m.content {
                    Some(Content::FunctionLoadRequest(load)) => {
                        &&& final(self).phase() == Phase::Running
                        &&& final(self).bindings() == load_bindings(
                            old(self).descriptors(),
                            old(self).bindings(),
                            load,
                        )
                        &&& a matches Action::Send(out)
                        &&& answers_load(out, old(self).descriptors(), old(self).bindings(), load)
                    },
                    Some(Content::InvocationRequest(inv)) => {
                        &&& final(self).phase() == Phase::Running
                        &&& final(self).bindings() == old(self).bindings()
                        &&& handles_invocation(a, old(self).descriptors(), old(self).bindings(), inv)
                    },
                    Some(Content::WorkerStatusRequest) => {
                        &&& final(self).phase() == Phase::Running
                        &&& final(self).bindings() == old(self).bindings()
                        &&& a matches Action::Send(out)
                        &&& out.content == Some(Content::WorkerStatusResponse)
                    },
                    Some(c) => if is_ignored(c) {
                        &&& final(self).phase() == Phase::Running
                        &&& final(self).bindings() == old(self).bindings()
                        &&& a is Ignore
                    } else {
                        &&& final(self).phase() == Phase::Closed
                        &&& final(self).bindings() == old(self).bindings()
                        &&& a is Fatal
                    },
                    None => {
                        &&& final(self).phase() == Phase::Closed
                        &&& final(self).bindings() == old(self).bindings()
                        &&& a is Fatal
                    },
                },
                _ => true,
            },
    {
        match self.phase {
            Phase::Closed => Action::Shutdown,
            Phase::AwaitingInit => match event {
                Event::Received(m) => self.handle_worker_init_request(m),
                Event::StreamEnded => {
                    self.phase = Phase::Closed;
                    Action::Fatal(String::from_str("expected a worker init request"))
                },
                Event::Interrupted => {
                    self.phase = Phase::Closed;
                    Action::Shutdown
                },
            },
            Phase::Running => match event {
                Event::Received(m) => self.handle_request(m),
                _ => {
                    self.phase = Phase::Closed;
                    Action::Shutdown
                },
            },
        }
    }
}

} // verus!
