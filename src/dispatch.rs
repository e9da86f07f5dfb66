//! Routing of the host's requests once the worker is initialised: function
//! loads, invocations and status probes.
use crate::context::InvocationContext;
use crate::messages::{
    Content, FunctionLoadRequest, FunctionLoadResponse, InvocationRequest, InvocationResponse,
    Status, StatusResult, StreamingMessage,
};
use crate::registry::{bind, can_bind, Registry};
use crate::text::{
    missing_metadata_string, missing_metadata_text, unknown_function_string,
    unknown_function_text, unknown_id_string, unknown_id_text,
};
use vstd::prelude::*;

verus! {

/// An invocation to run on a task of its own: the descriptor to invoke, its
/// name, and the request.
pub struct Invocation {
    pub descriptor: usize,
    pub function_name: String,
    pub request: InvocationRequest,
}

impl Invocation {
    /// Binds `ctx`, the context of the task that runs this invocation.
    pub fn begin(&self, ctx: &mut InvocationContext)
        ensures
            final(ctx).active_invocation_id() == self.request.invocation_id@,
            final(ctx).active_function_name() == self.function_name@,
    {
        ctx.begin(&self.function_name, &self.request.invocation_id);
    }
}

/// What to do with an `InvocationRequest`.
pub enum Dispatch {
    /// Answer at once.
    Reply(InvocationResponse),
    /// Run on a task of its own.
    Spawn(Invocation),
}

/// The status and text that a load request is answered with.
pub open spec fn load_outcome(
    names: Seq<String>,
    bound: Map<Seq<char>, nat>,
    req: FunctionLoadRequest,
) -> (Status, Seq<char>) {
    match req.metadata {
        None => (Status::Failure, missing_metadata_text()),
        Some(md) => if can_bind(names, bound, req.function_id@, md.name@) {
            (Status::Success, Seq::empty())
        } else {
            (Status::Failure, unknown_function_text(md.name@))
        },
    }
}

/// The bindings after a load request.
pub open spec fn load_bindings(
    names: Seq<String>,
    bound: Map<Seq<char>, nat>,
    req: FunctionLoadRequest,
) -> Map<Seq<char>, nat> {
    match req.metadata {
        None => bound,
        Some(md) => bind(names, bound, req.function_id@, md.name@),
    }
}

/// Registers the requested function and says whether that worked.
pub fn handle_function_load_request(registry: &mut Registry, req: FunctionLoadRequest) -> (r:
    FunctionLoadResponse)
    requires
        old(registry).wf(),
    ensures
        final(registry).wf(),
        final(registry).descriptors() == old(registry).descriptors(),
        final(registry).bindings() == load_bindings(
            old(registry).descriptors(),
            old(registry).bindings(),
            req,
        ),
        r.function_id == req.function_id,
        (r.result.status, r.result.result@) == load_outcome(
            old(registry).descriptors(),
            old(registry).bindings(),
            req,
        ),
{
    let result = match &req.metadata {
        Some(metadata) => {
            if registry.register(&req.function_id, &metadata.name) {
                StatusResult { status: Status::Success, result: String::new() }
            } else {
                StatusResult {
                    status: Status::Failure,
                    result: unknown_function_string(&metadata.name),
                }
            }
        },
        None => StatusResult { status: Status::Failure, result: missing_metadata_string() },
    };
    FunctionLoadResponse { function_id: req.function_id, result }
}

/// Looks the requested function up: a bound one is run on a task of its own,
/// an unknown id is answered with a failure at once.
pub fn handle_invocation_request(registry: &Registry, req: InvocationRequest) -> (r: Dispatch)
    requires
        registry.wf(),
    ensures
        registry.bindings().contains_key(req.function_id@) <==> r is Spawn,
        r matches Dispatch::Spawn(inv) ==> {
            &&& inv.request == req
            &&& inv.descriptor as nat == registry.bindings()[req.function_id@]
            &&& inv.descriptor < registry.descriptors().len()
            &&& inv.function_name == registry.descriptors()[inv.descriptor as int]
        },
        r matches Dispatch::Reply(resp) ==> {
            &&& resp.invocation_id == req.invocation_id
            &&& resp.result.status == Status::Failure
            &&& resp.result.result@ == unknown_id_text(req.function_id@)
        },
{
    match registry.get(&req.function_id) {
        Some(descriptor) => {
            let function_name = registry.name(descriptor).clone();
            Dispatch::Spawn(Invocation { descriptor, function_name, request: req })
        },
        None => {
            let error = unknown_id_string(&req.function_id);
            Dispatch::Reply(
                InvocationResponse {
                    invocation_id: req.invocation_id,
                    result: StatusResult { status: Status::Failure, result: error },
                },
            )
        },
    }
}

/// The (empty) answer to a status probe.
pub fn handle_worker_status_request() -> (m: StreamingMessage)
    ensures
        m.content == Some(Content::WorkerStatusResponse),
{
    StreamingMessage { content: Some(Content::WorkerStatusResponse) }
}

} // verus!
