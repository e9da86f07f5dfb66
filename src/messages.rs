//! The structured messages exchanged with the host over the bidirectional stream.
//!
//! Only the fields whose meaning the worker depends on are modelled; the wire
//! encoding belongs to the RPC framework.
use vstd::prelude::*;

verus! {

/// Outcome carried by a `StatusResult`.
#[derive(Clone, Copy, Debug, PartialEq, Eq, Structural)]
pub enum Status {
    Failure,
    Success,
    Cancelled,
}

/// `{status, result}` attached to every response.
#[derive(Debug)]
pub struct StatusResult {
    pub status: Status,
    pub result: String,
}

/// Metadata of a function that the host asks the worker to load.
#[derive(Debug)]
pub struct RpcFunctionMetadata {
    pub name: String,
}

#[derive(Debug)]
pub struct StartStream {
    pub worker_id: String,
}

#[derive(Debug)]
pub struct WorkerInitRequest {
    pub host_version: String,
}

#[derive(Debug)]
pub struct WorkerInitResponse {
    pub worker_version: String,
    pub result: StatusResult,
}

#[derive(Debug)]
pub struct FunctionLoadRequest {
    pub function_id: String,
    pub metadata: Option<RpcFunctionMetadata>,
}

#[derive(Debug)]
pub struct FunctionLoadResponse {
    pub function_id: String,
    pub result: StatusResult,
}

#[derive(Debug)]
pub struct InvocationRequest {
    pub invocation_id: String,
    pub function_id: String,
}

#[derive(Debug)]
pub struct InvocationResponse {
    pub invocation_id: String,
    pub result: StatusResult,
}

/// Severity of a streamed log record.
#[derive(Clone, Copy, Debug, PartialEq, Eq, Structural)]
pub enum LogLevel {
    Trace,
    Debug,
    Information,
    Warning,
    Error,
    Critical,
}

/// A log record streamed to the host, tagged with the invocation it belongs to.
#[derive(Debug)]
pub struct RpcLog {
    pub invocation_id: String,
    pub category: String,
    pub level: LogLevel,
    pub message: String,
}

/// The variants of the streaming protocol's tagged union.
#[derive(Debug)]
pub enum Content {
    StartStream(StartStream),
    WorkerInitRequest(WorkerInitRequest),
    WorkerInitResponse(WorkerInitResponse),
    WorkerStatusRequest,
    WorkerStatusResponse,
    FunctionLoadRequest(FunctionLoadRequest),
    FunctionLoadResponse(FunctionLoadResponse),
    InvocationRequest(InvocationRequest),
    InvocationResponse(InvocationResponse),
    RpcLog(RpcLog),
    FileChangeEventRequest,
    InvocationCancel,
    FunctionEnvironmentReloadRequest,
}

/// One message of the stream; `content` is absent when the host sent a variant
/// that this worker does not know.
#[derive(Debug)]
pub struct StreamingMessage {
    pub content: Option<Content>,
}

} // verus!
