//! The fault boundary around one invocation: what is answered and what is
//! logged when the invoker terminates abnormally.
use crate::context::{log_record, InvocationContext, is_tagged_log};
use crate::messages::{Content, InvocationResponse, LogLevel, Status, StatusResult, StreamingMessage};
use crate::text::{decimal, decimal_string, panicked_string, panicked_text, unknown_name, unknown_name_string};
use vstd::prelude::*;
use vstd::string::*;

verus! {

/// Where in the source a fault was raised.
pub struct SourceLocation {
    pub file: String,
    pub line: u32,
    pub column: u32,
}

/// How an invoker ended: with a response, or with a fault.
pub enum InvocationOutcome {
    Returned(InvocationResponse),
    Faulted,
}

/// The fault payload as text: the payload's own text where it had one.
pub open spec fn payload_text_of(payload: Option<String>) -> Seq<char> {
    match payload {
        Some(p) => p@,
        None => unknown_name(),
    }
}

/// The diagnostic logged for a fault.
pub open spec fn diagnostic_text(
    function_name: Seq<char>,
    payload: Seq<char>,
    location: Option<SourceLocation>,
    backtrace: Seq<char>,
) -> Seq<char> {
    let head = "Azure Function '"@ + function_name + "' panicked with '"@ + payload + "'"@;
    match location {
        Some(l) => head + ", "@ + l.file@ + ":"@ + decimal(l.line as nat) + ":"@ + decimal(
            l.column as nat,
        ) + backtrace,
        None => head + backtrace,
    }
}

/// `m` is an `InvocationResponse` for invocation `id` with the given status and text.
pub open spec fn is_invocation_response(
    m: StreamingMessage,
    id: Seq<char>,
    status: Status,
    text: Seq<char>,
) -> bool {
    match m.content {
        Some(Content::InvocationResponse(r)) => {
            &&& r.invocation_id@ == id
            &&& r.result.status == status
            &&& r.result.result@ == text
        },
        _ => false,
    }
}

pub fn payload_text(payload: Option<String>) -> (r: String)
    ensures
        r@ == payload_text_of(payload),
{
    match payload {
        Some(p) => p,
        None => unknown_name_string(),
    }
}

/// The diagnostic for a fault raised while `ctx` was bound: the function name,
/// the payload, the location where known, and the stack trace.
pub fn fault_diagnostic(
    ctx: &InvocationContext,
    payload: Option<String>,
    location: Option<SourceLocation>,
    backtrace: &String,
) -> (r: String)
    ensures
        r@ == diagnostic_text(
            ctx.active_function_name(),
            payload_text_of(payload),
            location,
            backtrace@,
        ),
{
    let mut r = String::from_str("Azure Function '");
    let name = ctx.function_name_string();
    r.append(name.as_str());
    r.append("' panicked with '");
    let p = payload_text(payload);
    r.append(p.as_str());
    r.append("'");
    match location {
        Some(l) => {
            r.append(", ");
            r.append(l.file.as_str());
            r.append(":");
            let line = decimal_string(l.line);
            r.append(line.as_str());
            r.append(":");
            let column = decimal_string(l.column);
            r.append(column.as_str());
        },
        None => {},
    }
    r.append(backtrace.as_str());
    r
}

/// The error-level log record for a fault, tagged with the faulting invocation.
pub fn fault_log(
    ctx: &InvocationContext,
    payload: Option<String>,
    location: Option<SourceLocation>,
    backtrace: &String,
) -> (m: StreamingMessage)
    ensures
        is_tagged_log(
            m,
            *ctx,
            LogLevel::Error,
            diagnostic_text(ctx.active_function_name(), payload_text_of(payload), location, backtrace@),
        ),
{
    let text = fault_diagnostic(ctx, payload, location, backtrace);
    log_record(ctx, LogLevel::Error, text)
}

/// The failure response for a faulted invocation, addressed to the invocation
/// bound in `ctx`.
pub fn fault_response(ctx: &InvocationContext) -> (r: InvocationResponse)
    ensures
        r.invocation_id@ == ctx.active_invocation_id(),
        r.result.status == Status::Failure,
        r.result.result@ == panicked_text(),
{
    InvocationResponse {
        invocation_id: ctx.invocation_id_string(),
        result: StatusResult { status: Status::Failure, result: panicked_string() },
    }
}

/// Ends an invocation: the invoker's own response goes out as it is, a fault
/// becomes a failure response, and the context is cleared either way.
pub fn finish_invocation(ctx: &mut InvocationContext, outcome: InvocationOutcome) -> (m:
    StreamingMessage)
    ensures
        final(ctx).is_idle(),
        outcome matches InvocationOutcome::Returned(r) ==> m.content == Some(
            Content::InvocationResponse(r),
        ),
        outcome is Faulted ==> is_invocation_response(
            m,
            old(ctx).active_invocation_id(),
            Status::Failure,
            panicked_text(),
        ),
{
    let response = match outcome {
        InvocationOutcome::Returned(r) => r,
        InvocationOutcome::Faulted => fault_response(ctx),
    };
    ctx.clear();
    StreamingMessage { content: Some(Content::InvocationResponse(response)) }
}

} // verus!
