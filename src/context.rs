//! Per-invocation ambient state, and the sink that turns log records into
//! streamed `RpcLog` messages tagged with it.
use crate::messages::{Content, LogLevel, RpcLog, StreamingMessage};
use crate::text::{unknown_name, unknown_name_string};
use vstd::prelude::*;

verus! {

/// The function name and invocation id bound to one task while it runs an
/// invocation; both slots are empty on any other task.
pub struct InvocationContext {
    pub function_name: Option<String>,
    pub invocation_id: Option<String>,
}

impl InvocationContext {
    /// The invocation id that log records are tagged with: empty when idle.
    pub open spec fn active_invocation_id(&self) -> Seq<char> {
        match self.invocation_id {
            Some(id) => id@,
            None => Seq::empty(),
        }
    }

    /// The function name that log records are tagged with.
    pub open spec fn active_function_name(&self) -> Seq<char> {
        match self.function_name {
            Some(name) => name@,
            None => unknown_name(),
        }
    }

    pub open spec fn is_idle(&self) -> bool {
        self.function_name is None && self.invocation_id is None
    }

    /// A context with no invocation bound.
    pub fn new() -> (r: InvocationContext)
        ensures
            r.is_idle(),
    {
        InvocationContext { function_name: None, invocation_id: None }
    }

    /// Binds the context to an invocation as it begins.
    pub fn begin(&mut self, function_name: &String, invocation_id: &String)
        ensures
            final(self).function_name == Some(*function_name),
            final(self).invocation_id == Some(*invocation_id),
            final(self).active_invocation_id() == invocation_id@,
            final(self).active_function_name() == function_name@,
    {
        self.function_name = Some(function_name.clone());
        self.invocation_id = Some(invocation_id.clone());
    }

    /// Clears both slots as an invocation ends, whatever its outcome.
    pub fn clear(&mut self)
        ensures
            final(self).is_idle(),
            final(self).active_invocation_id() == Seq::<char>::empty(),
            final(self).active_function_name() == unknown_name(),
    {
        self.function_name = None;
        self.invocation_id = None;
    }

    pub fn invocation_id_string(&self) -> (r: String)
        ensures
            r@ == self.active_invocation_id(),
    {
        match &self.invocation_id {
            Some(id) => id.clone(),
            None => String::new(),
        }
    }

    pub fn function_name_string(&self) -> (r: String)
        ensures
            r@ == self.active_function_name(),
    {
        match &self.function_name {
            Some(name) => name.clone(),
            None => unknown_name_string(),
        }
    }
}

/// How severe a level is; larger is more severe.
pub open spec fn severity(level: LogLevel) -> nat {
    match level {
        LogLevel::Trace => 0,
        LogLevel::Debug => 1,
        LogLevel::Information => 2,
        LogLevel::Warning => 3,
        LogLevel::Error => 4,
        LogLevel::Critical => 5,
    }
}

fn severity_of(level: LogLevel) -> (r: u8)
    ensures
        r as nat == severity(level),
{
    match level {
        LogLevel::Trace => 0,
        LogLevel::Debug => 1,
        LogLevel::Information => 2,
        LogLevel::Warning => 3,
        LogLevel::Error => 4,
        LogLevel::Critical => 5,
    }
}

/// `m` is an `RpcLog` at `level` with text `text`, tagged with what `ctx` holds.
pub open spec fn is_tagged_log(
    m: StreamingMessage,
    ctx: InvocationContext,
    level: LogLevel,
    text: Seq<char>,
) -> bool {
    match m.content {
        Some(Content::RpcLog(l)) => {
            &&& l.invocation_id@ == ctx.active_invocation_id()
            &&& l.category@ == ctx.active_function_name()
            &&& l.level == level
            &&& l.message@ == text
        },
        _ => false,
    }
}

/// The logger sink: it forwards records at or above its threshold to the
/// outbound queue as `RpcLog` messages.
pub struct LogSink {
    pub threshold: LogLevel,
}

impl LogSink {
    /// The sink installed at worker start: it forwards information and above.
    pub open spec fn standard_spec() -> LogSink {
        LogSink { threshold: LogLevel::Information }
    }

    /// The sink installed at worker start: it forwards information and above.
    pub fn standard() -> (r: LogSink)
        ensures
            r == LogSink::standard_spec(),
    {
        LogSink { threshold: LogLevel::Information }
    }

    pub open spec fn admits(&self, level: LogLevel) -> bool {
        severity(level) >= severity(self.threshold)
    }

    /// Whether a record at `level` is forwarded.
    pub fn enabled(&self, level: LogLevel) -> (r: bool)
        ensures
            r == self.admits(level),
    {
        severity_of(level) >= severity_of(self.threshold)
    }

    /// The message for a record written on a task whose context is `ctx`, or
    /// nothing when the level is below the threshold.
    pub fn emit(&self, ctx: &InvocationContext, level: LogLevel, text: String) -> (r: Option<
        StreamingMessage,
    >)
        ensures
            r is Some <==> self.admits(level),
            r matches Some(m) ==> is_tagged_log(m, *ctx, level, text@),
    {
        if self.enabled(level) {
            Some(log_record(ctx, level, text))
        } else {
            None
        }
    }
}

/// An `RpcLog` message carrying `text`, tagged with the invocation id and
/// function name that `ctx` holds (empty and `<unknown>` outside any invocation).
pub fn log_record(ctx: &InvocationContext, level: LogLevel, text: String) -> (m: StreamingMessage)
    ensures
        is_tagged_log(m, *ctx, level, text@),
{
    StreamingMessage {
        content: Some(
            Content::RpcLog(
                RpcLog {
                    invocation_id: ctx.invocation_id_string(),
                    category: ctx.function_name_string(),
                    level,
                    message: text,
                },
            ),
        ),
    }
}

} // verus!
