//! A language worker for a Functions-as-a-Service host: the decisions of its
//! bidirectional streaming protocol, its function registry, its invocation
//! context, logging and fault handling, and its outbound queue.
pub mod context;
pub mod dispatch;
pub mod fault;
pub mod messages;
pub mod outbox;
pub mod registry;
pub mod run;
pub mod text;
pub mod worker;
