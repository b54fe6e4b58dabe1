//! A small remote-object protocol: calls, replies and errors travel as
//! NUL-terminated JSON frames over one byte stream. This crate holds the
//! protocol's state and its decisions: the table of calls that wait for
//! replies, the table of served objects, the framing, the naming of objects
//! and the error type. Reading, writing, locking and running tasks are left
//! to the caller.

mod external;

pub mod awaiters;
pub mod error;
pub mod frame;
pub mod identity;
pub mod message;
pub mod objects;

pub use awaiters::{Awaiter, Awaiters, Incoming, ReplyPoll};
pub use error::{as_error, never_invoke, Error, Result, UserErrorHolder};
pub use message::{ErrorResult, FunctionCall, Message, ReturnValue};
pub use objects::Objects;
