//! The messages that travel between two services.

use vstd::prelude::*;
use crate::error::Error;

verus! {

/// A request to run `method` of the member `member` of the object `uuid`.
#[derive(Debug)]
pub struct FunctionCall<T> {
    /// The caller's number for this call; the reply carries it back.
    pub id: u64,
    /// The object that the call addresses.
    pub uuid: u128,
    /// The member of the object whose method is called.
    pub member: String,
    /// The method called.
    pub method: String,
    /// The method's arguments.
    pub arguments: T,
}

/// The value that a call returned.
#[derive(Debug)]
pub struct ReturnValue<T> {
    /// The number of the call answered.
    pub id: u64,
    /// What the call returned.
    pub result: T,
}

/// The error that a call ended with.
#[derive(Debug)]
pub struct ErrorResult<E> {
    /// The number of the call answered.
    pub id: u64,
    /// What went wrong.
    pub error: Error<E>,
}

/// One message on the wire.
#[derive(Debug)]
pub enum Message<T, E> {
    /// A call to an object served by the receiver.
    Call(FunctionCall<T>),
    /// A call of the receiver's returned.
    Return(ReturnValue<serde_json::Value>),
    /// A call of the receiver's failed.
    Error(ErrorResult<E>),
}

/// The number of the call that a message answers; `None` for a call.
pub open spec fn answered_call<T, E>(msg: Message<T, E>) -> Option<u64> {
    match msg {
        Message::Call(_) => None,
        Message::Return(ret) => Some(ret.id),
        Message::Error(err) => Some(err.id),
    }
}

impl<T, E> Message<T, E> {
    /// The number of the call that this message answers; `None` for a call.
    pub fn answered_call_id(&self) -> (r: Option<u64>)
        ensures
            r == answered_call(*self),
    {
        match self {
            Message::Call(_) => None,
            Message::Return(ret) => Some(ret.id),
            Message::Error(err) => Some(err.id),
        }
    }
}

/// The message that answers call `id` once the called object has run it:
/// the object's own reply when it succeeded, else the error addressed to `id`.
pub open spec fn reply_spec<E>(id: u64, outcome: Result<Message<(), E>, Error<E>>) -> Message<(), E> {
    match outcome {
        Ok(message) => message,
        Err(error) => Message::Error(ErrorResult { id, error }),
    }
}

/// Builds the reply to call `id` from what running it gave.
pub fn reply_message<E>(id: u64, outcome: Result<Message<(), E>, Error<E>>) -> (r: Message<(), E>)
    ensures
        r == reply_spec(id, outcome),
        outcome matches Ok(m) ==> r == m,
        outcome matches Err(e) ==> r == Message::<(), E>::Error(ErrorResult { id, error: e }),
{
    match outcome {
        Ok(message) => message,
        Err(error) => Message::Error(ErrorResult { id, error }),
    }
}

/// A successful call is answered with the object's own reply, unchanged:
/// a returned value keeps the number of the call it answers.
pub proof fn lemma_success_sends_own_reply<E>(id: u64, m: Message<(), E>)
    ensures
        reply_spec(id, Ok(m)) == m,
        answered_call(reply_spec(id, Ok(m))) == answered_call(m),
        m matches Message::Return(ret) ==> reply_spec(id, Ok(m)) matches Message::Return(r2) && r2.id
            == ret.id && r2.result == ret.result,
{
}

/// A failed call is answered with an error that names the call.
pub proof fn lemma_failure_answers_its_call<E>(id: u64, error: Error<E>)
    ensures
        answered_call(reply_spec(id, Err(error))) == Some(id),
        reply_spec(id, Err(error)) matches Message::Error(r) && r.error == error,
{
}

} // verus!
