//! The table of calls that are waiting for their replies.

use vstd::prelude::*;
use std::collections::HashMap;
use crate::error::Error;
use crate::frame::{encode_frame, frame_spec};
use crate::message::{answered_call, ErrorResult, FunctionCall, Message, ReturnValue};

verus! {

broadcast use vstd::std_specs::hash::group_hash_axioms;

/// Where one issued call stands.
#[derive(Debug)]
pub enum Awaiter<E> {
    /// Issued; neither polled nor answered yet.
    Empty,
    /// Polled before its reply came: the handle to signal when it comes.
    Waker(std::task::Waker),
    /// Answered with a value that nobody has collected yet.
    Return(ReturnValue<serde_json::Value>),
    /// Answered with an error that nobody has collected yet.
    Error(ErrorResult<E>),
}

/// What a service does with a message it has read.
#[derive(Debug)]
pub enum Incoming {
    /// Run the call on the object it addresses.
    Launch(FunctionCall<serde_json::Value>),
    /// Signal this handle, if any: the call it waits on has been answered.
    Wake(Option<std::task::Waker>),
}

/// What polling a call's reply gives.
#[derive(Debug)]
pub enum ReplyPoll<E> {
    /// The reply has come: the call's value or its error.
    Ready(Result<serde_json::Value, Error<E>>),
    /// No reply yet; the handle passed in will be signalled when it comes.
    Pending,
}

/// The calls that a service has issued and not yet seen the reply of,
/// keyed by call number.
pub struct Awaiters<E> {
    table: HashMap<u64, Awaiter<E>>,
}

impl<E> View for Awaiters<E> {
    type V = Map<u64, Awaiter<E>>;

    closed spec fn view(&self) -> Map<u64, Awaiter<E>> {
        self.table@
    }
}

/// The table once a call numbered `id` has been issued.
pub open spec fn after_register<E>(t: Map<u64, Awaiter<E>>, id: u64) -> Map<u64, Awaiter<E>> {
    t.insert(id, Awaiter::Empty)
}

/// The table once `msg` has been received: a reply is stored under the
/// number of the call it answers; a call leaves the table as it was.
pub open spec fn after_receive<E>(
    t: Map<u64, Awaiter<E>>,
    msg: Message<serde_json::Value, E>,
) -> Map<u64, Awaiter<E>> {
    match msg {
        Message::Call(_) => t,
        Message::Return(ret) => t.insert(ret.id, Awaiter::Return(ret)),
        Message::Error(err) => t.insert(err.id, Awaiter::Error(err)),
    }
}

/// The handle to signal when `msg` is received: the one that the answered
/// call's entry held, if it held one.
pub open spec fn woken_by<E>(
    t: Map<u64, Awaiter<E>>,
    msg: Message<serde_json::Value, E>,
) -> Option<std::task::Waker> {
    match answered_call(msg) {
        Some(id) => match t[id] {
            Awaiter::Waker(w) => Some(w),
            _ => None,
        },
        None => None,
    }
}

/// What receiving `msg` asks the service to do.
pub open spec fn incoming_spec<E>(
    t: Map<u64, Awaiter<E>>,
    msg: Message<serde_json::Value, E>,
) -> Incoming {
    match msg {
        Message::Call(call) => Incoming::Launch(call),
        _ => Incoming::Wake(woken_by(t, msg)),
    }
}

/// What polling an entry gives: its reply, once it has one.
pub open spec fn poll_spec<E>(a: Awaiter<E>) -> ReplyPoll<E> {
    match a {
        Awaiter::Return(ret) => ReplyPoll::Ready(Ok(ret.result)),
        Awaiter::Error(err) => ReplyPoll::Ready(Err(err.error)),
        _ => ReplyPoll::Pending,
    }
}

/// The table once call `id` has been polled with handle `w`: an answered
/// entry is taken out; an unanswered one keeps `w` to signal.
pub open spec fn after_poll<E>(
    t: Map<u64, Awaiter<E>>,
    id: u64,
    w: std::task::Waker,
) -> Map<u64, Awaiter<E>> {
    match t[id] {
        Awaiter::Return(_) => t.remove(id),
        Awaiter::Error(_) => t.remove(id),
        _ => t.insert(id, Awaiter::Waker(w)),
    }
}

/// Whether `msg` can be received by a table `t`: a reply must answer a call
/// that the table holds.
pub open spec fn receivable<E>(t: Map<u64, Awaiter<E>>, msg: Message<serde_json::Value, E>) -> bool {
    answered_call(msg) matches Some(id) ==> t.contains_key(id)
}

impl<E> Awaiters<E> {
    /// An empty table.
    pub fn new() -> (r: Self)
        ensures
            r@ == Map::<u64, Awaiter<E>>::empty(),
    {
        Awaiters { table: HashMap::new() }
    }

    /// Whether call `id` is in the table.
    pub fn contains(&self, id: u64) -> (r: bool)
        ensures
            r == self@.contains_key(id),
    {
        self.table.contains_key(&id)
    }

    /// Records that call `id` has been issued and waits for its reply.
    pub fn register_call(&mut self, id: u64)
        ensures
            final(self)@ == after_register(old(self)@, id),
            final(self)@ == old(self)@.insert(id, Awaiter::Empty),
    {
        self.table.insert(id, Awaiter::Empty);
    }

    /// Readies the encoded call numbered `id` for sending: the call is
    /// recorded as waiting for its reply before its frame is handed back to
    /// be written, so a reply can never arrive for a call the table lacks.
    pub fn prepare_call(&mut self, id: u64, payload: &[u8]) -> (frame: Vec<u8>)
        requires
            payload@.len() < usize::MAX,
        ensures
            final(self)@ == after_register(old(self)@, id),
            final(self)@ == old(self)@.insert(id, Awaiter::Empty),
            final(self)@.contains_key(id),
            frame@ == frame_spec(payload@),
            frame@.len() == payload@.len() + 1,
            frame@.subrange(0, payload@.len() as int) == payload@,
            frame@[payload@.len() as int] == 0u8,
    {
        self.register_call(id);
        encode_frame(payload)
    }

    /// Takes in a message read from the peer. A reply is stored for its
    /// call, and the handle that waited on that call, if any, is handed back
    /// to be signalled; a call is handed back to be run.
    pub fn receive(&mut self, msg: Message<serde_json::Value, E>) -> (r: Incoming)
        requires
            receivable(old(self)@, msg),
        ensures
            final(self)@ == after_receive(old(self)@, msg),
            r == incoming_spec(old(self)@, msg),
            match msg {
                Message::Call(c) => r == Incoming::Launch(c) && final(self)@ == old(self)@,
                Message::Return(ret) => final(self)@ == old(self)@.insert(ret.id, Awaiter::Return(ret))
                    && r == (match old(self)@[ret.id] {
                        Awaiter::Waker(w) => Incoming::Wake(Some(w)),
                        _ => Incoming::Wake(None),
                    }),
                Message::Error(err) => final(self)@ == old(self)@.insert(err.id, Awaiter::Error(err))
                    && r == (match old(self)@[err.id] {
                        Awaiter::Waker(w) => Incoming::Wake(Some(w)),
                        _ => Incoming::Wake(None),
                    }),
            },
    {
        match msg {
            Message::Call(call) => Incoming::Launch(call),
            Message::Return(ret) => {
                let id = ret.id;
                let previous = self.table.remove(&id);
                self.table.insert(id, Awaiter::Return(ret));
                match previous {
                    Some(Awaiter::Waker(w)) => Incoming::Wake(Some(w)),
                    _ => Incoming::Wake(None),
                }
            },
            Message::Error(err) => {
                let id = err.id;
                let previous = self.table.remove(&id);
                self.table.insert(id, Awaiter::Error(err));
                match previous {
                    Some(Awaiter::Waker(w)) => Incoming::Wake(Some(w)),
                    _ => Incoming::Wake(None),
                }
            },
        }
    }

    /// Polls the reply of call `id`. An answered call is taken out of the
    /// table and its reply given; otherwise `waker` is kept to be signalled
    /// when the reply comes.
    pub fn poll_reply(&mut self, id: u64, waker: std::task::Waker) -> (r: ReplyPoll<E>)
        requires
            old(self)@.contains_key(id),
        ensures
            r == poll_spec(old(self)@[id]),
            final(self)@ == after_poll(old(self)@, id, waker),
            match old(self)@[id] {
                Awaiter::Return(ret) => r == ReplyPoll::<E>::Ready(Ok(ret.result))
                    && final(self)@ == old(self)@.remove(id),
                Awaiter::Error(err) => r == ReplyPoll::<E>::Ready(Err(err.error))
                    && final(self)@ == old(self)@.remove(id),
                _ => r == ReplyPoll::<E>::Pending
                    && final(self)@ == old(self)@.insert(id, Awaiter::Waker(waker)),
            },
    {
        match self.table.remove(&id) {
            Some(Awaiter::Return(ret)) => ReplyPoll::Ready(Ok(ret.result)),
            Some(Awaiter::Error(err)) => ReplyPoll::Ready(Err(err.error)),
            _ => {
                self.table.insert(id, Awaiter::Waker(waker));
                ReplyPoll::Pending
            },
        }
    }
}

/// Takes the number for a new call from the service's counter, which then
/// moves on by one.
pub fn next_call_id(counter: &mut u64) -> (id: u64)
    requires
        *old(counter) < u64::MAX,
    ensures
        id == *old(counter),
        *final(counter) == *old(counter) + 1,
{
    let id = *counter;
    *counter = id + 1;
    id
}

/// Call numbers are never reused: when `n` calls take their numbers one
/// after another from a counter that starts at `k` (each step as
/// `next_call_id` does it: the number is the counter's value, which then moves
/// on by one), the numbers are exactly `k, k + 1, .., k + n - 1`, pairwise
/// distinct, and the counter ends at `k + n`.
pub proof fn lemma_call_ids_distinct(counters: Seq<u64>, ids: Seq<u64>)
    requires
        ids.len() + 1 == counters.len(),
        forall|i: int|
            0 <= i < ids.len() ==> #[trigger] ids[i] == counters[i] && counters[i + 1]
                == counters[i] + 1,
    ensures
        forall|i: int| 0 <= i < ids.len() ==> #[trigger] ids[i] == counters[0] + i,
        counters[ids.len() as int] == counters[0] + ids.len(),
        forall|i: int, j: int| 0 <= i < j < ids.len() ==> ids[i] != ids[j],
    decreases ids.len(),
{
    if ids.len() > 0 {
        let n = ids.len() - 1;
        let shorter_counters = counters.subrange(0, n + 1);
        let shorter_ids = ids.subrange(0, n);
        assert forall|i: int| 0 <= i < shorter_ids.len() implies #[trigger] shorter_ids[i]
            == shorter_counters[i] && shorter_counters[i + 1] == shorter_counters[i] + 1 by {
            assert(ids[i] == counters[i] && counters[i + 1] == counters[i] + 1);
        }
        lemma_call_ids_distinct(shorter_counters, shorter_ids);
        assert forall|i: int| 0 <= i < ids.len() implies #[trigger] ids[i] == counters[0] + i by {
            if i < n {
                assert(shorter_ids[i] == shorter_counters[0] + i);
            } else {
                assert(ids[n] == counters[n]);
                assert(shorter_counters[n] == counters[n]);
            }
        }
        assert(ids[n] == counters[n] && counters[n + 1] == counters[n] + 1);
        assert(shorter_counters[n] == counters[n]);
    }
}

/// Receiving a reply of either kind signals the poll that waits on its
/// call: when the call's entry holds the handle `w`, `w` is handed back,
/// and the reply is stored for that call alone.
pub proof fn lemma_reply_wakes_waiting_poll<E>(
    t: Map<u64, Awaiter<E>>,
    msg: Message<serde_json::Value, E>,
    id: u64,
    w: std::task::Waker,
)
    requires
        answered_call(msg) == Some(id),
        t.contains_key(id),
        t[id] == Awaiter::<E>::Waker(w),
    ensures
        incoming_spec(t, msg) == Incoming::Wake(Some(w)),
        after_receive(t, msg).contains_key(id),
        after_receive(t, msg)[id] is Return || after_receive(t, msg)[id] is Error,
        after_receive(t, msg).dom() == t.dom(),
{
    assert(after_receive(t, msg).dom() =~= t.dom());
}

/// Receiving a reply for a call that nobody polls yet signals nobody.
pub proof fn lemma_reply_without_poll_wakes_nobody<E>(
    t: Map<u64, Awaiter<E>>,
    msg: Message<serde_json::Value, E>,
    id: u64,
)
    requires
        answered_call(msg) == Some(id),
        t.contains_key(id),
        !(t[id] is Waker),
    ensures
        incoming_spec(t, msg) == Incoming::Wake(None),
{
}

/// Polling a call that has no reply yet never finishes it, however often it
/// is polled: the poll is pending and the call stays in the table, now
/// holding the latest handle.
pub proof fn lemma_unanswered_poll_stays_pending<E>(
    t: Map<u64, Awaiter<E>>,
    id: u64,
    w: std::task::Waker,
)
    requires
        t.contains_key(id),
        t[id] is Empty || t[id] is Waker,
    ensures
        poll_spec(t[id]) == ReplyPoll::<E>::Pending,
        after_poll(t, id, w).contains_key(id),
        after_poll(t, id, w)[id] == Awaiter::<E>::Waker(w),
        after_poll(t, id, w).dom() == t.dom(),
        forall|k: u64| k != id && t.contains_key(k) ==> after_poll(t, id, w)[k] == t[k],
{
    assert(after_poll(t, id, w).dom() =~= t.dom());
}

/// Polling an answered call gives its reply and takes the call out, with
/// every other call left as it was.
pub proof fn lemma_answered_poll_is_ready<E>(t: Map<u64, Awaiter<E>>, id: u64, w: std::task::Waker)
    requires
        t.contains_key(id),
        t[id] is Return || t[id] is Error,
    ensures
        poll_spec(t[id]) is Ready,
        t[id] matches Awaiter::Return(ret) ==> poll_spec(t[id]) == ReplyPoll::<E>::Ready(Ok(ret.result)),
        t[id] matches Awaiter::Error(err) ==> poll_spec(t[id]) == ReplyPoll::<E>::Ready(Err(err.error)),
        !after_poll(t, id, w).contains_key(id),
        forall|k: u64| k != id ==> (after_poll(t, id, w).contains_key(k) == t.contains_key(k)),
        forall|k: u64| k != id && t.contains_key(k) ==> after_poll(t, id, w)[k] == t[k],
{
}

/// A reply is collected by the poll of the call it answers, whether it comes
/// before or after that poll: polled first, the call is pending and the
/// reply signals the handle of that poll; either way the next poll gives the
/// reply's value and takes the call out of the table.
pub proof fn lemma_return_reaches_its_poll<E>(
    t: Map<u64, Awaiter<E>>,
    ret: ReturnValue<serde_json::Value>,
    w1: std::task::Waker,
    w2: std::task::Waker,
)
    ensures
        ({
            let id = ret.id;
            let msg = Message::<serde_json::Value, E>::Return(ret);
            let issued = after_register(t, id);
            // reply before poll
            &&& receivable(issued, msg)
            &&& woken_by(issued, msg) is None
            &&& poll_spec(after_receive(issued, msg)[id]) == ReplyPoll::<E>::Ready(Ok(ret.result))
            &&& after_poll(after_receive(issued, msg), id, w2) == t.remove(id)
            // poll before reply
            &&& poll_spec(issued[id]) == ReplyPoll::<E>::Pending
            &&& receivable(after_poll(issued, id, w1), msg)
            &&& woken_by(after_poll(issued, id, w1), msg) == Some(w1)
            &&& poll_spec(after_receive(after_poll(issued, id, w1), msg)[id])
                == ReplyPoll::<E>::Ready(Ok(ret.result))
            &&& after_poll(after_receive(after_poll(issued, id, w1), msg), id, w2) == t.remove(id)
        }),
{
    let id = ret.id;
    assert(after_register(t, id).insert(id, Awaiter::Return(ret)).remove(id) =~= t.remove(id));
    assert(after_register(t, id).insert(id, Awaiter::Waker(w1)).insert(id, Awaiter::Return(ret)).remove(id)
        =~= t.remove(id));
}

/// The same holds of an error reply: the poll of the call gives the error.
pub proof fn lemma_error_reaches_its_poll<E>(
    t: Map<u64, Awaiter<E>>,
    err: ErrorResult<E>,
    w1: std::task::Waker,
    w2: std::task::Waker,
)
    ensures
        ({
            let id = err.id;
            let msg = Message::<serde_json::Value, E>::Error(err);
            let issued = after_register(t, id);
            &&& receivable(issued, msg)
            &&& woken_by(issued, msg) is None
            &&& poll_spec(after_receive(issued, msg)[id]) == ReplyPoll::<E>::Ready(Err(err.error))
            &&& after_poll(after_receive(issued, msg), id, w2) == t.remove(id)
            &&& poll_spec(issued[id]) == ReplyPoll::<E>::Pending
            &&& receivable(after_poll(issued, id, w1), msg)
            &&& woken_by(after_poll(issued, id, w1), msg) == Some(w1)
            &&& poll_spec(after_receive(after_poll(issued, id, w1), msg)[id])
                == ReplyPoll::<E>::Ready(Err(err.error))
            &&& after_poll(after_receive(after_poll(issued, id, w1), msg), id, w2) == t.remove(id)
        }),
{
    let id = err.id;
    assert(after_register(t, id).insert(id, Awaiter::Error(err)).remove(id) =~= t.remove(id));
    assert(after_register(t, id).insert(id, Awaiter::Waker(w1)).insert(id, Awaiter::Error(err)).remove(id)
        =~= t.remove(id));
}

/// Calls do not disturb one another: receiving a message, or polling a
/// call, leaves the entry of every other call as it was.
pub proof fn lemma_other_calls_untouched<E>(
    t: Map<u64, Awaiter<E>>,
    msg: Message<serde_json::Value, E>,
    id: u64,
    w: std::task::Waker,
    other: u64,
)
    requires
        other != id,
        answered_call(msg) != Some(other),
    ensures
        after_receive(t, msg).contains_key(other) == t.contains_key(other),
        t.contains_key(other) ==> after_receive(t, msg)[other] == t[other],
        after_poll(t, id, w).contains_key(other) == t.contains_key(other),
        t.contains_key(other) ==> after_poll(t, id, w)[other] == t[other],
{
}

/// A call message leaves the table as it was and is handed on to be run.
pub proof fn lemma_call_is_launched<E>(t: Map<u64, Awaiter<E>>, call: FunctionCall<serde_json::Value>)
    ensures
        after_receive(t, Message::<serde_json::Value, E>::Call(call)) == t,
        incoming_spec(t, Message::<serde_json::Value, E>::Call(call)) == Incoming::Launch(call),
{
}

} // verus!
