use bearings::awaiters::next_call_id;
use bearings::frame::{decode_frame, encode_frame};
use bearings::identity::{object_uuid, NIL_UUID};
use bearings::message::reply_message;
use bearings::{as_error, Awaiters, Error, ErrorResult, FunctionCall, Incoming, Message, Objects,
    ReplyPoll, ReturnValue};

use std::sync::atomic::{AtomicBool, Ordering};
use std::sync::Arc;
use std::task::{Wake, Waker};

struct Flag(AtomicBool);

impl Wake for Flag {
    fn wake(self: Arc<Self>) {
        self.0.store(true, Ordering::SeqCst);
    }
}

fn flag_waker() -> (Arc<Flag>, Waker) {
    let flag = Arc::new(Flag(AtomicBool::new(false)));
    (flag.clone(), Waker::from(flag))
}

/// Stands in for the object the test serves: it swaps a stored counter.
struct Counter {
    value: std::cell::Cell<usize>,
}

impl Counter {
    fn new(value: usize) -> Self {
        Counter { value: std::cell::Cell::new(value) }
    }

    fn swap(&self, val: usize) -> usize {
        self.value.replace(val)
    }
}

fn call(id: u64, uuid: u128, method: &str, arg: usize) -> FunctionCall<serde_json::Value> {
    FunctionCall {
        id,
        uuid,
        member: "interface".to_string(),
        method: method.to_string(),
        arguments: serde_json::Value::from(arg),
    }
}

#[test]
fn serving_and_calling_in_memory() {
    let tester = object_uuid("Tester");
    let mut server_objects: Objects<Counter> = Objects::new();
    let mut server_awaiters: Awaiters<usize> = Awaiters::new();
    let mut client_awaiters: Awaiters<usize> = Awaiters::new();
    let mut counter: u64 = 0;

    assert!(server_objects.add::<usize>(tester, Counter::new(17)).is_ok());
    assert!(matches!(
        server_objects.add::<usize>(tester, Counter::new(0)),
        Err(Error::UuidAlreadyInUse)
    ));

    // The client issues `run(123)`.
    let id = next_call_id(&mut counter);
    assert_eq!(id, 0);
    assert_eq!(counter, 1);
    client_awaiters.register_call(id);
    let (first_flag, first_waker) = flag_waker();
    assert!(matches!(client_awaiters.poll_reply(id, first_waker), ReplyPoll::Pending));

    // The server receives it, runs it and answers.
    let launched = match server_awaiters.receive(Message::Call(call(id, tester, "run", 123))) {
        Incoming::Launch(c) => c,
        _ => panic!("a call must be launched"),
    };
    assert_eq!(launched.method, "run");
    let result = {
        let object = server_objects.find::<usize>(launched.uuid).ok().unwrap();
        object.swap(launched.arguments.as_u64().unwrap() as usize)
    };
    assert_eq!(result, 17);
    assert_eq!(server_objects.find::<usize>(tester).ok().unwrap().value.get(), 123);
    let reply = reply_message::<usize>(
        launched.id,
        Ok(Message::Return(ReturnValue { id: launched.id, result: serde_json::Value::from(result) })),
    );

    // The client receives the reply: the waiting poll is signalled.
    let reply = match reply {
        Message::Return(r) => Message::Return(r),
        _ => panic!("a successful call is answered with its value"),
    };
    match client_awaiters.receive(reply) {
        Incoming::Wake(Some(w)) => w.wake(),
        _ => panic!("the waiting poll must be signalled"),
    }
    assert!(first_flag.0.load(Ordering::SeqCst));
    let (_, second_waker) = flag_waker();
    match client_awaiters.poll_reply(id, second_waker) {
        ReplyPoll::Ready(Ok(v)) => assert_eq!(v.as_u64(), Some(17)),
        _ => panic!("the reply must be ready"),
    }
    assert!(!client_awaiters.contains(id));

    // The client issues `fail(1717)`; the server answers with a user error.
    let id2 = next_call_id(&mut counter);
    assert_eq!(id2, 1);
    let frame = client_awaiters.prepare_call(id2, br#"{"Call":{"id":1}}"#);
    assert!(client_awaiters.contains(id2));
    assert_eq!(frame.last(), Some(&0u8));
    let launched = match server_awaiters.receive(Message::Call(call(id2, tester, "fail", 1717))) {
        Incoming::Launch(c) => c,
        _ => panic!("a call must be launched"),
    };
    let previous = server_objects
        .find::<usize>(launched.uuid)
        .ok()
        .unwrap()
        .swap(launched.arguments.as_u64().unwrap() as usize);
    assert_eq!(previous, 123);
    assert_eq!(server_objects.find::<usize>(tester).ok().unwrap().value.get(), 1717);
    let failed = reply_message::<usize>(launched.id, Err(as_error(previous)));
    match &failed {
        Message::Error(e) => assert_eq!(e.id, id2),
        _ => panic!("a failed call is answered with an error"),
    }
    let failed = match failed {
        Message::Error(e) => Message::Error(e),
        _ => unreachable!(),
    };
    match client_awaiters.receive(failed) {
        Incoming::Wake(None) => (),
        _ => panic!("nobody polled yet"),
    }
    let (_, third_waker) = flag_waker();
    match client_awaiters.poll_reply(id2, third_waker) {
        ReplyPoll::Ready(Err(e)) => assert_eq!(*e.to_user().unwrap(), 123),
        _ => panic!("the error must be ready"),
    }
}

#[test]
fn calls_to_unknown_objects_are_answered_with_an_error() {
    let objects: Objects<u8> = Objects::new();
    match objects.find::<()>(42) {
        Err(Error::UnknownObject(u)) => assert_eq!(u, 42),
        _ => panic!("nothing is served"),
    }
    let answer = reply_message::<()>(7, Err(Error::UnknownObject(42)));
    match answer {
        Message::Error(ErrorResult { id, error: Error::UnknownObject(u) }) => {
            assert_eq!(id, 7);
            assert_eq!(u, 42);
        }
        _ => panic!("the call must be answered with its error"),
    }
}

#[test]
fn replies_to_other_calls_leave_a_call_pending() {
    let mut table: Awaiters<()> = Awaiters::new();
    table.register_call(1);
    table.register_call(2);
    let reply = Message::Return(ReturnValue { id: 2, result: serde_json::Value::from("two") });
    assert_eq!(reply.answered_call_id(), Some(2));
    match table.receive(reply) {
        Incoming::Wake(None) => (),
        _ => panic!("nobody waits on call 2"),
    }
    let (_, w) = flag_waker();
    assert!(matches!(table.poll_reply(1, w), ReplyPoll::Pending));
    assert!(table.contains(1));
    let (_, w) = flag_waker();
    match table.poll_reply(2, w) {
        ReplyPoll::Ready(Ok(v)) => assert_eq!(v, serde_json::Value::from("two")),
        _ => panic!("call 2 has its reply"),
    }
    assert!(table.contains(1));
    assert!(!table.contains(2));
}

#[test]
fn frames_end_with_one_nul_byte() {
    let payload = br#"{"Call":{"id":0}}"#;
    let framed = encode_frame(payload);
    assert_eq!(framed.len(), payload.len() + 1);
    assert_eq!(framed[framed.len() - 1], 0);
    assert_eq!(&framed[..payload.len()], &payload[..]);
    assert_eq!(decode_frame(framed), payload.to_vec());
    assert_eq!(encode_frame(b""), vec![0u8]);
    assert_eq!(decode_frame(vec![]), Vec::<u8>::new());
}

#[test]
fn object_uuids_are_name_based() {
    let expected = uuid::Uuid::new_v5(&uuid::Uuid::nil(), b"Tester").as_u128();
    assert_eq!(object_uuid("Tester"), expected);
    assert_ne!(object_uuid("Tester"), object_uuid("Fake"));
    assert_ne!(object_uuid("Tester"), NIL_UUID);
    assert_eq!((object_uuid("Tester") >> 76) & 0xf, 5);
    assert_eq!((object_uuid("Invalid") >> 62) & 0x3, 2);
}

#[test]
fn call_numbers_count_up() {
    let mut counter: u64 = 41;
    assert_eq!(next_call_id(&mut counter), 41);
    assert_eq!(next_call_id(&mut counter), 42);
    assert_eq!(counter, 43);
}

#[test]
fn successive_calls_take_successive_numbers() {
    let k: u64 = 1000;
    let mut counter = k;
    let ids: Vec<u64> = (0..5).map(|_| next_call_id(&mut counter)).collect();
    assert_eq!(ids, vec![1000, 1001, 1002, 1003, 1004]);
    assert_eq!(counter, k + 5);
}
