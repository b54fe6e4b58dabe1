//! The wire format: each message is its JSON text followed by one NUL byte.

use vstd::prelude::*;

verus! {

/// The byte that ends every frame.
pub const FRAME_END: u8 = 0;

/// The frame that carries `payload`.
pub open spec fn frame_spec(payload: Seq<u8>) -> Seq<u8> {
    payload.push(FRAME_END)
}

/// What a chunk read up to and including a frame's end carries: the chunk
/// without its last byte.
pub open spec fn unframe_spec(chunk: Seq<u8>) -> Seq<u8> {
    if chunk.len() == 0 {
        chunk
    } else {
        chunk.drop_last()
    }
}

/// Whether `s` holds no NUL byte, as JSON text never does.
pub open spec fn free_of_frame_end(s: Seq<u8>) -> bool {
    forall|i: int| 0 <= i < s.len() ==> s[i] != FRAME_END
}

/// Frames `payload` for the wire.
pub fn encode_frame(payload: &[u8]) -> (r: Vec<u8>)
    requires
        payload@.len() < usize::MAX,
    ensures
        r@ == frame_spec(payload@),
        r@.len() == payload@.len() + 1,
        r@.subrange(0, payload@.len() as int) == payload@,
        r@[payload@.len() as int] == 0u8,
{
    let mut out: Vec<u8> = Vec::with_capacity(payload.len() + 1);
    let mut i: usize = 0;
    while i < payload.len()
        invariant
            i <= payload@.len(),
            out@ == payload@.subrange(0, i as int),
        decreases payload@.len() - i,
    {
        out.push(payload[i]);
        i = i + 1;
    }
    proof {
        assert(payload@.subrange(0, payload@.len() as int) =~= payload@);
    }
    out.push(FRAME_END);
    out
}

/// The payload of a chunk read up to and including the end of a frame.
pub fn decode_frame(chunk: Vec<u8>) -> (r: Vec<u8>)
    ensures
        r@ == unframe_spec(chunk@),
        chunk@.len() > 0 ==> r@.len() == chunk@.len() - 1,
        chunk@.len() > 0 ==> r@ == chunk@.subrange(0, chunk@.len() - 1),
        chunk@.len() == 0 ==> r@.len() == 0,
{
    let mut chunk = chunk;
    chunk.pop();
    chunk
}

/// A frame is its payload followed by exactly one NUL byte, and decoding a
/// chunk drops exactly its last byte.
pub proof fn lemma_frame_shape(payload: Seq<u8>, chunk: Seq<u8>)
    ensures
        frame_spec(payload).len() == payload.len() + 1,
        frame_spec(payload).subrange(0, payload.len() as int) == payload,
        frame_spec(payload)[payload.len() as int] == 0u8,
        chunk.len() > 0 ==> unframe_spec(chunk).len() == chunk.len() - 1,
        chunk.len() > 0 ==> unframe_spec(chunk) == chunk.subrange(0, chunk.len() - 1),
        chunk.len() == 0 ==> unframe_spec(chunk).len() == 0,
{
    assert(frame_spec(payload).subrange(0, payload.len() as int) =~= payload);
    if chunk.len() > 0 {
        assert(unframe_spec(chunk) =~= chunk.subrange(0, chunk.len() - 1));
    }
}

/// Decoding a frame gives back its payload; and when the payload holds no
/// NUL byte, the frame holds exactly one, at its end, so a reader that reads
/// up to the first NUL byte reads exactly the frame.
pub proof fn lemma_frame_round_trip(payload: Seq<u8>)
    ensures
        unframe_spec(frame_spec(payload)) == payload,
        free_of_frame_end(payload) ==> forall|i: int|
            0 <= i < frame_spec(payload).len() ==> (frame_spec(payload)[i] == FRAME_END <==> i
                == payload.len()),
{
    assert(frame_spec(payload).drop_last() =~= payload);
}

} // verus!
