//! The wire framing: a four-byte big-endian length, then that many bytes of
//! body. Both directions use it.

use vstd::prelude::*;
use vstd::slice::*;

verus! {

/// The largest length that a frame can state.
pub const MAX_BODY_LEN: usize = 4294967295;

/// The four bytes that state the length `n`, the most significant first.
pub open spec fn length_prefix(n: nat) -> Seq<u8>
    recommends
        n <= MAX_BODY_LEN,
{
    seq![
        (n / 16777216 % 256) as u8,
        (n / 65536 % 256) as u8,
        (n / 256 % 256) as u8,
        (n % 256) as u8,
    ]
}

/// The length that the first four bytes of `bytes` state.
pub open spec fn stated_length(bytes: Seq<u8>) -> nat
    recommends
        bytes.len() >= 4,
{
    (bytes[0] as nat) * 16777216 + (bytes[1] as nat) * 65536 + (bytes[2] as nat) * 256 + (
    bytes[3] as nat)
}

/// The frame around a body.
pub open spec fn frame_of(body: Seq<u8>) -> Seq<u8>
    recommends
        body.len() <= MAX_BODY_LEN,
{
    length_prefix(body.len()) + body
}

/// Why a buffer does not start with a whole frame.
#[derive(Debug, Clone, Copy, PartialEq, Eq, Structural)]
pub enum FrameError {
    /// Fewer than four bytes: the length cannot be read.
    ShortLength,
    /// Fewer bytes follow the length than it states.
    ShortBody,
}

/// The body of the frame that `buffer` starts with, or why it starts with
/// none. Bytes behind the frame play no part.
pub open spec fn framed_body(buffer: Seq<u8>) -> Result<Seq<u8>, FrameError> {
    if buffer.len() < 4 {
        Err(FrameError::ShortLength)
    } else if buffer.len() - 4 < stated_length(buffer) {
        Err(FrameError::ShortBody)
    } else {
        Ok(buffer.subrange(4, 4 + stated_length(buffer) as int))
    }
}

/// The prefix of a length states that length.
pub proof fn lemma_prefix_states_length(n: nat)
    requires
        n <= MAX_BODY_LEN,
    ensures
        length_prefix(n).len() == 4,
        stated_length(length_prefix(n)) == n,
{
}

/// Decoding a frame gives its body back, whatever follows the frame: the
/// decoder takes the four bytes of the length and the body, and no more.
pub proof fn lemma_frame_round_trip(body: Seq<u8>, rest: Seq<u8>)
    requires
        body.len() <= MAX_BODY_LEN,
    ensures
        framed_body(frame_of(body) + rest) == Ok::<Seq<u8>, FrameError>(body),
{
    let buffer = frame_of(body) + rest;
    lemma_prefix_states_length(body.len());
    assert(buffer[0] == length_prefix(body.len())[0]);
    assert(buffer[1] == length_prefix(body.len())[1]);
    assert(buffer[2] == length_prefix(body.len())[2]);
    assert(buffer[3] == length_prefix(body.len())[3]);
    assert(buffer.subrange(4, 4 + body.len() as int) =~= body);
}

/// A buffer that is shorter than the frame it claims to hold does not
/// decode: with fewer than four bytes the length is missing, and with fewer
/// bytes than the length states the body is.
pub proof fn lemma_short_buffer_fails(buffer: Seq<u8>)
    requires
        buffer.len() < 4 || buffer.len() < 4 + stated_length(buffer),
    ensures
        framed_body(buffer) is Err,
{
}

/// The length that the first four bytes of `prefix` state; `None` where
/// there are fewer than four.
pub fn body_length(prefix: &[u8]) -> (n: Option<usize>)
    ensures
        prefix@.len() >= 4 ==> n == Some(stated_length(prefix@) as usize),
        prefix@.len() >= 4 ==> stated_length(prefix@) <= MAX_BODY_LEN,
        prefix@.len() < 4 ==> n is None,
{
    if prefix.len() < 4 {
        return None;
    }
    let a: usize = prefix[0] as usize;
    let b: usize = prefix[1] as usize;
    let c: usize = prefix[2] as usize;
    let d: usize = prefix[3] as usize;
    Some(a * 16777216 + b * 65536 + c * 256 + d)
}

/// Puts a body into a frame. A body of more bytes than a frame can state
/// gets no frame.
pub fn encode_frame(body: &[u8]) -> (frame: Option<Vec<u8>>)
    ensures
        body@.len() <= MAX_BODY_LEN ==> frame is Some && frame->0@ == frame_of(body@),
        body@.len() > MAX_BODY_LEN ==> frame is None,
{
    let n: usize = body.len();
    if n > MAX_BODY_LEN {
        return None;
    }
    let mut frame: Vec<u8> = Vec::new();
    frame.push((n / 16777216 % 256) as u8);
    frame.push((n / 65536 % 256) as u8);
    frame.push((n / 256 % 256) as u8);
    frame.push((n % 256) as u8);
    assert(frame@ =~= length_prefix(n as nat));
    let mut i: usize = 0;
    while i < n
        invariant
            i <= n,
            n == body@.len(),
            frame@ == length_prefix(n as nat) + body@.subrange(0, i as int),
        decreases n - i,
    {
        frame.push(body[i]);
        assert(frame@ =~= length_prefix(n as nat) + body@.subrange(0, i + 1));
        i = i + 1;
    }
    assert(body@.subrange(0, n as int) =~= body@);
    Some(frame)
}

/// Takes the frame at the start of `buffer` apart: its body, and the number
/// of bytes that the frame takes, which is four more than the body has.
pub fn decode_frame(buffer: &[u8]) -> (r: Result<(Vec<u8>, usize), FrameError>)
    ensures
        match r {
            Ok((body, used)) => framed_body(buffer@) == Ok::<Seq<u8>, FrameError>(body@) && used
                == 4 + body@.len() && used <= buffer@.len(),
            Err(e) => framed_body(buffer@) == Err::<Seq<u8>, FrameError>(e),
        },
{
    let n: usize = match body_length(buffer) {
        Some(n) => n,
        None => {
            return Err(FrameError::ShortLength);
        },
    };
    if buffer.len() - 4 < n {
        return Err(FrameError::ShortBody);
    }
    let body: Vec<u8> = slice_to_vec(slice_subrange(buffer, 4, 4 + n));
    Ok((body, 4 + n))
}

} // verus!
