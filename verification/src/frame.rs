//! Length-prefixed byte-stream framing, shared by every transport.
//!
//! A frame is a two-byte little-endian length prefix followed by exactly that
//! many payload bytes.  Decoding is incremental: callers keep a receive
//! buffer, and `decode_frame` reports how many bytes one complete frame
//! consumed so the caller can drain them.

use vstd::prelude::*;

verus! {

/// Largest payload one frame can carry: the length prefix is two bytes.
pub const MAX_FRAME_PAYLOAD: usize = 65535;

/// The byte image of one frame: two-byte little-endian length prefix,
/// then the payload itself.
pub open spec fn frame_bytes(payload: Seq<u8>) -> Seq<u8> {
    seq![(payload.len() % 256) as u8, ((payload.len() / 256) % 256) as u8] + payload
}

/// Encode one payload as a frame.
pub fn encode_frame(payload: &Vec<u8>) -> (r: Vec<u8>)
    requires
        payload@.len() <= MAX_FRAME_PAYLOAD,
    ensures
        r@ == frame_bytes(payload@),
        r@.len() == payload@.len() + 2,
{
    let len: u16 = payload.len() as u16;
    let mut out: Vec<u8> = Vec::new();
    out.push((len % 256) as u8);
    out.push((len / 256) as u8);
    out.extend_from_slice(payload.as_slice());
    proof {
        assert(out@ =~= frame_bytes(payload@));
    }
    out
}

/// What one decode step yields: either a complete frame's payload and the
/// number of buffered bytes it consumed, or a report that the buffer is
/// still incomplete together with how many further bytes are wanted.
pub enum FrameDecode {
    /// A whole frame was buffered: its payload, and the bytes it occupied.
    Complete { payload: Vec<u8>, consumed: usize },
    /// Not enough bytes yet; `shortfall` more would complete the frame
    /// (callers reserve that much so large frames do not reallocate
    /// repeatedly).
    Incomplete { shortfall: usize },
}

/// The payload length a buffer announces, once the two prefix bytes are in.
pub open spec fn announced_len(buf: Seq<u8>) -> int
    recommends buf.len() >= 2
{
    buf[0] + 256 * buf[1]
}

/// Whether the buffer holds at least one complete frame.
pub open spec fn holds_frame(buf: Seq<u8>) -> bool {
    buf.len() >= 2 && buf.len() >= 2 + announced_len(buf)
}

/// Decode one frame from the front of `buf`, if a complete one is buffered.
///
/// The buffer itself is not drained here: on `Complete`, the caller removes
/// `consumed` bytes from the front, which keeps decoding usable on borrowed
/// buffers as well.
pub fn decode_frame(buf: &Vec<u8>) -> (r: FrameDecode)
    ensures
        holds_frame(buf@) ==> (r matches FrameDecode::Complete { payload, consumed }
            && consumed == 2 + announced_len(buf@)
            && payload@ == buf@.subrange(2, 2 + announced_len(buf@))),
        !holds_frame(buf@) ==> (r matches FrameDecode::Incomplete { shortfall }
            && (buf@.len() >= 2 ==> shortfall == 2 + announced_len(buf@) - buf@.len())
            && (buf@.len() < 2 ==> shortfall == 2 - buf@.len())),
{
    if buf.len() < 2 {
        return FrameDecode::Incomplete { shortfall: 2 - buf.len() };
    }
    let length: usize = (buf[0] as usize) + 256 * (buf[1] as usize);
    if buf.len() < 2 + length {
        return FrameDecode::Incomplete { shortfall: 2 + length - buf.len() };
    }
    let mut payload: Vec<u8> = Vec::new();
    let mut i: usize = 2;
    while i < 2 + length
        invariant
            2 <= i <= 2 + length,
            length == announced_len(buf@),
            buf@.len() >= 2 + length,
            payload@ == buf@.subrange(2, i as int),
        decreases 2 + length - i,
    {
        payload.push(buf[i]);
        proof {
            assert(payload@ =~= buf@.subrange(2, i + 1));
        }
        i += 1;
    }
    FrameDecode::Complete { payload, consumed: 2 + length }
}

/// Drop the first `n` bytes of a receive buffer, after a frame was consumed.
pub fn drain_front(buf: &mut Vec<u8>, n: usize)
    requires
        n <= old(buf)@.len(),
    ensures
        final(buf)@ == old(buf)@.subrange(n as int, old(buf)@.len() as int),
{
    let mut rest: Vec<u8> = Vec::new();
    let mut i: usize = n;
    while i < buf.len()
        invariant
            n <= i <= buf@.len(),
            buf@ == old(buf)@,
            rest@ == buf@.subrange(n as int, i as int),
        decreases buf@.len() - i,
    {
        rest.push(buf[i]);
        proof {
            assert(rest@ =~= buf@.subrange(n as int, i + 1));
        }
        i += 1;
    }
    proof {
        assert(rest@ =~= old(buf)@.subrange(n as int, old(buf)@.len() as int));
    }
    *buf = rest;
}

/// Framing round-trip: a frame encoded from `payload` and followed by any
/// later bytes decodes to exactly `payload`, consuming exactly the encoded
/// frame's length — so back-to-back frames decode in order.
pub proof fn lemma_frame_round_trip(payload: Seq<u8>, rest: Seq<u8>)
    requires
        payload.len() <= MAX_FRAME_PAYLOAD,
    ensures
        holds_frame(frame_bytes(payload) + rest),
        announced_len(frame_bytes(payload) + rest) == payload.len(),
        (frame_bytes(payload) + rest).subrange(2, 2 + payload.len() as int) == payload,
{
    let buf = frame_bytes(payload) + rest;
    assert(buf[0] == (payload.len() % 256) as u8);
    assert(buf[1] == ((payload.len() / 256) % 256) as u8);
    assert(payload.len() % 256 + 256 * ((payload.len() / 256) % 256) == payload.len()) by {
        assert(payload.len() / 256 < 256);
        assert((payload.len() / 256) % 256 == payload.len() / 256);
        assert(payload.len() % 256 + 256 * (payload.len() / 256) == payload.len()) by (nonlinear_arith);
    }
    assert(buf.subrange(2, 2 + payload.len() as int) =~= payload);
}

} // verus!
