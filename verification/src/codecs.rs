//! The transport codecs: length-prefixed framing over TCP, UDP and
//! USB-serial, and the bridged bus-record form relayed by the remote
//! daemon.
//!
//! Every framed codec shares the same two-byte little-endian length
//! prefix; they differ in what their frame payloads carry.  The payload's
//! own application encoding is owned by the external marshalling layer:
//! these codecs deliver and accept payload bytes.

use vstd::prelude::*;

use crate::HookError;
use crate::frame::FrameDecode;
use crate::frame::MAX_FRAME_PAYLOAD;
use crate::frame::announced_len;
use crate::frame::decode_frame;
use crate::frame::encode_frame;
use crate::frame::frame_bytes;
use crate::frame::holds_frame;

verus! {

/// One bus record as the relay daemon carries it: the packed message
/// identifier, the relay's timestamp, and the raw data bytes.
#[derive(Debug)]
pub struct BridgedCanMessage {
    pub id: u32,
    pub timestamp: u32,
    pub data: Vec<u8>,
}

/// The byte image of one bridged record: little-endian identifier,
/// little-endian timestamp, a two-byte little-endian data length, then
/// the data.
pub open spec fn bridged_bytes(id: u32, timestamp: u32, data: Seq<u8>) -> Seq<u8> {
    seq![
        (id & 0xff) as u8,
        ((id >> 8) & 0xff) as u8,
        ((id >> 16) & 0xff) as u8,
        ((id >> 24) & 0xff) as u8,
        (timestamp & 0xff) as u8,
        ((timestamp >> 8) & 0xff) as u8,
        ((timestamp >> 16) & 0xff) as u8,
        ((timestamp >> 24) & 0xff) as u8,
        (data.len() % 256) as u8,
        ((data.len() / 256) % 256) as u8,
    ] + data
}

/// Encode one bridged record.
pub fn encode_bridged(msg: &BridgedCanMessage) -> (r: Vec<u8>)
    requires
        msg.data@.len() <= 0xffff,
    ensures
        r@ == bridged_bytes(msg.id, msg.timestamp, msg.data@),
{
    let mut out: Vec<u8> = Vec::new();
    out.push((msg.id & 0xff) as u8);
    out.push(((msg.id >> 8) & 0xff) as u8);
    out.push(((msg.id >> 16) & 0xff) as u8);
    out.push(((msg.id >> 24) & 0xff) as u8);
    out.push((msg.timestamp & 0xff) as u8);
    out.push(((msg.timestamp >> 8) & 0xff) as u8);
    out.push(((msg.timestamp >> 16) & 0xff) as u8);
    out.push(((msg.timestamp >> 24) & 0xff) as u8);
    let len: u16 = msg.data.len() as u16;
    out.push((len % 256) as u8);
    out.push((len / 256) as u8);
    out.extend_from_slice(msg.data.as_slice());
    proof {
        assert(out@ =~= bridged_bytes(msg.id, msg.timestamp, msg.data@));
    }
    out
}

/// Whether a byte buffer starts with one complete bridged record.
pub open spec fn holds_bridged(buf: Seq<u8>) -> bool {
    buf.len() >= 10 && buf.len() >= 10 + bridged_data_len(buf)
}

/// The data length a bridged record's header announces.
pub open spec fn bridged_data_len(buf: Seq<u8>) -> int
    recommends buf.len() >= 10,
{
    buf[8] + 256 * buf[9]
}

/// The identifier a bridged record's header carries.
pub open spec fn bridged_id(buf: Seq<u8>) -> int
    recommends buf.len() >= 10,
{
    buf[0] + 0x100 * buf[1] + 0x10000 * buf[2] + 0x1000000 * buf[3]
}

/// The timestamp a bridged record's header carries.
pub open spec fn bridged_timestamp(buf: Seq<u8>) -> int
    recommends buf.len() >= 10,
{
    buf[4] + 0x100 * buf[5] + 0x10000 * buf[6] + 0x1000000 * buf[7]
}

/// Decode one bridged record from the front of a buffer, reporting how
/// many bytes it occupied; nothing is consumed while the record is still
/// incomplete.
pub fn decode_bridged(buf: &Vec<u8>) -> (r: Option<(BridgedCanMessage, usize)>)
    ensures
        holds_bridged(buf@) <==> r is Some,
        r matches Some((m, consumed)) ==> {
            &&& consumed == 10 + bridged_data_len(buf@)
            &&& m.id == bridged_id(buf@)
            &&& m.timestamp == bridged_timestamp(buf@)
            &&& m.data@ == buf@.subrange(10, 10 + bridged_data_len(buf@))
        },
{
    if buf.len() < 10 {
        return None;
    }
    let dlen: usize = (buf[8] as usize) + 256 * (buf[9] as usize);
    if buf.len() < 10 + dlen {
        return None;
    }
    let b0 = buf[0]; let b1 = buf[1]; let b2 = buf[2]; let b3 = buf[3];
    let b4 = buf[4]; let b5 = buf[5]; let b6 = buf[6]; let b7 = buf[7];
    let id: u32 = (b0 as u32) | ((b1 as u32) << 8) | ((b2 as u32) << 16) | ((b3 as u32) << 24);
    let timestamp: u32 = (b4 as u32) | ((b5 as u32) << 8)
        | ((b6 as u32) << 16) | ((b7 as u32) << 24);
    proof {
        assert(((b0 as u32) | ((b1 as u32) << 8) | ((b2 as u32) << 16) | ((b3 as u32) << 24))
            == (b0 as u32) + 0x100 * (b1 as u32) + 0x10000 * (b2 as u32)
                + 0x1000000 * (b3 as u32)) by (bit_vector);
        assert(((b4 as u32) | ((b5 as u32) << 8) | ((b6 as u32) << 16) | ((b7 as u32) << 24))
            == (b4 as u32) + 0x100 * (b5 as u32) + 0x10000 * (b6 as u32)
                + 0x1000000 * (b7 as u32)) by (bit_vector);
    }
    let mut data: Vec<u8> = Vec::new();
    let end: usize = 10 + dlen;
    let mut i: usize = 10;
    while i < end
        invariant
            10 <= i <= end,
            end == 10 + dlen,
            end <= buf@.len(),
            data@ == buf@.subrange(10, i as int),
        decreases end - i,
    {
        data.push(buf[i]);
        proof {
            assert(data@ =~= buf@.subrange(10, i + 1));
        }
        i += 1;
    }
    Some((BridgedCanMessage { id, timestamp, data }, end))
}

/// The framed payload codec used on a direct TCP link.
pub struct GrappleTcpCodec {}

/// The framed payload codec used on the UDP discovery channel.
pub struct GrappleUdpCodec {}

/// The framed payload codec used on a USB-serial link.
pub struct GrappleUsbCodec {}

/// The framed bridged-record codec used on the TCP link to the relay
/// daemon.
pub struct GrappleTcpCanBridgeCodec {}

impl GrappleTcpCodec {
    /// Decode one frame's payload from the buffer, if complete.
    pub fn decode(&self, buf: &Vec<u8>) -> (r: FrameDecode)
        ensures
            holds_frame(buf@) ==> (r matches FrameDecode::Complete { payload, consumed }
                && consumed == 2 + announced_len(buf@)
                && payload@ == buf@.subrange(2, 2 + announced_len(buf@))),
            !holds_frame(buf@) ==> r is Incomplete,
    {
        decode_frame(buf)
    }

    /// Encode one payload as a frame.
    pub fn encode(&self, payload: &Vec<u8>) -> (r: Vec<u8>)
        requires
            payload@.len() <= MAX_FRAME_PAYLOAD,
        ensures
            r@ == frame_bytes(payload@),
    {
        encode_frame(payload)
    }
}

impl GrappleUdpCodec {
    /// Decode one frame's payload from the buffer, if complete.
    pub fn decode(&self, buf: &Vec<u8>) -> (r: FrameDecode)
        ensures
            holds_frame(buf@) ==> (r matches FrameDecode::Complete { payload, consumed }
                && consumed == 2 + announced_len(buf@)
                && payload@ == buf@.subrange(2, 2 + announced_len(buf@))),
            !holds_frame(buf@) ==> r is Incomplete,
    {
        decode_frame(buf)
    }

    /// Encode one payload as a frame.
    pub fn encode(&self, payload: &Vec<u8>) -> (r: Vec<u8>)
        requires
            payload@.len() <= MAX_FRAME_PAYLOAD,
        ensures
            r@ == frame_bytes(payload@),
    {
        encode_frame(payload)
    }
}

impl GrappleUsbCodec {
    /// Decode one frame's payload from the buffer, if complete.
    pub fn decode(&self, buf: &Vec<u8>) -> (r: FrameDecode)
        ensures
            holds_frame(buf@) ==> (r matches FrameDecode::Complete { payload, consumed }
                && consumed == 2 + announced_len(buf@)
                && payload@ == buf@.subrange(2, 2 + announced_len(buf@))),
            !holds_frame(buf@) ==> r is Incomplete,
    {
        decode_frame(buf)
    }

    /// Encode one payload as a frame.
    pub fn encode(&self, payload: &Vec<u8>) -> (r: Vec<u8>)
        requires
            payload@.len() <= MAX_FRAME_PAYLOAD,
        ensures
            r@ == frame_bytes(payload@),
    {
        encode_frame(payload)
    }
}

impl GrappleUsbCodec {
    /// Decode one unframed bridged record straight off the serial
    /// byte stream, as the USB bridge emits them.
    pub fn decode_raw(&self, buf: &Vec<u8>) -> (r: Option<(BridgedCanMessage, usize)>)
        ensures
            holds_bridged(buf@) <==> r is Some,
            r matches Some((m, consumed)) ==> {
                &&& consumed == 10 + bridged_data_len(buf@)
                &&& m.id == bridged_id(buf@)
                &&& m.timestamp == bridged_timestamp(buf@)
                &&& m.data@ == buf@.subrange(10, 10 + bridged_data_len(buf@))
            },
    {
        decode_bridged(buf)
    }

    /// Encode one unframed bridged record for the serial byte stream.
    pub fn encode_raw(&self, msg: &BridgedCanMessage) -> (r: Vec<u8>)
        requires
            msg.data@.len() <= 0xffff,
        ensures
            r@ == bridged_bytes(msg.id, msg.timestamp, msg.data@),
    {
        encode_bridged(msg)
    }
}

impl GrappleTcpCanBridgeCodec {
    /// Decode one bridged record from a complete frame at the front of
    /// the buffer.  An incomplete frame asks for more bytes; a complete
    /// frame whose payload is not a whole bridged record is a protocol
    /// error for that frame alone — the frame is still consumed, which
    /// is what makes resynchronisation at the next boundary possible.
    pub fn decode(&self, buf: &Vec<u8>)
        -> (r: Result<Option<(BridgedCanMessage, usize)>, HookError>)
        ensures
            !holds_frame(buf@) ==> r matches Ok(None),
            holds_frame(buf@) ==> ({
                let payload = buf@.subrange(2, 2 + announced_len(buf@));
                &&& holds_bridged(payload) ==> (r matches Ok(Some((m, consumed)))
                    && consumed == 2 + announced_len(buf@)
                    && m.id == bridged_id(payload)
                    && m.timestamp == bridged_timestamp(payload)
                    && m.data@ == payload.subrange(10, 10 + bridged_data_len(payload)))
                &&& !holds_bridged(payload) ==> (r matches Err(e) && e is Protocol)
            }),
    {
        match decode_frame(buf) {
            FrameDecode::Incomplete { .. } => Ok(None),
            FrameDecode::Complete { payload, consumed } => {
                match decode_bridged(&payload) {
                    Some((m, _)) => Ok(Some((m, consumed))),
                    None => Err(HookError::Protocol),
                }
            },
        }
    }

    /// Encode one bridged record as a frame.
    pub fn encode(&self, msg: &BridgedCanMessage) -> (r: Result<Vec<u8>, HookError>)
        requires
            msg.data@.len() <= 0xffff,
        ensures
            msg.data@.len() + 10 <= MAX_FRAME_PAYLOAD ==> (r matches Ok(v)
                && v@ == frame_bytes(bridged_bytes(msg.id, msg.timestamp, msg.data@))),
            msg.data@.len() + 10 > MAX_FRAME_PAYLOAD ==> (r matches Err(e) && e is Protocol),
    {
        let body = encode_bridged(msg);
        if body.len() <= MAX_FRAME_PAYLOAD {
            Ok(encode_frame(&body))
        } else {
            Err(HookError::Protocol)
        }
    }
}

} // verus!
