//! Messages between a peer and the server, and how a message is framed on
//! the wire: a 4-byte big-endian length followed by that many payload bytes.
//!
//! What a command or a change holds is up to the graph that exchanges them:
//! the messages carry it as `C` or `G`.

use vstd::prelude::*;

verus! {

/// A request to join the room of the given name.
#[derive(Debug, PartialEq, Clone)]
pub struct RequestJoin {
    pub room: String,
}

/// What a peer sends to the server.
#[derive(Debug, PartialEq, Clone)]
pub enum PeerOutgoingMessage<C> {
    RequestJoin(RequestJoin),
    GraphCommand(C),
}

/// What the server sends to a peer.
#[derive(Debug, PartialEq, Clone)]
pub enum PeerIncomingMessage<G> {
    GraphChange(G),
}

impl<C> From<RequestJoin> for PeerOutgoingMessage<C> {
    fn from(req: RequestJoin) -> (r: Self) {
        PeerOutgoingMessage::RequestJoin(req)
    }
}

impl<C> vstd::std_specs::convert::FromSpecImpl<RequestJoin> for PeerOutgoingMessage<C> {
    open spec fn obeys_from_spec() -> bool {
        true
    }

    open spec fn from_spec(req: RequestJoin) -> Self {
        PeerOutgoingMessage::RequestJoin(req)
    }
}

impl<G> From<G> for PeerIncomingMessage<G> {
    fn from(change: G) -> (r: Self) {
        PeerIncomingMessage::GraphChange(change)
    }
}

impl<G> vstd::std_specs::convert::FromSpecImpl<G> for PeerIncomingMessage<G> {
    open spec fn obeys_from_spec() -> bool {
        true
    }

    open spec fn from_spec(change: G) -> Self {
        PeerIncomingMessage::GraphChange(change)
    }
}

/// Why a frame cannot be made or read.
#[derive(Debug, PartialEq, Eq, Clone, Copy, Structural)]
pub enum FrameError {
    /// The payload has more bytes than a 4-byte length can count.
    TooLong,
    /// The stream ends before the payload that the length announces.
    Truncated,
}

/// The 4 big-endian bytes of `n`.
pub open spec fn be_bytes(n: u32) -> Seq<u8> {
    seq![(n >> 24u32) as u8, (n >> 16u32) as u8, (n >> 8u32) as u8, n as u8]
}

/// The number whose big-endian bytes are `b0 b1 b2 b3`.
pub open spec fn be_value(b0: u8, b1: u8, b2: u8, b3: u8) -> u32 {
    ((b0 as u32) << 24u32) | ((b1 as u32) << 16u32) | ((b2 as u32) << 8u32) | (b3 as u32)
}

/// The frame of `payload`: its length in 4 big-endian bytes, then the payload.
pub open spec fn framed(payload: Seq<u8>) -> Seq<u8> {
    be_bytes(payload.len() as u32) + payload
}

/// What reading one frame from the start of `bytes` gives: `None` when the
/// bytes end before a whole length, an error when they end before the
/// payload, else the payload and the number of bytes the frame takes.
pub open spec fn frame_read(bytes: Seq<u8>) -> Option<Result<(Seq<u8>, nat), FrameError>> {
    if bytes.len() < 4 {
        None
    } else {
        let n = be_value(bytes[0], bytes[1], bytes[2], bytes[3]);
        if bytes.len() - 4 < n {
            Some(Err(FrameError::Truncated))
        } else {
            Some(Ok((bytes.subrange(4, 4 + n), (4 + n) as nat)))
        }
    }
}

proof fn lemma_be_roundtrip(n: u32)
    ensures
        be_value((n >> 24u32) as u8, (n >> 16u32) as u8, (n >> 8u32) as u8, n as u8) == n,
{
    assert(((((n >> 24u32) as u8) as u32) << 24u32) | ((((n >> 16u32) as u8) as u32) << 16u32) | ((((n
        >> 8u32) as u8) as u32) << 8u32) | ((n as u8) as u32) == n) by (bit_vector);
}

/// The length that a 4-byte frame header announces.
pub fn frame_length(header: &[u8]) -> (r: u32)
    requires
        header@.len() == 4,
    ensures
        r == be_value(header@[0], header@[1], header@[2], header@[3]),
{
    ((header[0] as u32) << 24u32) | ((header[1] as u32) << 16u32) | ((header[2] as u32) << 8u32) | (
    header[3] as u32)
}

/// The frame of `payload`, or `TooLong` when its length does not fit in 4 bytes.
pub fn encode_frame(payload: &[u8]) -> (r: Result<Vec<u8>, FrameError>)
    ensures
        r is Ok <==> payload@.len() <= u32::MAX,
        r matches Ok(b) ==> b@ == framed(payload@),
        r matches Err(e) ==> e == FrameError::TooLong,
{
    if payload.len() > u32::MAX as usize {
        return Err(FrameError::TooLong);
    }
    let n = payload.len() as u32;
    let mut buf: Vec<u8> = Vec::new();
    buf.push((n >> 24u32) as u8);
    buf.push((n >> 16u32) as u8);
    buf.push((n >> 8u32) as u8);
    buf.push(n as u8);
    assert(buf@ =~= be_bytes(n));
    let mut i: usize = 0;
    while i < payload.len()
        invariant
            i <= payload@.len(),
            n == payload@.len(),
            buf@ == be_bytes(n) + payload@.take(i as int),
        decreases payload@.len() - i,
    {
        buf.push(payload[i]);
        i = i + 1;
        assert(buf@ =~= be_bytes(n) + payload@.take(i as int));
    }
    assert(payload@.take(i as int) =~= payload@);
    Ok(buf)
}

/// Reads one frame from the start of `bytes`; see [`frame_read`].
pub fn decode_frame(bytes: &[u8]) -> (r: Option<Result<(Vec<u8>, usize), FrameError>>)
    ensures
        r is None <==> frame_read(bytes@) is None,
        r matches Some(Err(e)) ==> frame_read(bytes@) == Some(Err::<(Seq<u8>, nat), FrameError>(e)),
        r matches Some(Ok((p, k))) ==> frame_read(bytes@) == Some(
            Ok::<(Seq<u8>, nat), FrameError>((p@, k as nat)),
        ),
{
    if bytes.len() < 4 {
        return None;
    }
    let n = frame_length(&bytes[0..4]);
    assert(bytes@.subrange(0, 4)[0] == bytes@[0]);
    if bytes.len() - 4 < n as usize {
        return Some(Err(FrameError::Truncated));
    }
    let end = 4 + n as usize;
    let mut payload: Vec<u8> = Vec::new();
    let mut i: usize = 4;
    while i < end
        invariant
            4 <= i <= end,
            end <= bytes@.len(),
            payload@ == bytes@.subrange(4, i as int),
        decreases end - i,
    {
        payload.push(bytes[i]);
        i = i + 1;
        assert(payload@ =~= bytes@.subrange(4, i as int));
    }
    Some(Ok((payload, end)))
}

/// Reading a frame back gives the payload that was framed, whatever bytes
/// follow it, and tells how many bytes the frame took.
pub proof fn lemma_frame_roundtrip(payload: Seq<u8>, rest: Seq<u8>)
    requires
        payload.len() <= u32::MAX,
    ensures
        frame_read(framed(payload) + rest) == Some(
            Ok::<(Seq<u8>, nat), FrameError>((payload, (4 + payload.len()) as nat)),
        ),
{
    let n = payload.len() as u32;
    let b = framed(payload) + rest;
    lemma_be_roundtrip(n);
    assert(b[0] == (n >> 24u32) as u8);
    assert(b[1] == (n >> 16u32) as u8);
    assert(b[2] == (n >> 8u32) as u8);
    assert(b[3] == n as u8);
    assert(b.subrange(4, 4 + n) =~= payload);
}

/// A frame is the payload's length in 4 bytes, most significant first,
/// then the payload itself.
pub proof fn lemma_frame_layout(payload: Seq<u8>)
    requires
        payload.len() <= u32::MAX,
    ensures
        framed(payload).len() == payload.len() + 4,
        framed(payload)[0] == (payload.len() / 0x1000000) % 0x100,
        framed(payload)[1] == (payload.len() / 0x10000) % 0x100,
        framed(payload)[2] == (payload.len() / 0x100) % 0x100,
        framed(payload)[3] == payload.len() % 0x100,
        framed(payload).subrange(4, framed(payload).len() as int) == payload,
{
    let n = payload.len() as u32;
    assert((n >> 24u32) as u8 == (n / 0x1000000u32) % 0x100u32) by (bit_vector);
    assert((n >> 16u32) as u8 == (n / 0x10000u32) % 0x100u32) by (bit_vector);
    assert((n >> 8u32) as u8 == (n / 0x100u32) % 0x100u32) by (bit_vector);
    assert(n as u8 == n % 0x100u32) by (bit_vector);
    assert(framed(payload).subrange(4, framed(payload).len() as int) =~= payload);
}

/// The length a frame header announces is its 4 bytes read as a base-256
/// number, most significant first.
pub proof fn lemma_header_value(b0: u8, b1: u8, b2: u8, b3: u8)
    ensures
        be_value(b0, b1, b2, b3) == b0 * 0x1000000 + b1 * 0x10000 + b2 * 0x100 + b3,
{
    assert(((b0 as u32) << 24u32) | ((b1 as u32) << 16u32) | ((b2 as u32) << 8u32) | (b3 as u32) == (b0 as u32)
        * 0x1000000u32 + (b1 as u32) * 0x10000u32 + (b2 as u32) * 0x100u32 + (b3 as u32)) by (bit_vector);
}

} // verus!
