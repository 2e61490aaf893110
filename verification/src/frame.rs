//! Length-prefixed framing: a frame is a two-byte big-endian length followed
//! by exactly that many payload bytes, and carries one IP packet.

use crate::error::TunnelError;
use vstd::prelude::*;

verus! {

/// Number of bytes in a frame header.
pub const HEADER_LEN: usize = 2;

/// Largest payload that a header can announce.
pub const MAX_PAYLOAD: usize = 65535;

/// The two header bytes that announce `len`, most significant first.
pub open spec fn header_of(len: nat) -> Seq<u8>
    recommends
        len <= MAX_PAYLOAD,
{
    seq![(len / 256) as u8, (len % 256) as u8]
}

/// The length that a two-byte header announces.
pub open spec fn announced_len(header: Seq<u8>) -> nat
    recommends
        header.len() == HEADER_LEN,
{
    (header[0] as nat) * 256 + (header[1] as nat)
}

/// The bytes on the wire for one packet: its header, then the packet itself.
pub open spec fn encoded(payload: Seq<u8>) -> Seq<u8>
    recommends
        payload.len() <= MAX_PAYLOAD,
{
    header_of(payload.len()) + payload
}

/// The payload of the first frame of `stream`, where `stream` is everything
/// the connection delivers before it closes.
pub open spec fn decoded(stream: Seq<u8>) -> Option<Seq<u8>> {
    if stream.len() < HEADER_LEN {
        None
    } else {
        let len = announced_len(stream.subrange(0, HEADER_LEN as int));
        if stream.len() < HEADER_LEN + len {
            None
        } else {
            Some(stream.subrange(HEADER_LEN as int, HEADER_LEN + len))
        }
    }
}

/// What receiving one frame from `stream` into a buffer of `capacity` bytes
/// yields: the payload, or the reason there is none. The header is judged
/// before the payload is awaited.
pub open spec fn received(stream: Seq<u8>, capacity: nat) -> Result<Seq<u8>, TunnelError> {
    if stream.len() < HEADER_LEN {
        Err(TunnelError::ConnectionClosed)
    } else if announced_len(stream.subrange(0, HEADER_LEN as int)) > capacity {
        Err(TunnelError::PacketTooLargeForBuffer)
    } else {
        match decoded(stream) {
            Some(payload) => Ok(payload),
            None => Err(TunnelError::ConnectionClosed),
        }
    }
}

/// Builds the header for a payload of `len` bytes.
pub fn header_bytes(len: usize) -> (r: Result<[u8; 2], TunnelError>)
    ensures
        len <= MAX_PAYLOAD ==> r is Ok && r->Ok_0@ == header_of(len as nat),
        len > MAX_PAYLOAD ==> r == Err::<[u8; 2], TunnelError>(TunnelError::PacketTooLarge),
{
    if len > MAX_PAYLOAD {
        return Err(TunnelError::PacketTooLarge);
    }
    let high: u8 = (len / 256) as u8;
    let low: u8 = (len % 256) as u8;
    let header: [u8; 2] = [high, low];
    assert(header@ =~= header_of(len as nat));
    Ok(header)
}

/// Reads the length that a received header announces and holds it against
/// the room in the receive buffer.
pub fn payload_len(header: [u8; 2], capacity: usize) -> (r: Result<usize, TunnelError>)
    ensures
        announced_len(header@) <= capacity ==> r == Ok::<usize, TunnelError>(
            announced_len(header@) as usize,
        ),
        announced_len(header@) > capacity ==> r == Err::<usize, TunnelError>(
            TunnelError::PacketTooLargeForBuffer,
        ),
{
    let high: usize = header[0] as usize;
    let low: usize = header[1] as usize;
    let len: usize = high * 256 + low;
    if len > capacity {
        Err(TunnelError::PacketTooLargeForBuffer)
    } else {
        Ok(len)
    }
}

/// Appends the frame for `packet` to `stream`. A packet longer than
/// [`MAX_PAYLOAD`] is refused and nothing is written.
pub fn send(stream: &mut Vec<u8>, packet: &[u8]) -> (r: Result<(), TunnelError>)
    ensures
        packet@.len() <= MAX_PAYLOAD ==> r is Ok && final(stream)@ == old(stream)@ + encoded(
            packet@,
        ),
        packet@.len() > MAX_PAYLOAD ==> r == Err::<(), TunnelError>(TunnelError::PacketTooLarge)
            && final(stream)@ == old(stream)@,
{
    let header = match header_bytes(packet.len()) {
        Ok(header) => header,
        Err(e) => {
            return Err(e);
        },
    };
    stream.push(header[0]);
    stream.push(header[1]);
    assert(stream@ =~= old(stream)@ + header_of(packet@.len()));
    let mut i: usize = 0;
    while i < packet.len()
        invariant
            i <= packet@.len(),
            stream@ == old(stream)@ + header_of(packet@.len()) + packet@.take(i as int),
        decreases packet@.len() - i,
    {
        stream.push(packet[i]);
        i += 1;
        assert(packet@.take(i as int) =~= packet@.take(i - 1).push(packet@[i - 1]));
    }
    assert(packet@.take(i as int) =~= packet@);
    assert(stream@ =~= old(stream)@ + encoded(packet@));
    Ok(())
}

/// Receives one frame from `stream`, which holds everything the connection
/// delivers before it closes, into the front of `buffer`. Returns the payload
/// length. On any failure the buffer is left as it was.
pub fn receive(stream: &[u8], buffer: &mut [u8]) -> (r: Result<usize, TunnelError>)
    ensures
        match received(stream@, old(buffer)@.len()) {
            Ok(payload) => r == Ok::<usize, TunnelError>(payload.len() as usize)
                && final(buffer)@ == payload + old(buffer)@.skip(payload.len() as int),
            Err(e) => r == Err::<usize, TunnelError>(e) && final(buffer)@ == old(buffer)@,
        },
{
    if stream.len() < HEADER_LEN {
        return Err(TunnelError::ConnectionClosed);
    }
    let header: [u8; 2] = [stream[0], stream[1]];
    assert(header@ =~= stream@.subrange(0, HEADER_LEN as int));
    let len = match payload_len(header, buffer.len()) {
        Ok(len) => len,
        Err(e) => {
            return Err(e);
        },
    };
    if stream.len() - HEADER_LEN < len {
        return Err(TunnelError::ConnectionClosed);
    }
    let ghost payload = stream@.subrange(HEADER_LEN as int, HEADER_LEN + len);
    let mut i: usize = 0;
    while i < len
        invariant
            i <= len,
            len <= buffer@.len(),
            HEADER_LEN + len <= stream@.len() <= usize::MAX,
            buffer@.len() == old(buffer)@.len(),
            payload == stream@.subrange(HEADER_LEN as int, HEADER_LEN + len),
            buffer@ == payload.take(i as int) + old(buffer)@.skip(i as int),
        decreases len - i,
    {
        buffer[i] = stream[i + HEADER_LEN];
        i += 1;
        assert(buffer@ =~= payload.take(i as int) + old(buffer)@.skip(i as int));
    }
    assert(payload.take(len as int) =~= payload);
    Ok(len)
}

/// Round trip: the frame of a payload, whatever follows it on the stream,
/// decodes to that payload.
pub proof fn decode_encode(payload: Seq<u8>, rest: Seq<u8>)
    requires
        payload.len() <= MAX_PAYLOAD,
    ensures
        decoded(encoded(payload) + rest) == Some(payload),
        announced_len(header_of(payload.len())) == payload.len(),
{
    let stream = encoded(payload) + rest;
    assert(stream.subrange(0, HEADER_LEN as int) =~= header_of(payload.len()));
    assert(stream.subrange(HEADER_LEN as int, HEADER_LEN + payload.len()) =~= payload);
}

/// Receiving the frame of a payload succeeds exactly when the buffer has
/// room for the payload, and then yields the payload.
pub proof fn receive_encoded(payload: Seq<u8>, rest: Seq<u8>, capacity: nat)
    requires
        payload.len() <= MAX_PAYLOAD,
    ensures
        payload.len() <= capacity ==> received(encoded(payload) + rest, capacity) == Ok::<
            Seq<u8>,
            TunnelError,
        >(payload),
        payload.len() > capacity ==> received(encoded(payload) + rest, capacity) == Err::<
            Seq<u8>,
            TunnelError,
        >(TunnelError::PacketTooLargeForBuffer),
{
    decode_encode(payload, rest);
    let stream = encoded(payload) + rest;
    assert(stream.subrange(0, HEADER_LEN as int) =~= header_of(payload.len()));
}

} // verus!
