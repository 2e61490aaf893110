//! The two flows of the forwarding engine. Each flow is a loop of single
//! operations on the device or on the socket; after every operation the flow
//! is told how it ended and decides the next one. A flow never restarts once
//! it has stopped.

use crate::error::TunnelError;
use crate::frame::{
    announced_len, encoded, payload_len, receive_encoded, received, send, MAX_PAYLOAD,
};
use vstd::prelude::*;

verus! {

/// Size of the packet buffer of each flow: the usual interface MTU and a
/// little slack.
pub const PACKET_BUFFER_LEN: usize = 1504;

/// How one operation on the socket or the device ended.
#[derive(Debug, Clone, Copy, PartialEq, Eq, Structural)]
pub enum IoOutcome {
    /// It completed in full.
    Done,
    /// The other side had closed before it could complete.
    Closed,
    /// It failed for another reason.
    Failed,
}

/// Why a flow stopped.
#[derive(Debug, Clone, Copy, PartialEq, Eq, Structural)]
pub enum FlowEnd {
    /// An operation failed.
    Failed(TunnelError),
    /// The peer sent a frame without payload.
    EmptyFrame,
}

/// The failure that an unfinished operation stands for.
pub open spec fn failure_of(outcome: IoOutcome) -> TunnelError
    recommends
        outcome != IoOutcome::Done,
{
    if outcome == IoOutcome::Closed {
        TunnelError::ConnectionClosed
    } else {
        TunnelError::IOError
    }
}

/// Next operation of the flow from the device to the socket, over plain values.
pub enum OutboundStep {
    /// Take the device and read the next packet.
    ReadDevice,
    /// Write these bytes to the outbound half of the connection.
    Send(Seq<u8>),
    /// Stop the flow.
    Stop(TunnelError),
}

/// Next operation of the flow from the device to the socket.
#[derive(Debug, PartialEq, Eq)]
pub enum OutboundAction {
    /// Take the device and read the next packet.
    ReadDevice,
    /// Write these bytes, one whole frame, to the outbound half of the
    /// connection.
    Send(Vec<u8>),
    /// Stop the flow.
    Stop(TunnelError),
}

impl View for OutboundAction {
    type V = OutboundStep;

    open spec fn view(&self) -> OutboundStep {
        match self {
            OutboundAction::ReadDevice => OutboundStep::ReadDevice,
            OutboundAction::Send(frame) => OutboundStep::Send(frame@),
            OutboundAction::Stop(e) => OutboundStep::Stop(*e),
        }
    }
}

/// What the device handed over.
pub enum DeviceRead<'a> {
    /// The bytes of one read; none at all means that no packet was ready.
    Packet(&'a [u8]),
    /// The read failed.
    Failed,
}

/// What the flow from the device to the socket does with the bytes of one
/// device read, `None` standing for a failed read.
pub open spec fn outbound_after_read(packet: Option<Seq<u8>>) -> OutboundStep {
    match packet {
        None => OutboundStep::Stop(TunnelError::IOError),
        Some(bytes) => if bytes.len() == 0 {
            OutboundStep::ReadDevice
        } else if bytes.len() <= MAX_PAYLOAD {
            OutboundStep::Send(encoded(bytes))
        } else {
            OutboundStep::Stop(TunnelError::PacketTooLarge)
        },
    }
}

/// What the flow from the device to the socket does once a frame was handed
/// to the socket.
pub open spec fn outbound_after_send(outcome: IoOutcome) -> OutboundStep {
    if outcome == IoOutcome::Done {
        OutboundStep::ReadDevice
    } else {
        OutboundStep::Stop(failure_of(outcome))
    }
}

/// The bytes of a device read as the contracts speak of them.
pub open spec fn read_bytes(read: DeviceRead<'_>) -> Option<Seq<u8>> {
    match read {
        DeviceRead::Packet(bytes) => Some(bytes@),
        DeviceRead::Failed => None,
    }
}

/// Device to socket, after a device read: an empty read is tried again, a
/// packet is framed for sending, a failed read or an oversized packet stops
/// the flow.
pub fn after_device_read(read: DeviceRead<'_>) -> (action: OutboundAction)
    ensures
        action@ == outbound_after_read(read_bytes(read)),
{
    match read {
        DeviceRead::Failed => OutboundAction::Stop(TunnelError::IOError),
        DeviceRead::Packet(bytes) => {
            if bytes.len() == 0 {
                OutboundAction::ReadDevice
            } else {
                let mut frame: Vec<u8> = Vec::new();
                match send(&mut frame, bytes) {
                    Ok(()) => {
                        assert(frame@ =~= encoded(bytes@));
                        OutboundAction::Send(frame)
                    },
                    Err(e) => OutboundAction::Stop(e),
                }
            }
        },
    }
}

/// Device to socket, after a frame was handed to the socket: on success the
/// device is read again, otherwise the flow stops.
pub fn after_send(outcome: IoOutcome) -> (action: OutboundAction)
    ensures
        action@ == outbound_after_send(outcome),
{
    match outcome {
        IoOutcome::Done => OutboundAction::ReadDevice,
        IoOutcome::Closed => OutboundAction::Stop(TunnelError::ConnectionClosed),
        IoOutcome::Failed => OutboundAction::Stop(TunnelError::IOError),
    }
}

/// Next operation of the flow from the socket to the device.
#[derive(Debug, Clone, Copy, PartialEq, Eq, Structural)]
pub enum InboundAction {
    /// Read exactly the two header bytes from the inbound half.
    ReadHeader,
    /// Read exactly this many payload bytes into the front of the buffer.
    ReadPayload(usize),
    /// Take the device and write this many bytes from the front of the
    /// buffer as one packet.
    WriteDevice(usize),
    /// Stop the flow, and with it the session.
    Stop(FlowEnd),
}

/// What the flow from the socket to the device does after reading a header
/// into a buffer with room for `capacity` payload bytes.
pub open spec fn inbound_after_header(outcome: IoOutcome, header: Seq<u8>, capacity: nat)
    -> InboundAction
    recommends
        header.len() == 2,
{
    if outcome != IoOutcome::Done {
        InboundAction::Stop(FlowEnd::Failed(failure_of(outcome)))
    } else if announced_len(header) > capacity {
        InboundAction::Stop(FlowEnd::Failed(TunnelError::PacketTooLargeForBuffer))
    } else {
        InboundAction::ReadPayload(announced_len(header) as usize)
    }
}

/// What the flow from the socket to the device does after reading a payload
/// of `len` bytes.
pub open spec fn inbound_after_payload(outcome: IoOutcome, len: usize) -> InboundAction {
    if outcome != IoOutcome::Done {
        InboundAction::Stop(FlowEnd::Failed(failure_of(outcome)))
    } else if len == 0 {
        InboundAction::Stop(FlowEnd::EmptyFrame)
    } else {
        InboundAction::WriteDevice(len)
    }
}

/// What the flow from the socket to the device does after a device write.
pub open spec fn inbound_after_write(outcome: IoOutcome) -> InboundAction {
    if outcome == IoOutcome::Done {
        InboundAction::ReadHeader
    } else {
        InboundAction::Stop(FlowEnd::Failed(TunnelError::IOError))
    }
}

/// Socket to device, after the header read. `header` counts only where the
/// read completed. A closed or failed stream stops the flow, and so does a
/// frame that the buffer cannot hold; otherwise the payload is read.
pub fn after_header(outcome: IoOutcome, header: [u8; 2], capacity: usize) -> (action:
    InboundAction)
    ensures
        action == inbound_after_header(outcome, header@, capacity as nat),
{
    match outcome {
        IoOutcome::Done => match payload_len(header, capacity) {
            Ok(len) => InboundAction::ReadPayload(len),
            Err(e) => InboundAction::Stop(FlowEnd::Failed(e)),
        },
        IoOutcome::Closed => InboundAction::Stop(FlowEnd::Failed(TunnelError::ConnectionClosed)),
        IoOutcome::Failed => InboundAction::Stop(FlowEnd::Failed(TunnelError::IOError)),
    }
}

/// Socket to device, after the payload read of `len` bytes: a payload goes
/// to the device, an empty frame or an unfinished read stops the flow.
pub fn after_payload(outcome: IoOutcome, len: usize) -> (action: InboundAction)
    ensures
        action == inbound_after_payload(outcome, len),
{
    match outcome {
        IoOutcome::Done => if len == 0 {
            InboundAction::Stop(FlowEnd::EmptyFrame)
        } else {
            InboundAction::WriteDevice(len)
        },
        IoOutcome::Closed => InboundAction::Stop(FlowEnd::Failed(TunnelError::ConnectionClosed)),
        IoOutcome::Failed => InboundAction::Stop(FlowEnd::Failed(TunnelError::IOError)),
    }
}

/// Socket to device, after the device write: on success the next header is
/// read, otherwise the flow stops.
pub fn after_device_write(outcome: IoOutcome) -> (action: InboundAction)
    ensures
        action == inbound_after_write(outcome),
{
    match outcome {
        IoOutcome::Done => InboundAction::ReadHeader,
        _ => InboundAction::Stop(FlowEnd::Failed(TunnelError::IOError)),
    }
}

/// What the flow from the socket to the device makes of the first frame
/// of a stream.
pub enum Delivery {
    /// It writes these bytes to the device as one packet.
    Packet(Seq<u8>),
    /// It stops.
    Stopped(FlowEnd),
}

/// How a read of exactly `wanted` bytes ends on a stream that delivers
/// `available` more bytes and then closes.
pub open spec fn read_exact_outcome(available: int, wanted: int) -> IoOutcome {
    if wanted <= available {
        IoOutcome::Done
    } else {
        IoOutcome::Closed
    }
}

/// The steps of the flow from the socket to the device, taken one after the
/// other on `stream`, which holds everything the connection delivers before
/// it closes: the header read, the payload read, and the device write that
/// they lead to.
pub open spec fn inbound_on(stream: Seq<u8>, capacity: nat) -> Delivery {
    let header = stream.subrange(0, 2);
    match inbound_after_header(read_exact_outcome(stream.len() as int, 2), header, capacity) {
        InboundAction::ReadPayload(len) => match inbound_after_payload(
            read_exact_outcome(stream.len() - 2, len as int),
            len,
        ) {
            InboundAction::WriteDevice(count) => Delivery::Packet(stream.subrange(2, 2 + count)),
            InboundAction::Stop(end) => Delivery::Stopped(end),
            _ => Delivery::Stopped(FlowEnd::Failed(TunnelError::IOError)),
        },
        InboundAction::Stop(end) => Delivery::Stopped(end),
        _ => Delivery::Stopped(FlowEnd::Failed(TunnelError::IOError)),
    }
}

/// The bytes that the flow from the device to the socket puts on the stream
/// while the device hands over `reads`, one after the other, and every
/// write to the socket succeeds.
pub open spec fn outbound_stream(reads: Seq<Seq<u8>>) -> Seq<u8>
    decreases reads.len(),
{
    if reads.len() == 0 {
        Seq::empty()
    } else {
        match outbound_after_read(Some(reads.first())) {
            OutboundStep::Send(frame) => frame + outbound_stream(reads.drop_first()),
            OutboundStep::ReadDevice => outbound_stream(reads.drop_first()),
            OutboundStep::Stop(_) => Seq::empty(),
        }
    }
}

/// The packets that the flow from the socket to the device writes, in
/// order, while it reads `stream` to its end and every write to the device
/// succeeds.
pub open spec fn inbound_packets(stream: Seq<u8>, capacity: nat) -> Seq<Seq<u8>>
    decreases stream.len(),
{
    match inbound_on(stream, capacity) {
        Delivery::Packet(packet) => seq![packet] + inbound_packets(
            stream.skip(2 + packet.len() as int),
            capacity,
        ),
        Delivery::Stopped(_) => Seq::empty(),
    }
}

/// The flow's steps and the codec agree: on any stream and with any buffer
/// the flow writes to the device exactly the payload that receiving the
/// first frame yields, stops on an empty frame, and otherwise stops with
/// the error that receiving fails with.
pub proof fn inbound_follows_codec(stream: Seq<u8>, capacity: nat)
    ensures
        inbound_on(stream, capacity) == match received(stream, capacity) {
            Ok(payload) => if payload.len() == 0 {
                Delivery::Stopped(FlowEnd::EmptyFrame)
            } else {
                Delivery::Packet(payload)
            },
            Err(e) => Delivery::Stopped(FlowEnd::Failed(e)),
        },
{
}

/// One frame reaches the device. A packet of 1 to 65535 bytes read from
/// one endpoint's device is sent as its frame, and the peer that reads this
/// frame from the stream, whatever follows it there, writes to its device a
/// packet with the very same bytes. The peer's buffer must have room for the
/// packet.
pub proof fn frame_reaches_device(packet: Seq<u8>, rest: Seq<u8>, capacity: nat)
    requires
        1 <= packet.len() <= MAX_PAYLOAD,
        packet.len() <= capacity,
    ensures
        outbound_after_read(Some(packet)) == OutboundStep::Send(encoded(packet)),
        inbound_on(encoded(packet) + rest, capacity) == Delivery::Packet(packet),
{
    receive_encoded(packet, rest, capacity);
    inbound_follows_codec(encoded(packet) + rest, capacity);
}

/// Forwarding fidelity. Whatever packets of 1 to 65535 bytes one endpoint
/// reads from its device, the peer that reads the resulting stream writes
/// to its own device the same packets, byte for byte, in the same order,
/// and nothing else. The peer's buffer must have room for each packet.
pub proof fn forwarding_fidelity(packets: Seq<Seq<u8>>, capacity: nat)
    requires
        forall|i: int|
            0 <= i < packets.len() ==> 1 <= (#[trigger] packets[i]).len() <= MAX_PAYLOAD
                && packets[i].len() <= capacity,
    ensures
        inbound_packets(outbound_stream(packets), capacity) == packets,
    decreases packets.len(),
{
    if packets.len() == 0 {
        inbound_follows_codec(outbound_stream(packets), capacity);
        assert(inbound_packets(outbound_stream(packets), capacity) =~= packets);
    } else {
        let first = packets.first();
        let later = packets.drop_first();
        let rest = outbound_stream(later);
        assert forall|i: int| 0 <= i < later.len() implies 1 <= (#[trigger] later[i]).len()
            <= MAX_PAYLOAD && later[i].len() <= capacity by {
            assert(later[i] == packets[i + 1]);
        }
        forwarding_fidelity(later, capacity);
        frame_reaches_device(first, rest, capacity);
        let stream = encoded(first) + rest;
        assert(outbound_stream(packets) == stream);
        assert(stream.skip(2 + first.len() as int) =~= rest);
        assert(inbound_packets(stream, capacity) =~= seq![first] + later);
        assert(seq![first] + later =~= packets);
    }
}

} // verus!
