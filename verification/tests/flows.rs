use tunlink::error::TunnelError;
use tunlink::flow::{
    after_device_read, after_device_write, after_header, after_payload, after_send, DeviceRead,
    FlowEnd, InboundAction, IoOutcome, OutboundAction, PACKET_BUFFER_LEN,
};
use tunlink::frame::{receive, MAX_PAYLOAD};

/// Runs the flow from the socket to the device on a stream held in memory
/// and returns the packets written to the device and the reason for the stop.
fn run_inbound(stream: &[u8], capacity: usize) -> (Vec<Vec<u8>>, FlowEnd) {
    let mut written = Vec::new();
    let mut buffer = vec![0u8; capacity];
    let mut position = 0;
    let mut action = InboundAction::ReadHeader;
    loop {
        action = match action {
            InboundAction::ReadHeader => {
                if stream.len() - position >= 2 {
                    let header = [stream[position], stream[position + 1]];
                    position += 2;
                    after_header(IoOutcome::Done, header, capacity)
                } else {
                    after_header(IoOutcome::Closed, [0, 0], capacity)
                }
            }
            InboundAction::ReadPayload(len) => {
                if stream.len() - position >= len {
                    buffer[..len].copy_from_slice(&stream[position..position + len]);
                    position += len;
                    after_payload(IoOutcome::Done, len)
                } else {
                    after_payload(IoOutcome::Closed, len)
                }
            }
            InboundAction::WriteDevice(len) => {
                written.push(buffer[..len].to_vec());
                after_device_write(IoOutcome::Done)
            }
            InboundAction::Stop(end) => return (written, end),
        };
    }
}

/// Runs the flow from the device to the socket on packets held in memory
/// and returns the bytes written to the socket and the reason for the stop.
fn run_outbound(reads: &[Vec<u8>]) -> (Vec<u8>, TunnelError) {
    let mut stream = Vec::new();
    let mut next = 0;
    let mut action = OutboundAction::ReadDevice;
    loop {
        action = match action {
            OutboundAction::ReadDevice => {
                if next < reads.len() {
                    next += 1;
                    after_device_read(DeviceRead::Packet(&reads[next - 1]))
                } else {
                    after_device_read(DeviceRead::Failed)
                }
            }
            OutboundAction::Send(frame) => {
                stream.extend_from_slice(&frame);
                after_send(IoOutcome::Done)
            }
            OutboundAction::Stop(error) => return (stream, error),
        };
    }
}

#[test]
fn packet_read_from_device_is_sent_as_frame() {
    assert_eq!(
        after_device_read(DeviceRead::Packet(&[0x45, 0x00, 0x00, 0x1C])),
        OutboundAction::Send(vec![0x00, 0x04, 0x45, 0x00, 0x00, 0x1C])
    );
}

#[test]
fn empty_device_read_is_tried_again() {
    assert_eq!(after_device_read(DeviceRead::Packet(&[])), OutboundAction::ReadDevice);
}

#[test]
fn failed_device_read_stops_outbound_flow() {
    assert_eq!(after_device_read(DeviceRead::Failed), OutboundAction::Stop(TunnelError::IOError));
}

#[test]
fn oversized_packet_stops_outbound_flow() {
    let packet = vec![0u8; MAX_PAYLOAD + 1];
    assert_eq!(
        after_device_read(DeviceRead::Packet(&packet)),
        OutboundAction::Stop(TunnelError::PacketTooLarge)
    );
    let packet = vec![0u8; MAX_PAYLOAD];
    assert!(matches!(after_device_read(DeviceRead::Packet(&packet)), OutboundAction::Send(_)));
}

#[test]
fn outbound_flow_goes_on_after_send_and_stops_on_failure() {
    assert_eq!(after_send(IoOutcome::Done), OutboundAction::ReadDevice);
    assert_eq!(after_send(IoOutcome::Closed), OutboundAction::Stop(TunnelError::ConnectionClosed));
    assert_eq!(after_send(IoOutcome::Failed), OutboundAction::Stop(TunnelError::IOError));
}

#[test]
fn header_leads_to_payload_read_of_announced_length() {
    assert_eq!(
        after_header(IoOutcome::Done, [0x05, 0xDC], PACKET_BUFFER_LEN),
        InboundAction::ReadPayload(1500)
    );
    assert_eq!(
        after_header(IoOutcome::Done, [0x05, 0xE0], PACKET_BUFFER_LEN),
        InboundAction::ReadPayload(1504)
    );
    assert_eq!(after_header(IoOutcome::Done, [0, 0], 0), InboundAction::ReadPayload(0));
}

#[test]
fn frame_larger_than_buffer_stops_inbound_flow() {
    assert_eq!(
        after_header(IoOutcome::Done, [0x05, 0xE1], PACKET_BUFFER_LEN),
        InboundAction::Stop(FlowEnd::Failed(TunnelError::PacketTooLargeForBuffer))
    );
}

#[test]
fn closure_at_header_or_payload_stops_inbound_flow() {
    let closed = InboundAction::Stop(FlowEnd::Failed(TunnelError::ConnectionClosed));
    assert_eq!(after_header(IoOutcome::Closed, [0x00, 0x04], 1504), closed);
    assert_eq!(after_header(IoOutcome::Closed, [0xFF, 0xFF], 0), closed);
    assert_eq!(after_payload(IoOutcome::Closed, 4), closed);
    assert_eq!(after_payload(IoOutcome::Closed, 0), closed);
}

#[test]
fn failed_socket_read_stops_inbound_flow() {
    let failed = InboundAction::Stop(FlowEnd::Failed(TunnelError::IOError));
    assert_eq!(after_header(IoOutcome::Failed, [0x00, 0x04], 1504), failed);
    assert_eq!(after_payload(IoOutcome::Failed, 4), failed);
}

#[test]
fn payload_goes_to_device_and_empty_frame_stops() {
    assert_eq!(after_payload(IoOutcome::Done, 1), InboundAction::WriteDevice(1));
    assert_eq!(after_payload(IoOutcome::Done, 1500), InboundAction::WriteDevice(1500));
    assert_eq!(after_payload(IoOutcome::Done, 0), InboundAction::Stop(FlowEnd::EmptyFrame));
}

#[test]
fn inbound_flow_goes_on_after_device_write_and_stops_on_failure() {
    assert_eq!(after_device_write(IoOutcome::Done), InboundAction::ReadHeader);
    assert_eq!(
        after_device_write(IoOutcome::Failed),
        InboundAction::Stop(FlowEnd::Failed(TunnelError::IOError))
    );
    assert_eq!(
        after_device_write(IoOutcome::Closed),
        InboundAction::Stop(FlowEnd::Failed(TunnelError::IOError))
    );
}

#[test]
fn packets_arrive_byte_identical_at_the_peer() {
    let packets: Vec<Vec<u8>> = [1usize, 2, 20, 255, 256, 1500, MAX_PAYLOAD]
        .iter()
        .map(|len| (0..*len).map(|i| (i * 7 % 256) as u8).collect())
        .collect();
    let (stream, end) = run_outbound(&packets);
    assert_eq!(end, TunnelError::IOError);
    let (delivered, end) = run_inbound(&stream, MAX_PAYLOAD);
    assert_eq!(delivered, packets);
    assert_eq!(end, FlowEnd::Failed(TunnelError::ConnectionClosed));
}

#[test]
fn empty_device_reads_put_nothing_on_the_stream() {
    let reads = vec![vec![], vec![1u8, 2], vec![], vec![3u8]];
    let (stream, _) = run_outbound(&reads);
    assert_eq!(stream, vec![0, 2, 1, 2, 0, 1, 3]);
}

#[test]
fn inbound_flow_agrees_with_receive() {
    let streams: [&[u8]; 6] = [
        &[],
        &[0x00],
        &[0x00, 0x00],
        &[0x00, 0x03, 1, 2],
        &[0x00, 0x03, 1, 2, 3, 0xFF],
        &[0x00, 0x09, 1, 2, 3, 4, 5, 6, 7, 8, 9],
    ];
    for stream in streams {
        let mut buffer = [0u8; 8];
        let (delivered, end) = run_inbound(stream, buffer.len());
        match receive(stream, &mut buffer) {
            Ok(0) => {
                assert!(delivered.is_empty());
                assert_eq!(end, FlowEnd::EmptyFrame);
            }
            Ok(len) => assert_eq!(delivered[0], buffer[..len].to_vec()),
            Err(error) => {
                assert!(delivered.is_empty());
                assert_eq!(end, FlowEnd::Failed(error));
            }
        }
    }
}

#[test]
fn inbound_flow_stops_at_closure_after_delivering_what_came() {
    let stream = [0x00, 0x02, 0xAA, 0xBB, 0x00, 0x04, 0x01];
    let (delivered, end) = run_inbound(&stream, PACKET_BUFFER_LEN);
    assert_eq!(delivered, vec![vec![0xAA, 0xBB]]);
    assert_eq!(end, FlowEnd::Failed(TunnelError::ConnectionClosed));
}
