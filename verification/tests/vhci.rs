use esp_bt::bt_controller::trouble::{
    copy_if_reserved, copy_packet, deliver, into_transport_result, read_packet, transmit_buffer,
    tx_step, zeroed_if_reserved, HciBytesError,
    IoErrorKind, RxMessage, TransportError, TxStep, VhciEndpoint,
};
use bt_hci::{ControllerToHostPacket, FromHciBytes};
use esp_bt::esp_error::ESP_ERR_INVALID_STATE;

fn packet_bytes(m: Option<RxMessage>) -> Option<Vec<u8>> {
    match m {
        Some(RxMessage::Packet(bytes)) => Some(bytes),
        Some(RxMessage::NullPacket) => Some(Vec::new()),
        None => None,
    }
}

#[test]
fn activation_is_exclusive() {
    let mut ep = VhciEndpoint::new();
    assert!(!ep.is_active());
    assert!(ep.activate().is_ok());
    assert!(ep.is_active());
    assert_eq!(ep.activate().unwrap_err().code(), ESP_ERR_INVALID_STATE);
    ep.shutdown();
    assert!(!ep.is_active());
    assert!(ep.activate().is_ok());
}

#[test]
fn deactivate_after_failed_registration() {
    let mut ep = VhciEndpoint::new();
    ep.activate().unwrap();
    ep.deactivate();
    assert!(!ep.is_active());
    assert_eq!(ep.ensure_active(), Err(TransportError::Inactive));
    assert!(ep.activate().is_ok());
    assert_eq!(ep.ensure_active(), Ok(()));
}

#[test]
fn inactive_endpoint_drops_packets() {
    let mut ep = VhciEndpoint::new();
    assert!(!ep.notify_host_recv(Some(&[4, 14, 0])));
    assert!(!ep.notify_host_send_available());
    ep.activate().unwrap();
    assert!(matches!(ep.take_next(), Ok(None)));
}

#[test]
fn packets_are_read_in_arrival_order() {
    let mut ep = VhciEndpoint::new();
    ep.activate().unwrap();
    assert!(ep.notify_host_send_available());
    assert!(ep.notify_host_recv(Some(&[1, 2, 3])));
    assert!(ep.notify_host_recv(Some(&[4, 5])));
    assert_eq!(packet_bytes(ep.take_next().unwrap()), Some(vec![1, 2, 3]));
    assert_eq!(packet_bytes(ep.take_next().unwrap()), Some(vec![4, 5]));
    assert!(matches!(ep.take_next(), Ok(None)));
}

#[test]
fn null_packets_are_queued() {
    let mut ep = VhciEndpoint::new();
    ep.activate().unwrap();
    assert!(ep.notify_host_recv(None));
    assert!(matches!(ep.take_next(), Ok(Some(RxMessage::NullPacket))));
}

#[test]
fn errors_are_reported_before_packets() {
    let mut ep = VhciEndpoint::new();
    ep.activate().unwrap();
    ep.notify_host_recv(Some(&[9]));
    ep.record_rx_error(TransportError::ReceiveAllocationFailed(12));
    assert!(matches!(ep.take_next(), Err(TransportError::ReceiveAllocationFailed(12))));
    assert_eq!(packet_bytes(ep.take_next().unwrap()), Some(vec![9]));
}

#[test]
fn enqueue_rx_appends() {
    let mut ep = VhciEndpoint::new();
    ep.activate().unwrap();
    ep.enqueue_rx(RxMessage::Packet(vec![7, 7]));
    ep.enqueue_rx(RxMessage::NullPacket);
    assert_eq!(packet_bytes(ep.take_next().unwrap()), Some(vec![7, 7]));
    assert!(matches!(ep.take_next(), Ok(Some(RxMessage::NullPacket))));
}

#[test]
fn shutdown_clears_the_queue() {
    let mut ep = VhciEndpoint::new();
    ep.activate().unwrap();
    ep.notify_host_recv(Some(&[1]));
    ep.record_rx_error(TransportError::Serialize);
    ep.shutdown();
    ep.activate().unwrap();
    assert!(matches!(ep.take_next(), Ok(None)));
}

#[test]
fn deliver_copies_into_buffer() {
    let mut rx = [0xaau8; 5];
    assert_eq!(deliver(RxMessage::Packet(vec![1, 2, 3]), &mut rx), Ok(3));
    assert_eq!(rx, [1, 2, 3, 0xaa, 0xaa]);
}

#[test]
fn deliver_refuses_small_buffer_and_null() {
    let mut rx = [0u8; 2];
    assert_eq!(
        deliver(RxMessage::Packet(vec![1, 2, 3]), &mut rx),
        Err(TransportError::ReceiveBufferTooSmall { required: 3, available: 2 })
    );
    assert_eq!(rx, [0, 0]);
    assert_eq!(deliver(RxMessage::NullPacket, &mut rx), Err(TransportError::NullReceivePacket));
}

#[test]
fn read_packet_parses_an_event() {
    // HCI event: Command Complete for HCI_Reset, status success.
    let mut rx = [0u8; 32];
    let packet = vec![0x04, 0x0e, 0x04, 0x01, 0x03, 0x0c, 0x00];
    let parsed = read_packet(RxMessage::Packet(packet), &mut rx);
    assert!(parsed.is_ok());
}

#[test]
fn read_packet_refuses_malformed_bytes() {
    let mut rx = [0u8; 32];
    // A command indicator is not a controller-to-host packet.
    let parsed = read_packet(RxMessage::Packet(vec![0x01, 0x03, 0x0c, 0x00]), &mut rx);
    assert!(matches!(parsed, Err(TransportError::InvalidPacket(HciBytesError::InvalidValue))));
    // An unknown indicator.
    let parsed = read_packet(RxMessage::Packet(vec![0x09, 0x00]), &mut rx);
    assert!(matches!(parsed, Err(TransportError::InvalidPacket(HciBytesError::InvalidValue))));
    // An empty packet.
    let parsed = read_packet(RxMessage::Packet(vec![]), &mut rx);
    assert!(matches!(parsed, Err(TransportError::InvalidPacket(HciBytesError::InvalidSize))));
    // An event shorter than its header says.
    let parsed = read_packet(RxMessage::Packet(vec![0x04, 0x0e, 0x04, 0x01]), &mut rx);
    assert!(matches!(parsed, Err(TransportError::InvalidPacket(HciBytesError::InvalidSize))));
}

#[test]
fn read_packet_reports_buffer_and_null_errors() {
    let mut rx = [0u8; 3];
    let parsed = read_packet(RxMessage::Packet(vec![0x04, 0x0e, 0x04, 0x01, 0x03, 0x0c, 0x00]), &mut rx);
    assert!(matches!(
        parsed,
        Err(TransportError::ReceiveBufferTooSmall { required: 7, available: 3 })
    ));
    let parsed = read_packet(RxMessage::NullPacket, &mut rx);
    assert!(matches!(parsed, Err(TransportError::NullReceivePacket)));
}

#[test]
fn parse_errors_become_invalid_packet() {
    assert_eq!(
        into_transport_result::<u8>(Err(HciBytesError::InvalidSize)),
        Err(TransportError::InvalidPacket(HciBytesError::InvalidSize))
    );
    assert_eq!(into_transport_result::<u8>(Ok(3)), Ok(3));
}

#[test]
fn transmit_buffer_limits() {
    assert_eq!(transmit_buffer(70000), Err(TransportError::TransmitPacketTooLarge(70000)));
    assert_eq!(transmit_buffer(65536), Err(TransportError::TransmitPacketTooLarge(65536)));
    let (buf, len) = transmit_buffer(5).unwrap();
    assert_eq!(buf, vec![0u8; 5]);
    assert_eq!(len, 5);
    let (buf, len) = transmit_buffer(65535).unwrap();
    assert_eq!(buf.len(), 65535);
    assert_eq!(len, 65535);
}

#[test]
fn writer_steps() {
    assert_eq!(tx_step(false, true), TxStep::Fail(TransportError::Inactive));
    assert_eq!(tx_step(true, true), TxStep::Send);
    assert_eq!(tx_step(true, false), TxStep::Wait);
}

#[test]
fn transport_error_text() {
    assert_eq!(TransportError::Inactive.to_string(), "VHCI transport is inactive");
    assert_eq!(
        TransportError::ReceiveAllocationFailed(12).to_string(),
        "failed to allocate a 12-byte controller packet"
    );
    assert_eq!(
        TransportError::NullReceivePacket.to_string(),
        "ESP-IDF supplied a null packet pointer"
    );
    assert_eq!(
        TransportError::ReceiveBufferTooSmall { required: 300, available: 255 }.to_string(),
        "receive buffer is too small: requires 300 bytes, but only 255 are available"
    );
    assert_eq!(
        TransportError::TransmitPacketTooLarge(70000).to_string(),
        "70000-byte host packet exceeds the VHCI length limit"
    );
    assert_eq!(
        TransportError::TransmitAllocationFailed(8).to_string(),
        "failed to allocate a 8-byte host packet"
    );
    assert_eq!(
        TransportError::InvalidPacket(HciBytesError::InvalidValue).to_string(),
        "invalid HCI packet: InvalidValue"
    );
    assert_eq!(TransportError::Serialize.to_string(), "failed to serialize the host packet");
}

#[test]
fn transport_error_kinds() {
    assert_eq!(TransportError::Inactive.kind(), IoErrorKind::NotConnected);
    assert_eq!(TransportError::ReceiveAllocationFailed(1).kind(), IoErrorKind::OutOfMemory);
    assert_eq!(TransportError::TransmitAllocationFailed(1).kind(), IoErrorKind::OutOfMemory);
    assert_eq!(TransportError::NullReceivePacket.kind(), IoErrorKind::InvalidData);
    assert_eq!(
        TransportError::InvalidPacket(HciBytesError::InvalidSize).kind(),
        IoErrorKind::InvalidData
    );
    assert_eq!(
        TransportError::ReceiveBufferTooSmall { required: 2, available: 1 }.kind(),
        IoErrorKind::OutOfMemory
    );
    assert_eq!(TransportError::TransmitPacketTooLarge(1).kind(), IoErrorKind::InvalidInput);
    assert_eq!(TransportError::Serialize.kind(), IoErrorKind::WriteZero);
    let e: TransportError = HciBytesError::InvalidValue.into();
    assert_eq!(e, TransportError::InvalidPacket(HciBytesError::InvalidValue));
}

#[test]
fn read_packet_fills_the_front_of_the_buffer() {
    let mut rx = [0xaau8; 10];
    {
        let parsed = read_packet(RxMessage::Packet(vec![0x04, 0x0e, 0x04, 0x01, 0x03, 0x0c, 0x00]), &mut rx);
        assert!(parsed.is_ok());
    }
    assert_eq!(rx, [0x04, 0x0e, 0x04, 0x01, 0x03, 0x0c, 0x00, 0xaa, 0xaa, 0xaa]);
    {
        let parsed = read_packet(RxMessage::Packet(vec![0x09, 0x01]), &mut rx);
        assert!(parsed.is_err());
    }
    assert_eq!(rx, [0x09, 0x01, 0x04, 0x01, 0x03, 0x0c, 0x00, 0xaa, 0xaa, 0xaa]);
}

#[test]
fn read_packet_leaves_the_buffer_on_refusal() {
    let mut rx = [0x55u8; 3];
    {
        let parsed = read_packet(RxMessage::Packet(vec![0x04, 0x0e, 0x04, 0x01]), &mut rx);
        assert!(matches!(
            parsed,
            Err(TransportError::ReceiveBufferTooSmall { required: 4, available: 3 })
        ));
    }
    assert_eq!(rx, [0x55; 3]);
    {
        let parsed = read_packet(RxMessage::NullPacket, &mut rx);
        assert!(matches!(parsed, Err(TransportError::NullReceivePacket)));
    }
    assert_eq!(rx, [0x55; 3]);
}

#[test]
fn two_packets_are_read_into_their_buffers_in_order() {
    let mut ep = VhciEndpoint::new();
    ep.activate().unwrap();
    assert!(ep.notify_host_recv(Some(&[0x04, 0x0e, 0x04, 0x01, 0x03, 0x0c, 0x00])));
    assert!(ep.notify_host_recv(Some(&[0x04, 0x13, 0x01, 0x00])));
    let mut rx1 = [0u8; 8];
    let mut rx2 = [0u8; 8];
    {
        let first = ep.take_next().unwrap().unwrap();
        assert!(read_packet(first, &mut rx1).is_ok());
    }
    {
        let second = ep.take_next().unwrap().unwrap();
        let _ = read_packet(second, &mut rx2);
    }
    assert_eq!(rx1, [0x04, 0x0e, 0x04, 0x01, 0x03, 0x0c, 0x00, 0]);
    assert_eq!(&rx2[..4], &[0x04, 0x13, 0x01, 0x00]);
    assert!(matches!(ep.take_next(), Ok(None)));
}

#[test]
fn enqueue_reserved_appends_or_reports() {
    let mut ep = VhciEndpoint::new();
    ep.activate().unwrap();
    ep.enqueue_reserved(RxMessage::Packet(vec![1, 2]), true);
    ep.enqueue_reserved(RxMessage::Packet(vec![3, 4, 5]), false);
    assert!(matches!(ep.take_next(), Err(TransportError::ReceiveAllocationFailed(3))));
    assert_eq!(packet_bytes(ep.take_next().unwrap()), Some(vec![1, 2]));
    assert!(matches!(ep.take_next(), Ok(None)));
    ep.enqueue_reserved(RxMessage::NullPacket, false);
    assert!(matches!(ep.take_next(), Err(TransportError::ReceiveAllocationFailed(0))));
}

#[test]
fn receive_outcome_per_allocation() {
    let mut ep = VhciEndpoint::new();
    let data: &[u8] = &[4, 14, 0];
    // Inactive: nothing happens, whatever the allocations gave.
    assert!(!ep.receive_outcome(Some(data), Some(data.to_vec()), true));
    ep.activate().unwrap();
    assert!(matches!(ep.take_next(), Ok(None)));
    // Both allocations succeeded: the copy is queued.
    assert!(ep.receive_outcome(Some(data), Some(data.to_vec()), true));
    assert_eq!(packet_bytes(ep.take_next().unwrap()), Some(vec![4, 14, 0]));
    // The copy could not be allocated.
    assert!(ep.receive_outcome(Some(data), None, false));
    assert!(matches!(ep.take_next(), Err(TransportError::ReceiveAllocationFailed(3))));
    assert!(matches!(ep.take_next(), Ok(None)));
    // The queue could not grow.
    assert!(ep.receive_outcome(Some(data), Some(data.to_vec()), false));
    assert!(matches!(ep.take_next(), Err(TransportError::ReceiveAllocationFailed(3))));
    // A null packet is queued as such.
    assert!(ep.receive_outcome(None, None, true));
    assert!(matches!(ep.take_next(), Ok(Some(RxMessage::NullPacket))));
}

#[test]
fn copy_if_reserved_copies_only_when_reserved() {
    let bytes: &[u8] = &[9, 8, 7];
    assert_eq!(copy_if_reserved(Vec::new(), bytes, true), Some(vec![9, 8, 7]));
    assert_eq!(copy_if_reserved(Vec::new(), bytes, false), None);
    assert_eq!(copy_packet(bytes), Some(vec![9, 8, 7]));
}

#[test]
fn zeroed_if_reserved_fills_only_when_reserved() {
    let (buf, len) = zeroed_if_reserved(Vec::new(), 5, true).unwrap();
    assert_eq!(buf, vec![0u8; 5]);
    assert_eq!(len, 5);
    assert_eq!(
        zeroed_if_reserved(Vec::new(), 5, false),
        Err(TransportError::TransmitAllocationFailed(5))
    );
    let (buf, len) = zeroed_if_reserved(Vec::new(), 0, true).unwrap();
    assert!(buf.is_empty());
    assert_eq!(len, 0);
}

#[test]
fn read_packet_returns_the_packet_of_the_copied_bytes() {
    // Stale bytes behind the packet are not part of what is parsed.
    let mut rx = [0xaau8; 12];
    let packet = vec![0x04, 0x0e, 0x04, 0x01, 0x03, 0x0c, 0x00];
    let expected = format!(
        "{:?}",
        <ControllerToHostPacket as FromHciBytes>::from_hci_bytes_complete(&packet).unwrap()
    );
    let parsed = read_packet(RxMessage::Packet(packet), &mut rx).unwrap();
    assert_eq!(format!("{:?}", parsed), expected);
}
