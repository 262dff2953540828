use fuji_ptp_core::transport::{MockTransport, Transport, TransportError};

#[test]
fn can_create_mock_transport() {
    let _transport = MockTransport::new();
}

#[test]
fn can_store_sent_data() {
    let mut transport = MockTransport::new();

    transport.send(&[0x01, 0x02]).unwrap();
    transport.send(&[0x03, 0x04]).unwrap();

    assert_eq!(transport.sent_data.len(), 2);
    assert_eq!(transport.sent_data[0], vec![0x01, 0x02]);
    assert_eq!(transport.sent_data[1], vec![0x03, 0x04]);
}

#[test]
fn mock_plays_back_in_order_then_empty() {
    let mut transport = MockTransport::new();
    transport.queue_received(vec![1]);
    transport.queue_received(vec![2]);
    assert_eq!(transport.receive().unwrap(), vec![1]);
    assert_eq!(transport.receive().unwrap(), vec![2]);
    assert_eq!(transport.receive().unwrap(), Vec::<u8>::new());
}

#[test]
fn mock_failure_is_reported_once() {
    let mut transport = MockTransport::new();
    transport.queue_received(vec![7]);
    transport.fail_receive(TransportError::ConnectionError);
    assert_eq!(transport.receive(), Err(TransportError::ConnectionError));
    assert_eq!(transport.receive().unwrap(), vec![7]);
}
