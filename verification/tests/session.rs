use fuji_ptp_core::ptp::{PtpProtocolError, PtpSession, PtpSessionError};
use fuji_ptp_core::transport::{MockTransport, Transport, TransportError};

#[test]
fn can_create_ptp_session() {
    let _ = PtpSession::new(MockTransport::new());
}

#[test]
fn can_generate_transaction_ids() {
    let mut s = PtpSession::new(MockTransport::new());
    assert_eq!(s.next_transaction_id(), 1);
    assert_eq!(s.next_transaction_id(), 2);
}

#[test]
fn can_send_data() {
    let mut s = PtpSession::new(MockTransport::new());
    s.send(&[1, 2, 3]).unwrap();
    assert_eq!(s.transport().sent_data[0], vec![1, 2, 3]);
}

#[test]
fn get_property_sends_command_and_parses_data_and_response() {
    let mut t = MockTransport::new();
    t.queue_received(vec![14, 0, 0, 0, 2, 0, 0x15, 0x10, 1, 0, 0, 0, 0xaa, 0xbb]);
    t.queue_received(vec![12, 0, 0, 0, 3, 0, 1, 0x20, 1, 0, 0, 0]);
    let mut s = PtpSession::new(t);
    assert_eq!(s.get_device_prop_value(0xd18d).unwrap(), vec![0xaa, 0xbb]);
    assert_eq!(
        s.transport().sent_data[0],
        vec![16, 0, 0, 0, 1, 0, 0x15, 0x10, 1, 0, 0, 0, 0x8d, 0xd1, 0, 0]
    );
}

#[test]
fn can_build_ptp_command() {
    assert_eq!(
        PtpSession::<MockTransport>::build_command(0x1016, 1, 0xD18C),
        vec![0x10, 0, 0, 0, 1, 0, 0x16, 0x10, 1, 0, 0, 0, 0x8c, 0xd1, 0, 0]
    );
}

#[test]
fn can_build_ptp_data() {
    assert_eq!(
        PtpSession::<MockTransport>::build_data(0x1016, 1, &[3, 0]),
        vec![0x0e, 0, 0, 0, 2, 0, 0x16, 0x10, 1, 0, 0, 0, 3, 0]
    );
}

#[test]
fn build_command_without_parameters() {
    assert_eq!(
        PtpSession::<MockTransport>::build_command_no_params(0x1003, 0x0102_0304),
        vec![12, 0, 0, 0, 1, 0, 0x03, 0x10, 4, 3, 2, 1]
    );
}

#[test]
fn built_data_container_parses_back() {
    let packet = PtpSession::<MockTransport>::build_data(0x1015, 7, &[9, 8, 7]);
    assert_eq!(
        PtpSession::<MockTransport>::parse_container(&packet, 2, 0x1015, 7).unwrap(),
        vec![9, 8, 7]
    );
}

#[test]
fn parse_container_reports_each_check() {
    type S = PtpSession<MockTransport>;
    assert_eq!(S::parse_container(&[1, 2, 3], 2, 0x1015, 1), Err(PtpProtocolError::MalformedContainer));
    // Declared length beyond the packet.
    assert_eq!(
        S::parse_container(&[20, 0, 0, 0, 2, 0, 0x15, 0x10, 1, 0, 0, 0], 2, 0x1015, 1),
        Err(PtpProtocolError::MalformedContainer)
    );
    assert_eq!(
        S::parse_container(&[12, 0, 0, 0, 3, 0, 0x15, 0x10, 1, 0, 0, 0], 2, 0x1015, 1),
        Err(PtpProtocolError::UnexpectedContainerType(3))
    );
    assert_eq!(
        S::parse_container(&[12, 0, 0, 0, 2, 0, 0x16, 0x10, 1, 0, 0, 0], 2, 0x1015, 1),
        Err(PtpProtocolError::UnexpectedOperation(0x1016))
    );
    assert_eq!(
        S::parse_container(&[12, 0, 0, 0, 2, 0, 0x15, 0x10, 5, 0, 0, 0], 2, 0x1015, 1),
        Err(PtpProtocolError::TransactionMismatch { expected: 1, received: 5 })
    );
    // The payload ends where the declared length ends.
    assert_eq!(
        S::parse_container(&[13, 0, 0, 0, 2, 0, 0x15, 0x10, 1, 0, 0, 0, 0xaa, 0xbb], 2, 0x1015, 1),
        Ok(vec![0xaa])
    );
}

#[test]
fn parse_response_reports_the_response_code() {
    type S = PtpSession<MockTransport>;
    assert_eq!(S::parse_response(&[12, 0, 0, 0, 3, 0, 1, 0x20, 4, 0, 0, 0], 4), Ok(()));
    assert_eq!(
        S::parse_response(&[12, 0, 0, 0, 3, 0, 0x19, 0x20, 4, 0, 0, 0], 4),
        Err(PtpProtocolError::Response(0x2019))
    );
    assert_eq!(
        S::parse_response(&[12, 0, 0, 0, 3, 0, 1, 0x20, 3, 0, 0, 0], 4),
        Err(PtpProtocolError::TransactionMismatch { expected: 4, received: 3 })
    );
    assert_eq!(
        S::parse_response(&[12, 0, 0, 0, 2, 0, 1, 0x20, 4, 0, 0, 0], 4),
        Err(PtpProtocolError::MalformedContainer)
    );
}

#[test]
fn open_and_close_session_exchange_commands() {
    let mut t = MockTransport::new();
    t.queue_received(vec![12, 0, 0, 0, 3, 0, 1, 0x20, 1, 0, 0, 0]);
    t.queue_received(vec![12, 0, 0, 0, 3, 0, 1, 0x20, 2, 0, 0, 0]);
    let mut s = PtpSession::new(t);
    s.open_session(1).unwrap();
    s.close_session().unwrap();
    assert_eq!(s.transport().sent_data[0], vec![16, 0, 0, 0, 1, 0, 2, 0x10, 1, 0, 0, 0, 1, 0, 0, 0]);
    assert_eq!(s.transport().sent_data[1], vec![12, 0, 0, 0, 1, 0, 3, 0x10, 2, 0, 0, 0]);
    assert_eq!(s.transaction_id(), 2);
}

#[test]
fn open_session_refused_by_camera() {
    let mut t = MockTransport::new();
    t.queue_received(vec![12, 0, 0, 0, 3, 0, 0x1e, 0x20, 1, 0, 0, 0]);
    let mut s = PtpSession::new(t);
    match s.open_session(1) {
        Err(PtpSessionError::Protocol(PtpProtocolError::Response(0x201e))) => {}
        other => panic!("unexpected {:?}", other),
    }
}

#[test]
fn get_property_reports_link_failure() {
    let mut t = MockTransport::new();
    t.fail_receive(TransportError::ReceiveError);
    let mut s = PtpSession::new(t);
    match s.get_device_prop_value(0xd190) {
        Err(PtpSessionError::Transport(TransportError::ReceiveError)) => {}
        other => panic!("unexpected {:?}", other),
    }
    // The transaction number advanced anyway.
    assert_eq!(s.transaction_id(), 1);
}

#[test]
fn set_property_sends_command_then_data_and_accepts_empty_answer() {
    let mut s = PtpSession::new(MockTransport::new());
    s.set_device_prop_value_wait(0xd18c, &[3, 0]).unwrap();
    assert_eq!(s.transport().sent_data.len(), 2);
    assert_eq!(s.transport().sent_data[0], vec![16, 0, 0, 0, 1, 0, 0x16, 0x10, 1, 0, 0, 0, 0x8c, 0xd1, 0, 0]);
    assert_eq!(s.transport().sent_data[1], vec![14, 0, 0, 0, 2, 0, 0x16, 0x10, 1, 0, 0, 0, 3, 0]);
}

#[test]
fn set_property_refused_by_camera() {
    let mut t = MockTransport::new();
    t.queue_received(vec![12, 0, 0, 0, 3, 0, 0x02, 0x20, 1, 0, 0, 0]);
    let mut s = PtpSession::new(t);
    match s.set_device_prop_value_wait(0xd192, &[2, 0]) {
        Err(PtpSessionError::Protocol(PtpProtocolError::Response(0x2002))) => {}
        other => panic!("unexpected {:?}", other),
    }
}

#[test]
fn mock_send_through_trait() {
    let mut t = MockTransport::new();
    Transport::send(&mut t, &[5]).unwrap();
    assert_eq!(t.sent_data, vec![vec![5]]);
}
