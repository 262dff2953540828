use fuji_ptp_core::transport::usb::{bulk_endpoints, is_fuji_device, is_ptp_interface, Endpoint};
use fuji_ptp_core::transport::{IncomingPacket, TransportError};

#[test]
fn packet_assembled_from_header_and_chunks() {
    let header = [16u8, 0, 0, 0, 2, 0, 0x15, 0x10, 1, 0, 0, 0];
    let mut p = IncomingPacket::start(&header).unwrap();
    assert_eq!(p.remaining(), 4);
    assert!(!p.is_complete());
    assert_eq!(p.add_chunk(&[]), Err(TransportError::ReceiveError));
    p.add_chunk(&[1, 2]).unwrap();
    assert_eq!(p.remaining(), 2);
    p.add_chunk(&[3, 4]).unwrap();
    assert!(p.is_complete());
    assert_eq!(p.finish(), vec![16, 0, 0, 0, 2, 0, 0x15, 0x10, 1, 0, 0, 0, 1, 2, 3, 4]);
}

#[test]
fn packet_header_checks() {
    assert!(IncomingPacket::start(&[12, 0, 0]).is_err());
    assert!(IncomingPacket::start(&[11, 0, 0, 0, 3, 0, 1, 0x20, 1, 0, 0, 0]).is_err());
    // 1 MiB + 1
    assert!(IncomingPacket::start(&[1, 0, 0x10, 0, 3, 0, 1, 0x20, 1, 0, 0, 0]).is_err());
    let p = IncomingPacket::start(&[0, 0, 0x10, 0, 3, 0, 1, 0x20, 1, 0, 0, 0]).unwrap();
    assert_eq!(p.remaining(), 1024 * 1024 - 12);
    let p = IncomingPacket::start(&[12, 0, 0, 0, 3, 0, 1, 0x20, 1, 0, 0, 0]).unwrap();
    assert!(p.is_complete());
}

#[test]
fn usb_choice() {
    assert!(is_fuji_device(0x04cb));
    assert!(!is_fuji_device(0x04ca));
    assert!(is_ptp_interface(6));
    assert!(!is_ptp_interface(8));
    let eps = vec![
        Endpoint { bulk: true, input: true, address: 0x81 },
        Endpoint { bulk: false, input: true, address: 0x83 },
        Endpoint { bulk: true, input: false, address: 0x02 },
    ];
    assert_eq!(bulk_endpoints(&eps), Some((0x81, 0x02)));
    assert_eq!(bulk_endpoints(&eps[..2].to_vec()), None);
    assert_eq!(bulk_endpoints(&vec![]), None);
}
