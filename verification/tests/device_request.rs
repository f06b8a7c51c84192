use tunneldevice::device::{
    creation_result, ConfigRequest, Endian, FrameWrite, WriteOutcome, WriteStep, DEVICE_FLAGS,
    IFF_NO_PI, IFF_TAP, IFF_TUN, IFNAMSIZ, REQUEST_SIZE, TUNSETIFF,
};
use tunneldevice::{Action, ErrorKind, Event, PeerAddr, Tunnel};

#[test]
fn device() {
    let request = ConfigRequest::new("test_device").unwrap();
    assert_eq!(&request.name_bytes()[..], b"test_device\0\0\0\0\0");

    // The frame goes into the device whole, and comes out of the loop as
    // it went in.
    let test_string = b"Lorem Ipsum";
    let mut write = FrameWrite::new(test_string.len());
    assert_eq!(write.next(), WriteStep::Write { offset: 0 });
    assert_eq!(write.record(WriteOutcome::Wrote { count: 11 }), WriteStep::Complete);
    assert_eq!(write.written(), 11);

    let peer = PeerAddr::V4 { ip: 0x7f00_0001, port: 8080 };
    let mut tunnel = Tunnel::new();
    tunnel.step(Event::Resume);
    tunnel.step(Event::Datagram { payload: b"ping".to_vec(), peer });
    tunnel.step(Event::Flushed);
    let sent = tunnel.step(Event::Frame { payload: test_string.to_vec() });
    assert_eq!(sent, Action::Send { len: 11, peer });
    let buffer = tunnel.payload().to_vec();
    assert_eq!(&buffer, &test_string);
}

#[test]
fn kernel_constants() {
    assert_eq!(IFNAMSIZ, 16);
    assert_eq!(REQUEST_SIZE, 40);
    assert_eq!(IFF_TUN, 0x0001);
    assert_eq!(IFF_TAP, 0x0002);
    assert_eq!(IFF_NO_PI, 0x1000);
    assert_eq!(DEVICE_FLAGS, IFF_TAP | IFF_NO_PI);
    assert_eq!(DEVICE_FLAGS & IFF_TUN, 0);
    assert_eq!(TUNSETIFF, 0x4004_54ca);
}

#[test]
fn name_of_maximum_length_is_accepted() {
    let name = "abcdefghijklmno";
    assert_eq!(name.len(), 15);
    let request = ConfigRequest::new(name).unwrap();
    assert_eq!(&request.name_bytes()[..], b"abcdefghijklmno\0");
    assert_eq!(request.device_flags(), 0x1002);
}

#[test]
fn name_one_longer_is_refused() {
    let name = "abcdefghijklmnop";
    assert_eq!(name.len(), 16);
    let error = ConfigRequest::new(name).unwrap_err();
    assert_eq!(error.kind(), ErrorKind::NameTooLong);
    assert!(ConfigRequest::new("a_name_that_is_far_longer_than_the_field").is_err());
}

#[test]
fn name_length_counts_bytes() {
    // Eight characters of two bytes each fill the field to the brim.
    let name = "éééééééé";
    assert_eq!(name.len(), 16);
    assert_eq!(ConfigRequest::new(name).unwrap_err().kind(), ErrorKind::NameTooLong);
    let name = "ééééééé";
    assert_eq!(name.len(), 14);
    assert!(ConfigRequest::new(name).is_ok());
}

#[test]
fn empty_name_is_accepted() {
    let request = ConfigRequest::new("").unwrap();
    assert_eq!(request.name_bytes(), vec![0u8; 16]);
}

#[test]
fn request_record_little_endian() {
    let request = ConfigRequest::new("tun.rs").unwrap();
    let record = request.to_bytes(Endian::Little);
    let mut expected = vec![0u8; 40];
    expected[..6].copy_from_slice(b"tun.rs");
    expected[16] = 0x02;
    expected[17] = 0x10;
    assert_eq!(record, expected);
}

#[test]
fn request_record_big_endian() {
    let request = ConfigRequest::new("tun.rs").unwrap();
    let record = request.to_bytes(Endian::Big);
    let mut expected = vec![0u8; 40];
    expected[..6].copy_from_slice(b"tun.rs");
    expected[16] = 0x10;
    expected[17] = 0x02;
    assert_eq!(record, expected);
    assert_eq!(record.len(), REQUEST_SIZE);
}

#[test]
fn creation_status() {
    assert!(creation_result(0).is_ok());
    assert!(creation_result(3).is_ok());
    assert_eq!(creation_result(-1).unwrap_err().kind(), ErrorKind::DeviceCreationFailed);
    assert_eq!(creation_result(i32::MIN).unwrap_err().kind(), ErrorKind::DeviceCreationFailed);
}

#[test]
fn short_writes_are_continued() {
    let mut write = FrameWrite::new(11);
    assert_eq!(write.remaining(), 11);
    assert!(!write.is_complete());
    assert_eq!(write.record(WriteOutcome::Wrote { count: 4 }), WriteStep::Write { offset: 4 });
    assert_eq!(write.record(WriteOutcome::Wrote { count: 1 }), WriteStep::Write { offset: 5 });
    assert_eq!(write.remaining(), 6);
    assert!(!write.is_complete());
    assert_eq!(write.record(WriteOutcome::Wrote { count: 6 }), WriteStep::Complete);
    assert_eq!(write.written(), 11);
    assert_eq!(write.remaining(), 0);
    assert!(write.is_complete());
    assert_eq!(write.next(), WriteStep::Complete);
}

#[test]
fn would_block_leaves_the_write_where_it_was() {
    let mut write = FrameWrite::new(11);
    assert_eq!(
        write.record(WriteOutcome::WouldBlock),
        WriteStep::Abort { kind: ErrorKind::WouldBlock }
    );
    assert_eq!(write.written(), 0);
    assert_eq!(write.next(), WriteStep::Write { offset: 0 });
    // The retry writes as much in all as an uninterrupted write.
    assert_eq!(write.record(WriteOutcome::Wrote { count: 11 }), WriteStep::Complete);
    assert_eq!(write.written(), 11);

    let mut write = FrameWrite::new(11);
    write.record(WriteOutcome::Wrote { count: 5 });
    write.record(WriteOutcome::WouldBlock);
    assert_eq!(write.next(), WriteStep::Write { offset: 5 });
    assert_eq!(write.written(), 5);
}

#[test]
fn write_failures() {
    let mut write = FrameWrite::new(11);
    assert_eq!(write.record(WriteOutcome::Failed), WriteStep::Abort { kind: ErrorKind::IoFailure });
    assert_eq!(write.written(), 0);
    // A device that takes nothing would never finish.
    assert_eq!(
        write.record(WriteOutcome::Wrote { count: 0 }),
        WriteStep::Abort { kind: ErrorKind::IoFailure }
    );
    // Nor can it take more than it was offered.
    assert_eq!(
        write.record(WriteOutcome::Wrote { count: 12 }),
        WriteStep::Abort { kind: ErrorKind::IoFailure }
    );
    assert_eq!(write.written(), 0);
    assert_eq!(
        write.record(WriteOutcome::Wrote { count: usize::MAX }),
        WriteStep::Abort { kind: ErrorKind::IoFailure }
    );
}

#[test]
fn empty_frame_is_complete_at_once() {
    let write = FrameWrite::new(0);
    assert_eq!(write.next(), WriteStep::Complete);
    assert!(write.is_complete());
}
