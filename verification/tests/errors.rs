use tunneldevice::{ErrorKind, TunnelError, TunnelResult};

#[test]
fn new_error_has_its_description() {
    let error = TunnelError::new("something broke");
    assert_eq!(error.description, "something broke");
    assert_eq!(error.description(), "something broke");
    assert_eq!(error.to_string(), "something broke");
    assert_eq!(error.kind(), ErrorKind::Other);
    assert_eq!(format!("{:?}", error.kind()), "Other");
}

#[test]
fn error_kinds() {
    for kind in [
        ErrorKind::NameTooLong,
        ErrorKind::DeviceCreationFailed,
        ErrorKind::IoFailure,
        ErrorKind::WouldBlock,
        ErrorKind::Other,
    ] {
        let error = TunnelError::with_kind(kind, "text");
        assert_eq!(error.kind(), kind);
        assert_eq!(error.kind, kind);
        assert_eq!(error.description(), "text");
        assert_eq!(error.is_would_block(), kind == ErrorKind::WouldBlock);
        assert_eq!(error.is_fatal(), kind != ErrorKind::WouldBlock);
    }
}

#[test]
fn io_errors_keep_would_block_apart() {
    let error = TunnelError::io(true, "try again");
    assert_eq!(error.kind(), ErrorKind::WouldBlock);
    assert!(error.is_would_block());
    assert!(!error.is_fatal());
    assert_eq!(error.to_string(), "try again");

    let error = TunnelError::io(false, "socket closed");
    assert_eq!(error.kind(), ErrorKind::IoFailure);
    assert!(!error.is_would_block());
    assert!(error.is_fatal());
    assert_eq!(error.description(), "socket closed");
}

#[test]
fn empty_description() {
    let error = TunnelError::new("");
    assert_eq!(error.description(), "");
    assert_eq!(error.to_string(), "");
}

#[test]
fn result_alias() {
    let ok: TunnelResult<u8> = Ok(1);
    assert_eq!(ok.unwrap(), 1);
    let err: TunnelResult<u8> = Err(TunnelError::new("no"));
    assert_eq!(err.unwrap_err().description(), "no");
}
