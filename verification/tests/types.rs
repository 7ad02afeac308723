use socken5::{Addr, Command, Error, ErrorKind, Method, Reply, VERSION};

#[test]
fn version_is_five() {
    assert_eq!(VERSION, 5);
}

#[test]
fn method_from_known_bytes() {
    assert_eq!(Method::from(0x00), Method::NoAuth);
    assert_eq!(Method::from(0x01), Method::Gssapi);
    assert_eq!(Method::from(0x02), Method::Auth);
}

#[test]
fn method_from_unknown_byte_is_kept() {
    assert_eq!(Method::from(0x03), Method::Other(0x03));
    assert_eq!(Method::from(0x80), Method::Other(0x80));
    assert_eq!(Method::from(0xFF), Method::Other(0xFF));
}

#[test]
fn method_to_byte() {
    assert_eq!(u8::from(Method::NoAuth), 0x00);
    assert_eq!(u8::from(Method::Gssapi), 0x01);
    assert_eq!(u8::from(Method::Auth), 0x02);
    assert_eq!(u8::from(Method::Other(0x42)), 0x42);
    assert_eq!(u8::from(Method::NoAcceptable), 0xFF);
}

#[test]
fn method_byte_round_trip_for_every_byte() {
    for byte in 0..=255u8 {
        assert_eq!(u8::from(Method::from(byte)), byte);
    }
}

#[test]
fn method_no_acceptable_is_never_decoded() {
    for byte in 0..=255u8 {
        assert_ne!(Method::from(byte), Method::NoAcceptable);
    }
}

#[test]
fn method_into_works_through_from() {
    let method: Method = 0x02u8.into();
    assert_eq!(method, Method::Auth);
    let byte: u8 = Method::NoAcceptable.into();
    assert_eq!(byte, 0xFF);
}

#[test]
fn command_from_known_bytes() {
    assert_eq!(Command::try_from(0x01).unwrap(), Command::Connect);
    assert_eq!(Command::try_from(0x02).unwrap(), Command::Bind);
    assert_eq!(Command::try_from(0x03).unwrap(), Command::UdpAssociate);
}

#[test]
fn command_from_unknown_byte_fails() {
    for byte in 0..=255u8 {
        if byte == 1 || byte == 2 || byte == 3 {
            continue;
        }
        let err = Command::try_from(byte).unwrap_err();
        assert_eq!(err.kind(), ErrorKind::InvalidCommand);
    }
}

#[test]
fn command_to_byte() {
    assert_eq!(u8::from(Command::Connect), 0x01);
    assert_eq!(u8::from(Command::Bind), 0x02);
    assert_eq!(u8::from(Command::UdpAssociate), 0x03);
}

#[test]
fn command_byte_round_trip() {
    for cmd in [Command::Connect, Command::Bind, Command::UdpAssociate] {
        assert_eq!(Command::try_from(u8::from(cmd)).unwrap(), cmd);
    }
}

#[test]
fn reply_to_byte() {
    assert_eq!(u8::from(Reply::Success), 0x00);
    assert_eq!(u8::from(Reply::ServerFailure), 0x01);
    assert_eq!(u8::from(Reply::NotAllowedByRuleset), 0x02);
    assert_eq!(u8::from(Reply::NetworkUnreachable), 0x03);
    assert_eq!(u8::from(Reply::HostUnreachable), 0x04);
    assert_eq!(u8::from(Reply::ConnectionRefused), 0x05);
    assert_eq!(u8::from(Reply::TtlExpired), 0x06);
    assert_eq!(u8::from(Reply::CommandNotSupported), 0x07);
    assert_eq!(u8::from(Reply::AddrTypeNotSupported), 0x08);
}

#[test]
fn addr_compares_by_value() {
    assert_eq!(Addr::V4([127, 0, 0, 1]), Addr::V4([127, 0, 0, 1]));
    assert_ne!(Addr::V4([127, 0, 0, 1]), Addr::V4([127, 0, 0, 2]));
    assert_eq!(Addr::Domain("a.example".to_string()), Addr::Domain("a.example".to_string()));
    assert_ne!(Addr::V6([0; 16]), Addr::V4([0; 4]));
    assert_eq!(Addr::V6([7; 16]).clone(), Addr::V6([7; 16]));
}

#[test]
fn error_kind_of_each_variant() {
    assert_eq!(Error::InvalidVersion(4).kind(), ErrorKind::InvalidVersion(4));
    assert_eq!(Error::InvalidCommand.kind(), ErrorKind::InvalidCommand);
    assert_eq!(Error::InvalidAddrType.kind(), ErrorKind::InvalidAddrType);
    let io = std::io::Error::from(std::io::ErrorKind::UnexpectedEof);
    assert_eq!(Error::Io(io).kind(), ErrorKind::Io);
    let utf = String::from_utf8(vec![0xFF]).unwrap_err();
    assert_eq!(Error::Utf(utf).kind(), ErrorKind::Utf);
    let int = u8::try_from(256usize).unwrap_err();
    assert_eq!(Error::Int(int).kind(), ErrorKind::Int);
}

#[test]
fn error_from_causes() {
    let io = std::io::Error::from(std::io::ErrorKind::BrokenPipe);
    match Error::from(io) {
        Error::Io(cause) => assert_eq!(cause.kind(), std::io::ErrorKind::BrokenPipe),
        other => panic!("unexpected {:?}", other),
    }
    let utf = String::from_utf8(vec![b'a', 0xC0]).unwrap_err();
    match Error::from(utf) {
        Error::Utf(cause) => assert_eq!(cause.into_bytes(), vec![b'a', 0xC0]),
        other => panic!("unexpected {:?}", other),
    }
    let int = u8::try_from(300usize).unwrap_err();
    assert!(matches!(Error::from(int), Error::Int(_)));
}
