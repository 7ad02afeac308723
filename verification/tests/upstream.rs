use socken5::upstream::{CommandRequest, Decoded, Handshake};
use socken5::{Addr, Command, ErrorKind, Method};

fn handshake_done(bytes: &[u8]) -> (Vec<Method>, usize) {
    match Handshake::read(bytes) {
        Ok(Decoded::Done(handshake, taken)) => (handshake.0, taken),
        other => panic!("no handshake: {:?}", other),
    }
}

fn request_done(bytes: &[u8]) -> (CommandRequest, usize) {
    match CommandRequest::read(bytes) {
        Ok(Decoded::Done(request, taken)) => (request, taken),
        other => panic!("no request: {:?}", other),
    }
}

fn handshake_need(bytes: &[u8]) -> usize {
    match Handshake::read(bytes) {
        Ok(Decoded::Need(more)) => more,
        other => panic!("not in need: {:?}", other),
    }
}

fn request_need(bytes: &[u8]) -> usize {
    match CommandRequest::read(bytes) {
        Ok(Decoded::Need(more)) => more,
        other => panic!("not in need: {:?}", other),
    }
}

fn handshake_kind(bytes: &[u8]) -> ErrorKind {
    match Handshake::read(bytes) {
        Err(err) => err.kind(),
        other => panic!("no failure: {:?}", other),
    }
}

fn request_kind(bytes: &[u8]) -> ErrorKind {
    match CommandRequest::read(bytes) {
        Err(err) => err.kind(),
        other => panic!("no failure: {:?}", other),
    }
}

#[test]
fn handshake_offering_no_auth() {
    let (methods, taken) = handshake_done(&[0x05, 0x01, 0x00]);
    assert_eq!(methods, vec![Method::NoAuth]);
    assert_eq!(taken, 3);
}

#[test]
fn handshake_keeps_the_clients_order() {
    let (methods, taken) = handshake_done(&[0x05, 0x04, 0x02, 0x00, 0x80, 0x01]);
    assert_eq!(methods, vec![Method::Auth, Method::NoAuth, Method::Other(0x80), Method::Gssapi]);
    assert_eq!(taken, 6);
}

#[test]
fn handshake_with_no_methods() {
    let (methods, taken) = handshake_done(&[0x05, 0x00]);
    assert!(methods.is_empty());
    assert_eq!(taken, 2);
}

#[test]
fn handshake_takes_two_plus_n_bytes_and_leaves_the_rest() {
    let (methods, taken) = handshake_done(&[0x05, 0x02, 0x00, 0x01, 0xAA, 0xBB, 0xCC]);
    assert_eq!(methods.len(), 2);
    assert_eq!(taken, 4);
}

#[test]
fn handshake_byte_ff_is_other_not_no_acceptable() {
    let (methods, _) = handshake_done(&[0x05, 0x01, 0xFF]);
    assert_eq!(methods, vec![Method::Other(0xFF)]);
}

#[test]
fn handshake_round_trip_of_raw_method_bytes() {
    for count in [0usize, 1, 2, 17, 254, 255] {
        let raw: Vec<u8> = (0..count).map(|i| (i * 7 + 3) as u8).collect();
        let mut wire = vec![0x05, count as u8];
        wire.extend_from_slice(&raw);
        let (methods, taken) = handshake_done(&wire);
        assert_eq!(taken, 2 + count);
        let back: Vec<u8> = methods.iter().map(|m| u8::from(*m)).collect();
        assert_eq!(back, raw);
    }
}

#[test]
fn handshake_round_trip_of_all_byte_values() {
    let raw: Vec<u8> = (0..255u8).collect();
    let mut wire = vec![0x05, 255];
    wire.extend_from_slice(&raw);
    let (methods, taken) = handshake_done(&wire);
    assert_eq!(taken, 257);
    assert_eq!(methods.len(), 255);
    for (i, method) in methods.iter().enumerate() {
        assert_eq!(*method, Method::from(i as u8));
    }
}

#[test]
fn handshake_asks_for_what_is_missing() {
    assert_eq!(handshake_need(&[]), 1);
    assert_eq!(handshake_need(&[0x05]), 1);
    assert_eq!(handshake_need(&[0x05, 0x03]), 3);
    assert_eq!(handshake_need(&[0x05, 0x03, 0x00]), 2);
    assert_eq!(handshake_need(&[0x05, 0x03, 0x00, 0x01]), 1);
    assert_eq!(handshake_need(&[0x05, 0xFF]), 255);
}

#[test]
fn handshake_with_wrong_version() {
    assert_eq!(handshake_kind(&[0x04]), ErrorKind::InvalidVersion(4));
    assert_eq!(handshake_kind(&[0x04, 0x01, 0x00]), ErrorKind::InvalidVersion(4));
    assert_eq!(handshake_kind(&[0x00]), ErrorKind::InvalidVersion(0));
    assert_eq!(handshake_kind(&[0xFF, 0x05]), ErrorKind::InvalidVersion(0xFF));
}

#[test]
fn wrong_version_is_reported_for_every_other_byte() {
    for byte in 0..=255u8 {
        if byte == 5 {
            continue;
        }
        assert_eq!(handshake_kind(&[byte]), ErrorKind::InvalidVersion(byte));
        assert_eq!(request_kind(&[byte]), ErrorKind::InvalidVersion(byte));
    }
}

#[test]
fn request_connect_to_ipv4() {
    let (request, taken) =
        request_done(&[0x05, 0x01, 0x00, 0x01, 0x7F, 0x00, 0x00, 0x01, 0x1F, 0x90]);
    assert_eq!(request.cmd, Command::Connect);
    assert_eq!(request.addr, Addr::V4([127, 0, 0, 1]));
    assert_eq!(request.port, 8080);
    assert_eq!(taken, 10);
}

#[test]
fn request_bind_to_ipv6() {
    let mut wire = vec![0x05, 0x02, 0x00, 0x04];
    let octets: [u8; 16] = [
        0x20, 0x01, 0x0d, 0xb8, 0, 0, 0, 0, 0, 0, 0, 0, 0, 0, 0, 0x01,
    ];
    wire.extend_from_slice(&octets);
    wire.extend_from_slice(&[0x01, 0xBB]);
    let (request, taken) = request_done(&wire);
    assert_eq!(request.cmd, Command::Bind);
    assert_eq!(request.addr, Addr::V6(octets));
    assert_eq!(request.port, 443);
    assert_eq!(taken, 22);
}

#[test]
fn request_udp_associate_with_domain() {
    let mut wire = vec![0x05, 0x03, 0x00, 0x03, 11];
    wire.extend_from_slice(b"example.com");
    wire.extend_from_slice(&[0x00, 0x50]);
    let (request, taken) = request_done(&wire);
    assert_eq!(request.cmd, Command::UdpAssociate);
    assert_eq!(request.addr, Addr::Domain("example.com".to_string()));
    assert_eq!(request.port, 80);
    assert_eq!(taken, 18);
}

#[test]
fn request_domain_may_hold_any_utf8() {
    let name = "bücher.example";
    let mut wire = vec![0x05, 0x01, 0x00, 0x03, name.len() as u8];
    wire.extend_from_slice(name.as_bytes());
    wire.extend_from_slice(&[0xFF, 0xFF]);
    let (request, taken) = request_done(&wire);
    assert_eq!(request.addr, Addr::Domain(name.to_string()));
    assert_eq!(request.port, 65535);
    assert_eq!(taken, 7 + name.len());
}

#[test]
fn request_with_empty_domain() {
    let (request, taken) = request_done(&[0x05, 0x01, 0x00, 0x03, 0x00, 0x12, 0x34]);
    assert_eq!(request.addr, Addr::Domain(String::new()));
    assert_eq!(request.port, 0x1234);
    assert_eq!(taken, 7);
}

#[test]
fn request_with_longest_domain() {
    let name = "a".repeat(255);
    let mut wire = vec![0x05, 0x01, 0x00, 0x03, 255];
    wire.extend_from_slice(name.as_bytes());
    wire.extend_from_slice(&[0x00, 0x01]);
    let (request, taken) = request_done(&wire);
    assert_eq!(request.addr, Addr::Domain(name));
    assert_eq!(request.port, 1);
    assert_eq!(taken, 262);
}

#[test]
fn request_reserved_byte_is_not_looked_at() {
    let (request, _) = request_done(&[0x05, 0x01, 0xEE, 0x01, 10, 0, 0, 1, 0x00, 0x16]);
    assert_eq!(request.addr, Addr::V4([10, 0, 0, 1]));
    assert_eq!(request.port, 22);
}

#[test]
fn request_port_is_big_endian() {
    let (request, _) = request_done(&[0x05, 0x01, 0x00, 0x01, 1, 2, 3, 4, 0x01, 0x00]);
    assert_eq!(request.port, 256);
    let (request, _) = request_done(&[0x05, 0x01, 0x00, 0x01, 1, 2, 3, 4, 0x00, 0x01]);
    assert_eq!(request.port, 1);
}

#[test]
fn request_leaves_what_follows_it() {
    let (_, taken) =
        request_done(&[0x05, 0x01, 0x00, 0x01, 1, 2, 3, 4, 0x00, 0x50, 0x47, 0x45, 0x54]);
    assert_eq!(taken, 10);
}

#[test]
fn request_asks_for_what_is_missing() {
    assert_eq!(request_need(&[]), 1);
    assert_eq!(request_need(&[0x05]), 1);
    assert_eq!(request_need(&[0x05, 0x01]), 2);
    assert_eq!(request_need(&[0x05, 0x01, 0x00]), 1);
    assert_eq!(request_need(&[0x05, 0x01, 0x00, 0x01]), 6);
    assert_eq!(request_need(&[0x05, 0x01, 0x00, 0x01, 1, 2, 3, 4, 0x00]), 1);
    assert_eq!(request_need(&[0x05, 0x01, 0x00, 0x04]), 18);
    assert_eq!(request_need(&[0x05, 0x01, 0x00, 0x03]), 1);
    assert_eq!(request_need(&[0x05, 0x01, 0x00, 0x03, 0x03]), 3);
    assert_eq!(request_need(&[0x05, 0x01, 0x00, 0x03, 0x03, b'a']), 2);
    assert_eq!(request_need(&[0x05, 0x01, 0x00, 0x03, 0x03, b'a', b'.', b'b']), 2);
    assert_eq!(request_need(&[0x05, 0x01, 0x00, 0x03, 0x03, b'a', b'.', b'b', 0x00]), 1);
}

#[test]
fn request_with_wrong_version() {
    assert_eq!(request_kind(&[0x04]), ErrorKind::InvalidVersion(4));
    assert_eq!(
        request_kind(&[0x06, 0x01, 0x00, 0x01, 1, 2, 3, 4, 0, 80]),
        ErrorKind::InvalidVersion(6)
    );
}

#[test]
fn request_with_unknown_command() {
    assert_eq!(request_kind(&[0x05, 0x00]), ErrorKind::InvalidCommand);
    assert_eq!(request_kind(&[0x05, 0x04]), ErrorKind::InvalidCommand);
    assert_eq!(
        request_kind(&[0x05, 0x09, 0x00, 0x01, 1, 2, 3, 4, 0, 80]),
        ErrorKind::InvalidCommand
    );
}

#[test]
fn request_with_address_type_two() {
    assert_eq!(request_kind(&[0x05, 0x01, 0x00, 0x02]), ErrorKind::InvalidAddrType);
    assert_eq!(
        request_kind(&[0x05, 0x01, 0x00, 0x02, 1, 2, 3, 4, 0, 80]),
        ErrorKind::InvalidAddrType
    );
}

#[test]
fn request_with_other_unknown_address_types() {
    for atyp in [0x00u8, 0x05, 0x7F, 0xFF] {
        assert_eq!(request_kind(&[0x05, 0x01, 0x00, atyp]), ErrorKind::InvalidAddrType);
    }
}

#[test]
fn request_with_domain_that_is_not_utf8() {
    assert_eq!(
        request_kind(&[0x05, 0x01, 0x00, 0x03, 0x02, 0xC3, 0x28]),
        ErrorKind::Utf
    );
    assert_eq!(
        request_kind(&[0x05, 0x01, 0x00, 0x03, 0x01, 0xFF, 0x00, 0x50]),
        ErrorKind::Utf
    );
}

#[test]
fn request_version_is_checked_before_the_command() {
    assert_eq!(request_kind(&[0x04, 0x09]), ErrorKind::InvalidVersion(4));
}

#[test]
fn request_command_is_checked_before_the_address_type() {
    assert_eq!(request_kind(&[0x05, 0x09, 0x00, 0x02]), ErrorKind::InvalidCommand);
}

#[test]
fn decoders_say_the_same_of_a_message_and_of_what_follows_it() {
    let whole = [0x05u8, 0x01, 0x00, 0x03, 0x02, b'h', b'i', 0x00, 0x50, 0x99, 0x98];
    let (first, taken) = request_done(&whole);
    let (second, again) = request_done(&whole[..taken]);
    assert_eq!(taken, 9);
    assert_eq!(again, 9);
    assert_eq!(first.addr, second.addr);
    assert_eq!(first.port, second.port);
    for have in 0..taken {
        let more = request_need(&whole[..have]);
        assert!(more >= 1 && have + more <= taken);
    }
}
