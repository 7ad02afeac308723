use vstd::prelude::*;

use crate::error::{Error, ErrorKind};
use crate::upstream::{lemma_target_round_trip, parse_target, Parse};
use crate::{port_wire, Addr, AddrView, Method, Reply, VERSION};

verus! {

/// ```text
/// +----+--------+
/// |VER | METHOD |
/// +----+--------+
/// | 1  |   1    |
/// +----+--------+
/// ```
#[derive(Debug)]
pub struct Handshake(pub Method);

impl Handshake {
    /// The wire format of the server's choice: the version, then the method.
    pub open spec fn wire(self) -> Seq<u8> {
        seq![VERSION, self.0.byte()]
    }

    /// Appends the message to `buf`. This never fails.
    pub fn write(&self, buf: &mut Vec<u8>) -> (res: Result<(), Error>)
        ensures
            res is Ok,
            final(buf)@ == old(buf)@ + self.wire(),
    {
        buf.push(VERSION);
        buf.push(u8::from(self.0));
        Ok(())
    }
}

/// ```text
/// +----+-----+-------+------+----------+----------+
/// |VER | REP |  RSV  | ATYP | BND.ADDR | BND.PORT |
/// +----+-----+-------+------+----------+----------+
/// | 1  |  1  | X'00' |  1   | Variable |    2     |
/// +----+-----+-------+------+----------+----------+
/// ```
#[derive(Debug)]
pub struct CommandResponse {
    /// How the request went.
    pub reply: Reply,
    /// The address that the server bound.
    pub addr: Addr,
    /// The port that the server bound.
    pub port: u16,
}

/// A command response as contracts see it.
pub struct CommandResponseView {
    /// How the request went.
    pub reply: Reply,
    /// The address that the server bound.
    pub addr: AddrView,
    /// The port that the server bound.
    pub port: u16,
}

impl View for CommandResponse {
    type V = CommandResponseView;

    open spec fn view(&self) -> CommandResponseView {
        CommandResponseView { reply: self.reply, addr: self.addr@, port: self.port }
    }
}

impl CommandResponseView {
    /// The wire format of a command response: the version, the reply, a
    /// reserved zero, the address, and the port.
    pub open spec fn wire(self) -> Seq<u8> {
        seq![VERSION, self.reply.byte(), 0x00u8] + self.addr.wire() + port_wire(self.port)
    }
}

/// Appends `bytes` to `buf`.
fn put(buf: &mut Vec<u8>, bytes: &[u8])
    ensures
        final(buf)@ == old(buf)@ + bytes@,
{
    let mut i: usize = 0;
    while i < bytes.len()
        invariant
            i <= bytes.len(),
            buf@ == old(buf)@ + bytes@.subrange(0, i as int),
        decreases bytes.len() - i,
    {
        buf.push(bytes[i]);
        i += 1;
    }
}

impl CommandResponse {
    /// Appends the message to `buf`, or fails and leaves `buf` as it was. It
    /// fails on a domain name of more than 255 bytes, and on nothing else.
    pub fn write(&self, buf: &mut Vec<u8>) -> (res: Result<(), Error>)
        ensures
            res is Ok <==> self@.addr.encodable(),
            res is Ok ==> final(buf)@ == old(buf)@ + self@.wire(),
            res matches Err(err) ==> err@ == ErrorKind::Int && final(buf)@ == old(buf)@,
    {
        // The one check comes before the first byte is written.
        let len: u8 = match &self.addr {
            Addr::Domain(domain) => match u8::try_from(domain.as_str().as_bytes().len()) {
                Ok(len) => len,
                Err(cause) => {
                    return Err(Error::Int(cause));
                },
            },
            _ => 0,
        };
        buf.push(VERSION);
        buf.push(u8::from(self.reply));
        buf.push(0x00);
        match &self.addr {
            Addr::V4(ip) => {
                buf.push(0x01);
                put(buf, ip.as_slice());
            },
            Addr::Domain(domain) => {
                buf.push(0x03);
                buf.push(len);
                put(buf, domain.as_str().as_bytes());
            },
            Addr::V6(ip) => {
                buf.push(0x04);
                put(buf, ip.as_slice());
            },
        }
        buf.push((self.port / 256) as u8);
        buf.push((self.port % 256) as u8);
        Ok(())
    }
}

/// ```text
/// +----+--------+
/// |VER | STATUS |
/// +----+--------+
/// | 1  |   1    |
/// +----+--------+
/// ```
#[derive(Debug)]
pub struct AuthResponse(pub u8);

impl AuthResponse {
    /// The wire format of the answer to an authentication: the version of
    /// that sub-negotiation, which is 1, then the status.
    pub open spec fn wire(self) -> Seq<u8> {
        seq![0x01u8, self.0]
    }

    /// Appends the message to `buf`. This never fails.
    pub fn write(&self, buf: &mut Vec<u8>) -> (res: Result<(), Error>)
        ensures
            res is Ok,
            final(buf)@ == old(buf)@ + self.wire(),
    {
        buf.push(0x01);
        buf.push(self.0);
        Ok(())
    }
}

/// A reply's byte stands for that reply.
pub proof fn lemma_reply_byte_kept(reply: Reply)
    ensures
        Reply::of_byte(reply.byte()) == Some(reply),
{
}

/// What a command response encodes to gives back, read as the wire format
/// has it, the reply, the address and the port that it was made from: for an
/// IPv4 address, an IPv6 address and a domain name of at most 255 bytes. The
/// address and port are read as those of a command request are, and take
/// the message to its end.
pub proof fn lemma_response_round_trip(response: CommandResponseView)
    requires
        response.addr.well_formed(),
        response.addr.encodable(),
    ensures
        response.wire()[0] == VERSION,
        Reply::of_byte(response.wire()[1]) == Some(response.reply),
        response.wire()[2] == 0x00,
        parse_target(response.wire()) == Parse::Done(
            (response.addr, response.port),
            response.wire().len(),
        ),
{
    lemma_reply_byte_kept(response.reply);
    lemma_target_round_trip(
        VERSION,
        response.reply.byte(),
        0x00u8,
        response.addr,
        response.port,
    );
}

} // verus!
