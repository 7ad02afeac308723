use vstd::prelude::*;
use vstd::utf8::{
    decode_utf8, decode_utf8_encode_utf8, encode_utf8, encode_utf8_decode_utf8,
    encode_utf8_valid_utf8, valid_utf8,
};

use crate::error::{Error, ErrorKind};
use crate::{port_of, port_wire, Addr, AddrView, Command, Method, VERSION};

verus! {

/// What the bytes received so far amount to, for one kind of message.
///
/// A decoder looks at a message from its first byte on, in the order of the
/// wire, and decides as early as the format allows. The count that comes with
/// each outcome makes that precise.
pub enum Parse<T> {
    /// A whole message, and the number of bytes that it took from the front.
    Done(T, nat),
    /// Nothing yet: so many more bytes have to arrive before anything more
    /// can be said.
    Need(nat),
    /// No message: why, and the number of bytes after which that was certain.
    Fail(ErrorKind, nat),
}

/// What a decoder hands back when the bytes so far are no failure.
#[derive(Debug)]
pub enum Decoded<T> {
    /// The message, and the number of bytes that it took from the front.
    Done(T, usize),
    /// The message is not whole. Exactly so many more bytes are to be read
    /// before the decoder is asked again.
    Need(usize),
}

/// A decoder's result `res` says what `parse` says.
pub open spec fn agrees<T: View>(res: Result<Decoded<T>, Error>, parse: Parse<T::V>) -> bool {
    match parse {
        Parse::Done(value, taken) => res matches Ok(Decoded::Done(message, n)) && message@ == value
            && n == taken,
        Parse::Need(more) => res matches Ok(Decoded::Need(n)) && n == more,
        Parse::Fail(kind, _) => res matches Err(err) && err@ == kind,
    }
}

/// How what a decoder says of the first `have` bytes of an input, `early`,
/// goes with what it says of all its `total` bytes, `late`.
///
/// Where the input holds a message or a failure, that is settled by its
/// first `n` bytes. Of `n` bytes or more the decoder says the same as of
/// all; of fewer it says that it needs more, and asks for none beyond the
/// `n`. Where the input is still not enough, every part of it was not
/// enough either, and asked for no more than is now known to be missing.
/// A reader that reads what it is asked to read therefore ends with exactly
/// the message's bytes: none too many, none too few.
pub open spec fn precedes<T>(early: Parse<T>, have: int, late: Parse<T>, total: int) -> bool {
    match late {
        Parse::Done(_, n) | Parse::Fail(_, n) => n <= total && if have >= n {
            early == late
        } else {
            early matches Parse::Need(more) && more >= 1 && have + more <= n
        },
        Parse::Need(missing) => {
            &&& missing >= 1
            &&& early matches Parse::Need(more)
            &&& more >= 1
            &&& have + more <= total + missing
        },
    }
}

/// The methods that a run of method bytes stands for, in its order.
pub open spec fn methods_of(bytes: Seq<u8>) -> Seq<Method> {
    Seq::new(bytes.len(), |i: int| Method::of_byte(bytes[i]))
}

/// The bytes that stand for a run of methods, in its order.
pub open spec fn method_bytes(methods: Seq<Method>) -> Seq<u8> {
    Seq::new(methods.len(), |i: int| methods[i].byte())
}

/// ```text
/// +----+----------+----------+
/// |VER | NMETHODS | METHODS  |
/// +----+----------+----------+
/// | 1  |    1     | 0 to 255 |
/// +----+----------+----------+
/// ```
#[derive(Debug)]
pub struct Handshake(pub Vec<Method>);

impl View for Handshake {
    type V = Seq<Method>;

    open spec fn view(&self) -> Seq<Method> {
        self.0@
    }
}

impl Handshake {
    /// The wire format of a client's handshake: the version, the number of
    /// methods, and one byte for each method.
    pub open spec fn parse(bytes: Seq<u8>) -> Parse<Seq<Method>> {
        if bytes.len() < 1 {
            Parse::Need(1)
        } else if bytes[0] != VERSION {
            Parse::Fail(ErrorKind::InvalidVersion(bytes[0]), 1)
        } else if bytes.len() < 2 {
            Parse::Need(1)
        } else if bytes.len() < 2 + bytes[1] {
            Parse::Need((2 + bytes[1] - bytes.len()) as nat)
        } else {
            Parse::Done(methods_of(bytes.subrange(2, 2 + bytes[1])), (2 + bytes[1]) as nat)
        }
    }

    /// What a client sends to offer `methods`: the version, their number,
    /// and the byte of each. The number has one byte, so there are at most
    /// 255 of them.
    pub open spec fn wire(methods: Seq<Method>) -> Seq<u8> {
        seq![VERSION, methods.len() as u8] + method_bytes(methods)
    }

    /// Decodes a handshake from the bytes received so far: the methods in
    /// the client's order and the two bytes plus one for each method that
    /// they took, or the number of bytes still to read, or
    /// `Error::InvalidVersion` with the first byte where that is not 5.
    pub fn read(buf: &[u8]) -> (res: Result<Decoded<Handshake>, Error>)
        ensures
            agrees(res, Handshake::parse(buf@)),
            res matches Ok(Decoded::Done(handshake, taken)) ==> taken == 2 + handshake@.len()
                && taken <= buf@.len(),
    {
        if buf.len() < 1 {
            return Ok(Decoded::Need(1));
        }
        let version = buf[0];
        if version != VERSION {
            return Err(Error::InvalidVersion(version));
        }
        if buf.len() < 2 {
            return Ok(Decoded::Need(1));
        }
        let len = usize::from(buf[1]);
        if buf.len() < 2 + len {
            return Ok(Decoded::Need(2 + len - buf.len()));
        }
        let mut methods = Vec::with_capacity(len);
        let mut i: usize = 0;
        while i < len
            invariant
                i <= len,
                2 + len <= buf.len(),
                methods@ == methods_of(buf@.subrange(2, 2 + i)),
            decreases len - i,
        {
            methods.push(Method::from(buf[2 + i]));
            i += 1;
        }
        Ok(Decoded::Done(Handshake(methods), 2 + len))
    }
}

/// ```text
/// +----+-----+-------+------+----------+----------+
/// |VER | CMD |  RSV  | ATYP | DST.ADDR | DST.PORT |
/// +----+-----+-------+------+----------+----------+
/// | 1  |  1  | X'00' |  1   | Variable |    2     |
/// +----+-----+-------+------+----------+----------+
/// ```
#[derive(Debug)]
pub struct CommandRequest {
    /// What the client asks for.
    pub cmd: Command,
    /// The target's address.
    pub addr: Addr,
    /// The target's port.
    pub port: u16,
}

/// A command request as contracts see it.
pub struct CommandRequestView {
    /// What the client asks for.
    pub cmd: Command,
    /// The target's address.
    pub addr: AddrView,
    /// The target's port.
    pub port: u16,
}

impl CommandRequestView {
    /// What a client sends for this request: the version, the command, a
    /// reserved zero, the address, and the port.
    pub open spec fn wire(self) -> Seq<u8> {
        seq![VERSION, self.cmd.byte(), 0x00u8] + self.addr.wire() + port_wire(self.port)
    }
}

impl View for CommandRequest {
    type V = CommandRequestView;

    open spec fn view(&self) -> CommandRequestView {
        CommandRequestView { cmd: self.cmd, addr: self.addr@, port: self.port }
    }
}

/// The wire format of the address and port that end a command message. The
/// message's first three bytes are its header; the address type is its
/// fourth. A domain name is checked as soon as its last byte is there, before
/// the port is.
pub open spec fn parse_target(bytes: Seq<u8>) -> Parse<(AddrView, u16)> {
    if bytes.len() < 4 {
        Parse::Need((4 - bytes.len()) as nat)
    } else if bytes[3] == 0x01 {
        if bytes.len() < 10 {
            Parse::Need((10 - bytes.len()) as nat)
        } else {
            Parse::Done((AddrView::V4(bytes.subrange(4, 8)), port_of(bytes[8], bytes[9])), 10)
        }
    } else if bytes[3] == 0x03 {
        if bytes.len() < 5 {
            Parse::Need(1)
        } else {
            let end = 5 + bytes[4];
            let name = bytes.subrange(5, end);
            if bytes.len() < end {
                Parse::Need((end - bytes.len()) as nat)
            } else if !valid_utf8(name) {
                Parse::Fail(ErrorKind::Utf, end as nat)
            } else if bytes.len() < end + 2 {
                Parse::Need((end + 2 - bytes.len()) as nat)
            } else {
                Parse::Done(
                    (AddrView::Domain(decode_utf8(name)), port_of(bytes[end], bytes[end + 1])),
                    (end + 2) as nat,
                )
            }
        }
    } else if bytes[3] == 0x04 {
        if bytes.len() < 22 {
            Parse::Need((22 - bytes.len()) as nat)
        } else {
            Parse::Done((AddrView::V6(bytes.subrange(4, 20)), port_of(bytes[20], bytes[21])), 22)
        }
    } else {
        Parse::Fail(ErrorKind::InvalidAddrType, 4)
    }
}

/// Calls `String::from_utf8` of the standard library. Taken on trust: it
/// succeeds on the byte vectors that are valid UTF-8 and on no others, and
/// the string that it gives has the bytes that it was given as its UTF-8
/// form.
#[verifier::external_body]
fn string_from_utf8(bytes: Vec<u8>) -> (res: Result<String, std::string::FromUtf8Error>)
    ensures
        res is Ok <==> valid_utf8(bytes@),
        res matches Ok(text) ==> encode_utf8(text@) == bytes@,
{
    String::from_utf8(bytes)
}

/// The `N` bytes of `buf` from `at` on.
fn octets<const N: usize>(buf: &[u8], at: usize) -> (out: [u8; N])
    requires
        at + N <= buf.len(),
    ensures
        out@ == buf@.subrange(at as int, at + N),
{
    let mut out = [0u8; N];
    let mut i: usize = 0;
    while i < N
        invariant
            i <= N,
            at + N <= buf.len(),
            forall|j: int| 0 <= j < i ==> out@[j] == buf@[at + j],
        decreases N - i,
    {
        out[i] = buf[at + i];
        i += 1;
    }
    out
}

/// The port in the two bytes of `buf` from `at` on, the high one first.
fn port_at(buf: &[u8], at: usize) -> (port: u16)
    requires
        at + 2 <= buf.len(),
    ensures
        port == port_of(buf@[at as int], buf@[at + 1]),
{
    u16::from(buf[at]) * 256 + u16::from(buf[at + 1])
}

impl CommandRequest {
    /// The wire format of a client's command request: the version, the
    /// command, a reserved byte that is not looked at, then the address and
    /// the port.
    pub open spec fn parse(bytes: Seq<u8>) -> Parse<CommandRequestView> {
        if bytes.len() < 1 {
            Parse::Need(1)
        } else if bytes[0] != VERSION {
            Parse::Fail(ErrorKind::InvalidVersion(bytes[0]), 1)
        } else if bytes.len() < 2 {
            Parse::Need(1)
        } else {
            match Command::of_byte(bytes[1]) {
                None => Parse::Fail(ErrorKind::InvalidCommand, 2),
                Some(cmd) => match parse_target(bytes) {
                    Parse::Done((addr, port), taken) => Parse::Done(
                        CommandRequestView { cmd, addr, port },
                        taken,
                    ),
                    Parse::Need(more) => Parse::Need(more),
                    Parse::Fail(kind, at) => Parse::Fail(kind, at),
                },
            }
        }
    }

    /// Decodes a command request from the bytes received so far: the request
    /// and the bytes that it took, or the number of bytes still to read, or
    /// the error of the first check that fails. The checks come in the
    /// order of the wire: `Error::InvalidVersion` on the first byte,
    /// `Error::InvalidCommand` on the second, `Error::InvalidAddrType` on
    /// the fourth, `Error::Utf` on the last byte of a domain name.
    pub fn read(buf: &[u8]) -> (res: Result<Decoded<CommandRequest>, Error>)
        ensures
            agrees(res, CommandRequest::parse(buf@)),
    {
        let have = buf.len();
        if have < 1 {
            return Ok(Decoded::Need(1));
        }
        let version = buf[0];
        if version != VERSION {
            return Err(Error::InvalidVersion(version));
        }
        if have < 2 {
            return Ok(Decoded::Need(1));
        }
        let cmd = match Command::try_from(buf[1]) {
            Ok(cmd) => cmd,
            Err(err) => {
                return Err(err);
            },
        };
        if have < 4 {
            return Ok(Decoded::Need(4 - have));
        }
        let (addr, end): (Addr, usize) = match buf[3] {
            0x01 => {
                if have < 10 {
                    return Ok(Decoded::Need(10 - have));
                }
                (Addr::V4(octets::<4>(buf, 4)), 8)
            },
            0x03 => {
                if have < 5 {
                    return Ok(Decoded::Need(1));
                }
                let end = 5 + usize::from(buf[4]);
                if have < end {
                    return Ok(Decoded::Need(end - have));
                }
                let mut name = Vec::with_capacity(end - 5);
                let mut i: usize = 5;
                while i < end
                    invariant
                        5 <= i <= end <= buf.len(),
                        name@ == buf@.subrange(5, i as int),
                    decreases end - i,
                {
                    name.push(buf[i]);
                    i += 1;
                }
                match string_from_utf8(name) {
                    Ok(domain) => {
                        proof {
                            encode_utf8_decode_utf8(domain@);
                        }
                        if have < end + 2 {
                            return Ok(Decoded::Need(end + 2 - have));
                        }
                        (Addr::Domain(domain), end)
                    },
                    Err(cause) => {
                        return Err(Error::Utf(cause));
                    },
                }
            },
            0x04 => {
                if have < 22 {
                    return Ok(Decoded::Need(22 - have));
                }
                (Addr::V6(octets::<16>(buf, 4)), 20)
            },
            _ => {
                return Err(Error::InvalidAddrType);
            },
        };
        let port = port_at(buf, end);
        Ok(Decoded::Done(CommandRequest { cmd, addr, port }, end + 2))
    }
}

/// A byte stands for the method whose byte it is: no method byte is lost in
/// decoding.
pub proof fn lemma_method_byte_kept(val: u8)
    ensures
        Method::of_byte(val).byte() == val,
{
}

/// A command's byte stands for that command.
pub proof fn lemma_command_byte_kept(cmd: Command)
    ensures
        Command::of_byte(cmd.byte()) == Some(cmd),
{
}

/// Two bytes of a port stand for the port that they were made from.
pub proof fn lemma_port_kept(port: u16)
    ensures
        port_wire(port).len() == 2,
        port_of(port_wire(port)[0], port_wire(port)[1]) == port,
{
}

/// A handshake that decodes took two bytes and one more for each method, and
/// they were there.
pub proof fn lemma_handshake_length(bytes: Seq<u8>)
    ensures
        Handshake::parse(bytes) matches Parse::Done(methods, taken) ==> taken == 2 + methods.len()
            && taken <= bytes.len(),
{
}

/// A handshake of `raw.len()` method bytes decodes to the methods that the
/// bytes stand for, takes exactly two bytes more than there are methods, and
/// the methods' bytes are the bytes that were sent.
pub proof fn lemma_handshake_raw_round_trip(raw: Seq<u8>)
    requires
        raw.len() <= 255,
    ensures
        Handshake::parse(seq![VERSION, raw.len() as u8] + raw) == Parse::Done(
            methods_of(raw),
            2 + raw.len(),
        ),
        method_bytes(methods_of(raw)) == raw,
{
    let bytes = seq![VERSION, raw.len() as u8] + raw;
    assert(bytes.subrange(2, 2 + bytes[1]) == raw);
    assert forall|i: int| 0 <= i < raw.len() implies method_bytes(methods_of(raw))[i] == raw[i] by {
        lemma_method_byte_kept(raw[i]);
    }
}

/// Decoding what a client sends to offer at most 255 methods gives a list
/// with the same bytes: each method comes back as the method that its byte
/// stands for, and the message takes exactly two bytes more than there are
/// methods.
pub proof fn lemma_handshake_round_trip(methods: Seq<Method>)
    requires
        methods.len() <= 255,
    ensures
        Handshake::parse(Handshake::wire(methods)) == Parse::Done(
            methods_of(method_bytes(methods)),
            2 + methods.len(),
        ),
        method_bytes(methods_of(method_bytes(methods))) == method_bytes(methods),
        Handshake::wire(methods).len() == 2 + methods.len(),
{
    lemma_handshake_raw_round_trip(method_bytes(methods));
}

/// The bytes that a handshake was decoded from are what a client sends to
/// offer the methods that were decoded.
pub proof fn lemma_handshake_bytes_kept(bytes: Seq<u8>)
    ensures
        Handshake::parse(bytes) matches Parse::Done(methods, taken) ==> Handshake::wire(methods)
            == bytes.take(taken as int),
{
    match Handshake::parse(bytes) {
        Parse::Done(methods, taken) => {
            let raw = bytes.subrange(2, 2 + bytes[1]);
            assert forall|i: int| 0 <= i < raw.len() implies method_bytes(methods)[i]
                == raw[i] by {
                lemma_method_byte_kept(raw[i]);
            }
            assert(Handshake::wire(methods) == bytes.take(taken as int));
        },
        _ => {},
    }
}

/// The bytes that a command request was decoded from are what a client sends
/// for the request that was decoded, but for the reserved byte, which is not
/// looked at. What was decoded can be written again.
pub proof fn lemma_request_bytes_kept(bytes: Seq<u8>)
    ensures
        CommandRequest::parse(bytes) matches Parse::Done(request, taken) ==> {
            &&& request.addr.well_formed()
            &&& request.addr.encodable()
            &&& request.wire() == bytes.take(taken as int).update(2, 0x00u8)
        },
{
    match CommandRequest::parse(bytes) {
        Parse::Done(request, taken) => {
            let again = bytes.take(taken as int).update(2, 0x00u8);
            if request.addr is Domain {
                decode_utf8_encode_utf8(bytes.subrange(5, 5 + bytes[4]));
            }
            assert(request.wire() == again);
        },
        _ => {},
    }
}

/// A first byte other than 5 fails either message with that byte, after that
/// one byte and whatever follows it.
pub proof fn lemma_version_checked_first(bytes: Seq<u8>)
    requires
        bytes.len() >= 1,
        bytes[0] != VERSION,
    ensures
        Handshake::parse(bytes) == Parse::<Seq<Method>>::Fail(
            ErrorKind::InvalidVersion(bytes[0]),
            1,
        ),
        CommandRequest::parse(bytes) == Parse::<CommandRequestView>::Fail(
            ErrorKind::InvalidVersion(bytes[0]),
            1,
        ),
{
}

/// In a command request with the right version and a known command, an
/// address type other than 1, 3 and 4 fails the message after its fourth
/// byte.
pub proof fn lemma_addr_type_checked(bytes: Seq<u8>)
    requires
        bytes.len() >= 4,
        bytes[0] == VERSION,
        Command::of_byte(bytes[1]) is Some,
        bytes[3] != 0x01 && bytes[3] != 0x03 && bytes[3] != 0x04,
    ensures
        CommandRequest::parse(bytes) == Parse::<CommandRequestView>::Fail(
            ErrorKind::InvalidAddrType,
            4,
        ),
{
}

/// The address and port of a command message decode to what they were made
/// from, and take the whole message.
pub proof fn lemma_target_round_trip(first: u8, second: u8, third: u8, addr: AddrView, port: u16)
    requires
        addr.well_formed(),
        addr.encodable(),
    ensures
        parse_target(seq![first, second, third] + addr.wire() + port_wire(port)) == Parse::Done(
            (addr, port),
            (seq![first, second, third] + addr.wire() + port_wire(port)).len(),
        ),
{
    let bytes = seq![first, second, third] + addr.wire() + port_wire(port);
    lemma_port_kept(port);
    match addr {
        AddrView::V4(ip) => {
            assert(bytes.subrange(4, 8) == ip);
        },
        AddrView::Domain(name) => {
            let raw = encode_utf8(name);
            assert(bytes.subrange(5, 5 + bytes[4]) == raw);
            encode_utf8_valid_utf8(name);
            encode_utf8_decode_utf8(name);
        },
        AddrView::V6(ip) => {
            assert(bytes.subrange(4, 20) == ip);
        },
    }
}

/// Decoding what a client sends for a request gives that request, and takes
/// the whole message.
pub proof fn lemma_request_round_trip(request: CommandRequestView)
    requires
        request.addr.well_formed(),
        request.addr.encodable(),
    ensures
        CommandRequest::parse(request.wire()) == Parse::Done(request, request.wire().len()),
{
    lemma_command_byte_kept(request.cmd);
    lemma_target_round_trip(VERSION, request.cmd.byte(), 0x00u8, request.addr, request.port);
}

/// The handshake decoder reads no byte too many and none too few: see
/// [`precedes`].
pub proof fn lemma_handshake_exact(bytes: Seq<u8>, have: int)
    requires
        0 <= have <= bytes.len(),
    ensures
        precedes(
            Handshake::parse(bytes.take(have)),
            have,
            Handshake::parse(bytes),
            bytes.len() as int,
        ),
{
    let early = bytes.take(have);
    if have >= 2 && bytes[0] == VERSION && have >= 2 + bytes[1] {
        assert(early.subrange(2, 2 + early[1]) == bytes.subrange(2, 2 + bytes[1]));
    }
}

/// The decoder of an address and port reads no byte too many and none too
/// few: see [`precedes`].
pub proof fn lemma_target_exact(bytes: Seq<u8>, have: int)
    requires
        0 <= have <= bytes.len(),
    ensures
        precedes(parse_target(bytes.take(have)), have, parse_target(bytes), bytes.len() as int),
{
    let early = bytes.take(have);
    if have >= 4 {
        if bytes[3] == 0x01 && have >= 10 {
            assert(early.subrange(4, 8) == bytes.subrange(4, 8));
        } else if bytes[3] == 0x04 && have >= 22 {
            assert(early.subrange(4, 20) == bytes.subrange(4, 20));
        } else if bytes[3] == 0x03 && have >= 5 && have >= 5 + bytes[4] {
            assert(early.subrange(5, 5 + early[4]) == bytes.subrange(5, 5 + bytes[4]));
        }
    }
}

/// The command request decoder reads no byte too many and none too few: see
/// [`precedes`].
pub proof fn lemma_request_exact(bytes: Seq<u8>, have: int)
    requires
        0 <= have <= bytes.len(),
    ensures
        precedes(
            CommandRequest::parse(bytes.take(have)),
            have,
            CommandRequest::parse(bytes),
            bytes.len() as int,
        ),
{
    lemma_target_exact(bytes, have);
}

} // verus!
