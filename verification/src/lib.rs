//! SOCKS5 protocol structure.
//!
//! The wire format of the messages that a SOCKS5 server reads and writes, and
//! the decisions that a minimal relay takes on one connection. Nothing here
//! performs I/O: decoders work on the bytes received so far and say how many
//! more they need, encoders append to a byte vector, and the relay is a state
//! machine from events to actions.

use vstd::prelude::*;
use vstd::utf8::encode_utf8;

/// Downstream packets.
pub mod downstream;
mod error;
/// The relay of one connection, as a state machine.
pub mod relay;
/// Upstream packets.
pub mod upstream;

pub use crate::error::{Error, ErrorKind};

verus! {

/// The protocol version that starts every negotiation message.
pub const VERSION: u8 = 0x05;

/// A socks5 method.
#[derive(Clone, Copy, PartialEq, Eq, Debug, Structural)]
pub enum Method {
    /// No authentication.
    NoAuth,
    /// Gssapi authentication.
    Gssapi,
    /// Username/Password authentication.
    Auth,
    /// Other methods.
    Other(u8),
    /// No acceptable method found.
    NoAcceptable,
}

impl Method {
    /// The method that a byte on the wire stands for. Every byte stands for
    /// one: what is not a known method is kept as `Other`.
    pub open spec fn of_byte(val: u8) -> Method {
        match val {
            0x00 => Method::NoAuth,
            0x01 => Method::Gssapi,
            0x02 => Method::Auth,
            _ => Method::Other(val),
        }
    }

    /// The byte that stands for this method on the wire.
    pub open spec fn byte(self) -> u8 {
        match self {
            Method::NoAuth => 0x00,
            Method::Gssapi => 0x01,
            Method::Auth => 0x02,
            Method::Other(val) => val,
            Method::NoAcceptable => 0xFF,
        }
    }
}

impl From<u8> for Method {
    fn from(val: u8) -> (method: Self)
        ensures
            method == Method::of_byte(val),
    {
        match val {
            0x00 => Self::NoAuth,
            0x01 => Self::Gssapi,
            0x02 => Self::Auth,
            _ => Self::Other(val),
        }
    }
}

impl vstd::std_specs::convert::FromSpecImpl<u8> for Method {
    open spec fn obeys_from_spec() -> bool {
        true
    }

    open spec fn from_spec(val: u8) -> Self {
        Method::of_byte(val)
    }
}

impl From<Method> for u8 {
    fn from(method: Method) -> (val: Self)
        ensures
            val == method.byte(),
    {
        match method {
            Method::NoAuth => 0x00,
            Method::Gssapi => 0x01,
            Method::Auth => 0x02,
            Method::Other(val) => val,
            Method::NoAcceptable => 0xFF,
        }
    }
}

impl vstd::std_specs::convert::FromSpecImpl<Method> for u8 {
    open spec fn obeys_from_spec() -> bool {
        true
    }

    open spec fn from_spec(method: Method) -> Self {
        method.byte()
    }
}

/// A socks5 command.
#[derive(Clone, Copy, PartialEq, Eq, Debug, Structural)]
pub enum Command {
    /// Connect to target.
    Connect,
    /// Bind to socket.
    Bind,
    /// Associate Udp.
    UdpAssociate,
}

impl Command {
    /// The command that a byte on the wire stands for, if it stands for one.
    pub open spec fn of_byte(val: u8) -> Option<Command> {
        match val {
            0x01 => Some(Command::Connect),
            0x02 => Some(Command::Bind),
            0x03 => Some(Command::UdpAssociate),
            _ => None,
        }
    }

    /// The byte that stands for this command on the wire.
    pub open spec fn byte(self) -> u8 {
        match self {
            Command::Connect => 0x01,
            Command::Bind => 0x02,
            Command::UdpAssociate => 0x03,
        }
    }
}

impl TryFrom<u8> for Command {
    type Error = Error;

    fn try_from(val: u8) -> (res: Result<Self, Error>)
        ensures
            res matches Ok(cmd) ==> Command::of_byte(val) == Some(cmd),
            res matches Err(err) ==> Command::of_byte(val) is None && err@
                == ErrorKind::InvalidCommand,
    {
        match val {
            0x01 => Ok(Self::Connect),
            0x02 => Ok(Self::Bind),
            0x03 => Ok(Self::UdpAssociate),
            _ => Err(Error::InvalidCommand),
        }
    }
}

impl vstd::std_specs::convert::TryFromSpecImpl<u8> for Command {
    open spec fn obeys_try_from_spec() -> bool {
        true
    }

    open spec fn try_from_spec(val: u8) -> Result<Self, Error> {
        match Command::of_byte(val) {
            Some(cmd) => Ok(cmd),
            None => Err(Error::InvalidCommand),
        }
    }
}

impl From<Command> for u8 {
    fn from(cmd: Command) -> (val: Self)
        ensures
            val == cmd.byte(),
    {
        match cmd {
            Command::Connect => 0x01,
            Command::Bind => 0x02,
            Command::UdpAssociate => 0x03,
        }
    }
}

impl vstd::std_specs::convert::FromSpecImpl<Command> for u8 {
    open spec fn obeys_from_spec() -> bool {
        true
    }

    open spec fn from_spec(cmd: Command) -> Self {
        cmd.byte()
    }
}

/// An address type, either IPv4, IPv6 or domain name.
#[derive(Clone, PartialEq, Eq, Debug)]
pub enum Addr {
    /// An IPv4 address, as its four octets.
    V4([u8; 4]),
    /// A domain name.
    Domain(String),
    /// An IPv6 address, as its sixteen octets.
    V6([u8; 16]),
}

/// An address as contracts see it: octets and characters.
pub enum AddrView {
    /// An IPv4 address: four octets.
    V4(Seq<u8>),
    /// A domain name.
    Domain(Seq<char>),
    /// An IPv6 address: sixteen octets.
    V6(Seq<u8>),
}

impl View for Addr {
    type V = AddrView;

    open spec fn view(&self) -> AddrView {
        match *self {
            Addr::V4(octets) => AddrView::V4(octets@),
            Addr::Domain(name) => AddrView::Domain(name@),
            Addr::V6(octets) => AddrView::V6(octets@),
        }
    }
}

impl AddrView {
    /// An IP address has as many octets as its family asks for.
    pub open spec fn well_formed(self) -> bool {
        match self {
            AddrView::V4(octets) => octets.len() == 4,
            AddrView::Domain(_) => true,
            AddrView::V6(octets) => octets.len() == 16,
        }
    }

    /// Whether the address can be written: a domain name's length has one
    /// byte on the wire, so its UTF-8 form has at most 255 bytes.
    pub open spec fn encodable(self) -> bool {
        match self {
            AddrView::Domain(name) => encode_utf8(name).len() <= 255,
            _ => true,
        }
    }

    /// The address on the wire: its type byte, then the octets, or for a
    /// domain name its length and its UTF-8 bytes.
    pub open spec fn wire(self) -> Seq<u8> {
        match self {
            AddrView::V4(octets) => seq![0x01u8] + octets,
            AddrView::Domain(name) => seq![0x03u8, encode_utf8(name).len() as u8] + encode_utf8(
                name,
            ),
            AddrView::V6(octets) => seq![0x04u8] + octets,
        }
    }
}

/// Every address has as many octets as its family asks for.
pub proof fn lemma_addr_well_formed(addr: Addr)
    ensures
        addr@.well_formed(),
{
}

/// The two bytes of a port on the wire, the high one first.
pub open spec fn port_wire(port: u16) -> Seq<u8> {
    seq![(port / 256) as u8, (port % 256) as u8]
}

/// The port that two bytes on the wire stand for, the high one first.
pub open spec fn port_of(high: u8, low: u8) -> u16 {
    (high * 256 + low) as u16
}

/// A socks5 command reply.
#[derive(Clone, Copy, PartialEq, Eq, Debug, Structural)]
pub enum Reply {
    /// Successful.
    Success,
    /// Internal server error.
    ServerFailure,
    /// Connection not allowed by ruleset.
    NotAllowedByRuleset,
    /// Network unreachable.
    NetworkUnreachable,
    /// Host unreachable.
    HostUnreachable,
    /// Connection refused.
    ConnectionRefused,
    /// Ttl expired.
    TtlExpired,
    /// Command not supported.
    CommandNotSupported,
    /// Address type not supported.
    AddrTypeNotSupported,
}

impl Reply {
    /// The byte that stands for this reply on the wire.
    pub open spec fn byte(self) -> u8 {
        match self {
            Reply::Success => 0x00,
            Reply::ServerFailure => 0x01,
            Reply::NotAllowedByRuleset => 0x02,
            Reply::NetworkUnreachable => 0x03,
            Reply::HostUnreachable => 0x04,
            Reply::ConnectionRefused => 0x05,
            Reply::TtlExpired => 0x06,
            Reply::CommandNotSupported => 0x07,
            Reply::AddrTypeNotSupported => 0x08,
        }
    }

    /// The reply that a byte on the wire stands for, if it stands for one.
    pub open spec fn of_byte(val: u8) -> Option<Reply> {
        match val {
            0x00 => Some(Reply::Success),
            0x01 => Some(Reply::ServerFailure),
            0x02 => Some(Reply::NotAllowedByRuleset),
            0x03 => Some(Reply::NetworkUnreachable),
            0x04 => Some(Reply::HostUnreachable),
            0x05 => Some(Reply::ConnectionRefused),
            0x06 => Some(Reply::TtlExpired),
            0x07 => Some(Reply::CommandNotSupported),
            0x08 => Some(Reply::AddrTypeNotSupported),
            _ => None,
        }
    }
}

impl From<Reply> for u8 {
    fn from(reply: Reply) -> (val: Self)
        ensures
            val == reply.byte(),
    {
        match reply {
            Reply::Success => 0x00,
            Reply::ServerFailure => 0x01,
            Reply::NotAllowedByRuleset => 0x02,
            Reply::NetworkUnreachable => 0x03,
            Reply::HostUnreachable => 0x04,
            Reply::ConnectionRefused => 0x05,
            Reply::TtlExpired => 0x06,
            Reply::CommandNotSupported => 0x07,
            Reply::AddrTypeNotSupported => 0x08,
        }
    }
}

impl vstd::std_specs::convert::FromSpecImpl<Reply> for u8 {
    open spec fn obeys_from_spec() -> bool {
        true
    }

    open spec fn from_spec(reply: Reply) -> Self {
        reply.byte()
    }
}

} // verus!
