use vstd::prelude::*;

verus! {

/// `std::io::Error` of the standard library, carried as it comes. Nothing is
/// said of what it holds.
#[verifier::external_type_specification]
#[verifier::external_body]
pub struct ExIoError(std::io::Error);

/// `std::string::FromUtf8Error` of the standard library, carried as it comes.
/// Nothing is said of what it holds.
#[verifier::external_type_specification]
#[verifier::external_body]
pub struct ExFromUtf8Error(std::string::FromUtf8Error);

/// A socks5 error.
#[derive(Debug)]
pub enum Error {
    /// The version byte was not 5; the byte that was found.
    InvalidVersion(u8),
    /// The command byte names no command.
    InvalidCommand,
    /// The address type byte names no address type.
    InvalidAddrType,
    /// The transport failed.
    Io(std::io::Error),
    /// A domain name was not UTF-8.
    Utf(std::string::FromUtf8Error),
    /// A domain name's length did not fit the byte that carries it.
    Int(std::num::TryFromIntError),
}

/// What went wrong, without the cause that a failure of the standard library
/// carries: what two errors can be compared by.
#[derive(Clone, Copy, PartialEq, Eq, Debug, Structural)]
pub enum ErrorKind {
    /// The version byte was not 5; the byte that was found.
    InvalidVersion(u8),
    /// The command byte names no command.
    InvalidCommand,
    /// The address type byte names no address type.
    InvalidAddrType,
    /// The transport failed.
    Io,
    /// A domain name was not UTF-8.
    Utf,
    /// A length did not fit the byte that carries it.
    Int,
}

impl View for Error {
    type V = ErrorKind;

    open spec fn view(&self) -> ErrorKind {
        match *self {
            Error::InvalidVersion(found) => ErrorKind::InvalidVersion(found),
            Error::InvalidCommand => ErrorKind::InvalidCommand,
            Error::InvalidAddrType => ErrorKind::InvalidAddrType,
            Error::Io(_) => ErrorKind::Io,
            Error::Utf(_) => ErrorKind::Utf,
            Error::Int(_) => ErrorKind::Int,
        }
    }
}

impl Error {
    /// The kind of this error.
    pub fn kind(&self) -> (kind: ErrorKind)
        ensures
            kind == self@,
    {
        match self {
            Error::InvalidVersion(found) => ErrorKind::InvalidVersion(*found),
            Error::InvalidCommand => ErrorKind::InvalidCommand,
            Error::InvalidAddrType => ErrorKind::InvalidAddrType,
            Error::Io(_) => ErrorKind::Io,
            Error::Utf(_) => ErrorKind::Utf,
            Error::Int(_) => ErrorKind::Int,
        }
    }
}

impl From<std::io::Error> for Error {
    fn from(cause: std::io::Error) -> (err: Self)
        ensures
            err == Error::Io(cause),
    {
        Error::Io(cause)
    }
}

impl vstd::std_specs::convert::FromSpecImpl<std::io::Error> for Error {
    open spec fn obeys_from_spec() -> bool {
        true
    }

    open spec fn from_spec(cause: std::io::Error) -> Self {
        Error::Io(cause)
    }
}

impl From<std::string::FromUtf8Error> for Error {
    fn from(cause: std::string::FromUtf8Error) -> (err: Self)
        ensures
            err == Error::Utf(cause),
    {
        Error::Utf(cause)
    }
}

impl vstd::std_specs::convert::FromSpecImpl<std::string::FromUtf8Error> for Error {
    open spec fn obeys_from_spec() -> bool {
        true
    }

    open spec fn from_spec(cause: std::string::FromUtf8Error) -> Self {
        Error::Utf(cause)
    }
}

impl From<std::num::TryFromIntError> for Error {
    fn from(cause: std::num::TryFromIntError) -> (err: Self)
        ensures
            err == Error::Int(cause),
    {
        Error::Int(cause)
    }
}

impl vstd::std_specs::convert::FromSpecImpl<std::num::TryFromIntError> for Error {
    open spec fn obeys_from_spec() -> bool {
        true
    }

    open spec fn from_spec(cause: std::num::TryFromIntError) -> Self {
        Error::Int(cause)
    }
}

} // verus!
