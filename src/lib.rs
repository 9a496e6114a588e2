//! Client side of the SOCKS5 proxy protocol: the wire frames, the reply-code
//! taxonomy and the decisions of a client session, independent of any socket.
use vstd::prelude::*;

pub mod client;
pub mod consts;
pub mod stream;
pub mod target_addr;

verus! {

/// Every failure that the protocol logic can report.
#[derive(Debug, Clone, PartialEq, Eq)]
pub enum SocksError {
    /// The proxy (or the dial to it) reported a failure from the reply-code space.
    ReplyError(ReplyError),
    /// A domain name longer than one length byte can describe.
    ExceededMaxDomainLen(usize),
    /// A frame whose version byte is not the SOCKS5 one.
    UnsupportedSocksVersion(u8),
    /// A reply code outside the defined table.
    UnknownReplyCode(u8),
    /// IPv6 addresses are neither encoded nor decoded.
    UnsupportedIpv6,
    /// An address-type byte that names no known address type.
    UnknownAddressType(u8),
    /// A command that needs a target address was issued without one.
    MissingTargetAddr,
    /// The proxy accepted none of the offered authentication methods.
    NoAcceptableMethod,
    /// The proxy chose a method that the client never offered.
    UnofferedMethod(u8),
    /// The proxy's bound domain name is not valid UTF-8.
    InvalidDomainName,
}

#[derive(Debug, Clone, Copy, PartialEq, Eq, Structural)]
pub enum Socks5Command {
    TCPConnect,
    TCPBind,
    UDPAssociate,
}

#[derive(Debug, Clone, PartialEq, Eq)]
pub enum AuthenticationMethod {
    /// No authentication.
    NoAuth,
    Password { username: String, password: String },
}

/// SOCKS5 reply code. `ConnectionTimeout` has no wire code: it describes a
/// dial that did not complete in time.
#[derive(Debug, Clone, Copy, PartialEq, Eq, Structural)]
pub enum ReplyError {
    Succeeded,
    GeneralFailure,
    ConnectionNotAllowed,
    NetworkUnreachable,
    HostUnreachable,
    ConnectionRefused,
    ConnectionTimeout,
    TtlExpired,
    CommandNotSupported,
    AddressTypeNotSupported,
}

/// The one-byte wire code of a command.
pub open spec fn command_code(cmd: Socks5Command) -> u8 {
    match cmd {
        Socks5Command::TCPConnect => 0x01,
        Socks5Command::TCPBind => 0x02,
        Socks5Command::UDPAssociate => 0x03,
    }
}

/// The one-byte wire code of an authentication method.
pub open spec fn method_code(m: AuthenticationMethod) -> u8 {
    match m {
        AuthenticationMethod::NoAuth => 0x00,
        AuthenticationMethod::Password { .. } => 0x02,
    }
}

/// The reply-code table: codes 0x00 to 0x08, one variant each, in order.
pub open spec fn reply_of_code(code: u8) -> ReplyError
    recommends
        code <= 8,
{
    if code == 0 {
        ReplyError::Succeeded
    } else if code == 1 {
        ReplyError::GeneralFailure
    } else if code == 2 {
        ReplyError::ConnectionNotAllowed
    } else if code == 3 {
        ReplyError::NetworkUnreachable
    } else if code == 4 {
        ReplyError::HostUnreachable
    } else if code == 5 {
        ReplyError::ConnectionRefused
    } else if code == 6 {
        ReplyError::TtlExpired
    } else if code == 7 {
        ReplyError::CommandNotSupported
    } else {
        ReplyError::AddressTypeNotSupported
    }
}

impl Socks5Command {
    pub fn as_u8(&self) -> (r: u8)
        ensures
            r == command_code(*self),
    {
        match self {
            Socks5Command::TCPConnect => consts::SOCKS5_CMD_TCP_CONNECT,
            Socks5Command::TCPBind => consts::SOCKS5_CMD_TCP_BIND,
            Socks5Command::UDPAssociate => consts::SOCKS5_CMD_UDP_ASSOCIATE,
        }
    }
}

impl AuthenticationMethod {
    pub fn as_u8(&self) -> (r: u8)
        ensures
            r == method_code(*self),
    {
        match self {
            AuthenticationMethod::NoAuth => consts::SOCKS5_AUTH_METHOD_NONE,
            AuthenticationMethod::Password { .. } => consts::SOCKS5_AUTH_METHOD_PASSWORD,
        }
    }
}

impl ReplyError {
    /// Maps a defined reply code to its variant; codes above 0x08 are not
    /// defined and are reported apart by the reply decoder.
    pub fn from_u8(code: u8) -> (r: ReplyError)
        requires
            code <= 8,
        ensures
            r == reply_of_code(code),
    {
        match code {
            0 => ReplyError::Succeeded,
            1 => ReplyError::GeneralFailure,
            2 => ReplyError::ConnectionNotAllowed,
            3 => ReplyError::NetworkUnreachable,
            4 => ReplyError::HostUnreachable,
            5 => ReplyError::ConnectionRefused,
            6 => ReplyError::TtlExpired,
            7 => ReplyError::CommandNotSupported,
            _ => ReplyError::AddressTypeNotSupported,
        }
    }
}

} // verus!
