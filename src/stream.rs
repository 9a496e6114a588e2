use vstd::prelude::*;

use crate::ReplyError;

verus! {

/// The kinds of failure that dialing the proxy can end in, as far as the
/// protocol cares about them.
#[derive(Debug, Clone, Copy, PartialEq, Eq)]
pub enum TransportErrorKind {
    ConnectionRefused,
    ConnectionAborted,
    ConnectionReset,
    NotConnected,
    /// Any other transport failure; it is passed on uninterpreted.
    Other,
}

/// The reply-code meaning of a failed dial, where there is a clear one.
pub open spec fn connect_error_reply_spec(kind: TransportErrorKind) -> Option<ReplyError> {
    match kind {
        TransportErrorKind::ConnectionRefused => Some(ReplyError::ConnectionRefused),
        TransportErrorKind::ConnectionAborted => Some(ReplyError::ConnectionNotAllowed),
        TransportErrorKind::ConnectionReset => Some(ReplyError::ConnectionNotAllowed),
        TransportErrorKind::NotConnected => Some(ReplyError::NetworkUnreachable),
        TransportErrorKind::Other => None,
    }
}

/// Maps a failed dial onto the reply-code taxonomy; `None` means that the
/// transport error is to be passed on as it is.
pub fn connect_error_reply(kind: TransportErrorKind) -> (r: Option<ReplyError>)
    ensures
        r == connect_error_reply_spec(kind),
{
    match kind {
        TransportErrorKind::ConnectionRefused => Some(ReplyError::ConnectionRefused),
        TransportErrorKind::ConnectionAborted => Some(ReplyError::ConnectionNotAllowed),
        TransportErrorKind::ConnectionReset => Some(ReplyError::ConnectionNotAllowed),
        TransportErrorKind::NotConnected => Some(ReplyError::NetworkUnreachable),
        TransportErrorKind::Other => None,
    }
}

} // verus!
