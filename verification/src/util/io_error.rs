//! The kinds of IO errors that the library tells apart: those of a lost
//! connection, and invalid data.

use vstd::prelude::*;

verus! {

/// The kinds of IO errors that the library tells apart.
#[derive(Debug, Clone, Copy, PartialEq, Eq, Structural)]
pub enum IoErrorKind {
    /// The connection was reset by the peer.
    ConnectionReset,
    /// The connection was refused by the peer.
    ConnectionRefused,
    /// The connection was aborted by the peer.
    ConnectionAborted,
    /// The socket is not connected.
    NotConnected,
    /// The pipe was closed.
    BrokenPipe,
    /// The data read was not valid.
    InvalidData,
    /// Any other kind.
    Other,
}

/// The kind of the IO error `e`, among those the library tells apart.
pub uninterp spec fn io_error_kind(e: std::io::Error) -> IoErrorKind;

/// `std::io::Error::kind`, with the kinds the library tells apart kept and
/// every other kind taken as `Other`. Its result is claimed to depend
/// on `e` alone.
#[verifier::external_body]
pub(crate) fn connection_error_kind(e: &std::io::Error) -> (k: IoErrorKind)
    ensures
        k == io_error_kind(*e),
{
    match e.kind() {
        std::io::ErrorKind::ConnectionReset => IoErrorKind::ConnectionReset,
        std::io::ErrorKind::ConnectionRefused => IoErrorKind::ConnectionRefused,
        std::io::ErrorKind::ConnectionAborted => IoErrorKind::ConnectionAborted,
        std::io::ErrorKind::NotConnected => IoErrorKind::NotConnected,
        std::io::ErrorKind::BrokenPipe => IoErrorKind::BrokenPipe,
        std::io::ErrorKind::InvalidData => IoErrorKind::InvalidData,
        _ => IoErrorKind::Other,
    }
}

/// `std::io::Error::new`: an IO error of the kind `kind` (`Other` standing
/// for `ErrorKind::Other`) carrying the message `msg`. Its `kind()` is then
/// `kind`, as `std::io::Error::new` documents.
#[verifier::external_body]
pub(crate) fn io_error_new(kind: IoErrorKind, msg: &str) -> (e: std::io::Error)
    ensures
        io_error_kind(e) == kind,
{
    let kind = match kind {
        IoErrorKind::ConnectionReset => std::io::ErrorKind::ConnectionReset,
        IoErrorKind::ConnectionRefused => std::io::ErrorKind::ConnectionRefused,
        IoErrorKind::ConnectionAborted => std::io::ErrorKind::ConnectionAborted,
        IoErrorKind::NotConnected => std::io::ErrorKind::NotConnected,
        IoErrorKind::BrokenPipe => std::io::ErrorKind::BrokenPipe,
        IoErrorKind::InvalidData => std::io::ErrorKind::InvalidData,
        IoErrorKind::Other => std::io::ErrorKind::Other,
    };
    std::io::Error::new(kind, msg)
}

/// The kinds of a lost connection: reset, refused, aborted, not connected,
/// or a broken pipe.
pub open spec fn is_lost_connection(k: IoErrorKind) -> bool {
    k != IoErrorKind::Other && k != IoErrorKind::InvalidData
}

/// The kind of the IO error `io`, if there is one.
pub open spec fn kind_of(io: Option<std::io::Error>) -> Option<IoErrorKind> {
    match io {
        Some(e) => Some(io_error_kind(e)),
        None => None,
    }
}

/// Whether `io` is an IO error of the kind `kind`.
pub fn is_kind(io: Option<&std::io::Error>, kind: IoErrorKind) -> (b: bool)
    ensures
        b == (io matches Some(e) && io_error_kind(*e) == kind),
{
    match io {
        Some(e) => connection_error_kind(e) == kind,
        None => false,
    }
}

} // verus!
