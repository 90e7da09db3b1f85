//! What the WireGuard acceptor does with each stream that the stack accepts.
use vstd::prelude::*;

verus! {

/// What one accept on the TCP/IP stack gave.
#[derive(Debug)]
pub enum Accepted<T> {
    /// A TCP connection.
    Tcp(T),
    /// A UDP stream.
    Udp,
    /// Another transport, or a packet that could not be parsed.
    Unknown,
    /// The accept failed; the error's text.
    Failed(String),
}

/// What the acceptor does next.
#[derive(Debug)]
pub enum AcceptAction<T> {
    /// Serve the HTTP proxy on this connection.
    ServeProxy(T),
    /// Report this line and go on accepting.
    Report(String),
}

/// The line reported for a UDP stream.
pub open spec fn udp_line() -> Seq<char> {
    "Unable to accept udp"@
}

/// The line reported for another transport.
pub open spec fn unknown_line() -> Seq<char> {
    "Unable to accept unknown transport"@
}

/// The line reported for a failed accept, before the error's text.
pub open spec fn failed_prefix() -> Seq<char> {
    "Error accepting connection "@
}

/// Only TCP connections are served; every other accept is reported, and the
/// acceptor goes on.
pub fn accept_action<T>(accepted: Accepted<T>) -> (action: AcceptAction<T>)
    ensures
        match accepted {
            Accepted::Tcp(s) => action == AcceptAction::ServeProxy(s),
            Accepted::Udp => action matches AcceptAction::Report(line) && line@ == udp_line(),
            Accepted::Unknown => action matches AcceptAction::Report(line) && line@ == unknown_line(),
            Accepted::Failed(err) => action matches AcceptAction::Report(line)
                && line@ == failed_prefix() + err@,
        },
{
    match accepted {
        Accepted::Tcp(s) => AcceptAction::ServeProxy(s),
        Accepted::Udp => AcceptAction::Report(String::from_str("Unable to accept udp")),
        Accepted::Unknown => AcceptAction::Report(String::from_str("Unable to accept unknown transport")),
        Accepted::Failed(err) => {
            let line = String::from_str("Error accepting connection ");
            AcceptAction::Report(line.concat(err.as_str()))
        },
    }
}

} // verus!
