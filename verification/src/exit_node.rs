//! The exit node: a WireGuard interface with one peer and the proxy listener
//! behind it.
use ipnet::IpNet;
use tokio_wireguard::config::{Address, AddressFromStrErr};
use vstd::prelude::*;

verus! {

#[verifier::external_type_specification]
#[verifier::external_body]
pub struct ExAddress(Address);

#[verifier::external_type_specification]
#[verifier::external_body]
pub struct ExIpNet(IpNet);

/// Why an interface address was refused, as tokio-wireguard reports it.
#[derive(Debug)]
pub enum AddressErrorKind {
    /// A comma-separated part is not an IP network.
    Invalid,
    /// A part is a multicast network.
    Multicast(IpNet),
    /// Two IPv4 parts.
    DuplicateV4,
    /// Two IPv6 parts.
    DuplicateV6,
    /// No part at all.
    Empty,
}

/// A refused interface address: why, and the text tokio-wireguard gives.
#[derive(Debug)]
pub struct AddressError {
    pub kind: AddressErrorKind,
    pub text: String,
}

/// The abstract value of an address parse.
pub open spec fn address_parse_view(r: Result<Address, AddressError>) -> Result<Address, (AddressErrorKind, Seq<char>)> {
    match r {
        Ok(a) => Ok(a),
        Err(e) => Err((e.kind, e.text@)),
    }
}

/// What tokio-wireguard's `Address::from_str` makes of a text.
pub uninterp spec fn parsed_interface_address(text: Seq<char>) -> Result<Address, (AddressErrorKind, Seq<char>)>;

/// `<Address as FromStr>::from_str` of tokio-wireguard: a comma-separated
/// list of at most one IPv4 and one IPv6 network, none multicast. Trusted:
/// the result is the named parse of the text, and each error variant is
/// carried over with its display text.
#[verifier::external_body]
fn address_from_str(text: &str) -> (r: Result<Address, AddressError>)
    ensures
        address_parse_view(r) == parsed_interface_address(text@),
{
    match text.parse::<Address>() {
        Ok(a) => Ok(a),
        Err(e) => Err(AddressError {
            text: e.to_string(),
            kind: match e {
                AddressFromStrErr::Invalid(_) => AddressErrorKind::Invalid,
                AddressFromStrErr::Multicast(net) => AddressErrorKind::Multicast(net),
                AddressFromStrErr::DuplicateV4 => AddressErrorKind::DuplicateV4,
                AddressFromStrErr::DuplicateV6 => AddressErrorKind::DuplicateV6,
                AddressFromStrErr::Empty => AddressErrorKind::Empty,
            },
        }),
    }
}

/// The exit node's own address on the WireGuard network, read from its text
/// as tokio-wireguard reads it.
pub fn interface_address(text: &str) -> (r: Result<Address, AddressError>)
    ensures
        address_parse_view(r) == parsed_interface_address(text@),
{
    address_from_str(text)
}

/// What ipnet's `IpNet::from_str` makes of a text.
pub uninterp spec fn parsed_ip_net(text: Seq<char>) -> Option<IpNet>;

/// The one error text of ipnet's parser.
pub open spec fn invalid_ip_text() -> Seq<char> {
    "invalid IP address syntax"@
}

/// The abstract value of an IP network parse.
pub open spec fn ip_net_parse_view(r: Result<IpNet, String>) -> Option<IpNet> {
    match r {
        Ok(n) => Some(n),
        Err(_) => None,
    }
}

/// `<IpNet as FromStr>::from_str` of ipnet: an IPv4 or IPv6 network in
/// address/prefix form. Trusted: the result is the named parse of the text,
/// and the error's display text is always "invalid IP address syntax".
#[verifier::external_body]
fn ip_net_from_str(text: &str) -> (r: Result<IpNet, String>)
    ensures
        ip_net_parse_view(r) == parsed_ip_net(text@),
        r matches Err(t) ==> t@ == invalid_ip_text(),
{
    match text.parse::<IpNet>() {
        Ok(n) => Ok(n),
        Err(e) => Err(e.to_string()),
    }
}

/// The addresses the peer may send from and receive for: the one network
/// its text holds, as ipnet reads it.
pub fn peer_allowed_ips(text: &str) -> (r: Result<Vec<IpNet>, String>)
    ensures
        match parsed_ip_net(text@) {
            Some(n) => r matches Ok(v) && v@ == seq![n],
            None => r matches Err(t) && t@ == invalid_ip_text(),
        },
{
    match ip_net_from_str(text) {
        Ok(n) => {
            let mut v: Vec<IpNet> = Vec::new();
            v.push(n);
            assert(v@ =~= seq![n]);
            Ok(v)
        },
        Err(t) => Err(t),
    }
}

/// The port the proxy listens on inside the tunnel.
pub const PROXY_PORT: u16 = 3128;

/// How the exit node's interface and peer are set up, beyond the keys and
/// addresses that the environment gives.
#[derive(Debug, Clone, Copy, PartialEq, Eq)]
pub struct ExitNodeSettings {
    /// The UDP port for tunnelled traffic; `None` lets the interface pick one.
    pub listen_port: Option<u16>,
    /// The MTU; `None` lets the interface pick one.
    pub mtu: Option<usize>,
    /// The keepalive interval for the peer, in seconds.
    pub persistent_keepalive: Option<u16>,
    /// The port of the proxy listener, on every address of the interface.
    pub proxy_port: u16,
}

/// A random listen port, the interface's own MTU, a keepalive every second,
/// and the proxy on port 3128.
pub fn exit_node_settings() -> (s: ExitNodeSettings)
    ensures
        s.listen_port is None,
        s.mtu is None,
        s.persistent_keepalive == Some(1u16),
        s.proxy_port == PROXY_PORT,
{
    ExitNodeSettings { listen_port: None, mtu: None, persistent_keepalive: Some(1), proxy_port: PROXY_PORT }
}

/// What polling the listener for a connection gave.
#[derive(Debug)]
pub enum AcceptPoll<S, E> {
    /// A connection.
    Accepted(S),
    /// The accept failed.
    Failed(E),
    /// Nothing yet.
    Pending,
}

/// What the stream of connections yields.
#[derive(Debug, PartialEq, Eq)]
pub enum ConnectionPoll<S> {
    /// The next connection.
    Next(S),
    /// The stream has ended.
    End,
    /// Nothing yet.
    Pending,
}

/// One poll of the stream of connections: a connection is passed on, and the
/// first failed accept ends the stream.
pub fn connection_poll<S, E>(poll: AcceptPoll<S, E>) -> (out: ConnectionPoll<S>)
    ensures
        match poll {
            AcceptPoll::Accepted(s) => out == ConnectionPoll::Next(s),
            AcceptPoll::Failed(_) => out == ConnectionPoll::<S>::End,
            AcceptPoll::Pending => out == ConnectionPoll::<S>::Pending,
        },
{
    match poll {
        AcceptPoll::Accepted(s) => ConnectionPoll::Next(s),
        AcceptPoll::Failed(_) => ConnectionPoll::End,
        AcceptPoll::Pending => ConnectionPoll::Pending,
    }
}

} // verus!
