//! The userspace WireGuard tunnel: building it, feeding it datagrams and IP
//! packets, and deciding what each of its results asks the device to do.
use crate::keys::{public_key_from, public_key_of, static_secret_from, static_secret_of};
use boringtun::noise::rate_limiter::RateLimiter;
use boringtun::noise::{Tunn, TunnResult};
use std::sync::Arc;
use boringtun::x25519::{PublicKey, StaticSecret};
use vstd::prelude::*;

verus! {

/// The largest IP packet that the device hands to the tunnel.
pub const MAX_IP_PACKET: usize = 1500;

/// Bytes that WireGuard adds around a data packet.
pub const WG_OVERHEAD: usize = 32;

/// The smallest buffer that boringtun accepts for any message it writes.
pub const MIN_WG_BUFFER: usize = 148;

/// The size of every buffer that the tunnel writes into.
pub const TUNNEL_BUFFER: usize = 1532;

/// The persistent keepalive interval, in seconds, that the tunnel is built with.
pub const PERSISTENT_KEEPALIVE: u16 = 1;

/// The local session index that the tunnel is built with.
pub const TUNNEL_INDEX: u32 = 100;

/// What one call into the WireGuard state machine produced, with the bytes
/// copied out of the buffer it wrote into.
#[derive(Debug)]
pub enum TunnOutcome {
    /// Nothing to do.
    Done,
    /// A protocol error, as its debug text.
    Failed(String),
    /// A datagram to send to the peer.
    WriteToNetwork(Vec<u8>),
    /// A decrypted IPv4 packet and its source address.
    WriteToTunnelV4(Vec<u8>, [u8; 4]),
    /// A decrypted IPv6 packet and its source address.
    WriteToTunnelV6(Vec<u8>, [u8; 16]),
}

/// The abstract value of a [`TunnOutcome`].
pub enum OutcomeView {
    Done,
    Failed(Seq<char>),
    WriteToNetwork(Seq<u8>),
    WriteToTunnelV4(Seq<u8>, Seq<u8>),
    WriteToTunnelV6(Seq<u8>, Seq<u8>),
}

impl View for TunnOutcome {
    type V = OutcomeView;

    open spec fn view(&self) -> OutcomeView {
        match self {
            TunnOutcome::Done => OutcomeView::Done,
            TunnOutcome::Failed(text) => OutcomeView::Failed(text@),
            TunnOutcome::WriteToNetwork(p) => OutcomeView::WriteToNetwork(p@),
            TunnOutcome::WriteToTunnelV4(p, a) => OutcomeView::WriteToTunnelV4(p@, a@),
            TunnOutcome::WriteToTunnelV6(p, a) => OutcomeView::WriteToTunnelV6(p@, a@),
        }
    }
}

/// What the device does with one result of the tunnel.
#[derive(Debug)]
pub enum TunnelAction {
    /// Send this datagram to the peer over UDP.
    SendToNetwork(Vec<u8>),
    /// Write this IP packet into the TCP/IP stack.
    WriteToStack(Vec<u8>),
    /// Report this WireGuard error.
    ReportError(String),
    /// Do nothing.
    Nothing,
}

/// The abstract value of a [`TunnelAction`].
pub enum ActionView {
    SendToNetwork(Seq<u8>),
    WriteToStack(Seq<u8>),
    ReportError(Seq<char>),
    Nothing,
}

impl View for TunnelAction {
    type V = ActionView;

    open spec fn view(&self) -> ActionView {
        match self {
            TunnelAction::SendToNetwork(p) => ActionView::SendToNetwork(p@),
            TunnelAction::WriteToStack(p) => ActionView::WriteToStack(p@),
            TunnelAction::ReportError(text) => ActionView::ReportError(text@),
            TunnelAction::Nothing => ActionView::Nothing,
        }
    }
}

/// The action for a result: datagrams go to the network and decrypted
/// packets of either IP version go to the stack, both unchanged; errors are
/// reported; `Done` asks for nothing.
pub open spec fn action_for(outcome: OutcomeView) -> ActionView {
    match outcome {
        OutcomeView::Done => ActionView::Nothing,
        OutcomeView::Failed(text) => ActionView::ReportError(text),
        OutcomeView::WriteToNetwork(p) => ActionView::SendToNetwork(p),
        OutcomeView::WriteToTunnelV4(p, _) => ActionView::WriteToStack(p),
        OutcomeView::WriteToTunnelV6(p, _) => ActionView::WriteToStack(p),
    }
}

/// Whether every packet in a result fits in `len` bytes.
pub open spec fn outcome_fits(outcome: OutcomeView, len: nat) -> bool {
    match outcome {
        OutcomeView::WriteToNetwork(p) => p.len() <= len,
        OutcomeView::WriteToTunnelV4(p, _) => p.len() <= len,
        OutcomeView::WriteToTunnelV6(p, _) => p.len() <= len,
        _ => true,
    }
}

/// Whether every packet in an action fits in `len` bytes.
pub open spec fn action_fits(action: ActionView, len: nat) -> bool {
    match action {
        ActionView::SendToNetwork(p) => p.len() <= len,
        ActionView::WriteToStack(p) => p.len() <= len,
        _ => true,
    }
}

/// Whether a result is one that encrypting an IP packet of `src_len` bytes
/// can give: the encrypted packet (`src_len + WG_OVERHEAD` bytes) or a
/// handshake initiation (`MIN_WG_BUFFER` bytes) for the network, an error, or
/// nothing; never a packet for the stack.
pub open spec fn is_encapsulation(outcome: OutcomeView, src_len: nat) -> bool {
    match outcome {
        OutcomeView::WriteToNetwork(p) => p.len() == src_len + WG_OVERHEAD || p.len() == MIN_WG_BUFFER,
        OutcomeView::WriteToTunnelV4(_, _) => false,
        OutcomeView::WriteToTunnelV6(_, _) => false,
        _ => true,
    }
}

/// Whether a result is one that draining the queue can give: the next queued
/// packet encrypted, or a handshake initiation, for the network (at least
/// `WG_OVERHEAD` bytes), or nothing; a failed encapsulation puts the packet
/// back and answers nothing, so never an error, and never a packet for the
/// stack.
pub open spec fn is_drain_outcome(outcome: OutcomeView) -> bool {
    match outcome {
        OutcomeView::WriteToNetwork(p) => p.len() >= WG_OVERHEAD,
        OutcomeView::Done => true,
        _ => false,
    }
}

/// Whether a result is one that the timers can give: a keepalive
/// (`WG_OVERHEAD` bytes) or a handshake initiation (`MIN_WG_BUFFER` bytes) for
/// the network, an error, or nothing; never a packet for the stack.
pub open spec fn is_timer_outcome(outcome: OutcomeView) -> bool {
    match outcome {
        OutcomeView::WriteToNetwork(p) => p.len() == WG_OVERHEAD || p.len() == MIN_WG_BUFFER,
        OutcomeView::WriteToTunnelV4(_, _) => false,
        OutcomeView::WriteToTunnelV6(_, _) => false,
        _ => true,
    }
}

/// Decides what the device does with one result of the tunnel.
pub fn handle_tunnel_result(outcome: TunnOutcome) -> (action: TunnelAction)
    ensures
        action@ == action_for(outcome@),
        outcome@ matches OutcomeView::WriteToNetwork(p) ==> action@ == ActionView::SendToNetwork(p),
        outcome@ matches OutcomeView::WriteToTunnelV4(p, _) ==> action@ == ActionView::WriteToStack(p),
        outcome@ matches OutcomeView::WriteToTunnelV6(p, _) ==> action@ == ActionView::WriteToStack(p),
        outcome@ matches OutcomeView::Failed(t) ==> action@ == ActionView::ReportError(t),
        outcome@ is Done ==> action@ is Nothing,
{
    match outcome {
        TunnOutcome::Done => TunnelAction::Nothing,
        TunnOutcome::Failed(text) => TunnelAction::ReportError(text),
        TunnOutcome::WriteToNetwork(p) => TunnelAction::SendToNetwork(p),
        TunnOutcome::WriteToTunnelV4(p, _) => TunnelAction::WriteToStack(p),
        TunnOutcome::WriteToTunnelV6(p, _) => TunnelAction::WriteToStack(p),
    }
}

/// After a datagram is decapsulated, the tunnel may hold queued packets; it
/// is asked again, with no datagram, exactly when it wrote to the network.
pub fn requires_more_decapsulation(outcome: &TunnOutcome) -> (more: bool)
    ensures
        more <==> outcome@ is WriteToNetwork,
{
    match outcome {
        TunnOutcome::WriteToNetwork(_) => true,
        _ => false,
    }
}

/// The datagram that a result asks to send to the peer, if any.
pub open spec fn packet_for_network(outcome: OutcomeView) -> Option<Seq<u8>> {
    match outcome {
        OutcomeView::WriteToNetwork(p) => Some(p),
        _ => None,
    }
}

/// The abstract value of an optional packet.
pub open spec fn packet_view(packet: Option<Vec<u8>>) -> Option<Seq<u8>> {
    match packet {
        Some(p) => Some(p@),
        None => None,
    }
}

/// The datagram that a result asks to send to the peer, if any: while the
/// queue is drained and when timers fire, every other result is dropped.
pub fn network_packet(outcome: TunnOutcome) -> (packet: Option<Vec<u8>>)
    ensures
        packet_view(packet) == packet_for_network(outcome@),
        outcome@ matches OutcomeView::WriteToNetwork(p) ==> packet_view(packet) == Some(p),
        !(outcome@ is WriteToNetwork) ==> packet is None,
{
    match outcome {
        TunnOutcome::WriteToNetwork(p) => Some(p),
        _ => None,
    }
}

/// Every result is acted on as boringtun asks, whatever the size of its
/// packet: a datagram for the network is sent as it is, a decrypted packet
/// of either IP version goes to the stack as it is, an error is reported
/// with its text, and `Done` asks for nothing.
pub proof fn lemma_every_result_is_acted_on()
    ensures
        forall|p: Seq<u8>| #[trigger] action_for(OutcomeView::WriteToNetwork(p)) == ActionView::SendToNetwork(p),
        forall|p: Seq<u8>, a: Seq<u8>| #[trigger] action_for(OutcomeView::WriteToTunnelV4(p, a)) == ActionView::WriteToStack(p),
        forall|p: Seq<u8>, a: Seq<u8>| #[trigger] action_for(OutcomeView::WriteToTunnelV6(p, a)) == ActionView::WriteToStack(p),
        forall|t: Seq<char>| #[trigger] action_for(OutcomeView::Failed(t)) == ActionView::ReportError(t),
        action_for(OutcomeView::Done) == ActionView::Nothing,
{
}

/// Every datagram that boringtun asks to send, from the timers or from the
/// queue, is handed to the network as it is, whatever its length; nothing
/// else is.
pub proof fn lemma_every_network_datagram_is_sent()
    ensures
        forall|p: Seq<u8>| #[trigger] packet_for_network(OutcomeView::WriteToNetwork(p)) == Some(p),
        forall|o: OutcomeView| !(o is WriteToNetwork) ==> #[trigger] packet_for_network(o) is None,
{
}

/// No packet that a result carries is lost or grown by the handler: a
/// result that fits in a buffer gives an action that fits in it.
pub proof fn lemma_handler_keeps_sizes(outcome: OutcomeView, len: nat)
    requires
        outcome_fits(outcome, len),
    ensures
        action_fits(action_for(outcome), len),
{
}

#[verifier::external_type_specification]
#[verifier::external_body]
pub struct ExTunn(Tunn);

#[verifier::external_type_specification]
#[verifier::external_body]
pub struct ExRateLimiter(RateLimiter);

/// How often the tunnel's timers are run, in milliseconds.
pub const TIMER_PERIOD_MS: u64 = 100;

/// The keys and settings a boringtun tunnel was created with.
pub struct TunnelParameters {
    /// Our static secret, which the handshake holds.
    pub secret: StaticSecret,
    /// The peer's static public key, which the handshake holds.
    pub peer: PublicKey,
    pub preshared_key: Option<[u8; 32]>,
    pub persistent_keepalive: Option<u16>,
    pub index: u32,
    /// The rate limiter for handshakes; `None` has the tunnel make its own.
    pub rate_limiter: Option<Arc<RateLimiter>>,
}

/// One call made on a tunnel, with the result it gave.
pub enum TunnCall {
    /// `encapsulate` of an IP packet.
    Encapsulate(Seq<u8>, OutcomeView),
    /// `decapsulate` of a datagram (empty to drain the queue).
    Decapsulate(Seq<u8>, OutcomeView),
    /// `update_timers`.
    UpdateTimers(OutcomeView),
}

impl TunnCall {
    /// The result of the call.
    pub open spec fn outcome(self) -> OutcomeView {
        match self {
            TunnCall::Encapsulate(_, o) => o,
            TunnCall::Decapsulate(_, o) => o,
            TunnCall::UpdateTimers(o) => o,
        }
    }
}

/// The parameters made of these keys and settings.
pub open spec fn parameters_of(
    secret: StaticSecret,
    peer: PublicKey,
    preshared_key: Option<[u8; 32]>,
    persistent_keepalive: Option<u16>,
    index: u32,
    rate_limiter: Option<Arc<RateLimiter>>,
) -> TunnelParameters {
    TunnelParameters { secret, peer, preshared_key, persistent_keepalive, index, rate_limiter }
}

/// The parameters that `Tunn::new` was given for this tunnel.
pub uninterp spec fn tunn_parameters(tunn: Tunn) -> TunnelParameters;

/// The calls made on this tunnel since `Tunn::new`, each with its result, in
/// order.
pub uninterp spec fn tunn_calls(tunn: Tunn) -> Seq<TunnCall>;

/// `Tunn::new` of boringtun 0.6; given no rate limiter, the tunnel makes its
/// own with the default handshake limit. In that version it never fails: the noise parameters are built without a check.
/// Trusted: the tunnel holds these keys and settings, and no call has been
/// made on it yet.
#[verifier::external_body]
fn tunn_new(
    static_private: StaticSecret,
    peer_static_public: PublicKey,
    preshared_key: Option<[u8; 32]>,
    persistent_keepalive: Option<u16>,
    index: u32,
    rate_limiter: Option<Arc<RateLimiter>>,
) -> (res: Result<Tunn, String>)
    ensures
        res is Ok,
        res matches Ok(t) ==> tunn_parameters(t) == parameters_of(
            static_private,
            peer_static_public,
            preshared_key,
            persistent_keepalive,
            index,
            rate_limiter,
        ),
        res matches Ok(t) ==> tunn_calls(t) == Seq::<TunnCall>::empty(),
{
    match Tunn::new(static_private, peer_static_public, preshared_key, persistent_keepalive, index, rate_limiter) {
        Ok(tunn) => Ok(tunn),
        Err(e) => Err(e.to_string()),
    }
}

/// `Tunn::encapsulate`: encrypts an IP packet into `dst`, or starts a
/// handshake and queues the packet. Its documentation asks for a `dst` of at
/// least `src.len() + 32` and 148 bytes, else it panics; a queued packet is
/// later encapsulated by `decapsulate` into its own `dst`, so packets are
/// kept to `MAX_IP_PACKET` bytes. Trusted: the tunnel keeps its parameters
/// and records this call; every packet returned is a part of `dst`; with a
/// session the result is the data packet (16 header bytes, the packet, a
/// 16-byte tag), without one it is a 148-byte handshake initiation, `Done`
/// while a handshake is in progress, or an error; it never decrypts. Which of
/// these comes depends on the session state, the clock and randomness.
#[verifier::external_body]
fn tunn_encapsulate(tunn: &mut Tunn, src: &[u8], dst: &mut Vec<u8>) -> (outcome: TunnOutcome)
    requires
        src.len() <= MAX_IP_PACKET,
        old(dst).len() >= src.len() + WG_OVERHEAD,
        old(dst).len() >= MIN_WG_BUFFER,
    ensures
        tunn_parameters(*final(tunn)) == tunn_parameters(*old(tunn)),
        tunn_calls(*final(tunn)) == tunn_calls(*old(tunn)).push(TunnCall::Encapsulate(src@, outcome@)),
        outcome_fits(outcome@, old(dst).len() as nat),
        is_encapsulation(outcome@, src@.len()),
{
    match tunn.encapsulate(src, &mut dst[..]) {
        TunnResult::Done => TunnOutcome::Done,
        TunnResult::Err(e) => TunnOutcome::Failed(format!("{:?}", e)),
        TunnResult::WriteToNetwork(p) => TunnOutcome::WriteToNetwork(p.to_vec()),
        TunnResult::WriteToTunnelV4(p, a) => TunnOutcome::WriteToTunnelV4(p.to_vec(), a.octets()),
        TunnResult::WriteToTunnelV6(p, a) => TunnOutcome::WriteToTunnelV6(p.to_vec(), a.octets()),
    }
}

/// `Tunn::decapsulate` with no source address: handles a datagram from the
/// peer, or, given an empty one, encapsulates the next queued packet into
/// `dst`. It panics when `dst` is shorter than the datagram's payload, or
/// than a queued packet plus 32 bytes; `dst` holds the datagram plus 16 bytes
/// and at least `TUNNEL_BUFFER`, and queued packets hold at most
/// `MAX_IP_PACKET` bytes, so neither happens. Trusted: the tunnel keeps its
/// parameters and records this call; every packet returned is a part of
/// `dst`; given an empty datagram it only drains the queue (see
/// [`is_drain_outcome`]); which result comes depends on the session state,
/// the clock and randomness.
#[verifier::external_body]
fn tunn_decapsulate(tunn: &mut Tunn, datagram: &[u8], dst: &mut Vec<u8>) -> (outcome: TunnOutcome)
    requires
        old(dst).len() >= TUNNEL_BUFFER,
        datagram.len() + 16 <= old(dst).len(),
    ensures
        tunn_parameters(*final(tunn)) == tunn_parameters(*old(tunn)),
        tunn_calls(*final(tunn)) == tunn_calls(*old(tunn)).push(TunnCall::Decapsulate(datagram@, outcome@)),
        outcome_fits(outcome@, old(dst).len() as nat),
        datagram@.len() == 0 ==> is_drain_outcome(outcome@),
{
    match tunn.decapsulate(None, datagram, &mut dst[..]) {
        TunnResult::Done => TunnOutcome::Done,
        TunnResult::Err(e) => TunnOutcome::Failed(format!("{:?}", e)),
        TunnResult::WriteToNetwork(p) => TunnOutcome::WriteToNetwork(p.to_vec()),
        TunnResult::WriteToTunnelV4(p, a) => TunnOutcome::WriteToTunnelV4(p.to_vec(), a.octets()),
        TunnResult::WriteToTunnelV6(p, a) => TunnOutcome::WriteToTunnelV6(p.to_vec(), a.octets()),
    }
}

/// `Tunn::update_timers`: writes a handshake initiation or a keepalive into
/// `dst` when one is due. Trusted: the tunnel keeps its parameters and
/// records this call; every packet returned is a part of `dst`; a datagram is
/// a 148-byte handshake initiation or the encapsulation of an empty packet (a
/// 32-byte keepalive with a session, a handshake initiation without one); the
/// timers never decrypt. Which result comes depends on the clock.
#[verifier::external_body]
fn tunn_update_timers(tunn: &mut Tunn, dst: &mut Vec<u8>) -> (outcome: TunnOutcome)
    requires
        old(dst).len() >= MIN_WG_BUFFER,
    ensures
        tunn_parameters(*final(tunn)) == tunn_parameters(*old(tunn)),
        tunn_calls(*final(tunn)) == tunn_calls(*old(tunn)).push(TunnCall::UpdateTimers(outcome@)),
        outcome_fits(outcome@, old(dst).len() as nat),
        is_timer_outcome(outcome@),
{
    match tunn.update_timers(&mut dst[..]) {
        TunnResult::Done => TunnOutcome::Done,
        TunnResult::Err(e) => TunnOutcome::Failed(format!("{:?}", e)),
        TunnResult::WriteToNetwork(p) => TunnOutcome::WriteToNetwork(p.to_vec()),
        TunnResult::WriteToTunnelV4(p, a) => TunnOutcome::WriteToTunnelV4(p.to_vec(), a.octets()),
        TunnResult::WriteToTunnelV6(p, a) => TunnOutcome::WriteToTunnelV6(p.to_vec(), a.octets()),
    }
}

/// The settings a tunnel is built with.
#[derive(Debug, Clone, Copy, PartialEq, Eq)]
pub struct TunnelSettings {
    pub preshared_key: Option<[u8; 32]>,
    pub persistent_keepalive: Option<u16>,
    pub index: u32,
}

/// No preshared key, a keepalive every second, and local index 100.
pub fn tunnel_settings() -> (s: TunnelSettings)
    ensures
        s.preshared_key is None,
        s.persistent_keepalive == Some(PERSISTENT_KEEPALIVE),
        s.index == TUNNEL_INDEX,
{
    TunnelSettings { preshared_key: None, persistent_keepalive: Some(PERSISTENT_KEEPALIVE), index: TUNNEL_INDEX }
}

/// The parameters of a tunnel built from the peer's public key and our
/// private key: our secret and the peer's point from those bytes, no
/// preshared key, a keepalive every second, local index 100, and the
/// tunnel's own default rate limiter.
pub open spec fn built_parameters(peer_public_key: Seq<u8>, private_key: Seq<u8>) -> TunnelParameters {
    TunnelParameters {
        secret: static_secret_of(private_key),
        peer: public_key_of(peer_public_key),
        preshared_key: None,
        persistent_keepalive: Some(PERSISTENT_KEEPALIVE),
        index: TUNNEL_INDEX,
        rate_limiter: None,
    }
}

/// The largest UDP payload, which bounds a datagram from the peer.
pub const MAX_DATAGRAM: usize = 65535;

/// The buffer a datagram of `len` bytes is decapsulated into.
pub open spec fn datagram_buffer_len(len: nat) -> nat {
    if len + 16 > TUNNEL_BUFFER { (len + 16) as nat } else { TUNNEL_BUFFER as nat }
}

/// A packet reaches the stack only as the decrypted payload that the tunnel
/// returned for the very datagram received, whatever its IP version; a
/// datagram that fails to decapsulate delivers nothing.
pub proof fn lemma_stack_gets_only_decrypted_payloads(
    before: TunnelView,
    after: TunnelView,
    datagram: Seq<u8>,
    action: ActionView,
)
    requires
        one_more_call(before, after, TunnCall::Decapsulate(datagram, last_outcome(after))),
        action == action_for(last_outcome(after)),
    ensures
        action matches ActionView::WriteToStack(p) ==> after.calls.last() matches TunnCall::Decapsulate(d, o)
            && d == datagram
            && (o == OutcomeView::WriteToTunnelV4(p, o->WriteToTunnelV4_1)
                || o == OutcomeView::WriteToTunnelV6(p, o->WriteToTunnelV6_1)),
        last_outcome(after) is Failed ==> !(action is WriteToStack) && !(action is SendToNetwork),
{
}

/// No IP packet from the stack goes to the network as it is: what is sent is
/// exactly what the tunnel returned for encapsulating that packet, the packet
/// with 32 bytes of header and tag or a handshake initiation.
pub proof fn lemma_no_plaintext_to_network(
    before: TunnelView,
    after: TunnelView,
    packet: Seq<u8>,
    action: ActionView,
)
    requires
        one_more_call(before, after, TunnCall::Encapsulate(packet, last_outcome(after))),
        is_encapsulation(last_outcome(after), packet.len()),
        action == action_for(last_outcome(after)),
    ensures
        action matches ActionView::SendToNetwork(p) ==> after.calls.last() == TunnCall::Encapsulate(packet, OutcomeView::WriteToNetwork(p))
            && (p.len() == packet.len() + WG_OVERHEAD || p.len() == MIN_WG_BUFFER),
        !(action is WriteToStack),
{
}

/// A WireGuard tunnel to one peer.
pub struct Tunnel {
    tunn: Tunn,
}

/// The abstract value of a tunnel: the keys and settings it was created
/// with, and every call made on it with its result.
pub struct TunnelView {
    pub parameters: TunnelParameters,
    pub calls: Seq<TunnCall>,
}

impl View for Tunnel {
    type V = TunnelView;

    closed spec fn view(&self) -> TunnelView {
        TunnelView { parameters: tunn_parameters(self.tunn), calls: tunn_calls(self.tunn) }
    }
}

/// `after` is `before` with one more call, `call`, and the same parameters.
pub open spec fn one_more_call(before: TunnelView, after: TunnelView, call: TunnCall) -> bool {
    &&& after.parameters == before.parameters
    &&& after.calls == before.calls.push(call)
}

/// The result of the last call made on a tunnel.
pub open spec fn last_outcome(t: TunnelView) -> OutcomeView {
    t.calls.last().outcome()
}

/// What became of a datagram from the peer.
#[derive(Debug)]
pub struct DatagramStep {
    /// What the device does with the result.
    pub action: TunnelAction,
    /// Whether queued packets are to be drained next.
    pub drain: bool,
}

impl Tunnel {
    /// Builds the tunnel from our private key and the peer's public key, with
    /// the [`tunnel_settings`] and its own default rate limiter: it authenticates with our secret to the
    /// peer's key, and no call has been made on it.
    pub fn build_tunnel(peer_public_key: [u8; 32], private_key: [u8; 32]) -> (t: Tunnel)
        ensures
            t@.parameters == built_parameters(peer_public_key@, private_key@),
            t@.parameters.secret == static_secret_of(private_key@),
            t@.parameters.peer == public_key_of(peer_public_key@),
            t@.parameters.preshared_key is None,
            t@.parameters.persistent_keepalive == Some(1u16),
            t@.parameters.index == 100,
            t@.parameters.rate_limiter is None,
            t@.calls == Seq::<TunnCall>::empty(),
    {
        let settings = tunnel_settings();
        let secret = static_secret_from(private_key);
        let peer = public_key_from(peer_public_key);
        match tunn_new(secret, peer, settings.preshared_key, settings.persistent_keepalive, settings.index, None) {
            Ok(tunn) => Tunnel { tunn },
            Err(_) => vstd::pervasive::unreached(),
        }
    }

    /// Handles a datagram received from the peer: decapsulates exactly it,
    /// and does what the result asks. More decapsulation is asked for exactly
    /// when the tunnel answered with a datagram for the network.
    pub fn receive_datagram(&mut self, datagram: &[u8]) -> (step: DatagramStep)
        requires
            datagram.len() <= MAX_DATAGRAM,
        ensures
            one_more_call(old(self)@, final(self)@, TunnCall::Decapsulate(datagram@, last_outcome(final(self)@))),
            step.action@ == action_for(last_outcome(final(self)@)),
            step.drain <==> last_outcome(final(self)@) is WriteToNetwork,
            last_outcome(final(self)@) matches OutcomeView::WriteToNetwork(p) ==> step.action@ == ActionView::SendToNetwork(p),
            action_fits(step.action@, datagram_buffer_len(datagram@.len())),
    {
        let len = if datagram.len() + 16 > TUNNEL_BUFFER { datagram.len() + 16 } else { TUNNEL_BUFFER };
        let mut dst = vec![0u8; len];
        let outcome = tunn_decapsulate(&mut self.tunn, datagram, &mut dst);
        proof { lemma_handler_keeps_sizes(outcome@, len as nat); }
        let drain = requires_more_decapsulation(&outcome);
        let action = handle_tunnel_result(outcome);
        DatagramStep { action, drain }
    }

    /// Asks the tunnel for its next queued datagram, by decapsulating an
    /// empty one: `Some` when it writes to the network, `None` once it
    /// answers anything else.
    pub fn next_queued(&mut self) -> (packet: Option<Vec<u8>>)
        ensures
            one_more_call(old(self)@, final(self)@, TunnCall::Decapsulate(Seq::<u8>::empty(), last_outcome(final(self)@))),
            packet_view(packet) == packet_for_network(last_outcome(final(self)@)),
            last_outcome(final(self)@) matches OutcomeView::WriteToNetwork(p) ==> packet_view(packet) == Some(p),
            !(last_outcome(final(self)@) is WriteToNetwork) ==> packet is None,
            is_drain_outcome(last_outcome(final(self)@)),
            packet matches Some(p) ==> WG_OVERHEAD <= p@.len() <= TUNNEL_BUFFER,
    {
        let mut dst = vec![0u8; TUNNEL_BUFFER];
        let empty: [u8; 0] = [];
        let outcome = tunn_decapsulate(&mut self.tunn, &empty, &mut dst);
        proof { assert(empty@ =~= Seq::<u8>::empty()); }
        network_packet(outcome)
    }

    /// Hands an IP packet from the stack to the tunnel: encapsulates exactly
    /// it, and does what the result asks. What goes to the network is the
    /// encrypted packet or a handshake initiation; nothing is ever written
    /// back to the stack.
    pub fn send_ip_packet(&mut self, packet: &[u8]) -> (action: TunnelAction)
        requires
            packet.len() <= MAX_IP_PACKET,
        ensures
            one_more_call(old(self)@, final(self)@, TunnCall::Encapsulate(packet@, last_outcome(final(self)@))),
            action@ == action_for(last_outcome(final(self)@)),
            last_outcome(final(self)@) matches OutcomeView::WriteToNetwork(p) ==> action@ == ActionView::SendToNetwork(p),
            action_fits(action@, TUNNEL_BUFFER as nat),
            !(action@ is WriteToStack),
            action@ matches ActionView::SendToNetwork(p) ==>
                p.len() == packet@.len() + WG_OVERHEAD || p.len() == MIN_WG_BUFFER,
    {
        let mut dst = vec![0u8; TUNNEL_BUFFER];
        let outcome = tunn_encapsulate(&mut self.tunn, packet, &mut dst);
        proof { lemma_handler_keeps_sizes(outcome@, TUNNEL_BUFFER as nat); }
        handle_tunnel_result(outcome)
    }

    /// Lets the tunnel's timers run: `Some` datagram when a handshake or a
    /// keepalive is due.
    pub fn tick_timers(&mut self) -> (packet: Option<Vec<u8>>)
        ensures
            one_more_call(old(self)@, final(self)@, TunnCall::UpdateTimers(last_outcome(final(self)@))),
            packet_view(packet) == packet_for_network(last_outcome(final(self)@)),
            last_outcome(final(self)@) matches OutcomeView::WriteToNetwork(p) ==> packet_view(packet) == Some(p),
            !(last_outcome(final(self)@) is WriteToNetwork) ==> packet is None,
            packet matches Some(p) ==> p@.len() == WG_OVERHEAD || p@.len() == MIN_WG_BUFFER,
    {
        let mut dst = vec![0u8; TUNNEL_BUFFER];
        let outcome = tunn_update_timers(&mut self.tunn, &mut dst);
        network_packet(outcome)
    }
}

} // verus!
