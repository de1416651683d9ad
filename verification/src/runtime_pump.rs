//! The WARP Connection runtime's packet pump: outbound IP packets queued on the
//! runtime stack (a `smoltcp` loopback device and interface) are encapsulated by
//! the packet engine and sent to the peer; inbound WireGuard packets are
//! decapsulated and delivered to the stack. The engine is either the fake engine
//! of tests, which hands packets through unchanged, or a `boringtun` tunnel.
use vstd::prelude::*;

use std::collections::VecDeque;

use boringtun::noise::{Tunn, TunnResult};
use smoltcp::iface::{Config as StackConfig, Interface, SocketSet};
use smoltcp::phy::{Device, Loopback, Medium, RxToken, TxToken};
use smoltcp::time::Instant as StackInstant;
use smoltcp::wire::{HardwareAddress, IpAddress as StackAddress, IpCidr};

use crate::config::IpAddress;
use crate::data_plane::{BoringTunRuntimeConfig, networks_view};
use crate::text::{
    chars_of, has_prefix, is_blank, push_all, push_str, split_whitespace, starts_with,
    string_from_chars, trim_seq, ws_tokens,
};

verus! {

#[verifier::external_type_specification]
#[verifier::external_body]
pub struct ExTunn(Tunn);

#[verifier::external_type_specification]
#[verifier::external_body]
pub struct ExLoopback(Loopback);

#[verifier::external_type_specification]
#[verifier::external_body]
pub struct ExInterface(Interface);

#[verifier::external_type_specification]
#[verifier::external_body]
pub struct ExStackAddress(StackAddress);

/// The packets waiting in a loopback device, oldest first.
pub uninterp spec fn loopback_queue(device: Loopback) -> Seq<Seq<u8>>;

/// Whether a loopback device was made for the IP medium.
pub uninterp spec fn loopback_is_ip(device: Loopback) -> bool;

/// The IP packets a tunnel holds back until it has a session, oldest first.
pub uninterp spec fn tunnel_queue(tunnel: Tunn) -> Seq<Seq<u8>>;

/// Where the runtime is in its lifecycle.
#[derive(Debug, Clone, Copy, PartialEq, Eq, Structural)]
pub enum RuntimeLifecycleState {
    Stopped,
    Running,
    Failed,
}

/// What the runtime's transport saw.
#[derive(Debug, Clone, PartialEq, Eq)]
pub enum RuntimeTransportEvent {
    SentToPeer(Vec<u8>),
    DeliveredToStack(Vec<u8>),
}

/// A transport event as values.
pub enum EventView {
    SentToPeer(Seq<u8>),
    DeliveredToStack(Seq<u8>),
}

/// How many packets one pump moved each way.
#[derive(Debug, Clone, Copy, PartialEq, Eq, Structural)]
pub struct RuntimePumpReport {
    pub outbound_packets: usize,
    pub inbound_packets: usize,
}

/// Why the runtime refused or failed an operation.
#[derive(Debug, Clone, PartialEq, Eq)]
pub enum RuntimePacketPumpError {
    AlreadyRunning,
    NotRunning,
    TransportFailed(String),
    PacketEngineFailed(String),
}

/// What a packet engine produced for one packet.
pub enum PacketEngineOutput {
    Network(Vec<u8>),
    Tunnel(Vec<u8>),
    Done,
    Failed(String),
}

/// The engine that encapsulates and decapsulates packets.
pub enum RuntimePacketEngine {
    Fake,
    BoringTun(TunnelEngine),
}

/// A `boringtun` tunnel with a bound on the length of the packets it holds back.
pub struct TunnelEngine {
    tunnel: Box<Tunn>,
    held_back_bound: usize,
}

/// The runtime's user-space stack: a loopback device, its interface, and the
/// packets delivered to it.
pub struct RuntimeStack {
    interface: Interface,
    device: Loopback,
    delivered_packets: Vec<Vec<u8>>,
}

/// The transport of the runtime, which records what it carries and can be told
/// to fail its next send.
pub struct TestRuntimeTransport {
    events: Vec<RuntimeTransportEvent>,
    fail_next_send: Option<String>,
}

/// A WARP Connection runtime that pumps packets between its stack and its peer.
pub struct RuntimePacketPump {
    runtime_config: BoringTunRuntimeConfig,
    lifecycle_state: RuntimeLifecycleState,
    packet_engine: RuntimePacketEngine,
    stack: RuntimeStack,
    transport: TestRuntimeTransport,
    inbound_wireguard_packets: VecDeque<Vec<u8>>,
    last_error: Option<String>,
}

/// An interface address the stack takes: not IPv4 multicast or broadcast, not
/// IPv6 multicast.
pub open spec fn stack_address_ok(a: IpAddress) -> bool {
    match a {
        IpAddress::V4(a0, a1, a2, a3) => !(224 <= a0 <= 239) && !(a0 == 255 && a1 == 255 && a2
            == 255 && a3 == 255),
        IpAddress::V6(g0, _, _, _, _, _, _, _) => g0 < 0xff00,
    }
}

/// A prefix length within its address family.
pub open spec fn prefix_ok(n: (IpAddress, u8)) -> bool {
    match n.0 {
        IpAddress::V4(..) => n.1 <= 32,
        IpAddress::V6(..) => n.1 <= 128,
    }
}

/// Interface addresses the runtime stack can be built with: every prefix within
/// its family, and the addresses the interface keeps (its first two) acceptable.
pub open spec fn stack_accepts(ns: Seq<(IpAddress, u8)>) -> bool {
    &&& forall|i: int| 0 <= i < ns.len() ==> prefix_ok(#[trigger] ns[i])
    &&& forall|i: int| 0 <= i < ns.len() && i < 2 ==> stack_address_ok((#[trigger] ns[i]).0)
}

/// A runtime configuration the runtime stack can be built for.
pub open spec fn config_accepted(c: BoringTunRuntimeConfig) -> bool {
    stack_accepts(networks_view(c.spec_interface_addresses()))
}

/// Creates a loopback device for the IP medium (`Loopback::new`); its queue is
/// empty.
#[verifier::external_body]
fn new_loopback() -> (r: Loopback)
    ensures
        loopback_queue(r) == Seq::<Seq<u8>>::empty(),
        loopback_is_ip(r),
{
    Loopback::new(Medium::Ip)
}

/// Sends a packet into a loopback device (`Device::transmit`, then
/// `TxToken::consume` with a buffer of the packet's length): a copy of the packet
/// joins the back of the queue.
#[verifier::external_body]
fn loopback_transmit(device: &mut Loopback, packet: &[u8])
    ensures
        loopback_queue(*final(device)) == loopback_queue(*old(device)).push(packet@),
        loopback_is_ip(*final(device)) == loopback_is_ip(*old(device)),
{
    if let Some(token) = device.transmit(StackInstant::ZERO) {
        token.consume(packet.len(), |buffer| buffer.copy_from_slice(packet));
    }
}

/// Takes the oldest packet out of a loopback device (`Device::receive`, then
/// `RxToken::consume`), or nothing when its queue is empty.
#[verifier::external_body]
fn loopback_receive(device: &mut Loopback) -> (r: Option<Vec<u8>>)
    ensures
        loopback_is_ip(*final(device)) == loopback_is_ip(*old(device)),
        loopback_queue(*old(device)).len() == 0 ==> r is None && loopback_queue(*final(device))
            == loopback_queue(*old(device)),
        loopback_queue(*old(device)).len() > 0 ==> (r matches Some(p) && p@ == loopback_queue(
            *old(device),
        )[0] && loopback_queue(*final(device)) == loopback_queue(*old(device)).drop_first()),
{
    match device.receive(StackInstant::ZERO) {
        Some((rx, _tx)) => Some(rx.consume(|buffer| buffer.to_vec())),
        None => None,
    }
}

/// The `smoltcp` form of an address (`IpAddress::v4` or `IpAddress::v6`).
#[verifier::external_body]
fn to_stack_address(address: IpAddress) -> (r: StackAddress) {
    match address {
        IpAddress::V4(a, b, c, d) => StackAddress::v4(a, b, c, d),
        IpAddress::V6(a, b, c, d, e, f, g, h) => StackAddress::v6(a, b, c, d, e, f, g, h),
    }
}

/// Creates the stack's interface on an IP loopback device (`Interface::new` with
/// an IP hardware address at time zero) and gives it the interface addresses
/// (`Interface::update_ip_addrs` with `IpCidr::new`; the interface keeps as many
/// as its capacity of two allows). The device's queue is left as it was.
#[verifier::external_body]
fn new_stack_interface(device: &mut Loopback, addresses: &Vec<(IpAddress, u8)>) -> (r: Interface)
    requires
        loopback_is_ip(*old(device)),
        stack_accepts(addresses@),
    ensures
        loopback_queue(*final(device)) == loopback_queue(*old(device)),
        loopback_is_ip(*final(device)),
{
    let mut interface = Interface::new(StackConfig::new(HardwareAddress::Ip), device, StackInstant::ZERO);
    interface.update_ip_addrs(|stored| {
        for (address, prefix_len) in addresses.iter() {
            let _ = stored.push(IpCidr::new(to_stack_address(*address), *prefix_len));
        }
    });
    interface
}

/// Lets the stack's interface process its device once (`Interface::poll` at time
/// zero with no sockets). The device stays an IP device; what the interface
/// takes from or adds to its queue is not stated.
#[verifier::external_body]
fn poll_interface(interface: &mut Interface, device: &mut Loopback)
    ensures
        loopback_is_ip(*final(device)) == loopback_is_ip(*old(device)),
{
    let mut sockets = SocketSet::new(Vec::new());
    let _ = interface.poll(StackInstant::ZERO, device, &mut sockets);
}

/// Creates a `boringtun` tunnel (`Tunn::new`) for a private key and the peer's
/// public key, with no preshared key, no keepalive, index 0 and no rate limiter;
/// it holds no packets back.
#[verifier::external_body]
fn new_tunnel(private_key: [u8; 32], peer_public_key: [u8; 32]) -> (r: Box<Tunn>)
    ensures
        tunnel_queue(*r) == Seq::<Seq<u8>>::empty(),
{
    Box::new(
        Tunn::new(
            boringtun::x25519::StaticSecret::from(private_key),
            boringtun::x25519::PublicKey::from(peer_public_key),
            None,
            None,
            0,
            None,
        ),
    )
}

/// Encapsulates an outbound IP packet with `Tunn::encapsulate` into a buffer of
/// `dst_len` bytes. What the tunnel produces depends on its session state and is
/// not stated; without a session the tunnel may hold the packet back, and it
/// holds back nothing else.
#[verifier::external_body]
fn tunnel_encapsulate(tunnel: &mut Box<Tunn>, packet: &[u8], dst_len: usize) -> (r: PacketEngineOutput)
    requires
        dst_len >= 2048,
        dst_len >= packet.len() + 256,
    ensures
        forall|p: Seq<u8>|
            #[trigger] tunnel_queue(**final(tunnel)).contains(p) ==> tunnel_queue(
                **old(tunnel),
            ).contains(p) || p == packet@,
{
    let mut dst = vec![0u8; dst_len];
    match tunnel.encapsulate(packet, &mut dst) {
        TunnResult::WriteToNetwork(datagram) => PacketEngineOutput::Network(datagram.to_vec()),
        TunnResult::Done => PacketEngineOutput::Done,
        TunnResult::Err(error) => PacketEngineOutput::Failed(format!("{error:?}")),
        TunnResult::WriteToTunnelV4(packet, _) => PacketEngineOutput::Tunnel(packet.to_vec()),
        TunnResult::WriteToTunnelV6(packet, _) => PacketEngineOutput::Tunnel(packet.to_vec()),
    }
}

/// Decapsulates an inbound WireGuard packet with `Tunn::decapsulate` (no source
/// address) into a buffer of `dst_len` bytes. An empty packet makes the tunnel
/// encapsulate its oldest held-back packet into the buffer, so the buffer must
/// then have room for every held-back packet and the 32 bytes around it. What the
/// tunnel produces depends on its session state and is not stated; it holds back
/// no packet it did not hold before.
#[verifier::external_body]
fn tunnel_decapsulate(tunnel: &mut Box<Tunn>, packet: &[u8], dst_len: usize) -> (r: PacketEngineOutput)
    requires
        dst_len >= 2048,
        dst_len >= packet.len() + 256,
        packet.len() == 0 ==> forall|p: Seq<u8>|
            #[trigger] tunnel_queue(**old(tunnel)).contains(p) ==> dst_len >= p.len() + 32,
    ensures
        forall|p: Seq<u8>|
            #[trigger] tunnel_queue(**final(tunnel)).contains(p) ==> tunnel_queue(
                **old(tunnel),
            ).contains(p),
{
    let mut dst = vec![0u8; dst_len];
    match tunnel.decapsulate(None, packet, &mut dst) {
        TunnResult::WriteToNetwork(datagram) => PacketEngineOutput::Network(datagram.to_vec()),
        TunnResult::Done => PacketEngineOutput::Done,
        TunnResult::Err(error) => PacketEngineOutput::Failed(format!("{error:?}")),
        TunnResult::WriteToTunnelV4(packet, _) => PacketEngineOutput::Tunnel(packet.to_vec()),
        TunnResult::WriteToTunnelV6(packet, _) => PacketEngineOutput::Tunnel(packet.to_vec()),
    }
}

/// The text of a transport failure reason with key material hidden: a blank
/// reason becomes `operation failed`; otherwise each white-space separated token
/// that assigns `private_key=` or `peer_public_key=` becomes `[redacted]`, and the
/// tokens are joined by single spaces.
pub open spec fn redacted_token(t: Seq<char>) -> Seq<char> {
    if has_prefix(t, "private_key="@) || has_prefix(t, "peer_public_key="@) {
        "[redacted]"@
    } else {
        t
    }
}

/// Tokens joined by single spaces.
pub open spec fn joined_with_spaces(ts: Seq<Seq<char>>) -> Seq<char>
    decreases ts.len(),
{
    if ts.len() == 0 {
        seq![]
    } else if ts.len() == 1 {
        ts[0]
    } else {
        joined_with_spaces(ts.drop_last()) + seq![' '] + ts.last()
    }
}

/// A transport failure reason with key material hidden.
pub open spec fn redacted_transport_text(v: Seq<char>) -> Seq<char> {
    if trim_seq(v).len() == 0 {
        "operation failed"@
    } else {
        joined_with_spaces(ws_tokens(v).map_values(|t: Seq<char>| redacted_token(t)))
    }
}

/// Hides key material in a transport failure reason.
pub fn redact_sensitive_text(value: &str) -> (r: String)
    ensures
        r@ == redacted_transport_text(value@),
{
    if is_blank(value) {
        return String::from_str("operation failed");
    }
    let tokens = split_whitespace(&chars_of(value));
    let ghost views = tokens@.map_values(|t: Vec<char>| t@);
    let ghost mapped = ws_tokens(value@).map_values(|t: Seq<char>| redacted_token(t));
    assert(views == ws_tokens(value@));
    let private_prefix = chars_of("private_key=");
    let public_prefix = chars_of("peer_public_key=");
    let redacted = chars_of("[redacted]");
    let mut out: Vec<char> = Vec::new();
    let mut i: usize = 0;
    while i < tokens.len()
        invariant
            i <= tokens.len(),
            views == tokens@.map_values(|t: Vec<char>| t@),
            views == ws_tokens(value@),
            mapped == ws_tokens(value@).map_values(|t: Seq<char>| redacted_token(t)),
            private_prefix@ == "private_key="@,
            public_prefix@ == "peer_public_key="@,
            redacted@ == "[redacted]"@,
            out@ == joined_with_spaces(mapped.take(i as int)),
        decreases tokens.len() - i,
    {
        proof {
            let t = mapped.take(i + 1);
            assert(t.drop_last() =~= mapped.take(i as int));
            assert(t.last() == redacted_token(views[i as int]));
        }
        if i > 0 {
            out.push(' ');
        }
        if starts_with(&tokens[i], &private_prefix) || starts_with(&tokens[i], &public_prefix) {
            push_all(&mut out, &redacted);
        } else {
            push_all(&mut out, &tokens[i]);
        }
        proof {
            let t = mapped.take(i + 1);
            if i == 0 {
                assert(t.len() == 1);
                assert(out@ =~= t[0]);
            } else {
                assert(out@ =~= joined_with_spaces(t.drop_last()) + seq![' '] + t.last());
            }
        }
        i = i + 1;
    }
    assert(mapped.take(tokens.len() as int) =~= mapped);
    string_from_chars(&out)
}

/// The text a pump error displays.
pub open spec fn pump_error_text(e: RuntimePacketPumpError) -> Seq<char> {
    match e {
        RuntimePacketPumpError::AlreadyRunning => "WARP Connection runtime is already running"@,
        RuntimePacketPumpError::NotRunning => "WARP Connection runtime is not running"@,
        RuntimePacketPumpError::TransportFailed(reason) => "WARP Connection runtime transport failed: "@
            + reason@,
        RuntimePacketPumpError::PacketEngineFailed(reason) =>
            "WARP Connection runtime packet engine failed: "@ + reason@,
    }
}

impl RuntimePacketPumpError {
    /// The human-readable message of the error.
    pub fn message(&self) -> (r: String)
        ensures
            r@ == pump_error_text(*self),
    {
        match self {
            RuntimePacketPumpError::AlreadyRunning => String::from_str(
                "WARP Connection runtime is already running",
            ),
            RuntimePacketPumpError::NotRunning => String::from_str(
                "WARP Connection runtime is not running",
            ),
            RuntimePacketPumpError::TransportFailed(reason) => {
                let mut m: Vec<char> = Vec::new();
                push_str(&mut m, "WARP Connection runtime transport failed: ");
                push_str(&mut m, reason.as_str());
                string_from_chars(&m)
            },
            RuntimePacketPumpError::PacketEngineFailed(reason) => {
                let mut m: Vec<char> = Vec::new();
                push_str(&mut m, "WARP Connection runtime packet engine failed: ");
                push_str(&mut m, reason.as_str());
                string_from_chars(&m)
            },
        }
    }
}

/// An event as values.
pub open spec fn event_view(e: RuntimeTransportEvent) -> EventView {
    match e {
        RuntimeTransportEvent::SentToPeer(p) => EventView::SentToPeer(p@),
        RuntimeTransportEvent::DeliveredToStack(p) => EventView::DeliveredToStack(p@),
    }
}

/// Events as values.
pub open spec fn events_view(v: Seq<RuntimeTransportEvent>) -> Seq<EventView> {
    v.map_values(|e: RuntimeTransportEvent| event_view(e))
}

/// Packets as values.
pub open spec fn packets_view(v: Seq<Vec<u8>>) -> Seq<Seq<u8>> {
    v.map_values(|p: Vec<u8>| p@)
}

/// The events of packets sent to the peer unchanged.
pub open spec fn sent_events(ps: Seq<Seq<u8>>) -> Seq<EventView> {
    ps.map_values(|p: Seq<u8>| EventView::SentToPeer(p))
}

/// The events of packets delivered to the stack unchanged.
pub open spec fn delivered_events(ps: Seq<Seq<u8>>) -> Seq<EventView> {
    ps.map_values(|p: Seq<u8>| EventView::DeliveredToStack(p))
}

/// A copy of a packet.
fn copy_bytes(packet: &[u8]) -> (r: Vec<u8>)
    ensures
        r@ == packet@,
{
    let mut r: Vec<u8> = Vec::new();
    let mut i: usize = 0;
    while i < packet.len()
        invariant
            i <= packet.len(),
            r@ == packet@.take(i as int),
        decreases packet.len() - i,
    {
        r.push(packet[i]);
        i = i + 1;
        assert(r@ =~= packet@.take(i as int));
    }
    assert(packet@.take(packet.len() as int) =~= packet@);
    r
}

/// The buffer a packet engine writes into for a packet of `n` bytes: 256 bytes
/// more than the packet, and at least 2048.
fn engine_buffer_len(n: usize) -> (r: Option<usize>)
    ensures
        match r {
            Some(len) => len >= 2048 && len >= n + 256 && (len == n + 256 || len == 2048),
            None => n + 256 > usize::MAX,
        },
{
    if n > usize::MAX - 256 {
        None
    } else if n + 256 < 2048 {
        Some(2048)
    } else {
        Some(n + 256)
    }
}

impl RuntimePacketEngine {
    /// The engine hands packets through unchanged.
    pub open spec fn is_fake(self) -> bool {
        self is Fake
    }

    /// A tunnel engine keeps its held-back packets within its bound.
    pub open spec fn wf(self) -> bool {
        self matches RuntimePacketEngine::BoringTun(engine) ==> engine.wf()
    }

    fn encapsulate(&mut self, packet: &[u8]) -> (r: Result<Vec<u8>, RuntimePacketPumpError>)
        requires
            old(self).wf(),
        ensures
            final(self).wf(),
            final(self).is_fake() == old(self).is_fake(),
            r matches Err(e) ==> e is PacketEngineFailed,
            old(self).is_fake() ==> (r matches Ok(p) && p@ == packet@),
    {
        match self {
            RuntimePacketEngine::Fake => Ok(copy_bytes(packet)),
            RuntimePacketEngine::BoringTun(engine) => engine.encapsulate(packet),
        }
    }

    fn decapsulate(&mut self, packet: &[u8]) -> (r: Result<Vec<u8>, RuntimePacketPumpError>)
        requires
            old(self).wf(),
        ensures
            final(self).wf(),
            final(self).is_fake() == old(self).is_fake(),
            r matches Err(e) ==> e is PacketEngineFailed,
            old(self).is_fake() ==> (r matches Ok(p) && p@ == packet@),
    {
        match self {
            RuntimePacketEngine::Fake => Ok(copy_bytes(packet)),
            RuntimePacketEngine::BoringTun(engine) => engine.decapsulate(packet),
        }
    }
}

impl TunnelEngine {
    /// Every packet the tunnel holds back is within the bound.
    pub closed spec fn wf(self) -> bool {
        forall|p: Seq<u8>|
            #[trigger] tunnel_queue(*self.tunnel).contains(p) ==> p.len() <= self.held_back_bound
    }

    fn new(tunnel: Box<Tunn>) -> (r: Self)
        requires
            tunnel_queue(*tunnel) == Seq::<Seq<u8>>::empty(),
        ensures
            r.wf(),
    {
        TunnelEngine { tunnel, held_back_bound: 0 }
    }

    fn encapsulate(&mut self, packet: &[u8]) -> (r: Result<Vec<u8>, RuntimePacketPumpError>)
        requires
            old(self).wf(),
        ensures
            final(self).wf(),
            r matches Err(e) ==> e is PacketEngineFailed,
    {
        let dst_len = match engine_buffer_len(packet.len()) {
            Some(n) => n,
            None => {
                return Err(
                    RuntimePacketPumpError::PacketEngineFailed(
                        String::from_str("packet is too large for the packet engine"),
                    ),
                );
            },
        };
        if packet.len() > self.held_back_bound {
            self.held_back_bound = packet.len();
        }
        match tunnel_encapsulate(&mut self.tunnel, packet, dst_len) {
            PacketEngineOutput::Network(datagram) => Ok(datagram),
            PacketEngineOutput::Done => Ok(Vec::new()),
            PacketEngineOutput::Failed(reason) => Err(
                RuntimePacketPumpError::PacketEngineFailed(reason),
            ),
            PacketEngineOutput::Tunnel(_) => Err(
                RuntimePacketPumpError::PacketEngineFailed(
                    String::from_str(
                        "unexpected tunnel packet while encapsulating outbound IP packet",
                    ),
                ),
            ),
        }
    }

    /// An empty packet asks the tunnel for its oldest held-back packet, so the
    /// buffer then has room for the longest packet it may hold back.
    fn decapsulate(&mut self, packet: &[u8]) -> (r: Result<Vec<u8>, RuntimePacketPumpError>)
        requires
            old(self).wf(),
        ensures
            final(self).wf(),
            r matches Err(e) ==> e is PacketEngineFailed,
    {
        let needed = if packet.len() == 0 {
            self.held_back_bound
        } else {
            packet.len()
        };
        let dst_len = match engine_buffer_len(needed) {
            Some(n) => n,
            None => {
                return Err(
                    RuntimePacketPumpError::PacketEngineFailed(
                        String::from_str("packet is too large for the packet engine"),
                    ),
                );
            },
        };
        match tunnel_decapsulate(&mut self.tunnel, packet, dst_len) {
            PacketEngineOutput::Tunnel(ip_packet) => Ok(ip_packet),
            PacketEngineOutput::Done => Ok(Vec::new()),
            PacketEngineOutput::Failed(reason) => Err(
                RuntimePacketPumpError::PacketEngineFailed(reason),
            ),
            PacketEngineOutput::Network(datagram) => Ok(datagram),
        }
    }
}

impl RuntimeStack {
    /// Packets waiting on the device, oldest first.
    pub closed spec fn spec_queue(self) -> Seq<Seq<u8>> {
        loopback_queue(self.device)
    }

    /// Packets delivered to the stack.
    pub closed spec fn spec_delivered(self) -> Seq<Seq<u8>> {
        packets_view(self.delivered_packets@)
    }

    /// The device is an IP loopback device.
    pub closed spec fn wf(self) -> bool {
        loopback_is_ip(self.device)
    }

    fn new(addresses: &Vec<(IpAddress, u8)>) -> (r: Self)
        requires
            stack_accepts(addresses@),
        ensures
            r.wf(),
            r.spec_queue() == Seq::<Seq<u8>>::empty(),
            r.spec_delivered() == Seq::<Seq<u8>>::empty(),
    {
        let mut device = new_loopback();
        let interface = new_stack_interface(&mut device, addresses);
        let r = RuntimeStack { interface, device, delivered_packets: Vec::new() };
        assert(r.spec_delivered() =~= Seq::<Seq<u8>>::empty());
        r
    }

    fn queue_outbound_packet(&mut self, packet: &[u8])
        requires
            old(self).wf(),
        ensures
            final(self).wf(),
            final(self).spec_queue() == old(self).spec_queue().push(packet@),
            final(self).spec_delivered() == old(self).spec_delivered(),
    {
        loopback_transmit(&mut self.device, packet);
    }

    fn next_outbound_packet(&mut self) -> (r: Option<Vec<u8>>)
        requires
            old(self).wf(),
        ensures
            final(self).wf(),
            final(self).spec_delivered() == old(self).spec_delivered(),
            old(self).spec_queue().len() == 0 ==> r is None && final(self).spec_queue() == old(
                self,
            ).spec_queue(),
            old(self).spec_queue().len() > 0 ==> (r matches Some(p) && p@ == old(
                self,
            ).spec_queue()[0] && final(self).spec_queue() == old(self).spec_queue().drop_first()),
    {
        loopback_receive(&mut self.device)
    }

    fn deliver_from_wireguard(&mut self, packet: &[u8])
        requires
            old(self).wf(),
        ensures
            final(self).wf(),
            final(self).spec_delivered() == old(self).spec_delivered().push(
                old(self).spec_queue().push(packet@)[0],
            ),
    {
        let ghost before = self.spec_delivered();
        loopback_transmit(&mut self.device, packet);
        match loopback_receive(&mut self.device) {
            Some(received) => {
                self.delivered_packets.push(received);
            },
            None => {},
        }
        poll_interface(&mut self.interface, &mut self.device);
        assert(self.spec_delivered() =~= before.push(
            old(self).spec_queue().push(packet@)[0],
        ));
    }
}

impl TestRuntimeTransport {
    fn new() -> (r: Self)
        ensures
            events_view(r.events@) == Seq::<EventView>::empty(),
            r.fail_next_send is None,
    {
        let r = TestRuntimeTransport { events: Vec::new(), fail_next_send: None };
        assert(events_view(r.events@) =~= Seq::<EventView>::empty());
        r
    }

    fn send_to_peer(&mut self, packet: Vec<u8>) -> (r: Result<(), RuntimePacketPumpError>)
        ensures
            final(self).fail_next_send is None,
            match old(self).fail_next_send {
                Some(reason) => {
                    &&& r matches Err(RuntimePacketPumpError::TransportFailed(m)) && m@
                        == redacted_transport_text(reason@)
                    &&& events_view(final(self).events@) == events_view(old(self).events@)
                },
                None => {
                    &&& r is Ok
                    &&& events_view(final(self).events@) == events_view(old(self).events@).push(
                        EventView::SentToPeer(packet@),
                    )
                },
            },
    {
        match self.fail_next_send.take() {
            Some(reason) => Err(
                RuntimePacketPumpError::TransportFailed(redact_sensitive_text(reason.as_str())),
            ),
            None => {
                let ghost before = events_view(self.events@);
                let ghost p = packet@;
                self.events.push(RuntimeTransportEvent::SentToPeer(packet));
                assert(events_view(self.events@) =~= before.push(EventView::SentToPeer(p)));
                Ok(())
            },
        }
    }

    fn deliver_to_stack(&mut self, packet: Vec<u8>)
        ensures
            final(self).fail_next_send == old(self).fail_next_send,
            events_view(final(self).events@) == events_view(old(self).events@).push(
                EventView::DeliveredToStack(packet@),
            ),
    {
        let ghost before = events_view(self.events@);
        let ghost p = packet@;
        self.events.push(RuntimeTransportEvent::DeliveredToStack(packet));
        assert(events_view(self.events@) =~= before.push(EventView::DeliveredToStack(p)));
    }
}

/// The count of a queue that fits in a `usize`, else the largest `usize`.
pub open spec fn saturated_count(n: nat) -> usize {
    if n <= usize::MAX {
        n as usize
    } else {
        usize::MAX
    }
}

/// The text of a lifecycle state.
pub open spec fn lifecycle_text(s: RuntimeLifecycleState) -> Seq<char> {
    match s {
        RuntimeLifecycleState::Stopped => "stopped"@,
        RuntimeLifecycleState::Running => "running"@,
        RuntimeLifecycleState::Failed => "failed"@,
    }
}

/// The interface addresses of a configuration as addresses and prefix lengths.
fn network_pairs(config: &BoringTunRuntimeConfig) -> (r: Vec<(IpAddress, u8)>)
    ensures
        r@ == networks_view(config.spec_interface_addresses()),
{
    let networks = config.interface_addresses();
    let mut r: Vec<(IpAddress, u8)> = Vec::new();
    let mut i: usize = 0;
    while i < networks.len()
        invariant
            i <= networks.len(),
            networks@ == config.spec_interface_addresses(),
            r@ == networks_view(networks@.take(i as int)),
        decreases networks.len() - i,
    {
        r.push((networks[i].address(), networks[i].prefix_len()));
        i = i + 1;
        assert(r@ =~= networks_view(networks@.take(i as int)));
    }
    assert(networks@.take(networks.len() as int) =~= networks@);
    r
}

fn address_accepted(a: IpAddress) -> (r: bool)
    ensures
        r == stack_address_ok(a),
{
    match a {
        IpAddress::V4(a0, a1, a2, a3) => !(224 <= a0 && a0 <= 239) && !(a0 == 255 && a1 == 255
            && a2 == 255 && a3 == 255),
        IpAddress::V6(g0, _, _, _, _, _, _, _) => g0 < 0xff00,
    }
}

fn prefix_accepted(n: (IpAddress, u8)) -> (r: bool)
    ensures
        r == prefix_ok(n),
{
    match n.0 {
        IpAddress::V4(..) => n.1 <= 32,
        IpAddress::V6(..) => n.1 <= 128,
    }
}

/// Whether the runtime stack can be built for a configuration's interface
/// addresses.
pub fn runtime_stack_accepts(config: &BoringTunRuntimeConfig) -> (r: bool)
    ensures
        r == config_accepted(*config),
{
    let pairs = network_pairs(config);
    let mut i: usize = 0;
    while i < pairs.len()
        invariant
            i <= pairs.len(),
            pairs@ == networks_view(config.spec_interface_addresses()),
            forall|k: int| 0 <= k < i ==> prefix_ok(#[trigger] pairs@[k]),
            forall|k: int| 0 <= k < i && k < 2 ==> stack_address_ok((#[trigger] pairs@[k]).0),
        decreases pairs.len() - i,
    {
        if !prefix_accepted(pairs[i]) {
            assert(!prefix_ok(pairs@[i as int]));
            return false;
        }
        if i < 2 && !address_accepted(pairs[i].0) {
            assert(!stack_address_ok(pairs@[i as int].0));
            return false;
        }
        i = i + 1;
    }
    true
}

impl RuntimePacketPump {
    /// The runtime configuration the pump was made for.
    pub closed spec fn spec_config(self) -> BoringTunRuntimeConfig {
        self.runtime_config
    }

    /// Where the runtime is in its lifecycle.
    pub closed spec fn spec_lifecycle(self) -> RuntimeLifecycleState {
        self.lifecycle_state
    }

    /// The message of the last failure, cleared by a start.
    pub closed spec fn spec_last_error(self) -> Option<Seq<char>> {
        match self.last_error {
            Some(e) => Some(e@),
            None => None,
        }
    }

    /// The pump runs the fake packet engine.
    pub closed spec fn spec_is_fake(self) -> bool {
        self.packet_engine.is_fake()
    }

    /// Outbound IP packets waiting on the stack, oldest first.
    pub closed spec fn spec_outbound(self) -> Seq<Seq<u8>> {
        self.stack.spec_queue()
    }

    /// Inbound WireGuard packets waiting, oldest first.
    pub closed spec fn spec_inbound(self) -> Seq<Seq<u8>> {
        packets_view(self.inbound_wireguard_packets@)
    }

    /// Packets delivered to the stack.
    pub closed spec fn spec_delivered(self) -> Seq<Seq<u8>> {
        self.stack.spec_delivered()
    }

    /// What the transport carried.
    pub closed spec fn spec_events(self) -> Seq<EventView> {
        events_view(self.transport.events@)
    }

    /// The reason the transport's next send fails with, if it is set to fail.
    pub closed spec fn spec_fail_next(self) -> Option<Seq<char>> {
        match self.transport.fail_next_send {
            Some(e) => Some(e@),
            None => None,
        }
    }

    /// The pump's stack runs on an IP loopback device, and its tunnel keeps
    /// its held-back packets within its bound.
    pub closed spec fn wf(self) -> bool {
        &&& self.stack.wf()
        &&& self.packet_engine.wf()
    }

    /// A stopped pump with nothing queued or carried and no error.
    pub open spec fn fresh(self, config: BoringTunRuntimeConfig) -> bool {
        &&& self.wf()
        &&& self.spec_config() == config
        &&& self.spec_lifecycle() == RuntimeLifecycleState::Stopped
        &&& self.spec_last_error() is None
        &&& self.spec_outbound() == Seq::<Seq<u8>>::empty()
        &&& self.spec_inbound() == Seq::<Seq<u8>>::empty()
        &&& self.spec_delivered() == Seq::<Seq<u8>>::empty()
        &&& self.spec_events() == Seq::<EventView>::empty()
        &&& self.spec_fail_next() is None
    }

    /// Everything but the lifecycle and the last error is as it was.
    pub open spec fn same_traffic(self, other: Self) -> bool {
        &&& self.wf() == other.wf()
        &&& self.spec_config() == other.spec_config()
        &&& self.spec_is_fake() == other.spec_is_fake()
        &&& self.spec_outbound() == other.spec_outbound()
        &&& self.spec_inbound() == other.spec_inbound()
        &&& self.spec_delivered() == other.spec_delivered()
        &&& self.spec_events() == other.spec_events()
        &&& self.spec_fail_next() == other.spec_fail_next()
    }

    fn with_packet_engine(runtime_config: BoringTunRuntimeConfig, packet_engine: RuntimePacketEngine) -> (r: Self)
        requires
            config_accepted(runtime_config),
            packet_engine.wf(),
        ensures
            r.fresh(runtime_config),
            r.spec_is_fake() == packet_engine.is_fake(),
    {
        let addresses = network_pairs(&runtime_config);
        let stack = RuntimeStack::new(&addresses);
        let transport = TestRuntimeTransport::new();
        let r = RuntimePacketPump {
            runtime_config,
            lifecycle_state: RuntimeLifecycleState::Stopped,
            packet_engine,
            stack,
            transport,
            inbound_wireguard_packets: VecDeque::new(),
            last_error: None,
        };
        assert(r.spec_inbound() =~= Seq::<Seq<u8>>::empty());
        r
    }

    /// A stopped pump for a configuration with the fake packet engine, which
    /// hands packets through unchanged.
    pub fn test(runtime_config: BoringTunRuntimeConfig) -> (r: Self)
        requires
            config_accepted(runtime_config),
        ensures
            r.fresh(runtime_config),
            r.spec_is_fake(),
    {
        Self::with_packet_engine(runtime_config, RuntimePacketEngine::Fake)
    }

    /// A stopped pump for a configuration with a `boringtun` tunnel made from its
    /// private key and the peer's public key.
    pub fn boringtun(runtime_config: BoringTunRuntimeConfig) -> (r: Self)
        requires
            config_accepted(runtime_config),
        ensures
            r.fresh(runtime_config),
            !r.spec_is_fake(),
    {
        let tunnel = new_tunnel(
            *runtime_config.private_key().as_bytes(),
            *runtime_config.peer_public_key().as_bytes(),
        );
        Self::with_packet_engine(
            runtime_config,
            RuntimePacketEngine::BoringTun(TunnelEngine::new(tunnel)),
        )
    }

    fn fail<T>(&mut self, error: RuntimePacketPumpError) -> (r: Result<T, RuntimePacketPumpError>)
        ensures
            r matches Err(e) && e == error,
            final(self).spec_lifecycle() == RuntimeLifecycleState::Failed,
            final(self).spec_last_error() == Some(pump_error_text(error)),
            final(self).same_traffic(*old(self)),
    {
        self.lifecycle_state = RuntimeLifecycleState::Failed;
        self.last_error = Some(error.message());
        Err(error)
    }

    /// Starts the runtime and clears its last error; a running runtime refuses
    /// and is failed.
    pub fn start(&mut self) -> (r: Result<(), RuntimePacketPumpError>)
        ensures
            final(self).same_traffic(*old(self)),
            old(self).spec_lifecycle() == RuntimeLifecycleState::Running ==> {
                &&& r matches Err(RuntimePacketPumpError::AlreadyRunning)
                &&& final(self).spec_lifecycle() == RuntimeLifecycleState::Failed
                &&& final(self).spec_last_error() == Some(
                    pump_error_text(RuntimePacketPumpError::AlreadyRunning),
                )
            },
            old(self).spec_lifecycle() != RuntimeLifecycleState::Running ==> {
                &&& r is Ok
                &&& final(self).spec_lifecycle() == RuntimeLifecycleState::Running
                &&& final(self).spec_last_error() is None
            },
    {
        if self.lifecycle_state == RuntimeLifecycleState::Running {
            return self.fail(RuntimePacketPumpError::AlreadyRunning);
        }
        self.lifecycle_state = RuntimeLifecycleState::Running;
        self.last_error = None;
        Ok(())
    }

    /// Stops the runtime; stopping is always accepted.
    pub fn stop(&mut self) -> (r: Result<(), RuntimePacketPumpError>)
        ensures
            r is Ok,
            final(self).spec_lifecycle() == RuntimeLifecycleState::Stopped,
            final(self).spec_last_error() == old(self).spec_last_error(),
            final(self).same_traffic(*old(self)),
    {
        self.lifecycle_state = RuntimeLifecycleState::Stopped;
        Ok(())
    }

    /// Where the runtime is in its lifecycle.
    pub fn lifecycle(&self) -> (r: RuntimeLifecycleState)
        ensures
            r == self.spec_lifecycle(),
    {
        self.lifecycle_state
    }

    /// The text of the runtime's lifecycle state.
    pub fn lifecycle_state(&self) -> (r: &'static str)
        ensures
            r@ == lifecycle_text(self.spec_lifecycle()),
    {
        match self.lifecycle_state {
            RuntimeLifecycleState::Stopped => "stopped",
            RuntimeLifecycleState::Running => "running",
            RuntimeLifecycleState::Failed => "failed",
        }
    }

    /// The runtime configuration the pump was made for.
    pub fn runtime_config(&self) -> (r: &BoringTunRuntimeConfig)
        ensures
            *r == self.spec_config(),
    {
        &self.runtime_config
    }

    /// Queues an outbound IP packet on the stack.
    pub fn queue_outbound_ip_packet(&mut self, packet: Vec<u8>)
        requires
            old(self).wf(),
        ensures
            final(self).wf(),
            final(self).spec_outbound() == old(self).spec_outbound().push(packet@),
            final(self).spec_lifecycle() == old(self).spec_lifecycle(),
            final(self).spec_last_error() == old(self).spec_last_error(),
            final(self).spec_config() == old(self).spec_config(),
            final(self).spec_is_fake() == old(self).spec_is_fake(),
            final(self).spec_inbound() == old(self).spec_inbound(),
            final(self).spec_delivered() == old(self).spec_delivered(),
            final(self).spec_events() == old(self).spec_events(),
            final(self).spec_fail_next() == old(self).spec_fail_next(),
    {
        self.stack.queue_outbound_packet(packet.as_slice());
    }

    /// Queues an inbound WireGuard packet for the next pump.
    pub fn queue_inbound_wireguard_packet(&mut self, packet: Vec<u8>)
        ensures
            final(self).wf() == old(self).wf(),
            final(self).spec_inbound() == old(self).spec_inbound().push(packet@),
            final(self).spec_lifecycle() == old(self).spec_lifecycle(),
            final(self).spec_last_error() == old(self).spec_last_error(),
            final(self).spec_config() == old(self).spec_config(),
            final(self).spec_is_fake() == old(self).spec_is_fake(),
            final(self).spec_outbound() == old(self).spec_outbound(),
            final(self).spec_delivered() == old(self).spec_delivered(),
            final(self).spec_events() == old(self).spec_events(),
            final(self).spec_fail_next() == old(self).spec_fail_next(),
    {
        let ghost before = self.spec_inbound();
        let ghost p = packet@;
        self.inbound_wireguard_packets.push_back(packet);
        assert(self.spec_inbound() =~= before.push(p));
    }

    /// What the transport carried, in order.
    pub fn transport_events(&self) -> (r: &[RuntimeTransportEvent])
        ensures
            events_view(r@) == self.spec_events(),
    {
        self.transport.events.as_slice()
    }

    /// The packets delivered to the stack, in order.
    pub fn delivered_stack_packets(&self) -> (r: &[Vec<u8>])
        ensures
            packets_view(r@) == self.spec_delivered(),
    {
        self.stack.delivered_packets.as_slice()
    }

    /// Makes the transport's next send fail with a reason.
    pub fn fail_next_transport_send(&mut self, reason: &str)
        ensures
            final(self).wf() == old(self).wf(),
            final(self).spec_fail_next() == Some(reason@),
            final(self).spec_lifecycle() == old(self).spec_lifecycle(),
            final(self).spec_last_error() == old(self).spec_last_error(),
            final(self).spec_config() == old(self).spec_config(),
            final(self).spec_is_fake() == old(self).spec_is_fake(),
            final(self).spec_outbound() == old(self).spec_outbound(),
            final(self).spec_inbound() == old(self).spec_inbound(),
            final(self).spec_delivered() == old(self).spec_delivered(),
            final(self).spec_events() == old(self).spec_events(),
    {
        self.transport.fail_next_send = Some(String::from_str(reason));
    }

    /// The message of the last failure.
    pub fn last_error(&self) -> (r: Option<&str>)
        ensures
            match r {
                Some(e) => self.spec_last_error() == Some(e@),
                None => self.spec_last_error() is None,
            },
    {
        match &self.last_error {
            Some(e) => Some(e.as_str()),
            None => None,
        }
    }
}

/// What one pump does. A runtime that is not running refuses and is failed.
/// A running one first drains the stack's outbound packets, each encapsulated
/// and sent to the peer, then its inbound packets, each decapsulated and
/// delivered to the stack and reported to the transport; the fake engine hands
/// packets through unchanged. The first engine or transport failure ends the
/// pump and fails the runtime with its message; a send the transport was told to
/// fail reports its reason with key material hidden.
pub open spec fn pump_effect(
    a: RuntimePacketPump,
    b: RuntimePacketPump,
    r: Result<RuntimePumpReport, RuntimePacketPumpError>,
) -> bool {
    &&& b.spec_config() == a.spec_config()
    &&& b.spec_is_fake() == a.spec_is_fake()
    &&& b.wf()
    &&& if a.spec_lifecycle() != RuntimeLifecycleState::Running {
        &&& r matches Err(RuntimePacketPumpError::NotRunning)
        &&& b.spec_lifecycle() == RuntimeLifecycleState::Failed
        &&& b.spec_last_error() == Some(pump_error_text(RuntimePacketPumpError::NotRunning))
        &&& b.same_traffic(a)
    } else {
        &&& a.spec_is_fake() ==> (r is Ok <==> (a.spec_fail_next() is None || a.spec_outbound().len()
            == 0))
        &&& match r {
            Ok(report) => {
                &&& b.spec_lifecycle() == RuntimeLifecycleState::Running
                &&& b.spec_last_error() == a.spec_last_error()
                &&& report.outbound_packets == saturated_count(a.spec_outbound().len())
                &&& report.inbound_packets == a.spec_inbound().len()
                &&& b.spec_inbound().len() == 0
                &&& b.spec_delivered().len() == a.spec_delivered().len() + a.spec_inbound().len()
                &&& b.spec_delivered().take(a.spec_delivered().len() as int) == a.spec_delivered()
                &&& b.spec_fail_next() == (if a.spec_outbound().len() > 0 {
                    None
                } else {
                    a.spec_fail_next()
                })
                &&& a.spec_fail_next() is Some ==> a.spec_outbound().len() == 0
                &&& a.spec_inbound().len() == 0 ==> b.spec_outbound().len() == 0
                &&& a.spec_is_fake() ==> b.spec_events() == a.spec_events() + sent_events(
                    a.spec_outbound(),
                ) + delivered_events(a.spec_inbound())
                &&& a.spec_is_fake() && a.spec_inbound().len() > 0 ==> b.spec_delivered()[a.spec_delivered().len() as int]
                    == a.spec_inbound()[0]
                &&& !a.spec_is_fake() ==> b.spec_events().len() == a.spec_events().len()
                    + a.spec_outbound().len() + a.spec_inbound().len()
            },
            Err(e) => {
                &&& b.spec_lifecycle() == RuntimeLifecycleState::Failed
                &&& b.spec_last_error() == Some(pump_error_text(e))
                &&& e is TransportFailed || e is PacketEngineFailed
                &&& a.spec_is_fake() ==> e is TransportFailed
                &&& e matches RuntimePacketPumpError::TransportFailed(m) ==> (a.spec_fail_next() matches Some(
                    reason,
                ) && m@ == redacted_transport_text(reason) && a.spec_outbound().len() > 0
                    && b.spec_fail_next() is None)
            },
        }
    }
}

impl RuntimePacketPump {
    /// Pumps once: see [`pump_effect`].
    pub fn pump_once(&mut self) -> (r: Result<RuntimePumpReport, RuntimePacketPumpError>)
        requires
            old(self).wf(),
        ensures
            pump_effect(*old(self), *final(self), r),
    {
        if self.lifecycle_state != RuntimeLifecycleState::Running {
            return self.fail(RuntimePacketPumpError::NotRunning);
        }
        let ghost start = *self;
        let ghost out0 = self.spec_outbound();
        let ghost in0 = self.spec_inbound();
        let ghost ev0 = self.spec_events();
        let ghost d0 = self.spec_delivered();
        let ghost f0 = self.spec_fail_next();
        let ghost fake = self.spec_is_fake();
        let mut outbound_packets: usize = 0;
        let ghost mut k: nat = 0;
        loop
            invariant
                self.wf(),
                self.lifecycle_state == RuntimeLifecycleState::Running,
                self.spec_last_error() == start.spec_last_error(),
                self.spec_config() == start.spec_config(),
                self.spec_is_fake() == fake,
                self.spec_inbound() == in0,
                self.spec_delivered() == d0,
                k <= out0.len(),
                self.spec_outbound() == out0.skip(k as int),
                outbound_packets == saturated_count(k),
                fake ==> self.spec_events() == ev0 + sent_events(out0.take(k as int)),
                !fake ==> self.spec_events().len() == ev0.len() + k,
                k == 0 ==> self.spec_fail_next() == f0,
                k > 0 ==> self.spec_fail_next() is None && f0 is None,
                start.spec_outbound() == out0,
                start.spec_events() == ev0,
                start.spec_fail_next() == f0,
                start.spec_is_fake() == fake,
                start.spec_lifecycle() == RuntimeLifecycleState::Running,
                start == *old(self),
            ensures
                k == out0.len(),
            decreases self.spec_outbound().len(),
        {
            let ghost queue = self.spec_outbound();
            let packet = match self.stack.next_outbound_packet() {
                Some(p) => p,
                None => {
                    assert(out0.skip(k as int).len() == 0);
                    break;
                },
            };
            assert(packet@ == out0[k as int]);
            let datagram = match self.packet_engine.encapsulate(packet.as_slice()) {
                Ok(d) => d,
                Err(e) => {
                    return self.fail(e);
                },
            };
            let ghost sent = datagram@;
            match self.transport.send_to_peer(datagram) {
                Ok(()) => {},
                Err(e) => {
                    return self.fail(e);
                },
            }
            proof {
                assert(out0.skip(k as int).drop_first() =~= out0.skip(k as int + 1));
                if fake {
                    assert(sent == out0[k as int]);
                    assert(out0.take(k as int + 1) =~= out0.take(k as int).push(out0[k as int]));
                    assert(sent_events(out0.take(k as int + 1)) =~= sent_events(out0.take(k as int)).push(
                        EventView::SentToPeer(out0[k as int]),
                    ));
                }
            }
            outbound_packets = outbound_packets.saturating_add(1);
            proof {
                k = k + 1;
            }
        }
        proof {
            assert(k == out0.len());
            assert(out0.take(k as int) =~= out0);
        }
        let ghost ev1 = self.spec_events();
        let ghost f1 = self.spec_fail_next();
        let in_len = self.inbound_wireguard_packets.len();
        assert(in0.len() == in_len);
        let mut inbound_packets: usize = 0;
        loop
            invariant
                self.wf(),
                self.lifecycle_state == RuntimeLifecycleState::Running,
                self.spec_last_error() == start.spec_last_error(),
                self.spec_config() == start.spec_config(),
                self.spec_is_fake() == fake,
                inbound_packets <= in0.len(),
                in0.len() <= usize::MAX,
                self.spec_inbound() == in0.skip(inbound_packets as int),
                self.spec_delivered().len() == d0.len() + inbound_packets,
                self.spec_delivered().take(d0.len() as int) == d0,
                inbound_packets == 0 ==> self.spec_outbound().len() == 0,
                fake && inbound_packets > 0 ==> self.spec_delivered()[d0.len() as int] == in0[0],
                fake ==> ev1 == ev0 + sent_events(out0),
                fake ==> self.spec_events() == ev1 + delivered_events(
                    in0.take(inbound_packets as int),
                ),
                !fake ==> ev1.len() == ev0.len() + out0.len(),
                !fake ==> self.spec_events().len() == ev1.len() + inbound_packets,
                self.spec_fail_next() == f1,
                f1 == (if out0.len() > 0 {
                    None
                } else {
                    f0
                }),
                f0 is Some ==> out0.len() == 0,
                outbound_packets == saturated_count(out0.len()),
                start.spec_outbound() == out0,
                start.spec_inbound() == in0,
                start.spec_delivered() == d0,
                start.spec_events() == ev0,
                start.spec_fail_next() == f0,
                start.spec_is_fake() == fake,
                start.spec_lifecycle() == RuntimeLifecycleState::Running,
                start == *old(self),
            ensures
                inbound_packets == in0.len(),
            decreases in0.len() - inbound_packets,
        {
            let ghost dq = self.inbound_wireguard_packets@;
            let packet = match self.inbound_wireguard_packets.pop_front() {
                Some(p) => p,
                None => {
                    assert(in0.skip(inbound_packets as int).len() == 0);
                    break;
                },
            };
            proof {
                assert(packets_view(dq)[0] == dq[0]@);
                assert(packets_view(self.inbound_wireguard_packets@) =~= packets_view(dq).drop_first());
                assert(packet@ == in0[inbound_packets as int]);
                assert(in0.skip(inbound_packets as int).drop_first() =~= in0.skip(
                    inbound_packets + 1,
                ));
            }
            let ip_packet = match self.packet_engine.decapsulate(packet.as_slice()) {
                Ok(p) => p,
                Err(e) => {
                    return self.fail(e);
                },
            };
            let ghost delivered_before = self.spec_delivered();
            self.stack.deliver_from_wireguard(ip_packet.as_slice());
            let ghost got = ip_packet@;
            self.transport.deliver_to_stack(ip_packet);
            proof {
                assert(self.spec_delivered().take(d0.len() as int) =~= d0);
                if fake {
                    assert(got == in0[inbound_packets as int]);
                    assert(in0.take(inbound_packets + 1) =~= in0.take(inbound_packets as int).push(
                        in0[inbound_packets as int],
                    ));
                    assert(delivered_events(in0.take(inbound_packets + 1)) =~= delivered_events(
                        in0.take(inbound_packets as int),
                    ).push(EventView::DeliveredToStack(in0[inbound_packets as int])));
                }
            }
            inbound_packets = inbound_packets + 1;
        }
        proof {
            assert(inbound_packets == in0.len());
            assert(in0.take(in0.len() as int) =~= in0);
        }
        Ok(RuntimePumpReport { outbound_packets, inbound_packets })
    }
}

/// A redacted transport reason keeps no key assignment: every token it is made
/// of, once redacted, starts neither with `private_key=` nor with
/// `peer_public_key=`.
pub proof fn law_redacted_token_holds_no_key(t: Seq<char>)
    ensures
        !has_prefix(redacted_token(t), "private_key="@),
        !has_prefix(redacted_token(t), "peer_public_key="@),
{
    reveal_strlit("[redacted]");
    reveal_strlit("private_key=");
    reveal_strlit("peer_public_key=");
}

} // verus!
