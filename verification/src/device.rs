//! The network devices: the kernel TUN device and the WireGuard device that
//! feeds a userspace TCP/IP stack.
use vstd::prelude::*;

verus! {

/// How the kernel TUN device is set up.
#[derive(Debug, Clone, Copy, PartialEq, Eq)]
pub struct TunConfig {
    /// The MTU of the device.
    pub mtu: u16,
    /// The device's IPv4 address.
    pub address: [u8; 4],
    /// The length of the network prefix of that address.
    pub prefix_len: u8,
    /// Whether the device is brought up once created.
    pub up: bool,
}

/// The kernel TUN device that the proxy listens on.
pub struct TunnelDevice;

impl TunnelDevice {
    /// The size of the buffers that packets are copied through between the
    /// TUN device and the stack.
    pub const BUFFER_LEN: usize = 1500;

    /// An MTU of 1500 and the address 10.11.209.1/24; the device is brought up.
    pub fn config() -> (c: TunConfig)
        ensures
            c.mtu == 1500,
            c.address@ == seq![10u8, 11u8, 209u8, 1u8],
            c.prefix_len == 24,
            c.up,
    {
        let c = TunConfig { mtu: 1500, address: [10, 11, 209, 1], prefix_len: 24, up: true };
        assert(c.address@ =~= seq![10u8, 11u8, 209u8, 1u8]);
        c
    }

    /// The bytes of one packet that a read of `len` bytes left at the front of
    /// `buffer`.
    pub fn received<'a>(buffer: &'a [u8], len: usize) -> (packet: &'a [u8])
        requires
            len <= buffer@.len(),
        ensures
            packet@ == buffer@.subrange(0, len as int),
    {
        vstd::slice::slice_subrange(buffer, 0, len)
    }
}

/// The link layer of a device.
#[derive(Debug, Clone, Copy, PartialEq, Eq)]
pub enum Medium {
    /// Ethernet frames.
    Ethernet,
    /// Bare IP packets.
    Ip,
}

/// What a device tells the TCP/IP stack about itself.
#[derive(Debug, Clone, Copy, PartialEq, Eq)]
pub struct Capabilities {
    pub medium: Medium,
    pub max_transmission_unit: usize,
}

/// The packets queued between the WireGuard device and the stack.
pub const QUEUE_CAPACITY: usize = 1024;

/// The WireGuard device carries bare IP packets, at most 1380 bytes each.
pub fn wireguard_capabilities() -> (c: Capabilities)
    ensures
        c.medium == Medium::Ip,
        c.max_transmission_unit == 1380,
{
    Capabilities { medium: Medium::Ip, max_transmission_unit: 1380 }
}

/// What polling the queue of received packets gave.
#[derive(Debug, Clone, PartialEq, Eq)]
pub enum QueuePoll<T> {
    /// A packet.
    Item(T),
    /// The sending side has gone.
    Closed,
    /// Nothing yet.
    Pending,
}

/// What the device's packet stream yields.
#[derive(Debug, Clone, PartialEq, Eq)]
pub enum StreamPoll<T> {
    /// A packet, received without error.
    Item(T),
    /// Nothing yet.
    Pending,
}

/// One poll of the device's packet stream: a queued packet is passed on, and
/// a closed queue is not the end of the stream, only nothing yet.
pub fn device_stream_poll<T>(poll: QueuePoll<T>) -> (out: StreamPoll<T>)
    ensures
        match poll {
            QueuePoll::Item(p) => out == StreamPoll::Item(p),
            _ => out == StreamPoll::<T>::Pending,
        },
{
    match poll {
        QueuePoll::Item(p) => StreamPoll::Item(p),
        QueuePoll::Closed => StreamPoll::Pending,
        QueuePoll::Pending => StreamPoll::Pending,
    }
}

} // verus!
