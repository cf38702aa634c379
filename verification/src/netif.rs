//! The network interface as the protocol engine sees it: a snapshot of its
//! addresses, a bounded wait for a change of them, and the binder of UDP
//! sockets.

use crate::error::Error;
use crate::nal::{is_first_free, is_full, udp_bind, UdpBuffers, UdpError, UdpSocket};
use crate::net::{HardwareAddress, Ipv4Addr, Ipv4Cidr, Ipv6Addr, Ipv6Cidr, SocketAddr};
use vstd::prelude::*;

verus! {

/// The longest that a wait for a change of configuration lasts, in seconds.
pub const TIMEOUT_PERIOD_SECS: u8 = 5;

/// The addresses of a network interface at one moment.
#[derive(Clone, Copy, Debug, PartialEq, Eq)]
pub struct NetifConf {
    /// The IPv4 address.
    pub ipv4: Ipv4Addr,
    /// The IPv6 address.
    pub ipv6: Ipv6Addr,
    /// The index of the interface.
    pub interface: u32,
    /// The link-layer address.
    pub mac: [u8; 6],
}

/// The index of the one interface that a link-layer stack has.
pub const INTERFACE: u32 = 0;

/// What the link-layer stack tells of itself when it is asked: the
/// hardware address of its interface, and for each address family the
/// address in effect, or `None` as long as the family is not configured.
#[derive(Clone, Copy, Debug, PartialEq, Eq)]
pub struct StackStatus {
    /// The hardware address of the interface.
    pub hardware_address: HardwareAddress,
    /// The IPv4 address in effect.
    pub config_v4: Option<Ipv4Cidr>,
    /// The IPv6 address in effect.
    pub config_v6: Option<Ipv6Cidr>,
}

/// The six-octet link-layer address of an interface: its Ethernet address,
/// and zeros for an interface that has none.
pub open spec fn mac_of(hardware_address: HardwareAddress) -> [u8; 6] {
    match hardware_address {
        HardwareAddress::Ethernet(mac) => mac,
        _ => [0, 0, 0, 0, 0, 0],
    }
}

/// The snapshot that belongs to a status of the stack: its two addresses,
/// the index of its interface and the link-layer address of it. There is
/// none as long as either family is not configured.
pub open spec fn conf_of(stack: StackStatus) -> Option<NetifConf> {
    match (stack.config_v4, stack.config_v6) {
        (Some(v4), Some(v6)) => Some(
            NetifConf {
                ipv4: v4.address,
                ipv6: v6.address,
                interface: INTERFACE,
                mac: mac_of(stack.hardware_address),
            },
        ),
        _ => None,
    }
}

/// What a wait for a change of configuration waits for.
#[derive(Clone, Copy, Debug, PartialEq, Eq)]
pub struct ConfWait {
    /// The wait ends when the configuration of the stack is up, and after
    /// this many seconds at the latest.
    pub timeout_secs: u8,
}

/// How a wait for a change of configuration ended.
#[derive(Clone, Copy, Debug, PartialEq, Eq)]
pub enum ConfWaitEnd {
    /// The configuration of the stack is up.
    ConfigUp,
    /// The time ran out.
    TimedOut,
}

/// The observer of a network interface and binder of its sockets.
pub struct EmbassyNetif {
    stack: StackStatus,
}

impl EmbassyNetif {
    /// What the stack told when it was last asked.
    pub closed spec fn spec_stack(&self) -> StackStatus {
        self.stack
    }

    /// Creates the observer with what the stack tells now.
    pub fn new(stack: StackStatus) -> (netif: Self)
        ensures
            netif.spec_stack() == stack,
    {
        EmbassyNetif { stack }
    }

    /// Replaces what the stack told by what it tells now.
    pub fn refresh(&mut self, stack: StackStatus)
        ensures
            final(self).spec_stack() == stack,
    {
        self.stack = stack;
    }

    /// Returns the snapshot of the interface, or `Err` as long as the
    /// stack has not configured both address families.
    pub fn get_conf(&self) -> (conf: Result<NetifConf, ()>)
        ensures
            conf == match conf_of(self.spec_stack()) {
                Some(c) => Ok::<NetifConf, ()>(c),
                None => Err::<NetifConf, ()>(()),
            },
    {
        let v4 = match self.stack.config_v4 {
            Some(v4) => v4,
            None => { return Err(()); },
        };
        let v6 = match self.stack.config_v6 {
            Some(v6) => v6,
            None => { return Err(()); },
        };
        let mac = match self.stack.hardware_address {
            HardwareAddress::Ethernet(mac) => mac,
            _ => [0, 0, 0, 0, 0, 0],
        };
        Ok(NetifConf { ipv4: v4.address(), ipv6: v6.address(), interface: INTERFACE, mac })
    }

    /// Answers the engine's question for the configuration: the snapshot,
    /// or `None` as long as there is none. It never fails.
    pub fn current_conf(&self) -> (conf: Result<Option<NetifConf>, Error>)
        ensures
            conf == Ok::<Option<NetifConf>, Error>(conf_of(self.spec_stack())),
    {
        match self.get_conf() {
            Ok(c) => Ok(Some(c)),
            Err(_) => Ok(None),
        }
    }

    /// Says what a wait for a change of configuration waits for: the
    /// configuration coming up, for [`TIMEOUT_PERIOD_SECS`] seconds at
    /// most.
    pub fn wait_conf_change(&self) -> (wait: ConfWait)
        ensures
            wait == (ConfWait { timeout_secs: TIMEOUT_PERIOD_SECS }),
    {
        ConfWait { timeout_secs: TIMEOUT_PERIOD_SECS }
    }

    /// Says how a wait for a change of configuration returns: well,
    /// whether the configuration came up or the time ran out.
    pub fn conf_change_waited(&self, end: ConfWaitEnd) -> (result: Result<(), ()>)
        ensures
            result is Ok,
    {
        let _ = end;
        Ok(())
    }

    /// Binds a UDP socket to `local`, with a buffer from `buffers`.
    ///
    /// Fails with [`UdpError::NoBuffers`], and changes nothing, exactly
    /// when every buffer is in use. Otherwise the socket holds the first
    /// free buffer.
    pub fn bind<const N: usize>(&self, buffers: &mut UdpBuffers<N>, local: SocketAddr) -> (socket:
        Result<UdpSocket, UdpError>)
        ensures
            socket is Err <==> is_full(old(buffers)@),
            socket matches Err(e) ==> e == UdpError::NoBuffers && final(buffers)@ == old(
                buffers,
            )@,
            socket matches Ok(s) ==> s.spec_local() == local && is_first_free(
                old(buffers)@,
                s.spec_slot() as int,
            ) && final(buffers)@ == old(buffers)@.update(s.spec_slot() as int, true),
    {
        udp_bind(buffers, local)
    }
}

} // verus!
