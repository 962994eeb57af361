//! Decisions of the network glue that sits on top of the socket stack:
//! which socket flavours exist, what a lease event does to an interface,
//! and how interface address lists are read out.  The socket stack itself,
//! its buffers and its polling loop stay outside this crate; everything
//! here is value to value.

use vstd::prelude::*;

verus! {

/// The socket flavours the kernel's socket layer hands out.
#[derive(Clone, Copy, Debug, PartialEq, Eq, Structural)]
#[non_exhaustive]
pub enum SocketType {
    Udp,
    Tcp,
    Icmp,
}

/// An IPv4 address with its prefix length, as a lease assigns it.
#[derive(Clone, Copy, Debug, PartialEq, Eq, Structural)]
pub struct Ipv4Cidr {
    /// The address, most significant byte first.
    pub address: u32,
    /// Leading bits that name the network.
    pub prefix_len: u8,
}

/// What a lease poll reported.
#[derive(Clone, Copy, Debug, PartialEq, Eq, Structural)]
pub enum DhcpEvent {
    /// The lease was lost.
    Deconfigured,
    /// A lease was acquired: an address, and possibly a default router.
    Configured { address: Ipv4Cidr, router: Option<u32> },
}

/// What the interface must do in answer to a lease event.
#[derive(Clone, Copy, Debug, PartialEq, Eq, Structural)]
pub struct InterfacePlan {
    /// Drop every address first.
    pub clear_addresses: bool,
    /// Then install this address, if any.
    pub set_address: Option<Ipv4Cidr>,
    /// Install this default route, if any.
    pub set_default_route: Option<u32>,
    /// Drop the default route instead.
    pub remove_default_route: bool,
}

/// The plan a lease event demands: losing the lease clears addresses and
/// the default route; acquiring one replaces the addresses with the leased
/// one and installs the offered router, or drops the route when none was
/// offered.
pub open spec fn plan_for_event_spec(e: DhcpEvent) -> InterfacePlan {
    match e {
        DhcpEvent::Deconfigured => InterfacePlan {
            clear_addresses: true,
            set_address: None,
            set_default_route: None,
            remove_default_route: true,
        },
        DhcpEvent::Configured { address, router } => InterfacePlan {
            clear_addresses: true,
            set_address: Some(address),
            set_default_route: router,
            remove_default_route: router is None,
        },
    }
}

/// Decide what a lease event does to the interface.  The caller carries
/// the plan out against the socket stack.
pub fn plan_for_event(e: &DhcpEvent) -> (r: InterfacePlan)
    ensures
        r == plan_for_event_spec(*e),
{
    match e {
        DhcpEvent::Deconfigured => InterfacePlan {
            clear_addresses: true,
            set_address: None,
            set_default_route: None,
            remove_default_route: true,
        },
        DhcpEvent::Configured { address, router } => InterfacePlan {
            clear_addresses: true,
            set_address: Some(*address),
            set_default_route: *router,
            remove_default_route: router.is_none(),
        },
    }
}

/// The bare addresses behind a list of interface address assignments, in
/// order.
pub fn addresses_of(cidrs: &Vec<Ipv4Cidr>) -> (r: Vec<u32>)
    ensures
        r@ == cidrs@.map_values(|c: Ipv4Cidr| c.address),
{
    let mut out: Vec<u32> = Vec::new();
    let mut i: usize = 0;
    while i < cidrs.len()
        invariant
            i <= cidrs@.len(),
            out@.len() == i,
            forall|j: int| 0 <= j < i ==> out@[j] == cidrs@[j].address,
        decreases cidrs@.len() - i,
    {
        out.push(cidrs[i].address);
        i = i + 1;
    }
    proof {
        assert(out@ =~= cidrs@.map_values(|c: Ipv4Cidr| c.address));
    }
    out
}

} // verus!
