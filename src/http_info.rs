use vstd::prelude::*;

use crate::addr::SocketAddress;
use crate::connected::{http_info_of, Connected, ConnectedView, Extra};

verus! {

/// Extra information about a stream transport: the remote and the local
/// address it had once connected.
#[derive(Clone, Copy, Debug, PartialEq, Eq, Structural)]
pub struct HttpInfo {
    remote_addr: SocketAddress,
    local_addr: SocketAddress,
}

/// What an `HttpInfo` holds.
pub struct HttpInfoView {
    pub remote_addr: SocketAddress,
    pub local_addr: SocketAddress,
}

impl View for HttpInfo {
    type V = HttpInfoView;

    closed spec fn view(&self) -> HttpInfoView {
        HttpInfoView { remote_addr: self.remote_addr, local_addr: self.local_addr }
    }
}

impl HttpInfo {
    /// The address pair of a transport.
    pub fn new(remote_addr: SocketAddress, local_addr: SocketAddress) -> (r: HttpInfo)
        ensures
            r@ == (HttpInfoView { remote_addr, local_addr }),
    {
        HttpInfo { remote_addr, local_addr }
    }

    /// The remote address of the transport used.
    pub fn remote_addr(&self) -> (r: SocketAddress)
        ensures
            r == self@.remote_addr,
    {
        self.remote_addr
    }

    /// The local address of the transport used.
    pub fn local_addr(&self) -> (r: SocketAddress)
        ensures
            r == self@.local_addr,
    {
        self.local_addr
    }
}

/// Whether `c` is what a stream transport reports about itself, given the
/// outcome of its remote and local address queries: reusable, with the
/// address pair attached where both succeeded, and nothing attached where
/// either failed.
pub open spec fn describes_addrs(
    c: ConnectedView,
    remote: Option<SocketAddress>,
    local: Option<SocketAddress>,
) -> bool {
    &&& c.reusable
    &&& match (remote, local) {
        (Some(r), Some(l)) => c.extra matches Some(Extra::Http(info)) && info@ == (HttpInfoView {
            remote_addr: r,
            local_addr: l,
        }),
        _ => c.extra is None,
    }
}

/// Builds the descriptor of a stream transport from the outcome of its
/// remote and local address queries (`None` where a query failed).
///
/// Partial information counts as none: the address pair is attached only
/// where both queries succeeded.
pub fn connected_from_addrs(
    remote: Option<SocketAddress>,
    local: Option<SocketAddress>,
) -> (r: Connected)
    ensures
        describes_addrs(r@, remote, local),
{
    let connected = Connected::new();
    match (remote, local) {
        (Some(remote_addr), Some(local_addr)) => {
            connected.attach(Extra::Http(HttpInfo::new(remote_addr, local_addr)))
        },
        _ => connected,
    }
}

/// Partial information counts as none: where both address queries
/// succeeded, the attached pair is exactly what they returned; where either
/// failed, no `HttpInfo` (nor anything else) is attached.
pub proof fn lemma_all_or_nothing(
    c: ConnectedView,
    remote: Option<SocketAddress>,
    local: Option<SocketAddress>,
)
    requires
        describes_addrs(c, remote, local),
    ensures
        remote is Some && local is Some ==> (http_info_of(c.extra) matches Some(info)
            && info@.remote_addr == remote->0 && info@.local_addr == local->0),
        remote is None || local is None ==> http_info_of(c.extra) is None && c.extra is None,
{
}

/// A descriptor depends on nothing but its own transport's query results:
/// two transports whose queries gave the same results are described alike,
/// whatever else was described before, after or meanwhile.
pub proof fn lemma_described_independently(
    c1: ConnectedView,
    c2: ConnectedView,
    remote: Option<SocketAddress>,
    local: Option<SocketAddress>,
)
    requires
        describes_addrs(c1, remote, local),
        describes_addrs(c2, remote, local),
    ensures
        c1 == c2,
{
}

} // verus!
