//! Plain values that stand for the modem's sockets and their settings.
//!
//! A socket of the modem is a numbered capability. The library never performs
//! an operation on one itself: it carries the number, and names the operation
//! for the caller to perform.

use vstd::prelude::*;

verus! {

/// The address family a socket is created for.
#[derive(Debug, Copy, Clone, PartialEq, Eq, Structural)]
pub enum SocketFamily {
    Ipv4,
    Ipv6,
}

/// The kind of socket a stream is built on.
#[derive(Debug, Copy, Clone, PartialEq, Eq, Structural)]
pub enum SocketType {
    Stream,
}

/// The protocol a stream's socket speaks.
#[derive(Debug, Copy, Clone, PartialEq, Eq, Structural)]
pub enum SocketProtocol {
    Tls1v2,
}

/// A setting applied to a socket before it connects.
#[derive(Debug, Copy, Clone, PartialEq, Eq)]
pub enum SocketOption<'a> {
    /// The peer verification level (0, 1 or 2).
    TlsPeerVerify(u32),
    /// Whether TLS sessions are cached (0 switches the cache off).
    TlsSessionCache(u32),
    /// The security tags whose credentials the handshake may use, in order.
    TlsTagList(&'a Vec<u32>),
}

/// An open socket of the modem, known by its file descriptor.
#[derive(Debug, PartialEq, Eq)]
pub struct Socket {
    pub fd: i32,
}

impl Socket {
    pub fn as_raw_fd(&self) -> (fd: i32)
        ensures
            fd == self.fd,
    {
        self.fd
    }
}

/// One of the two independently closable handles that splitting a socket
/// yields.
#[derive(Debug, PartialEq, Eq)]
pub struct SplitSocketHandle {
    pub socket: Socket,
}

/// `no_std_net::SocketAddr`, a socket address of either family. Its contents
/// are not visible to the proofs; a value is only carried through.
#[verifier::external_type_specification]
#[verifier::external_body]
pub struct ExSocketAddr(no_std_net::SocketAddr);

/// Whether a socket address is an IPv4 address, as `SocketAddr::is_ipv4`
/// reports it.
pub uninterp spec fn is_ipv4(addr: no_std_net::SocketAddr) -> bool;

/// `no_std_net::SocketAddr::is_ipv4` tells whether the address is the `V4`
/// variant; the contract gives that answer its name and claims nothing else.
pub assume_specification[ no_std_net::SocketAddr::is_ipv4 ](
    addr: &no_std_net::SocketAddr,
) -> (v4: bool)
    ensures
        v4 == is_ipv4(*addr),
;

/// The family of the socket that can reach `addr`.
pub open spec fn family_of(addr: no_std_net::SocketAddr) -> SocketFamily {
    if is_ipv4(addr) {
        SocketFamily::Ipv4
    } else {
        SocketFamily::Ipv6
    }
}

/// The family of the socket to create for one candidate address.
pub fn address_family(addr: &no_std_net::SocketAddr) -> (family: SocketFamily)
    ensures
        family == family_of(*addr),
{
    if addr.is_ipv4() {
        SocketFamily::Ipv4
    } else {
        SocketFamily::Ipv6
    }
}

/// The families of the candidate addresses, one per address and in the
/// addresses' order.
pub fn candidate_families(addrs: &Vec<no_std_net::SocketAddr>) -> (families: Vec<SocketFamily>)
    ensures
        families.len() == addrs.len(),
        forall|i: int| 0 <= i < addrs.len() ==> families[i] == family_of(#[trigger] addrs[i]),
{
    let mut families: Vec<SocketFamily> = Vec::new();
    let mut i: usize = 0;
    while i < addrs.len()
        invariant
            i <= addrs.len(),
            families.len() == i,
            forall|j: int| 0 <= j < i ==> families[j] == family_of(#[trigger] addrs[j]),
        decreases addrs.len() - i,
    {
        families.push(address_family(&addrs[i]));
        i += 1;
    }
    families
}

} // verus!
