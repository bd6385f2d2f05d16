//! Addresses of peers.

use crate::setup::SetupError;
use vstd::prelude::*;

verus! {

/// The socket address of a peer, held as plain integers.
///
/// Two addresses are the same peer exactly when every field agrees, which is
/// how socket addresses compare.
#[derive(Clone, Copy, Debug, PartialEq, Eq, Hash, Structural)]
pub enum PeerAddr {
    /// An IPv4 address, its four octets read as one big-endian number.
    V4 { ip4: u32, port: u16 },
    /// An IPv6 address, its sixteen octets read as one big-endian number.
    V6 { ip6: u128, port: u16, flowinfo: u32, scope_id: u32 },
}

/// The address to use among those a resolver returned: the first one.
pub open spec fn first_of(resolved: Seq<PeerAddr>) -> Result<PeerAddr, SetupError> {
    if resolved.len() > 0 {
        Ok(resolved[0])
    } else {
        Err(SetupError::AddressUnresolved)
    }
}

/// Picks the address to bind or connect to from what the resolver returned,
/// in the resolver's order.
pub fn first_resolved(resolved: &[PeerAddr]) -> (r: Result<PeerAddr, SetupError>)
    ensures
        r == first_of(resolved@),
{
    if resolved.len() > 0 {
        Ok(resolved[0])
    } else {
        Err(SetupError::AddressUnresolved)
    }
}

} // verus!
