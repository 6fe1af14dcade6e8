use vstd::prelude::*;

use crate::error::BootstrapError;

verus! {

/// The port that a generated configuration listens on.
pub const DEFAULT_PORT: u16 = 30303;

/// An IP address as resolved by the external address sources, each family
/// held as its integer value.
#[derive(Clone, Copy, Debug, PartialEq, Eq, Structural)]
pub enum IpAddress {
    V4(u32),
    V6(u128),
}

/// An IPv4 socket address: the address as an integer and a port.
#[derive(Clone, Copy, Debug, PartialEq, Eq, Structural)]
pub struct SocketAddressV4 {
    pub ip: u32,
    pub port: u16,
}

/// What a consensus result gives: its IPv4 address on the default port, an
/// unsupported family for IPv6, and no address at all when nothing resolved.
pub open spec fn listen_address_of(consensus: Option<IpAddress>) -> Result<
    SocketAddressV4,
    BootstrapError,
> {
    match consensus {
        Some(IpAddress::V4(ip)) => Ok(SocketAddressV4 { ip, port: DEFAULT_PORT }),
        Some(IpAddress::V6(_)) => Err(BootstrapError::UnsupportedAddressFamily),
        None => Err(BootstrapError::AddressUnavailable),
    }
}

/// The listen address of a generated configuration, from the address that
/// the external sources agreed on.
pub fn listen_address(consensus: Option<IpAddress>) -> (r: Result<SocketAddressV4, BootstrapError>)
    ensures
        r == listen_address_of(consensus),
        r is Ok <==> consensus matches Some(IpAddress::V4(_)),
        consensus is None ==> r == Err::<SocketAddressV4, BootstrapError>(
            BootstrapError::AddressUnavailable,
        ),
        consensus matches Some(IpAddress::V6(_)) ==> r == Err::<SocketAddressV4, BootstrapError>(
            BootstrapError::UnsupportedAddressFamily,
        ),
{
    match consensus {
        Some(IpAddress::V4(ip)) => Ok(SocketAddressV4 { ip, port: DEFAULT_PORT }),
        Some(IpAddress::V6(_)) => Err(BootstrapError::UnsupportedAddressFamily),
        None => Err(BootstrapError::AddressUnavailable),
    }
}

} // verus!
