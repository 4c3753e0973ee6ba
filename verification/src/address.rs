//! Internet addresses and networks, and their encoding for the kernel.

use vstd::prelude::*;
use crate::error::Error;
use crate::request::SocketAddress;
use crate::sys::AF_INET;

verus! {

/// An internet host address, as its bytes in network order.
#[derive(Clone, Copy, Debug, PartialEq, Eq)]
pub enum IpAddress {
    V4([u8; 4]),
    V6([u8; 16]),
}

/// The 32-bit number that four address bytes in network order stand for.
pub open spec fn spec_address_value(address: Seq<u8>) -> u32 {
    (address[0] as u32) << 24 | (address[1] as u32) << 16 | (address[2] as u32) << 8
        | address[3] as u32
}

/// The bits of an IPv4 address that lie behind a prefix of `length` bits.
pub open spec fn spec_host_mask(length: u8) -> u32 {
    if length >= 32 {
        0u32
    } else {
        0xffff_ffffu32 >> (length as u32)
    }
}

/// Whether `address` with a prefix of `length` bits names an IPv4 network:
/// the prefix is no longer than the address, and the address has no bit set
/// behind the prefix.
pub open spec fn spec_is_network(address: Seq<u8>, length: u8) -> bool {
    length <= 32 && spec_address_value(address) & spec_host_mask(length) == 0
}

/// The netmask of a prefix of `length` bits: the first `length` bits set, the
/// others clear, as four bytes in network order.
pub open spec fn spec_netmask(length: u8) -> Seq<u8> {
    let mask = !spec_host_mask(length);
    seq![
        ((mask >> 24) & 0xff) as u8,
        ((mask >> 16) & 0xff) as u8,
        ((mask >> 8) & 0xff) as u8,
        (mask & 0xff) as u8,
    ]
}

/// `cidr::Ipv4Cidr::new` followed by `cidr::Ipv4Cidr::mask`.
///
/// The constructor accepts an address and a prefix length when the length is
/// at most 32 and no bit of the address is set behind the prefix. The mask of
/// an accepted network has its first `length` bits set and the others clear.
/// Unverified: this contract restates what that crate computes.
#[verifier::external_body]
fn cidr_mask(address: [u8; 4], length: u8) -> (mask: Option<[u8; 4]>)
    ensures
        mask is Some <==> spec_is_network(address@, length),
        mask matches Some(m) ==> m@ == spec_netmask(length),
{
    match cidr::Ipv4Cidr::new(address.into(), length) {
        Ok(network) => Some(network.mask().octets()),
        Err(_) => None,
    }
}

/// An IPv4 network: its first address, the length of its prefix, and the
/// netmask that belongs to that length.
#[derive(Clone, Copy, Debug, PartialEq, Eq)]
pub struct Ipv4Network {
    address: [u8; 4],
    length: u8,
    mask: [u8; 4],
}

impl Ipv4Network {
    /// The network's first address.
    pub closed spec fn spec_address(self) -> [u8; 4] {
        self.address
    }

    /// The length of the network's prefix in bits.
    pub closed spec fn spec_length(self) -> u8 {
        self.length
    }

    /// The network's mask.
    pub closed spec fn spec_mask(self) -> [u8; 4] {
        self.mask
    }

    /// What holds of every network value that the library hands out.
    #[verifier::type_invariant]
    pub closed spec fn wf(self) -> bool {
        &&& spec_is_network(self.address@, self.length)
        &&& self.mask@ == spec_netmask(self.length)
    }

    /// A network value is a network and carries the mask of its length.
    pub proof fn lemma_wf(self)
        requires
            self.wf(),
        ensures
            spec_is_network(self.spec_address()@, self.spec_length()),
            self.spec_length() <= 32,
            self.spec_mask()@ == spec_netmask(self.spec_length()),
    {
    }

    /// The network of `address` with a prefix of `length` bits, if that is a
    /// network.
    pub fn new(address: [u8; 4], length: u8) -> (network: Option<Ipv4Network>)
        ensures
            network is Some <==> spec_is_network(address@, length),
            network matches Some(n) ==> {
                &&& n.wf()
                &&& n.spec_address() == address
                &&& n.spec_length() == length
                &&& n.spec_mask()@ == spec_netmask(length)
            },
    {
        match cidr_mask(address, length) {
            Some(mask) => Some(Ipv4Network { address, length, mask }),
            None => None,
        }
    }

    /// The network's first address.
    pub fn address(&self) -> (address: [u8; 4])
        ensures
            address == self.spec_address(),
            spec_is_network(address@, self.spec_length()),
    {
        proof {
            use_type_invariant(self);
        }
        self.address
    }

    /// The length of the network's prefix in bits.
    pub fn length(&self) -> (length: u8)
        ensures
            length == self.spec_length(),
            length <= 32,
    {
        proof {
            use_type_invariant(self);
        }
        self.length
    }

    /// The network's mask.
    pub fn mask(&self) -> (mask: [u8; 4])
        ensures
            mask == self.spec_mask(),
            mask@ == spec_netmask(self.spec_length()),
    {
        proof {
            use_type_invariant(self);
        }
        self.mask
    }
}

/// An internet network. Only IPv4 networks can be applied to an interface;
/// an IPv6 network is carried so that it can be refused.
#[derive(Clone, Copy, Debug, PartialEq, Eq)]
pub enum IpNetwork {
    V4(Ipv4Network),
    V6 { address: [u8; 16], length: u8 },
}

/// The socket address that carries four IPv4 address bytes: the IPv4 family
/// tag, port zero, the bytes, zero padding.
pub open spec fn spec_socket_address(octets: [u8; 4]) -> SocketAddress {
    SocketAddress {
        family: AF_INET,
        port: 0,
        address: octets,
        padding: vstd::array::spec_array_fill_for_copy_type::<u8, 8>(0u8),
    }
}

/// What [`ip_to_sockaddr`] returns.
pub open spec fn spec_ip_to_sockaddr(address: IpAddress) -> Result<SocketAddress, Error> {
    match address {
        IpAddress::V4(octets) => Ok(spec_socket_address(octets)),
        IpAddress::V6(_) => Err(Error::Unsupported),
    }
}

/// Encodes four IPv4 address bytes as a socket address.
pub fn socket_address(octets: [u8; 4]) -> (encoded: SocketAddress)
    ensures
        encoded == spec_socket_address(octets),
        encoded.family == AF_INET,
        encoded.port == 0,
        encoded.address == octets,
        forall|i: int| 0 <= i < 8 ==> encoded.padding@[i] == 0,
{
    SocketAddress { family: AF_INET, port: 0, address: octets, padding: [0u8; 8] }
}

/// Encodes a host address as a socket address. Only IPv4 is implemented: an
/// IPv6 address is refused.
pub fn ip_to_sockaddr(address: IpAddress) -> (encoded: Result<SocketAddress, Error>)
    ensures
        encoded == spec_ip_to_sockaddr(address),
{
    match address {
        IpAddress::V4(octets) => Ok(socket_address(octets)),
        IpAddress::V6(_) => Err(Error::Unsupported),
    }
}

} // verus!
