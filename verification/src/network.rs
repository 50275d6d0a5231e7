//! Outbound address policy: which URLs and IP addresses may be contacted.

use vstd::prelude::*;
use vstd::arithmetic::power2::{lemma2_to64, lemma2_to64_rest, lemma_pow2_adds, pow2};

use crate::config::OutboundAddressPolicy;
use crate::text::str_eq;
use url::Host;

verus! {

/// An IP address as its numeric value.
#[derive(Clone, Copy, Debug, PartialEq, Eq)]
pub enum IpAddress {
    V4(u32),
    V6(u128),
}

/// A network: an address and a prefix length.
#[derive(Clone, Copy, Debug, PartialEq, Eq)]
pub struct Network {
    pub address: IpAddress,
    pub prefix_len: u8,
}

/// The address bits of a family.
pub open spec fn family_bits(address: IpAddress) -> nat {
    match address {
        IpAddress::V4(_) => 32,
        IpAddress::V6(_) => 128,
    }
}

/// The numeric value of an address.
pub open spec fn address_value(address: IpAddress) -> nat {
    match address {
        IpAddress::V4(a) => a as nat,
        IpAddress::V6(a) => a as nat,
    }
}

/// Whether `network` contains `address`: same family, and the address lies
/// between the network's first address (its address with the host bits
/// cleared) and its last.
pub open spec fn network_contains(network: Network, address: IpAddress) -> bool {
    let same_family = match (network.address, address) {
        (IpAddress::V4(_), IpAddress::V4(_)) => true,
        (IpAddress::V6(_), IpAddress::V6(_)) => true,
        _ => false,
    };
    let size = pow2((family_bits(address) - network.prefix_len) as nat);
    let first = (address_value(network.address) / size) * size;
    same_family && first <= address_value(address) < first + size
}

/// Whether an IPv4 network contains an address.
///
/// Trusted: `Ipv4Net::new` accepts prefix lengths up to 32, and
/// `Ipv4Net::contains` holds exactly when the address lies between the
/// network address (the address with the host bits cleared) and the
/// broadcast address.
#[verifier::external_body]
fn ipv4_network_contains(network: u32, prefix_len: u8, address: u32) -> (contained: bool)
    requires
        prefix_len <= 32,
    ensures
        contained == network_contains(
            Network { address: IpAddress::V4(network), prefix_len },
            IpAddress::V4(address),
        ),
{
    match (ipnet::Ipv4Net::new(network.into(), prefix_len), ipnet::Ipv4Net::new(address.into(), 32)) {
        (Ok(net), Ok(host)) => net.contains(&host.addr()),
        _ => false,
    }
}

/// Whether an IPv6 network contains an address.
///
/// Trusted: `Ipv6Net::new` accepts prefix lengths up to 128, and
/// `Ipv6Net::contains` holds exactly when the address lies between the
/// network address (the address with the host bits cleared) and the last
/// address of the network.
#[verifier::external_body]
fn ipv6_network_contains(network: u128, prefix_len: u8, address: u128) -> (contained: bool)
    requires
        prefix_len <= 128,
    ensures
        contained == network_contains(
            Network { address: IpAddress::V6(network), prefix_len },
            IpAddress::V6(address),
        ),
{
    match (ipnet::Ipv6Net::new(network.into(), prefix_len), ipnet::Ipv6Net::new(address.into(), 128)) {
        (Ok(net), Ok(host)) => net.contains(&host.addr()),
        _ => false,
    }
}

fn contains(network: Network, address: IpAddress) -> (contained: bool)
    requires
        network.prefix_len <= family_bits(network.address),
    ensures
        contained == network_contains(network, address),
{
    match (network.address, address) {
        (IpAddress::V4(n), IpAddress::V4(a)) => ipv4_network_contains(n, network.prefix_len, a),
        (IpAddress::V6(n), IpAddress::V6(a)) => ipv6_network_contains(n, network.prefix_len, a),
        _ => false,
    }
}

/// The networks that are not publicly routable: private, loopback,
/// link-local, documentation, multicast and other special-use ranges.
pub open spec fn non_public_networks() -> Seq<Network> {
    seq![
        Network { address: IpAddress::V4(0x0000_0000), prefix_len: 8 },
        Network { address: IpAddress::V4(0x0a00_0000), prefix_len: 8 },
        Network { address: IpAddress::V4(0x6440_0000), prefix_len: 10 },
        Network { address: IpAddress::V4(0x7f00_0000), prefix_len: 8 },
        Network { address: IpAddress::V4(0xa9fe_0000), prefix_len: 16 },
        Network { address: IpAddress::V4(0xac10_0000), prefix_len: 12 },
        Network { address: IpAddress::V4(0xc000_0000), prefix_len: 24 },
        Network { address: IpAddress::V4(0xc000_0200), prefix_len: 24 },
        Network { address: IpAddress::V4(0xc058_6300), prefix_len: 24 },
        Network { address: IpAddress::V4(0xc0a8_0000), prefix_len: 16 },
        Network { address: IpAddress::V4(0xc612_0000), prefix_len: 15 },
        Network { address: IpAddress::V4(0xc633_6400), prefix_len: 24 },
        Network { address: IpAddress::V4(0xcb00_7100), prefix_len: 24 },
        Network { address: IpAddress::V4(0xe000_0000), prefix_len: 4 },
        Network { address: IpAddress::V4(0xf000_0000), prefix_len: 4 },
        Network { address: IpAddress::V6(0), prefix_len: 128 },
        Network { address: IpAddress::V6(1), prefix_len: 128 },
        Network { address: IpAddress::V6(0x0064_ff9b_0000_0000_0000_0000_0000_0000), prefix_len: 96 },
        Network { address: IpAddress::V6(0x0064_ff9b_0001_0000_0000_0000_0000_0000), prefix_len: 48 },
        Network { address: IpAddress::V6(0x0100_0000_0000_0000_0000_0000_0000_0000), prefix_len: 64 },
        Network { address: IpAddress::V6(0x0100_0000_0000_0001_0000_0000_0000_0000), prefix_len: 64 },
        Network { address: IpAddress::V6(0x2001_0000_0000_0000_0000_0000_0000_0000), prefix_len: 23 },
        Network { address: IpAddress::V6(0x2001_0db8_0000_0000_0000_0000_0000_0000), prefix_len: 32 },
        Network { address: IpAddress::V6(0x2002_0000_0000_0000_0000_0000_0000_0000), prefix_len: 16 },
        Network { address: IpAddress::V6(0x3fff_0000_0000_0000_0000_0000_0000_0000), prefix_len: 20 },
        Network { address: IpAddress::V6(0x5f00_0000_0000_0000_0000_0000_0000_0000), prefix_len: 16 },
        Network { address: IpAddress::V6(0xfc00_0000_0000_0000_0000_0000_0000_0000), prefix_len: 7 },
        Network { address: IpAddress::V6(0xfe80_0000_0000_0000_0000_0000_0000_0000), prefix_len: 10 },
        Network { address: IpAddress::V6(0xff00_0000_0000_0000_0000_0000_0000_0000), prefix_len: 8 },
    ]
}

/// The networks that are not publicly routable.
pub fn non_public_network_list() -> (networks: Vec<Network>)
    ensures
        networks@ == non_public_networks(),
{
    let networks = vec![
        Network { address: IpAddress::V4(0x0000_0000), prefix_len: 8 },
        Network { address: IpAddress::V4(0x0a00_0000), prefix_len: 8 },
        Network { address: IpAddress::V4(0x6440_0000), prefix_len: 10 },
        Network { address: IpAddress::V4(0x7f00_0000), prefix_len: 8 },
        Network { address: IpAddress::V4(0xa9fe_0000), prefix_len: 16 },
        Network { address: IpAddress::V4(0xac10_0000), prefix_len: 12 },
        Network { address: IpAddress::V4(0xc000_0000), prefix_len: 24 },
        Network { address: IpAddress::V4(0xc000_0200), prefix_len: 24 },
        Network { address: IpAddress::V4(0xc058_6300), prefix_len: 24 },
        Network { address: IpAddress::V4(0xc0a8_0000), prefix_len: 16 },
        Network { address: IpAddress::V4(0xc612_0000), prefix_len: 15 },
        Network { address: IpAddress::V4(0xc633_6400), prefix_len: 24 },
        Network { address: IpAddress::V4(0xcb00_7100), prefix_len: 24 },
        Network { address: IpAddress::V4(0xe000_0000), prefix_len: 4 },
        Network { address: IpAddress::V4(0xf000_0000), prefix_len: 4 },
        Network { address: IpAddress::V6(0), prefix_len: 128 },
        Network { address: IpAddress::V6(1), prefix_len: 128 },
        Network { address: IpAddress::V6(0x0064_ff9b_0000_0000_0000_0000_0000_0000), prefix_len: 96 },
        Network { address: IpAddress::V6(0x0064_ff9b_0001_0000_0000_0000_0000_0000), prefix_len: 48 },
        Network { address: IpAddress::V6(0x0100_0000_0000_0000_0000_0000_0000_0000), prefix_len: 64 },
        Network { address: IpAddress::V6(0x0100_0000_0000_0001_0000_0000_0000_0000), prefix_len: 64 },
        Network { address: IpAddress::V6(0x2001_0000_0000_0000_0000_0000_0000_0000), prefix_len: 23 },
        Network { address: IpAddress::V6(0x2001_0db8_0000_0000_0000_0000_0000_0000), prefix_len: 32 },
        Network { address: IpAddress::V6(0x2002_0000_0000_0000_0000_0000_0000_0000), prefix_len: 16 },
        Network { address: IpAddress::V6(0x3fff_0000_0000_0000_0000_0000_0000_0000), prefix_len: 20 },
        Network { address: IpAddress::V6(0x5f00_0000_0000_0000_0000_0000_0000_0000), prefix_len: 16 },
        Network { address: IpAddress::V6(0xfc00_0000_0000_0000_0000_0000_0000_0000), prefix_len: 7 },
        Network { address: IpAddress::V6(0xfe80_0000_0000_0000_0000_0000_0000_0000), prefix_len: 10 },
        Network { address: IpAddress::V6(0xff00_0000_0000_0000_0000_0000_0000_0000), prefix_len: 8 },
    ];
    assert(networks@ =~= non_public_networks());
    networks
}

/// The IPv4 address that an IPv4-mapped IPv6 address (`::ffff:a.b.c.d`)
/// embeds, as `Ipv6Addr::to_ipv4_mapped` finds it.
pub open spec fn ipv4_mapped(address: u128) -> Option<u32> {
    if address / 0x1_0000_0000 == 0xffff {
        Some((address % 0x1_0000_0000) as u32)
    } else {
        None
    }
}

/// The address a public-address check examines: an IPv4-mapped IPv6
/// address counts as its IPv4 address.
pub open spec fn effective_address(address: IpAddress) -> IpAddress {
    match address {
        IpAddress::V6(a) => match ipv4_mapped(a) {
            Some(v4) => IpAddress::V4(v4),
            None => address,
        },
        IpAddress::V4(_) => address,
    }
}

/// Whether `address` is publicly routable.
pub open spec fn is_public_address(address: IpAddress) -> bool {
    forall|k: int|
        0 <= k < non_public_networks().len() ==> !network_contains(
            #[trigger] non_public_networks()[k],
            effective_address(address),
        )
}

/// Checks that `address` is publicly routable; otherwise it is returned as
/// the blocked address.
pub fn validate_public_address(address: IpAddress) -> (verdict: Result<(), IpAddress>)
    ensures
        verdict is Ok <==> is_public_address(address),
        verdict matches Err(blocked) ==> blocked == effective_address(address),
{
    let checked = match address {
        IpAddress::V6(a) => if a / 0x1_0000_0000 == 0xffff {
            IpAddress::V4((a % 0x1_0000_0000) as u32)
        } else {
            address
        },
        IpAddress::V4(_) => address,
    };
    let networks = non_public_network_list();
    let n = networks.len();
    for k in 0..n
        invariant
            n == networks@.len(),
            networks@ == non_public_networks(),
            checked == effective_address(address),
            forall|j: int| 0 <= j < k ==> !network_contains(#[trigger] non_public_networks()[j], checked),
    {
        proof {
            assert(networks@[k as int].prefix_len <= family_bits(networks@[k as int].address));
        }
        if contains(networks[k], checked) {
            return Err(checked);
        }
    }
    Ok(())
}

/// An IPv4-mapped IPv6 address is public exactly when the IPv4 address it
/// embeds is.
pub proof fn lemma_mapped_address_is_checked_as_ipv4(v4: u32)
    ensures
        is_public_address(IpAddress::V6((0xffff_0000_0000u128 + v4 as u128) as u128)) == is_public_address(
            IpAddress::V4(v4),
        ),
{
    let a: u128 = (0xffff_0000_0000u128 + v4 as u128) as u128;
    assert(a / 0x1_0000_0000 == 0xffff);
    assert(a % 0x1_0000_0000 == v4);
    assert(effective_address(IpAddress::V6(a)) == IpAddress::V4(v4));
}

/// Whether the IPv4 address `a` lies in a special-use block of the IANA
/// registry that is not publicly routable.
pub open spec fn special_use_v4(a: u32) -> bool {
    // 0.0.0.0/8, "this network"
    ||| 0x0000 <= a < 0x0100_0000
    // 10.0.0.0/8, private
    ||| 0x0a00_0000 <= a < 0x0b00_0000
    // 100.64.0.0/10, shared address space
    ||| 0x6440_0000 <= a < 0x6480_0000
    // 127.0.0.0/8, loopback
    ||| 0x7f00_0000 <= a < 0x8000_0000
    // 169.254.0.0/16, link-local
    ||| 0xa9fe_0000 <= a < 0xa9ff_0000
    // 172.16.0.0/12, private
    ||| 0xac10_0000 <= a < 0xac20_0000
    // 192.0.0.0/24, IETF protocol assignments
    ||| 0xc000_0000 <= a < 0xc000_0100
    // 192.0.2.0/24, documentation
    ||| 0xc000_0200 <= a < 0xc000_0300
    // 192.88.99.0/24, 6to4 relay anycast
    ||| 0xc058_6300 <= a < 0xc058_6400
    // 192.168.0.0/16, private
    ||| 0xc0a8_0000 <= a < 0xc0a9_0000
    // 198.18.0.0/15, benchmarking
    ||| 0xc612_0000 <= a < 0xc614_0000
    // 198.51.100.0/24, documentation
    ||| 0xc633_6400 <= a < 0xc633_6500
    // 203.0.113.0/24, documentation
    ||| 0xcb00_7100 <= a < 0xcb00_7200
    // 224.0.0.0/4 and 240.0.0.0/4, multicast and reserved
    ||| 0xe000_0000 <= a < 0x0001_0000_0000
}

/// A network whose address has its host bits clear contains exactly the
/// addresses of its family from that address up to the network's size.
proof fn lemma_network_block(network: Network, address: IpAddress, size: nat)
    requires
        network.prefix_len <= family_bits(network.address),
        pow2((family_bits(address) - network.prefix_len) as nat) == size,
        size > 0,
        address_value(network.address) % size == 0,
    ensures
        network_contains(network, address) <==> (match (network.address, address) {
            (IpAddress::V4(_), IpAddress::V4(_)) => true,
            (IpAddress::V6(_), IpAddress::V6(_)) => true,
            _ => false,
        } && address_value(network.address) <= address_value(address) < address_value(
            network.address,
        ) + size),
{
    let x = address_value(network.address) as int;
    vstd::arithmetic::div_mod::lemma_fundamental_div_mod(x, size as int);
    assert((x / (size as int)) * (size as int) == x) by (nonlinear_arith)
        requires
            x == (size as int) * (x / (size as int)) + x % (size as int),
            x % (size as int) == 0,
    ;
}

/// An IPv4 address is publicly routable exactly when it lies in none of
/// the special-use blocks: private networks, loopback, link-local, shared
/// address space, documentation, benchmarking, multicast and reserved.
pub proof fn lemma_public_v4_exactly_outside_special_use(a: u32)
    ensures
        is_public_address(IpAddress::V4(a)) <==> !special_use_v4(a),
{
    lemma2_to64();
    let nets = non_public_networks();
    let v = IpAddress::V4(a);
    lemma_network_block(nets[0], v, pow2((32 - nets[0].prefix_len) as nat));
    assert(network_contains(nets[0], v) <==> 0x0000 <= a < 0x0100_0000);
    lemma_network_block(nets[1], v, pow2((32 - nets[1].prefix_len) as nat));
    assert(network_contains(nets[1], v) <==> 0x0a00_0000 <= a < 0x0b00_0000);
    lemma_network_block(nets[2], v, pow2((32 - nets[2].prefix_len) as nat));
    assert(network_contains(nets[2], v) <==> 0x6440_0000 <= a < 0x6480_0000);
    lemma_network_block(nets[3], v, pow2((32 - nets[3].prefix_len) as nat));
    assert(network_contains(nets[3], v) <==> 0x7f00_0000 <= a < 0x8000_0000);
    lemma_network_block(nets[4], v, pow2((32 - nets[4].prefix_len) as nat));
    assert(network_contains(nets[4], v) <==> 0xa9fe_0000 <= a < 0xa9ff_0000);
    lemma_network_block(nets[5], v, pow2((32 - nets[5].prefix_len) as nat));
    assert(network_contains(nets[5], v) <==> 0xac10_0000 <= a < 0xac20_0000);
    lemma_network_block(nets[6], v, pow2((32 - nets[6].prefix_len) as nat));
    assert(network_contains(nets[6], v) <==> 0xc000_0000 <= a < 0xc000_0100);
    lemma_network_block(nets[7], v, pow2((32 - nets[7].prefix_len) as nat));
    assert(network_contains(nets[7], v) <==> 0xc000_0200 <= a < 0xc000_0300);
    lemma_network_block(nets[8], v, pow2((32 - nets[8].prefix_len) as nat));
    assert(network_contains(nets[8], v) <==> 0xc058_6300 <= a < 0xc058_6400);
    lemma_network_block(nets[9], v, pow2((32 - nets[9].prefix_len) as nat));
    assert(network_contains(nets[9], v) <==> 0xc0a8_0000 <= a < 0xc0a9_0000);
    lemma_network_block(nets[10], v, pow2((32 - nets[10].prefix_len) as nat));
    assert(network_contains(nets[10], v) <==> 0xc612_0000 <= a < 0xc614_0000);
    lemma_network_block(nets[11], v, pow2((32 - nets[11].prefix_len) as nat));
    assert(network_contains(nets[11], v) <==> 0xc633_6400 <= a < 0xc633_6500);
    lemma_network_block(nets[12], v, pow2((32 - nets[12].prefix_len) as nat));
    assert(network_contains(nets[12], v) <==> 0xcb00_7100 <= a < 0xcb00_7200);
    lemma_network_block(nets[13], v, pow2((32 - nets[13].prefix_len) as nat));
    assert(network_contains(nets[13], v) <==> 0xe000_0000 <= a < 0xf000_0000);
    lemma_network_block(nets[14], v, pow2((32 - nets[14].prefix_len) as nat));
    assert(network_contains(nets[14], v) <==> 0xf000_0000 <= a);
    assert forall|k: int| 15 <= k < nets.len() implies !network_contains(#[trigger] nets[k], v) by {}
    if special_use_v4(a) {
        if a < 0x0100_0000 { assert(network_contains(nets[0], v)); }
        else if 0x0a00_0000 <= a < 0x0b00_0000 { assert(network_contains(nets[1], v)); }
        else if 0x6440_0000 <= a < 0x6480_0000 { assert(network_contains(nets[2], v)); }
        else if 0x7f00_0000 <= a < 0x8000_0000 { assert(network_contains(nets[3], v)); }
        else if 0xa9fe_0000 <= a < 0xa9ff_0000 { assert(network_contains(nets[4], v)); }
        else if 0xac10_0000 <= a < 0xac20_0000 { assert(network_contains(nets[5], v)); }
        else if 0xc000_0000 <= a < 0xc000_0100 { assert(network_contains(nets[6], v)); }
        else if 0xc000_0200 <= a < 0xc000_0300 { assert(network_contains(nets[7], v)); }
        else if 0xc058_6300 <= a < 0xc058_6400 { assert(network_contains(nets[8], v)); }
        else if 0xc0a8_0000 <= a < 0xc0a9_0000 { assert(network_contains(nets[9], v)); }
        else if 0xc612_0000 <= a < 0xc614_0000 { assert(network_contains(nets[10], v)); }
        else if 0xc633_6400 <= a < 0xc633_6500 { assert(network_contains(nets[11], v)); }
        else if 0xcb00_7100 <= a < 0xcb00_7200 { assert(network_contains(nets[12], v)); }
        else if a < 0xf000_0000 { assert(network_contains(nets[13], v)); }
        else { assert(network_contains(nets[14], v)); }
    } else {
        assert forall|k: int| 0 <= k < nets.len() implies !network_contains(#[trigger] nets[k], v) by {
            if k >= 15 {
            } else if k == 0 {} else if k == 1 {} else if k == 2 {} else if k == 3 {}
            else if k == 4 {} else if k == 5 {} else if k == 6 {} else if k == 7 {}
            else if k == 8 {} else if k == 9 {} else if k == 10 {} else if k == 11 {}
            else if k == 12 {} else if k == 13 {} else {}
        }
    }
}

/// Whether the IPv6 address `a` lies in a special-use block of the IANA
/// registry that is not publicly routable.
pub open spec fn special_use_v6(a: u128) -> bool {
    // ::/128, unspecified
    ||| 0x0000 <= a < 0x0001
    // ::1/128, loopback
    ||| 0x0001 <= a < 0x0002
    // 64:ff9b::/96, IPv4/IPv6 translation
    ||| 0x0064_ff9b_0000_0000_0000_0000_0000_0000 <= a < 0x0064_ff9b_0000_0000_0000_0001_0000_0000
    // 64:ff9b:1::/48, local-use IPv4/IPv6 translation
    ||| 0x0064_ff9b_0001_0000_0000_0000_0000_0000 <= a < 0x0064_ff9b_0002_0000_0000_0000_0000_0000
    // 100::/64, discard-only
    ||| 0x0100_0000_0000_0000_0000_0000_0000_0000 <= a < 0x0100_0000_0000_0001_0000_0000_0000_0000
    // 100:0:0:1::/64, dummy prefix
    ||| 0x0100_0000_0000_0001_0000_0000_0000_0000 <= a < 0x0100_0000_0000_0002_0000_0000_0000_0000
    // 2001::/23, IETF protocol assignments
    ||| 0x2001_0000_0000_0000_0000_0000_0000_0000 <= a < 0x2001_0200_0000_0000_0000_0000_0000_0000
    // 2001:db8::/32, documentation
    ||| 0x2001_0db8_0000_0000_0000_0000_0000_0000 <= a < 0x2001_0db9_0000_0000_0000_0000_0000_0000
    // 2002::/16, 6to4
    ||| 0x2002_0000_0000_0000_0000_0000_0000_0000 <= a < 0x2003_0000_0000_0000_0000_0000_0000_0000
    // 3fff::/20, documentation
    ||| 0x3fff_0000_0000_0000_0000_0000_0000_0000 <= a < 0x3fff_1000_0000_0000_0000_0000_0000_0000
    // 5f00::/16, segment routing
    ||| 0x5f00_0000_0000_0000_0000_0000_0000_0000 <= a < 0x5f01_0000_0000_0000_0000_0000_0000_0000
    // fc00::/7, unique local
    ||| 0xfc00_0000_0000_0000_0000_0000_0000_0000 <= a < 0xfe00_0000_0000_0000_0000_0000_0000_0000
    // fe80::/10, link-local
    ||| 0xfe80_0000_0000_0000_0000_0000_0000_0000 <= a < 0xfec0_0000_0000_0000_0000_0000_0000_0000
    // ff00::/8, multicast
    ||| 0xff00_0000_0000_0000_0000_0000_0000_0000 <= a < 0x0001_0000_0000_0000_0000_0000_0000_0000_0000
}

/// An IPv6 address that does not embed an IPv4 address is publicly
/// routable exactly when it lies in none of the special-use blocks:
/// unspecified, loopback, translation, discard-only, documentation, 6to4,
/// unique local, link-local, multicast and the other reserved ranges.
pub proof fn lemma_public_v6_exactly_outside_special_use(a: u128)
    requires
        ipv4_mapped(a) is None,
    ensures
        is_public_address(IpAddress::V6(a)) <==> !special_use_v6(a),
{
    lemma2_to64();
    lemma2_to64_rest();
    assert(pow2(80) == 0x0001_0000_0000_0000_0000_0000) by { lemma_pow2_adds(64, 16); }
    assert(pow2(96) == 0x0001_0000_0000_0000_0000_0000_0000) by { lemma_pow2_adds(64, 32); }
    assert(pow2(105) == 0x0200_0000_0000_0000_0000_0000_0000) by { lemma_pow2_adds(64, 41); }
    assert(pow2(108) == 0x1000_0000_0000_0000_0000_0000_0000) by { lemma_pow2_adds(64, 44); }
    assert(pow2(112) == 0x0001_0000_0000_0000_0000_0000_0000_0000) by { lemma_pow2_adds(64, 48); }
    assert(pow2(118) == 0x0040_0000_0000_0000_0000_0000_0000_0000) by { lemma_pow2_adds(64, 54); }
    assert(pow2(120) == 0x0100_0000_0000_0000_0000_0000_0000_0000) by { lemma_pow2_adds(64, 56); }
    assert(pow2(121) == 0x0200_0000_0000_0000_0000_0000_0000_0000) by { lemma_pow2_adds(64, 57); }
    let nets = non_public_networks();
    let v = IpAddress::V6(a);
    assert(effective_address(v) == v);
    lemma_network_block(nets[15], v, pow2((128 - nets[15].prefix_len) as nat));
    lemma_network_block(nets[16], v, pow2((128 - nets[16].prefix_len) as nat));
    lemma_network_block(nets[17], v, pow2((128 - nets[17].prefix_len) as nat));
    lemma_network_block(nets[18], v, pow2((128 - nets[18].prefix_len) as nat));
    lemma_network_block(nets[19], v, pow2((128 - nets[19].prefix_len) as nat));
    lemma_network_block(nets[20], v, pow2((128 - nets[20].prefix_len) as nat));
    lemma_network_block(nets[21], v, pow2((128 - nets[21].prefix_len) as nat));
    lemma_network_block(nets[22], v, pow2((128 - nets[22].prefix_len) as nat));
    lemma_network_block(nets[23], v, pow2((128 - nets[23].prefix_len) as nat));
    lemma_network_block(nets[24], v, pow2((128 - nets[24].prefix_len) as nat));
    lemma_network_block(nets[25], v, pow2((128 - nets[25].prefix_len) as nat));
    lemma_network_block(nets[26], v, pow2((128 - nets[26].prefix_len) as nat));
    lemma_network_block(nets[27], v, pow2((128 - nets[27].prefix_len) as nat));
    lemma_network_block(nets[28], v, pow2((128 - nets[28].prefix_len) as nat));
    assert forall|k: int| 0 <= k < 15 implies !network_contains(#[trigger] nets[k], v) by {}
    if special_use_v6(a) {
        if 0x0000 <= a < 0x0001 { assert(network_contains(nets[15], v)); }
        else if 0x0001 <= a < 0x0002 { assert(network_contains(nets[16], v)); }
        else if 0x0064_ff9b_0000_0000_0000_0000_0000_0000 <= a < 0x0064_ff9b_0000_0000_0000_0001_0000_0000 { assert(network_contains(nets[17], v)); }
        else if 0x0064_ff9b_0001_0000_0000_0000_0000_0000 <= a < 0x0064_ff9b_0002_0000_0000_0000_0000_0000 { assert(network_contains(nets[18], v)); }
        else if 0x0100_0000_0000_0000_0000_0000_0000_0000 <= a < 0x0100_0000_0000_0001_0000_0000_0000_0000 { assert(network_contains(nets[19], v)); }
        else if 0x0100_0000_0000_0001_0000_0000_0000_0000 <= a < 0x0100_0000_0000_0002_0000_0000_0000_0000 { assert(network_contains(nets[20], v)); }
        else if 0x2001_0000_0000_0000_0000_0000_0000_0000 <= a < 0x2001_0200_0000_0000_0000_0000_0000_0000 { assert(network_contains(nets[21], v)); }
        else if 0x2001_0db8_0000_0000_0000_0000_0000_0000 <= a < 0x2001_0db9_0000_0000_0000_0000_0000_0000 { assert(network_contains(nets[22], v)); }
        else if 0x2002_0000_0000_0000_0000_0000_0000_0000 <= a < 0x2003_0000_0000_0000_0000_0000_0000_0000 { assert(network_contains(nets[23], v)); }
        else if 0x3fff_0000_0000_0000_0000_0000_0000_0000 <= a < 0x3fff_1000_0000_0000_0000_0000_0000_0000 { assert(network_contains(nets[24], v)); }
        else if 0x5f00_0000_0000_0000_0000_0000_0000_0000 <= a < 0x5f01_0000_0000_0000_0000_0000_0000_0000 { assert(network_contains(nets[25], v)); }
        else if 0xfc00_0000_0000_0000_0000_0000_0000_0000 <= a < 0xfe00_0000_0000_0000_0000_0000_0000_0000 { assert(network_contains(nets[26], v)); }
        else if 0xfe80_0000_0000_0000_0000_0000_0000_0000 <= a < 0xfec0_0000_0000_0000_0000_0000_0000_0000 { assert(network_contains(nets[27], v)); }
        else if 0xff00_0000_0000_0000_0000_0000_0000_0000 <= a < 0x0001_0000_0000_0000_0000_0000_0000_0000_0000 { assert(network_contains(nets[28], v)); }
    } else {
        assert forall|k: int| 0 <= k < nets.len() implies !network_contains(#[trigger] nets[k], v) by {
            if k < 15 {} else if k == 15 {} else if k == 16 {} else if k == 17 {} else if k == 18 {} else if k == 19 {} else if k == 20 {} else if k == 21 {} else if k == 22 {} else if k == 23 {} else if k == 24 {} else if k == 25 {} else if k == 26 {} else if k == 27 {} else if k == 28 {} else {}
        }
    }
}

/// Allowing private addresses refuses nothing that public-only allows, and
/// refusing credentials refuses nothing more than that.
pub proof fn lemma_policies_nest(text: Seq<char>)
    ensures
        url_verdict(text, OutboundAddressPolicy::PublicOnly, true) is Ok ==> url_verdict(
            text,
            OutboundAddressPolicy::PublicOnly,
            false,
        ) is Ok,
        url_verdict(text, OutboundAddressPolicy::PublicOnly, false) is Ok ==> url_verdict(
            text,
            OutboundAddressPolicy::AllowPrivateAddress,
            false,
        ) is Ok,
        url_verdict(text, OutboundAddressPolicy::PublicOnly, true) is Ok ==> url_verdict(
            text,
            OutboundAddressPolicy::AllowPrivateAddress,
            true,
        ) is Ok,
{
}

/// The host of a URL, as `url::Host` distinguishes it.
#[derive(Debug, PartialEq, Eq)]
pub enum UrlHost {
    Domain(String),
    Ipv4(u32),
    Ipv6(u128),
}

/// The parts of a parsed URL that outbound requests read.
pub struct UrlParts {
    pub scheme: String,
    pub username: String,
    pub has_password: bool,
    pub host: Option<UrlHost>,
    pub host_text: Option<String>,
    pub port: Option<u16>,
    pub path: String,
    pub query: Option<String>,
}

/// The model of a [`UrlHost`].
pub enum UrlHostView {
    Domain(Seq<char>),
    Ipv4(u32),
    Ipv6(u128),
}

/// The model of [`UrlParts`].
pub ghost struct UrlPartsView {
    pub scheme: Seq<char>,
    pub username: Seq<char>,
    pub has_password: bool,
    pub host: Option<UrlHostView>,
    pub host_text: Option<Seq<char>>,
    pub port: Option<u16>,
    pub path: Seq<char>,
    pub query: Option<Seq<char>>,
}

impl View for UrlParts {
    type V = UrlPartsView;

    open spec fn view(&self) -> UrlPartsView {
        UrlPartsView {
            scheme: self.scheme@,
            username: self.username@,
            has_password: self.has_password,
            host: match self.host {
                Some(UrlHost::Domain(d)) => Some(UrlHostView::Domain(d@)),
                Some(UrlHost::Ipv4(a)) => Some(UrlHostView::Ipv4(a)),
                Some(UrlHost::Ipv6(a)) => Some(UrlHostView::Ipv6(a)),
                None => None,
            },
            host_text: match self.host_text {
                Some(t) => Some(t@),
                None => None,
            },
            port: self.port,
            path: self.path@,
            query: match self.query {
                Some(q) => Some(q@),
                None => None,
            },
        }
    }
}

/// What `url` makes of a URL text: its scheme, user name, whether it has a
/// password, host, host text, explicit non-default port, path and query.
pub uninterp spec fn url_parse(text: Seq<char>) -> Option<UrlPartsView>;

/// Parses a URL.
///
/// Trusted: `Url::parse` decides whether the text is a URL, and on success
/// `scheme`, `username`, `password`, `host`, `host_str`, `port`, `path` and
/// `query` give its parts; all of it depends on the text alone.
#[verifier::external_body]
fn parse_url(text: &str) -> (parts: Option<UrlParts>)
    ensures
        match url_parse(text@) {
            Some(v) => parts matches Some(p) && p@ == v,
            None => parts is None,
        },
{
    let url = url::Url::parse(text).ok()?;
    let host = match url.host() {
        Some(Host::Domain(d)) => Some(UrlHost::Domain(d.into())),
        Some(Host::Ipv4(a)) => Some(UrlHost::Ipv4(a.into())),
        Some(Host::Ipv6(a)) => Some(UrlHost::Ipv6(a.into())),
        None => None,
    };
    Some(UrlParts {
        scheme: url.scheme().into(), username: url.username().into(),
        has_password: url.password().is_some(), host, host_text: url.host_str().map(String::from),
        port: url.port(), path: url.path().into(), query: url.query().map(String::from),
    })
}

/// The address a URL's host names literally, if it is an IP address.
pub open spec fn literal_address(host: Option<UrlHostView>) -> Option<IpAddress> {
    match host {
        Some(UrlHostView::Ipv4(a)) => Some(IpAddress::V4(a)),
        Some(UrlHostView::Ipv6(a)) => Some(IpAddress::V6(a)),
        _ => None,
    }
}

/// Why an outbound URL is refused.
#[derive(Debug, PartialEq, Eq)]
pub enum OutboundUrlError {
    /// Not an absolute `http` or `https` URL with a host and no credentials.
    Invalid,
    /// The URL names a non-public address literally.
    PrivateAddress(IpAddress),
}

/// The verdict on a URL that a request is about to be sent to, under
/// `policy`: it must parse, be an `http` or `https` URL with a host and,
/// where `reject_credentials` holds, carry no user name or password; under
/// `PublicOnly` a literal IP host must be public.
pub open spec fn url_verdict(
    text: Seq<char>,
    policy: OutboundAddressPolicy,
    reject_credentials: bool,
) -> Result<UrlPartsView, OutboundUrlError> {
    match url_parse(text) {
        None => Err(OutboundUrlError::Invalid),
        Some(u) => if !(u.scheme == "http"@ || u.scheme == "https"@) || (reject_credentials && (
        u.username.len() > 0 || u.has_password)) || u.host is None {
            Err(OutboundUrlError::Invalid)
        } else {
            match (policy, literal_address(u.host)) {
                (OutboundAddressPolicy::PublicOnly, Some(a)) => if is_public_address(a) {
                    Ok(u)
                } else {
                    Err(OutboundUrlError::PrivateAddress(effective_address(a)))
                },
                _ => Ok(u),
            }
        },
    }
}

/// The verdict on an outbound URL under `policy`, credentials refused.
pub open spec fn outbound_url_verdict(text: Seq<char>, policy: OutboundAddressPolicy) -> Result<
    UrlPartsView,
    OutboundUrlError,
> {
    url_verdict(text, policy, true)
}

/// Checks a URL that a request is about to be sent to; host names are
/// checked when they are resolved.
pub fn check_url(text: &str, policy: OutboundAddressPolicy, reject_credentials: bool) -> (verdict:
    Result<UrlParts, OutboundUrlError>)
    ensures
        match url_verdict(text@, policy, reject_credentials) {
            Ok(v) => verdict matches Ok(p) && p@ == v,
            Err(e) => verdict matches Err(f) && f == e,
        },
{
    let parts = match parse_url(text) {
        Some(p) => p,
        None => {
            return Err(OutboundUrlError::Invalid);
        },
    };
    if !(str_eq(parts.scheme.as_str(), "http") || str_eq(parts.scheme.as_str(), "https"))
        || (reject_credentials && (!parts.username.as_str().is_empty() || parts.has_password))
        || parts.host.is_none() {
        return Err(OutboundUrlError::Invalid);
    }
    if policy == OutboundAddressPolicy::AllowPrivateAddress {
        return Ok(parts);
    }
    let literal = match &parts.host {
        Some(UrlHost::Ipv4(a)) => Some(IpAddress::V4(*a)),
        Some(UrlHost::Ipv6(a)) => Some(IpAddress::V6(*a)),
        _ => None,
    };
    match literal {
        Some(a) => match validate_public_address(a) {
            Ok(()) => Ok(parts),
            Err(blocked) => Err(OutboundUrlError::PrivateAddress(blocked)),
        },
        None => Ok(parts),
    }
}

/// Checks an outbound URL: it must be an `http` or `https` URL with a host
/// and no credentials, and under `PublicOnly` a literal IP host must be
/// public. Host names are checked when they are resolved.
pub fn check_outbound_url(text: &str, policy: OutboundAddressPolicy) -> (verdict: Result<
    UrlParts,
    OutboundUrlError,
>)
    ensures
        match outbound_url_verdict(text@, policy) {
            Ok(v) => verdict matches Ok(p) && p@ == v,
            Err(e) => verdict matches Err(f) && f == e,
        },
{
    check_url(text, policy, true)
}

} // verus!
