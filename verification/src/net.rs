use vstd::prelude::*;

verus! {

/// The fixed well-known discovery port every instance of the protocol uses.
pub const DISCOVERY_PORT: u16 = 5679;

/// The fixed IPv4 multicast group, 224.0.0.114, as its 32 address bits.
pub const IPV4_GROUP_BITS: u32 = 0xe0000072;

/// The fixed IPv6 multicast group, ff12:114:514:1919::810, as its 128
/// address bits.
pub const IPV6_GROUP_BITS: u128 = 0xff12_0114_0514_1919_0000_0000_0000_0810;

/// An IP address as plain bits: 32 for IPv4, 128 for IPv6, both in the
/// usual most-significant-first reading of the textual form.
#[derive(Clone, Copy, Debug, PartialEq, Eq, Hash, Structural)]
pub enum IpAddress {
    V4(u32),
    V6(u128),
}

/// A socket address: an IP address and a port.
#[derive(Clone, Copy, Debug, PartialEq, Eq, Hash, Structural)]
pub struct SocketAddress {
    pub ip: IpAddress,
    pub port: u16,
}

/// An IPv6 address in the link-local range fe80::/10: its top ten bits
/// are 1111 1110 10.
pub open spec fn spec_is_ipv6_link_local(a: IpAddress) -> bool {
    match a {
        IpAddress::V4(_) => false,
        IpAddress::V6(bits) => bits >> 118 == 0x3fa,
    }
}

/// A multicast address: 224.0.0.0/4 for IPv4, ff00::/8 for IPv6.
pub open spec fn spec_is_multicast(a: IpAddress) -> bool {
    match a {
        IpAddress::V4(bits) => bits >> 28 == 0xe,
        IpAddress::V6(bits) => bits >> 120 == 0xff,
    }
}

/// Decides whether an address is IPv6 link-local; such addresses cannot
/// reliably route multicast replies back, so no announcer is made for them.
pub fn is_ipv6_link_local(a: &IpAddress) -> (r: bool)
    ensures
        r == spec_is_ipv6_link_local(*a),
{
    match a {
        IpAddress::V4(_) => false,
        IpAddress::V6(bits) => (*bits >> 118) == 0x3fa,
    }
}

/// The IPv4 group every instance announces to and listens on.
pub fn ipv4_multicast_group() -> (r: IpAddress)
    ensures
        r == IpAddress::V4(IPV4_GROUP_BITS),
        spec_is_multicast(r),
{
    proof {
        assert(0xe0000072u32 >> 28 == 0xe) by (bit_vector);
    }
    IpAddress::V4(IPV4_GROUP_BITS)
}

/// The IPv6 group every instance announces to and listens on. It is a
/// multicast address and, in particular, not link-local.
pub fn ipv6_multicast_group() -> (r: IpAddress)
    ensures
        r == IpAddress::V6(IPV6_GROUP_BITS),
        spec_is_multicast(r),
        !spec_is_ipv6_link_local(r),
{
    proof {
        assert(0xff12_0114_0514_1919_0000_0000_0000_0810u128 >> 120 == 0xff) by (bit_vector);
        assert(0xff12_0114_0514_1919_0000_0000_0000_0810u128 >> 118 != 0x3fa) by (bit_vector);
    }
    IpAddress::V6(IPV6_GROUP_BITS)
}

/// The addresses an announcer is made for, among the local addresses of
/// the chosen interface: all of them, in order, except IPv6 link-local
/// ones, which are skipped entirely.
pub fn plan_announcers(addrs: &Vec<IpAddress>) -> (r: Vec<IpAddress>)
    ensures
        r@ == addrs@.filter(|a: IpAddress| !spec_is_ipv6_link_local(a)),
        forall|j: int| 0 <= j < r@.len() ==> !spec_is_ipv6_link_local(r@[j]),
        forall|j: int|
            0 <= j < addrs@.len() && !spec_is_ipv6_link_local(addrs@[j]) ==> r@.contains(
                addrs@[j],
            ),
{
    broadcast use vstd::seq_lib::group_filter_ensures;

    let mut out: Vec<IpAddress> = Vec::new();
    let mut i: usize = 0;
    while i < addrs.len()
        invariant
            i <= addrs@.len(),
            out@ == addrs@.subrange(0, i as int).filter(|a: IpAddress|
                !spec_is_ipv6_link_local(a)),
        decreases addrs@.len() - i,
    {
        let a = addrs[i];
        proof {
            let prefix = addrs@.subrange(0, i as int);
            assert(addrs@.subrange(0, i + 1) =~= prefix + seq![addrs@[i as int]]);
            Seq::<IpAddress>::filter_distributes_over_add(
                prefix,
                seq![addrs@[i as int]],
                |a: IpAddress| !spec_is_ipv6_link_local(a),
            );
            reveal_with_fuel(Seq::<_>::filter, 2);
            assert(seq![addrs@[i as int]].drop_last() =~= Seq::<IpAddress>::empty());
        }
        if !is_ipv6_link_local(&a) {
            out.push(a);
        }
        i += 1;
        assert(out@ =~= addrs@.subrange(0, i as int).filter(|a: IpAddress|
            !spec_is_ipv6_link_local(a)));
    }
    assert(addrs@.subrange(0, addrs@.len() as int) =~= addrs@);
    out
}

/// Link-local exclusion: an IPv6 link-local address among the local
/// addresses is never among the planned announcers.
pub proof fn lemma_link_local_excluded(addrs: Seq<IpAddress>, i: int)
    requires
        0 <= i < addrs.len(),
        spec_is_ipv6_link_local(addrs[i]),
    ensures
        !addrs.filter(|a: IpAddress| !spec_is_ipv6_link_local(a)).contains(addrs[i]),
{
    broadcast use vstd::seq_lib::group_filter_ensures;

    let kept = addrs.filter(|a: IpAddress| !spec_is_ipv6_link_local(a));
    if kept.contains(addrs[i]) {
        let j = choose|j: int| 0 <= j < kept.len() && kept[j] == addrs[i];
        assert(!spec_is_ipv6_link_local(kept[j]));
        assert(false);
    }
}

} // verus!
