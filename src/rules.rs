use vstd::prelude::*;

use crate::model::{
    network_addr, stmts_view, AddrField, FirecrackerNetwork, IpAddr, IpInet, MetaKey,
    NamespacedData, NfFamily, Proto, Statement, StatementV, nat_proto_from_addr, network_address,
    proto_of,
};

verus! {

/// The protocol tag that goes with a ruleset family.
pub open spec fn proto_of_family(f: NfFamily) -> Proto {
    match f {
        NfFamily::IP => Proto::Ip,
        NfFamily::IP6 => Proto::Ip6,
    }
}

pub fn proto_from_family(f: NfFamily) -> (r: Proto)
    ensures
        r == proto_of_family(f),
{
    match f {
        NfFamily::IP => Proto::Ip,
        NfFamily::IP6 => Proto::Ip6,
    }
}

pub open spec fn meta_v(key: MetaKey, value: Seq<char>) -> StatementV {
    StatementV::MatchMeta { key, value }
}

/// `<proto> saddr == guest; oifname == iface; masquerade`
pub open spec fn masq_expr_v(iface: Seq<char>, guest: IpAddr) -> Seq<StatementV> {
    seq![
        StatementV::MatchAddr { proto: proto_of(guest), field: AddrField::Saddr, addr: guest },
        meta_v(MetaKey::Oifname, iface),
        StatementV::Masquerade,
    ]
}

/// `iifname == tap; oifname == iface; accept`
pub open spec fn forward_expr_v(tap: Seq<char>, iface: Seq<char>) -> Seq<StatementV> {
    seq![meta_v(MetaKey::Iifname, tap), meta_v(MetaKey::Oifname, iface), StatementV::Accept]
}

/// `<proto> saddr == <veth network>/<len>; oifname == iface; masquerade`
pub open spec fn outer_masq_expr_v(iface: Seq<char>, veth_ip: IpInet) -> Seq<StatementV> {
    seq![
        StatementV::MatchPrefix {
            proto: proto_of(veth_ip.address),
            field: AddrField::Saddr,
            addr: network_addr(veth_ip),
            len: veth_ip.prefix_len,
        },
        meta_v(MetaKey::Oifname, iface),
        StatementV::Masquerade,
    ]
}

/// `iifname == iface; oifname == veth1; accept`
pub open spec fn outer_ingress_forward_expr_v(iface: Seq<char>, veth1: Seq<char>) -> Seq<
    StatementV,
> {
    seq![meta_v(MetaKey::Iifname, iface), meta_v(MetaKey::Oifname, veth1), StatementV::Accept]
}

/// `iifname == veth1; oifname == iface; accept`
pub open spec fn outer_egress_forward_expr_v(iface: Seq<char>, veth1: Seq<char>) -> Seq<
    StatementV,
> {
    seq![meta_v(MetaKey::Iifname, veth1), meta_v(MetaKey::Oifname, iface), StatementV::Accept]
}

/// `<proto> saddr == guest; oifname == veth2; snat to veth2_ip`
pub open spec fn inner_snat_expr_v(
    veth2: Seq<char>,
    guest: IpAddr,
    veth2_addr: IpAddr,
    f: NfFamily,
) -> Seq<StatementV> {
    seq![
        StatementV::MatchAddr { proto: proto_of_family(f), field: AddrField::Saddr, addr: guest },
        meta_v(MetaKey::Oifname, veth2),
        StatementV::Snat { proto: proto_of_family(f), addr: veth2_addr },
    ]
}

/// `<proto> daddr == forwarded; iifname == veth2; dnat to guest`
pub open spec fn inner_dnat_expr_v(
    veth2: Seq<char>,
    forwarded: IpAddr,
    guest: IpAddr,
    f: NfFamily,
) -> Seq<StatementV> {
    seq![
        StatementV::MatchAddr { proto: proto_of_family(f), field: AddrField::Daddr, addr: forwarded },
        meta_v(MetaKey::Iifname, veth2),
        StatementV::Dnat { proto: proto_of_family(f), addr: guest },
    ]
}

fn meta(key: MetaKey, value: &String) -> (r: Statement)
    ensures
        r@ == meta_v(key, value@),
{
    Statement::MatchMeta { key, value: value.clone() }
}

fn three(a: Statement, b: Statement, c: Statement) -> (r: Vec<Statement>)
    ensures
        stmts_view(r@) == seq![a@, b@, c@],
{
    let r = vec![a, b, c];
    assert(stmts_view(r@) =~= seq![a@, b@, c@]);
    r
}

/// Masquerade rule of the simple topology.
pub fn masq_expr(network: &FirecrackerNetwork) -> (r: Vec<Statement>)
    ensures
        stmts_view(r@) == masq_expr_v(network.iface_name@, network.guest_ip.address),
{
    let guest = network.guest_ip.address;
    let proto = nat_proto_from_addr(guest);
    three(
        Statement::MatchAddr { proto, field: AddrField::Saddr, addr: guest },
        meta(MetaKey::Oifname, &network.iface_name),
        Statement::Masquerade,
    )
}

/// Forward rule of the simple topology.
pub fn forward_expr(network: &FirecrackerNetwork) -> (r: Vec<Statement>)
    ensures
        stmts_view(r@) == forward_expr_v(network.tap_name@, network.iface_name@),
{
    three(
        meta(MetaKey::Iifname, &network.tap_name),
        meta(MetaKey::Oifname, &network.iface_name),
        Statement::Accept,
    )
}

/// Outer masquerade rule: traffic of the veth subnet leaving through the host interface.
pub fn outer_masq_expr(network: &FirecrackerNetwork, ns: &NamespacedData) -> (r: Vec<Statement>)
    ensures
        stmts_view(r@) == outer_masq_expr_v(network.iface_name@, ns.veth2_ip),
{
    let addr = network_address(ns.veth2_ip);
    let proto = nat_proto_from_addr(ns.veth2_ip.address);
    three(
        Statement::MatchPrefix {
            proto,
            field: AddrField::Saddr,
            addr,
            len: ns.veth2_ip.prefix_len,
        },
        meta(MetaKey::Oifname, &network.iface_name),
        Statement::Masquerade,
    )
}

/// Outer forward rule from the host interface to the veth.
pub fn outer_ingress_forward_expr(network: &FirecrackerNetwork, ns: &NamespacedData) -> (r: Vec<
    Statement,
>)
    ensures
        stmts_view(r@) == outer_ingress_forward_expr_v(network.iface_name@, ns.veth1_name@),
{
    three(
        meta(MetaKey::Iifname, &network.iface_name),
        meta(MetaKey::Oifname, &ns.veth1_name),
        Statement::Accept,
    )
}

/// Outer forward rule from the veth to the host interface.
pub fn outer_egress_forward_expr(network: &FirecrackerNetwork, ns: &NamespacedData) -> (r: Vec<
    Statement,
>)
    ensures
        stmts_view(r@) == outer_egress_forward_expr_v(network.iface_name@, ns.veth1_name@),
{
    three(
        meta(MetaKey::Iifname, &ns.veth1_name),
        meta(MetaKey::Oifname, &network.iface_name),
        Statement::Accept,
    )
}

/// Inner SNAT rule: guest traffic leaving through veth2 takes veth2's address.
pub fn inner_snat_expr(veth2_name: &String, guest_ip: IpInet, veth2_ip: IpInet, f: NfFamily) -> (r:
    Vec<Statement>)
    ensures
        stmts_view(r@) == inner_snat_expr_v(veth2_name@, guest_ip.address, veth2_ip.address, f),
{
    let proto = proto_from_family(f);
    three(
        Statement::MatchAddr { proto, field: AddrField::Saddr, addr: guest_ip.address },
        meta(MetaKey::Oifname, veth2_name),
        Statement::Snat { proto, addr: veth2_ip.address },
    )
}

/// Inner DNAT rule: traffic for the forwarded address entering veth2 goes to the guest.
pub fn inner_dnat_expr(veth2_name: &String, forwarded: IpAddr, guest_ip: IpInet, f: NfFamily) -> (r:
    Vec<Statement>)
    ensures
        stmts_view(r@) == inner_dnat_expr_v(veth2_name@, forwarded, guest_ip.address, f),
{
    let proto = proto_from_family(f);
    three(
        Statement::MatchAddr { proto, field: AddrField::Daddr, addr: forwarded },
        meta(MetaKey::Iifname, veth2_name),
        Statement::Dnat { proto, addr: guest_ip.address },
    )
}

} // verus!
