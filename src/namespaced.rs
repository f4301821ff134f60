use vstd::prelude::*;

use crate::model::{
    batch_view, family_of, objects_view, same_family, BatchOp, BatchOpV, FirecrackerNetwork,
    FirecrackerNetworkError, IpAddr, IpInet, NamespacedData, NfFamily, NfObject, NfObjectV,
    family_from_addr, is_same_family, NFT_FILTER_CHAIN, NFT_POSTROUTING_CHAIN,
    NFT_PREROUTING_CHAIN,
};
use crate::rules::{
    inner_dnat_expr, inner_dnat_expr_v, inner_snat_expr, inner_snat_expr_v, outer_egress_forward_expr,
    outer_egress_forward_expr_v, outer_ingress_forward_expr, outer_ingress_forward_expr_v,
    outer_masq_expr, outer_masq_expr_v,
};
use crate::ruleset::{
    add_base_chains_if_needed, base_ops_v, fcnet_table, new_rule, postrouting_chain,
    postrouting_chain_v, prerouting_chain, prerouting_chain_v, push_op, rule_v, table_v,
};

verus! {

/// A route: a destination prefix (none for the default route) reached through a gateway.
#[derive(Clone, Copy, Debug, PartialEq, Eq, Structural)]
pub struct Route {
    pub destination: Option<IpInet>,
    pub gateway: IpAddr,
}

/// Every address of a namespaced topology has the family of the guest address.
pub open spec fn families_agree(n: &FirecrackerNetwork, ns: &NamespacedData) -> bool {
    let g = n.guest_ip.address;
    &&& same_family(n.tap_ip.address, g)
    &&& same_family(ns.veth1_ip.address, g)
    &&& same_family(ns.veth2_ip.address, g)
    &&& match ns.forwarded_guest_ip {
        Some(a) => same_family(a, g),
        None => true,
    }
}

/// The host route of a forwarded address: the single address, through veth2.
pub open spec fn forward_route_v(fwd: IpAddr, veth2: IpInet) -> Route {
    Route {
        destination: Some(
            IpInet { address: fwd, prefix_len: if fwd is V4 { 32u8 } else { 128u8 } },
        ),
        gateway: veth2.address,
    }
}

/// The inner batch: table, postrouting chain, prerouting chain when forwarding, SNAT rule,
/// DNAT rule when forwarding.
pub open spec fn inner_ops_v(
    f: NfFamily,
    veth2_name: Seq<char>,
    veth2_ip: IpInet,
    fwd: Option<IpAddr>,
    guest_ip: IpInet,
) -> Seq<BatchOpV> {
    seq![
        BatchOpV::Add(NfObjectV::Table(table_v(f))),
        BatchOpV::Add(NfObjectV::Chain(postrouting_chain_v(f))),
    ] + (if fwd is Some {
        seq![BatchOpV::Add(NfObjectV::Chain(prerouting_chain_v(f)))]
    } else {
        Seq::empty()
    }) + seq![
        BatchOpV::Add(
            NfObjectV::Rule(
                rule_v(
                    f,
                    NFT_POSTROUTING_CHAIN@,
                    inner_snat_expr_v(veth2_name, guest_ip.address, veth2_ip.address, f),
                ),
            ),
        ),
    ] + match fwd {
        Some(a) => seq![
            BatchOpV::Add(
                NfObjectV::Rule(
                    rule_v(
                        f,
                        NFT_PREROUTING_CHAIN@,
                        inner_dnat_expr_v(veth2_name, a, guest_ip.address, f),
                    ),
                ),
            ),
        ],
        None => Seq::empty(),
    }
}

/// The outer batch: missing base objects, then masquerade, ingress and egress forward rules.
pub open spec fn outer_ops_v(
    n: &FirecrackerNetwork,
    ns: &NamespacedData,
    objs: Seq<NfObjectV>,
) -> Seq<BatchOpV> {
    let f = family_of(n.guest_ip.address);
    base_ops_v(f, objs) + seq![
        BatchOpV::Add(
            NfObjectV::Rule(
                rule_v(f, NFT_POSTROUTING_CHAIN@, outer_masq_expr_v(n.iface_name@, ns.veth2_ip)),
            ),
        ),
        BatchOpV::Add(
            NfObjectV::Rule(
                rule_v(
                    f,
                    NFT_FILTER_CHAIN@,
                    outer_ingress_forward_expr_v(n.iface_name@, ns.veth1_name@),
                ),
            ),
        ),
        BatchOpV::Add(
            NfObjectV::Rule(
                rule_v(
                    f,
                    NFT_FILTER_CHAIN@,
                    outer_egress_forward_expr_v(n.iface_name@, ns.veth1_name@),
                ),
            ),
        ),
    ]
}

/// Rejects a namespaced topology that mixes address families, before any kernel change.
pub fn validate_namespaced(network: &FirecrackerNetwork, ns: &NamespacedData) -> (r: Result<
    (),
    FirecrackerNetworkError,
>)
    ensures
        families_agree(network, ns) <==> r is Ok,
        r is Err ==> r == Err::<(), FirecrackerNetworkError>(
            FirecrackerNetworkError::ForbiddenDualStackInRoute,
        ),
{
    let g = network.guest_ip.address;
    let fwd_ok = match ns.forwarded_guest_ip {
        Some(a) => is_same_family(a, g),
        None => true,
    };
    if is_same_family(network.tap_ip.address, g) && is_same_family(ns.veth1_ip.address, g)
        && is_same_family(ns.veth2_ip.address, g) && fwd_ok {
        Ok(())
    } else {
        Err(FirecrackerNetworkError::ForbiddenDualStackInRoute)
    }
}

/// The default route of the inner namespace: through veth1's address.
pub fn inner_default_route(ns: &NamespacedData) -> (r: Result<Route, FirecrackerNetworkError>)
    ensures
        same_family(ns.veth1_ip.address, ns.veth2_ip.address) ==> r == Ok::<
            Route,
            FirecrackerNetworkError,
        >(Route { destination: None, gateway: ns.veth1_ip.address }),
        !same_family(ns.veth1_ip.address, ns.veth2_ip.address) ==> r == Err::<
            Route,
            FirecrackerNetworkError,
        >(FirecrackerNetworkError::ForbiddenDualStackInRoute),
{
    if is_same_family(ns.veth1_ip.address, ns.veth2_ip.address) {
        Ok(Route { destination: None, gateway: ns.veth1_ip.address })
    } else {
        Err(FirecrackerNetworkError::ForbiddenDualStackInRoute)
    }
}

/// The outer host route towards a forwarded guest address, if one is set.
pub fn outer_forward_route(ns: &NamespacedData) -> (r: Result<
    Option<Route>,
    FirecrackerNetworkError,
>)
    ensures
        match ns.forwarded_guest_ip {
            None => r == Ok::<Option<Route>, FirecrackerNetworkError>(None),
            Some(a) => if same_family(a, ns.veth2_ip.address) {
                r == Ok::<Option<Route>, FirecrackerNetworkError>(
                    Some(forward_route_v(a, ns.veth2_ip)),
                )
            } else {
                r == Err::<Option<Route>, FirecrackerNetworkError>(
                    FirecrackerNetworkError::ForbiddenDualStackInRoute,
                )
            },
        },
{
    match ns.forwarded_guest_ip {
        None => Ok(None),
        Some(IpAddr::V4(a)) => match ns.veth2_ip.address {
            IpAddr::V4(_) => Ok(
                Some(
                    Route {
                        destination: Some(IpInet { address: IpAddr::V4(a), prefix_len: 32 }),
                        gateway: ns.veth2_ip.address,
                    },
                ),
            ),
            IpAddr::V6(_) => Err(FirecrackerNetworkError::ForbiddenDualStackInRoute),
        },
        Some(IpAddr::V6(a)) => match ns.veth2_ip.address {
            IpAddr::V4(_) => Err(FirecrackerNetworkError::ForbiddenDualStackInRoute),
            IpAddr::V6(_) => Ok(
                Some(
                    Route {
                        destination: Some(IpInet { address: IpAddr::V6(a), prefix_len: 128 }),
                        gateway: ns.veth2_ip.address,
                    },
                ),
            ),
        },
    }
}

/// The nftables batch applied inside the namespace.
pub fn inner_nf_batch(
    f: NfFamily,
    veth2_name: &String,
    veth2_ip: IpInet,
    forwarded_guest_ip: Option<IpAddr>,
    guest_ip: IpInet,
) -> (r: Vec<BatchOp>)
    ensures
        batch_view(r@) == inner_ops_v(f, veth2_name@, veth2_ip, forwarded_guest_ip, guest_ip),
{
    let mut batch: Vec<BatchOp> = Vec::new();
    assert(batch_view(batch@) =~= Seq::<BatchOpV>::empty());
    push_op(&mut batch, BatchOp::Add(NfObject::Table(fcnet_table(f))));
    push_op(&mut batch, BatchOp::Add(NfObject::Chain(postrouting_chain(f))));
    if forwarded_guest_ip.is_some() {
        push_op(&mut batch, BatchOp::Add(NfObject::Chain(prerouting_chain(f))));
    }
    let snat = inner_snat_expr(veth2_name, guest_ip, veth2_ip, f);
    push_op(&mut batch, BatchOp::Add(NfObject::Rule(new_rule(f, NFT_POSTROUTING_CHAIN, snat))));
    if let Some(a) = forwarded_guest_ip {
        let dnat = inner_dnat_expr(veth2_name, a, guest_ip, f);
        push_op(&mut batch, BatchOp::Add(NfObject::Rule(new_rule(f, NFT_PREROUTING_CHAIN, dnat))));
    }
    assert(batch_view(batch@) =~= inner_ops_v(
        f,
        veth2_name@,
        veth2_ip,
        forwarded_guest_ip,
        guest_ip,
    ));
    batch
}

/// The nftables batch applied in the outer namespace, given its current ruleset.
pub fn outer_nf_batch(network: &FirecrackerNetwork, ns: &NamespacedData, current: &Vec<NfObject>) -> (r:
    Vec<BatchOp>)
    ensures
        batch_view(r@) == outer_ops_v(network, ns, objects_view(current@)),
{
    let f = family_from_addr(network.guest_ip.address);
    let mut batch: Vec<BatchOp> = Vec::new();
    assert(batch_view(batch@) =~= Seq::<BatchOpV>::empty());
    add_base_chains_if_needed(f, current, &mut batch);
    let masq = outer_masq_expr(network, ns);
    push_op(&mut batch, BatchOp::Add(NfObject::Rule(new_rule(f, NFT_POSTROUTING_CHAIN, masq))));
    let ingress = outer_ingress_forward_expr(network, ns);
    push_op(&mut batch, BatchOp::Add(NfObject::Rule(new_rule(f, NFT_FILTER_CHAIN, ingress))));
    let egress = outer_egress_forward_expr(network, ns);
    push_op(&mut batch, BatchOp::Add(NfObject::Rule(new_rule(f, NFT_FILTER_CHAIN, egress))));
    assert(batch_view(batch@) =~= outer_ops_v(network, ns, objects_view(current@)));
    batch
}

} // verus!
