use fcnet::model::{
    AddrField, BatchOp, Chain, FirecrackerNetwork, FirecrackerNetworkError,
    FirecrackerNetworkObjectType, Hook, IpAddr, IpInet, MetaKey, NamespacedData, NfFamily,
    NfObject, Proto, Rule, Statement, Table, NFT_FILTER_CHAIN, NFT_POSTROUTING_CHAIN,
    NFT_PREROUTING_CHAIN, NFT_TABLE,
};
use fcnet::namespaced::{
    inner_default_route, inner_nf_batch, outer_forward_route, outer_nf_batch, validate_namespaced,
    Route,
};
use fcnet::rules::{forward_expr, masq_expr, outer_masq_expr};
use fcnet::ruleset::{check_base_chains, find_rule_handle};
use fcnet::simple::{add_batch, check_ruleset, delete_batch, link_index, validate};

fn v4(a: u8, b: u8, c: u8, d: u8) -> IpAddr {
    IpAddr::V4(u32::from_be_bytes([a, b, c, d]))
}

fn inet(address: IpAddr, prefix_len: u8) -> IpInet {
    IpInet { address, prefix_len }
}

fn simple_network() -> FirecrackerNetwork {
    FirecrackerNetwork {
        nft_path: None,
        iface_name: "eth0".to_string(),
        tap_name: "tap0".to_string(),
        tap_ip: inet(v4(172, 16, 0, 1), 30),
        guest_ip: inet(v4(172, 16, 0, 2), 30),
    }
}

fn namespaced_data(forwarded: Option<IpAddr>) -> NamespacedData {
    NamespacedData {
        netns_name: "fcns0".to_string(),
        veth1_name: "vh0".to_string(),
        veth2_name: "vg0".to_string(),
        veth1_ip: inet(v4(10, 0, 0, 1), 30),
        veth2_ip: inet(v4(10, 0, 0, 2), 30),
        forwarded_guest_ip: forwarded,
    }
}

/// What the kernel does with a batch: adds append (rules get the next handle, existing tables
/// and chains stay as they are), deletes remove the rule of that handle.
fn apply(objs: &mut Vec<NfObject>, batch: &[BatchOp], next_handle: &mut u64) {
    for op in batch {
        match op {
            BatchOp::Add(NfObject::Rule(r)) => {
                let mut r = r.clone();
                r.handle = Some(*next_handle);
                *next_handle += 1;
                objs.push(NfObject::Rule(r));
            }
            BatchOp::Add(NfObject::Table(t)) => {
                let exists = objs.iter().any(|o| {
                    matches!(o, NfObject::Table(x) if x.family == t.family && x.name == t.name)
                });
                if !exists {
                    objs.push(NfObject::Table(t.clone()));
                }
            }
            BatchOp::Add(NfObject::Chain(c)) => {
                let exists = objs.iter().any(|o| {
                    matches!(o, NfObject::Chain(x) if x.family == c.family && x.table == c.table && x.name == c.name)
                });
                if !exists {
                    objs.push(NfObject::Chain(c.clone()));
                }
            }
            BatchOp::Delete(NfObject::Rule(r)) => objs.retain(|o| {
                !matches!(o, NfObject::Rule(x) if x.table == r.table && x.chain == r.chain && x.handle == r.handle)
            }),
            BatchOp::Delete(_) => {}
        }
    }
}

fn added_rule<'a>(batch: &'a [BatchOp], chain: &str) -> Vec<&'a Rule> {
    batch
        .iter()
        .filter_map(|op| match op {
            BatchOp::Add(NfObject::Rule(r)) if r.chain == chain => Some(r),
            _ => None,
        })
        .collect()
}

fn count_base_objects(batch: &[BatchOp]) -> usize {
    batch
        .iter()
        .filter(|op| matches!(op, BatchOp::Add(NfObject::Table(_)) | BatchOp::Add(NfObject::Chain(_))))
        .count()
}

#[test]
fn simple_add_ipv4_rules() {
    let n = simple_network();
    let batch = add_batch(&n, &Vec::new());
    assert_eq!(batch.len(), 5);
    match &batch[0] {
        BatchOp::Add(NfObject::Table(t)) => {
            assert_eq!(t.name, "fcnet");
            assert_eq!(t.family, NfFamily::IP);
        }
        other => panic!("unexpected {:?}", other),
    }
    match &batch[1] {
        BatchOp::Add(NfObject::Chain(c)) => {
            assert_eq!(c.name, NFT_POSTROUTING_CHAIN);
            assert_eq!(c.hook, Some(Hook::Postrouting));
            assert_eq!(c.prio, Some(100));
        }
        other => panic!("unexpected {:?}", other),
    }
    match &batch[2] {
        BatchOp::Add(NfObject::Chain(c)) => {
            assert_eq!(c.name, NFT_FILTER_CHAIN);
            assert_eq!(c.hook, Some(Hook::Forward));
            assert_eq!(c.prio, Some(0));
        }
        other => panic!("unexpected {:?}", other),
    }
    let fwd = added_rule(&batch, NFT_FILTER_CHAIN);
    assert_eq!(fwd.len(), 1);
    assert_eq!(fwd[0].table, NFT_TABLE);
    assert!(matches!(&fwd[0].expr[0], Statement::MatchMeta { key: MetaKey::Iifname, value } if value == "tap0"));
    assert!(matches!(&fwd[0].expr[1], Statement::MatchMeta { key: MetaKey::Oifname, value } if value == "eth0"));
    assert!(matches!(fwd[0].expr[2], Statement::Accept));
    let masq = added_rule(&batch, NFT_POSTROUTING_CHAIN);
    assert_eq!(masq.len(), 1);
    assert!(matches!(
        masq[0].expr[0],
        Statement::MatchAddr { proto: Proto::Ip, field: AddrField::Saddr, addr } if addr == v4(172, 16, 0, 2)
    ));
    assert!(matches!(&masq[0].expr[1], Statement::MatchMeta { key: MetaKey::Oifname, value } if value == "eth0"));
    assert!(matches!(masq[0].expr[2], Statement::Masquerade));
}

#[test]
fn simple_delete_after_add() {
    let n = simple_network();
    let mut objs = Vec::new();
    let mut handle = 1u64;
    let batch = add_batch(&n, &objs);
    apply(&mut objs, &batch, &mut handle);
    let del = delete_batch(&n, &objs).expect("both rules are present");
    assert_eq!(del.len(), 2);
    match (&del[0], &del[1]) {
        (BatchOp::Delete(NfObject::Rule(f)), BatchOp::Delete(NfObject::Rule(m))) => {
            assert_eq!(f.chain, NFT_FILTER_CHAIN);
            assert_eq!(f.handle, Some(1));
            assert_eq!(m.chain, NFT_POSTROUTING_CHAIN);
            assert_eq!(m.handle, Some(2));
        }
        other => panic!("unexpected {:?}", other),
    }
    apply(&mut objs, &del, &mut handle);
    assert!(objs.iter().all(|o| !matches!(o, NfObject::Rule(_))));
    // The TAP is gone after the first Delete: the second one stops at the lookup.
    assert_eq!(
        link_index(None, FirecrackerNetworkObjectType::Tap),
        Err(FirecrackerNetworkError::ObjectNotFound(FirecrackerNetworkObjectType::Tap))
    );
}

#[test]
fn simple_check_missing_tap() {
    assert_eq!(
        link_index(None, FirecrackerNetworkObjectType::Tap),
        Err(FirecrackerNetworkError::ObjectNotFound(FirecrackerNetworkObjectType::Tap))
    );
    assert_eq!(link_index(Some(7), FirecrackerNetworkObjectType::Tap), Ok(7));
}

#[test]
fn namespaced_add_without_forwarding() {
    let n = simple_network();
    let ns = namespaced_data(None);
    assert_eq!(validate_namespaced(&n, &ns), Ok(()));
    assert_eq!(inner_default_route(&ns), Ok(Route { destination: None, gateway: v4(10, 0, 0, 1) }));
    assert_eq!(outer_forward_route(&ns), Ok(None));
    let inner = inner_nf_batch(NfFamily::IP, &ns.veth2_name, ns.veth2_ip, None, n.guest_ip);
    assert_eq!(inner.len(), 3);
    assert!(inner.iter().all(|op| !matches!(op, BatchOp::Add(NfObject::Chain(c)) if c.name == NFT_PREROUTING_CHAIN)));
    let snat = added_rule(&inner, NFT_POSTROUTING_CHAIN);
    assert_eq!(snat.len(), 1);
    assert!(matches!(
        snat[0].expr[0],
        Statement::MatchAddr { proto: Proto::Ip, field: AddrField::Saddr, addr } if addr == v4(172, 16, 0, 2)
    ));
    assert!(matches!(&snat[0].expr[1], Statement::MatchMeta { key: MetaKey::Oifname, value } if value == "vg0"));
    assert!(matches!(snat[0].expr[2], Statement::Snat { proto: Proto::Ip, addr } if addr == v4(10, 0, 0, 2)));
    let outer = outer_nf_batch(&n, &ns, &Vec::new());
    assert_eq!(count_base_objects(&outer), 3);
    assert_eq!(added_rule(&outer, NFT_POSTROUTING_CHAIN).len(), 1);
    let fwd = added_rule(&outer, NFT_FILTER_CHAIN);
    assert_eq!(fwd.len(), 2);
    assert!(matches!(&fwd[0].expr[0], Statement::MatchMeta { key: MetaKey::Iifname, value } if value == "eth0"));
    assert!(matches!(&fwd[0].expr[1], Statement::MatchMeta { key: MetaKey::Oifname, value } if value == "vh0"));
    assert!(matches!(fwd[0].expr[2], Statement::Accept));
    assert_eq!(fwd[1].expr.len(), 3);
    assert!(matches!(&fwd[1].expr[0], Statement::MatchMeta { key: MetaKey::Iifname, value } if value == "vh0"));
}

#[test]
fn namespaced_add_with_forwarding() {
    let n = simple_network();
    let fwd_ip = v4(192, 0, 2, 7);
    let ns = namespaced_data(Some(fwd_ip));
    assert_eq!(validate_namespaced(&n, &ns), Ok(()));
    assert_eq!(
        outer_forward_route(&ns),
        Ok(Some(Route { destination: Some(inet(fwd_ip, 32)), gateway: v4(10, 0, 0, 2) }))
    );
    let inner = inner_nf_batch(NfFamily::IP, &ns.veth2_name, ns.veth2_ip, Some(fwd_ip), n.guest_ip);
    assert_eq!(inner.len(), 5);
    assert!(inner.iter().any(|op| matches!(op, BatchOp::Add(NfObject::Chain(c)) if c.name == NFT_PREROUTING_CHAIN && c.prio == Some(-100))));
    let dnat = added_rule(&inner, NFT_PREROUTING_CHAIN);
    assert_eq!(dnat.len(), 1);
    assert!(matches!(
        dnat[0].expr[0],
        Statement::MatchAddr { proto: Proto::Ip, field: AddrField::Daddr, addr } if addr == fwd_ip
    ));
    assert!(matches!(&dnat[0].expr[1], Statement::MatchMeta { key: MetaKey::Iifname, value } if value == "vg0"));
    assert!(matches!(dnat[0].expr[2], Statement::Dnat { proto: Proto::Ip, addr } if addr == v4(172, 16, 0, 2)));
}

#[test]
fn namespaced_dual_stack_rejected() {
    let n = simple_network();
    let ns = namespaced_data(Some(IpAddr::V6(0x2001_0db8_0000_0000_0000_0000_0000_0007)));
    assert_eq!(validate_namespaced(&n, &ns), Err(FirecrackerNetworkError::ForbiddenDualStackInRoute));
    assert_eq!(outer_forward_route(&ns), Err(FirecrackerNetworkError::ForbiddenDualStackInRoute));
}

#[test]
fn second_add_adds_no_base_objects() {
    let n = simple_network();
    let mut objs = Vec::new();
    let mut handle = 1u64;
    let first = add_batch(&n, &objs);
    apply(&mut objs, &first, &mut handle);
    let second = add_batch(&n, &objs);
    assert_eq!(count_base_objects(&second), 0);
    apply(&mut objs, &second, &mut handle);
    let tables = objs.iter().filter(|o| matches!(o, NfObject::Table(_))).count();
    let chains = objs.iter().filter(|o| matches!(o, NfObject::Chain(_))).count();
    assert_eq!(tables, 1);
    assert_eq!(chains, 2);
}

#[test]
fn existing_masquerade_not_duplicated() {
    let n = simple_network();
    let objs = vec![NfObject::Rule(Rule {
        family: NfFamily::IP,
        table: NFT_TABLE.to_string(),
        chain: NFT_POSTROUTING_CHAIN.to_string(),
        expr: masq_expr(&n),
        handle: Some(4),
    })];
    let batch = add_batch(&n, &objs);
    assert_eq!(added_rule(&batch, NFT_FILTER_CHAIN).len(), 1);
    assert_eq!(added_rule(&batch, NFT_POSTROUTING_CHAIN).len(), 0);
}

#[test]
fn check_leaves_ruleset_and_reports() {
    let n = simple_network();
    let mut objs = Vec::new();
    let mut handle = 1u64;
    let batch = add_batch(&n, &objs);
    apply(&mut objs, &batch, &mut handle);
    let before = format!("{:?}", objs);
    assert_eq!(check_ruleset(&n, &objs), Ok(()));
    assert_eq!(format!("{:?}", objs), before);
}

#[test]
fn check_reports_each_missing_object() {
    let n = simple_network();
    let nf = |k| Err(FirecrackerNetworkError::ObjectNotFound(k));
    let mut objs: Vec<NfObject> = Vec::new();
    assert_eq!(check_base_chains(NfFamily::IP, &objs), nf(FirecrackerNetworkObjectType::NfTable));
    objs.push(NfObject::Table(Table { family: NfFamily::IP, name: NFT_TABLE.to_string() }));
    assert_eq!(check_ruleset(&n, &objs), nf(FirecrackerNetworkObjectType::NfPostroutingChain));
    let chain = |name: &str, hook| Chain {
        family: NfFamily::IP,
        table: NFT_TABLE.to_string(),
        name: name.to_string(),
        chain_type: None,
        hook: Some(hook),
        prio: None,
        policy: None,
    };
    objs.push(NfObject::Chain(chain(NFT_POSTROUTING_CHAIN, Hook::Postrouting)));
    assert_eq!(check_ruleset(&n, &objs), nf(FirecrackerNetworkObjectType::NfFilterChain));
    objs.push(NfObject::Chain(chain(NFT_FILTER_CHAIN, Hook::Forward)));
    assert_eq!(check_ruleset(&n, &objs), nf(FirecrackerNetworkObjectType::NfMasqueradeRule));
    objs.push(NfObject::Rule(Rule {
        family: NfFamily::IP,
        table: NFT_TABLE.to_string(),
        chain: NFT_POSTROUTING_CHAIN.to_string(),
        expr: masq_expr(&n),
        handle: Some(1),
    }));
    assert_eq!(check_ruleset(&n, &objs), nf(FirecrackerNetworkObjectType::NfEgressForwardRule));
    assert_eq!(delete_batch(&n, &objs).err(), Some(FirecrackerNetworkError::ObjectNotFound(FirecrackerNetworkObjectType::NfEgressForwardRule)));
    objs.push(NfObject::Rule(Rule {
        family: NfFamily::IP,
        table: NFT_TABLE.to_string(),
        chain: NFT_FILTER_CHAIN.to_string(),
        expr: forward_expr(&n),
        handle: Some(2),
    }));
    assert_eq!(check_ruleset(&n, &objs), Ok(()));
    objs.remove(3);
    assert_eq!(delete_batch(&n, &objs).err(), Some(FirecrackerNetworkError::ObjectNotFound(FirecrackerNetworkObjectType::NfMasqueradeRule)));
}

#[test]
fn find_rule_handle_takes_first_match() {
    let n = simple_network();
    let rule = |h| {
        NfObject::Rule(Rule {
            family: NfFamily::IP,
            table: NFT_TABLE.to_string(),
            chain: NFT_FILTER_CHAIN.to_string(),
            expr: forward_expr(&n),
            handle: Some(h),
        })
    };
    let objs = vec![rule(9), rule(3)];
    let h = find_rule_handle(&objs, &NFT_TABLE.to_string(), &NFT_FILTER_CHAIN.to_string(), &forward_expr(&n));
    assert_eq!(h, Some(9));
    let other = find_rule_handle(&objs, &NFT_TABLE.to_string(), &NFT_POSTROUTING_CHAIN.to_string(), &forward_expr(&n));
    assert_eq!(other, None);
}

#[test]
fn simple_family_mix_rejected() {
    let mut n = simple_network();
    assert_eq!(validate(&n), Ok(()));
    n.tap_ip = inet(IpAddr::V6(1), 64);
    assert_eq!(validate(&n), Err(FirecrackerNetworkError::ForbiddenDualStackInRoute));
    let mut ns = namespaced_data(None);
    let n = simple_network();
    ns.veth1_ip = inet(IpAddr::V6(1), 64);
    assert_eq!(validate_namespaced(&n, &ns), Err(FirecrackerNetworkError::ForbiddenDualStackInRoute));
    assert_eq!(inner_default_route(&ns), Err(FirecrackerNetworkError::ForbiddenDualStackInRoute));
}

#[test]
fn outer_masquerade_matches_veth_subnet() {
    let n = simple_network();
    let ns = namespaced_data(None);
    let expr = outer_masq_expr(&n, &ns);
    assert!(matches!(
        expr[0],
        Statement::MatchPrefix { proto: Proto::Ip, field: AddrField::Saddr, addr, len: 30 } if addr == v4(10, 0, 0, 0)
    ));
    assert!(matches!(&expr[1], Statement::MatchMeta { key: MetaKey::Oifname, value } if value == "eth0"));
}

#[test]
fn ipv6_forward_route_is_host_route() {
    let ns = NamespacedData {
        netns_name: "fcns0".to_string(),
        veth1_name: "vh0".to_string(),
        veth2_name: "vg0".to_string(),
        veth1_ip: inet(IpAddr::V6(0xfd00_0000_0000_0000_0000_0000_0000_0001), 64),
        veth2_ip: inet(IpAddr::V6(0xfd00_0000_0000_0000_0000_0000_0000_0002), 64),
        forwarded_guest_ip: Some(IpAddr::V6(0x2001_0db8_0000_0000_0000_0000_0000_0007)),
    };
    assert_eq!(
        outer_forward_route(&ns),
        Ok(Some(Route {
            destination: Some(inet(IpAddr::V6(0x2001_0db8_0000_0000_0000_0000_0000_0007), 128)),
            gateway: IpAddr::V6(0xfd00_0000_0000_0000_0000_0000_0000_0002),
        }))
    );
}
