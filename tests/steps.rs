use fcnet::model::{
    FirecrackerNetwork, FirecrackerNetworkError, FirecrackerNetworkObjectType,
    FirecrackerNetworkOperation, IpAddr, IpInet, NamespacedData,
};
use fcnet::namespaced::Route;
use fcnet::steps::{namespaced_next, simple_next, Action, Event, NamespacedPhase, SimplePhase};

fn v4(a: u8, b: u8, c: u8, d: u8) -> IpAddr {
    IpAddr::V4(u32::from_be_bytes([a, b, c, d]))
}

fn network() -> FirecrackerNetwork {
    FirecrackerNetwork {
        nft_path: None,
        iface_name: "eth0".to_string(),
        tap_name: "tap0".to_string(),
        tap_ip: IpInet { address: v4(172, 16, 0, 1), prefix_len: 30 },
        guest_ip: IpInet { address: v4(172, 16, 0, 2), prefix_len: 30 },
    }
}

fn namespaced(forwarded: Option<IpAddr>) -> NamespacedData {
    NamespacedData {
        netns_name: "fcns0".to_string(),
        veth1_name: "vh0".to_string(),
        veth2_name: "vg0".to_string(),
        veth1_ip: IpInet { address: v4(10, 0, 0, 1), prefix_len: 30 },
        veth2_ip: IpInet { address: v4(10, 0, 0, 2), prefix_len: 30 },
        forwarded_guest_ip: forwarded,
    }
}

/// A kernel that answers every action with success, a fixed link index and an empty ruleset.
fn answer(action: &Action) -> Event {
    match action {
        Action::LookupLink { .. } => Event::LinkIndex(Some(3)),
        Action::ReadRuleset => Event::Ruleset(Vec::new()),
        _ => Event::Done,
    }
}

fn describe(action: &Action) -> String {
    match action {
        Action::CreateTap { name } => format!("tap {name}"),
        Action::CreateVethPair { veth1, veth2 } => format!("veth {veth1} {veth2}"),
        Action::LookupLink { name, .. } => format!("lookup {name}"),
        Action::AddAddress { index, .. } => format!("address {index}"),
        Action::SetVethPairUp { .. } => "veth up".to_string(),
        Action::SetLinkUp { index } => format!("up {index}"),
        Action::MoveLinkToNetns { index, netns } => format!("move {index} {netns}"),
        Action::EnterNetns { netns } => format!("enter {netns}"),
        Action::LeaveNetns => "leave".to_string(),
        Action::AddRoute(r) => format!("route {:?}", r.destination.is_some()),
        Action::DeleteLink { index } => format!("delete {index}"),
        Action::ReadRuleset => "list".to_string(),
        Action::ApplyBatch(b) => format!("apply {}", b.len()),
        Action::Finish(r) => format!("finish {:?}", r.is_ok()),
    }
}

fn run_simple(op: FirecrackerNetworkOperation) -> (Vec<String>, Result<(), FirecrackerNetworkError>) {
    let n = network();
    let mut phase = SimplePhase::Start;
    let mut event = Event::Begin;
    let mut seen = Vec::new();
    loop {
        let (next, action) = simple_next(&n, op, phase, event);
        phase = next;
        seen.push(describe(&action));
        if let Action::Finish(r) = action {
            return (seen, r);
        }
        event = answer(&action);
    }
}

#[test]
fn simple_add_steps_in_order() {
    let (seen, result) = run_simple(FirecrackerNetworkOperation::Add);
    assert_eq!(result, Ok(()));
    assert_eq!(seen, vec!["tap tap0", "lookup tap0", "address 3", "list", "apply 5", "finish true"]);
}

#[test]
fn simple_delete_on_empty_ruleset_reports_forward_rule() {
    let (seen, result) = run_simple(FirecrackerNetworkOperation::Delete);
    assert_eq!(seen, vec!["lookup tap0", "delete 3", "list", "finish false"]);
    assert_eq!(
        result,
        Err(FirecrackerNetworkError::ObjectNotFound(FirecrackerNetworkObjectType::NfEgressForwardRule))
    );
}

#[test]
fn simple_check_only_reads() {
    let (seen, result) = run_simple(FirecrackerNetworkOperation::Check);
    assert_eq!(seen, vec!["lookup tap0", "list", "finish false"]);
    assert_eq!(result, Err(FirecrackerNetworkError::ObjectNotFound(FirecrackerNetworkObjectType::NfTable)));
}

#[test]
fn simple_check_missing_tap_stops_before_ruleset() {
    let n = network();
    let (phase, action) = simple_next(&n, FirecrackerNetworkOperation::Check, SimplePhase::Start, Event::Begin);
    assert!(matches!(action, Action::LookupLink { .. }));
    let (_, action) = simple_next(&n, FirecrackerNetworkOperation::Check, phase, Event::LinkIndex(None));
    assert!(matches!(
        action,
        Action::Finish(Err(FirecrackerNetworkError::ObjectNotFound(FirecrackerNetworkObjectType::Tap)))
    ));
}

#[test]
fn simple_add_mixed_family_changes_nothing() {
    let mut n = network();
    n.tap_ip = IpInet { address: IpAddr::V6(1), prefix_len: 64 };
    let (_, action) = simple_next(&n, FirecrackerNetworkOperation::Add, SimplePhase::Start, Event::Begin);
    assert!(matches!(action, Action::Finish(Err(FirecrackerNetworkError::ForbiddenDualStackInRoute))));
}

fn run_namespaced(ns: &NamespacedData, fail_at: Option<&str>) -> (Vec<String>, Result<(), FirecrackerNetworkError>) {
    let n = network();
    let mut phase = NamespacedPhase::Start;
    let mut event = Event::Begin;
    let mut seen = Vec::new();
    loop {
        let (next, action) = namespaced_next(&n, ns, phase, event);
        phase = next;
        let d = describe(&action);
        seen.push(d.clone());
        if let Action::Finish(r) = action {
            return (seen, r);
        }
        event = if fail_at == Some(d.as_str()) {
            Event::Failed(FirecrackerNetworkError::NetlinkOperationError("refused".to_string()))
        } else {
            answer(&action)
        };
    }
}

#[test]
fn namespaced_add_steps_in_order() {
    let (seen, result) = run_namespaced(&namespaced(Some(v4(192, 0, 2, 7))), None);
    assert_eq!(result, Ok(()));
    assert_eq!(
        seen,
        vec![
            "veth vh0 vg0", "lookup vh0", "address 3", "veth up", "lookup vg0", "move 3 fcns0",
            "enter fcns0", "tap tap0", "lookup vg0", "address 3", "up 3", "route false",
            "lookup tap0", "address 3", "up 3", "apply 5", "leave", "list", "apply 6",
            "route true", "finish true",
        ]
    );
}

#[test]
fn namespaced_add_without_forwarding_has_no_host_route() {
    let (seen, result) = run_namespaced(&namespaced(None), None);
    assert_eq!(result, Ok(()));
    assert_eq!(seen[15], "apply 3");
    assert_eq!(seen.last().map(String::as_str), Some("finish true"));
    assert!(!seen.contains(&"route true".to_string()));
}

#[test]
fn namespaced_failure_inside_leaves_namespace_first() {
    let (seen, result) = run_namespaced(&namespaced(None), Some("tap tap0"));
    assert_eq!(&seen[seen.len() - 2..], &["leave".to_string(), "finish false".to_string()]);
    assert_eq!(result, Err(FirecrackerNetworkError::NetlinkOperationError("refused".to_string())));
}

#[test]
fn namespaced_dual_stack_rejected_before_any_change() {
    let ns = namespaced(Some(IpAddr::V6(0x2001_0db8_0000_0000_0000_0000_0000_0007)));
    let (seen, result) = run_namespaced(&ns, None);
    assert_eq!(seen, vec!["finish false"]);
    assert_eq!(result, Err(FirecrackerNetworkError::ForbiddenDualStackInRoute));
}

#[test]
fn namespaced_forward_route_goes_through_veth2() {
    let n = network();
    let ns = namespaced(Some(v4(192, 0, 2, 7)));
    let (_, action) = namespaced_next(&n, &ns, NamespacedPhase::AwaitOuterApply, Event::Done);
    match action {
        Action::AddRoute(Route { destination: Some(d), gateway }) => {
            assert_eq!(d, IpInet { address: v4(192, 0, 2, 7), prefix_len: 32 });
            assert_eq!(gateway, v4(10, 0, 0, 2));
        }
        other => panic!("unexpected {:?}", other),
    }
}
