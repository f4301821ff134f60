use vstd::prelude::*;

use crate::model::{
    family_of, same_family, BatchOp, FirecrackerNetwork, FirecrackerNetworkError,
    FirecrackerNetworkObjectType, FirecrackerNetworkOperation, IpInet, NfObject,
};
use crate::model::{family_from_addr, NamespacedData};
use crate::namespaced::{
    families_agree, forward_route_v, inner_default_route, inner_nf_batch, inner_ops_v,
    outer_forward_route, outer_nf_batch, outer_ops_v, validate_namespaced, Route,
};
use crate::model::{batch_view, objects_view};
use crate::simple::{
    add_batch, add_ops_v, check_outcome_v, check_ruleset, delete_batch, delete_outcome_v, validate,
};

verus! {

/// One kernel request that the caller performs, or the end of an operation.
#[derive(Debug)]
pub enum Action {
    CreateTap { name: String },
    CreateVethPair { veth1: String, veth2: String },
    LookupLink { name: String, kind: FirecrackerNetworkObjectType },
    AddAddress { index: u32, inet: IpInet },
    SetVethPairUp { veth1: String, veth2: String },
    SetLinkUp { index: u32 },
    MoveLinkToNetns { index: u32, netns: String },
    EnterNetns { netns: String },
    LeaveNetns,
    AddRoute(Route),
    DeleteLink { index: u32 },
    ReadRuleset,
    ApplyBatch(Vec<BatchOp>),
    Finish(Result<(), FirecrackerNetworkError>),
}

/// What the caller reports back after performing an action.
#[derive(Debug)]
pub enum Event {
    Begin,
    Done,
    LinkIndex(Option<u32>),
    Ruleset(Vec<NfObject>),
    Failed(FirecrackerNetworkError),
}

/// Where an operation on the simple topology stands.
#[derive(Clone, Copy, Debug, PartialEq, Eq, Structural)]
pub enum SimplePhase {
    Start,
    AwaitTap,
    AwaitIndex,
    AwaitAddress,
    AwaitLinkDelete,
    AwaitRuleset,
    AwaitApply,
    Finished,
}

/// Whether an action changes kernel state.
pub open spec fn mutates(a: Action) -> bool {
    match a {
        Action::CreateTap { .. } | Action::CreateVethPair { .. } | Action::AddAddress { .. }
        | Action::SetVethPairUp { .. } | Action::SetLinkUp { .. } | Action::MoveLinkToNetns { .. }
        | Action::AddRoute(_) | Action::DeleteLink { .. } | Action::ApplyBatch(_) => true,
        _ => false,
    }
}

/// The error for an event that does not answer the pending action.
pub fn out_of_order() -> (r: FirecrackerNetworkError)
    ensures
        r is IoError,
{
    FirecrackerNetworkError::IoError("event out of order".to_string())
}

/// The next step of Add, Check or Delete on the simple topology.
///
/// Add: family check, create the TAP, look it up, give it its address, read the ruleset,
/// apply the Add batch. Delete: look the TAP up, delete it, read the ruleset, apply the
/// Delete batch. Check: look the TAP up, read the ruleset, report. Any failure ends the
/// operation with that failure.
pub fn simple_next(
    network: &FirecrackerNetwork,
    op: FirecrackerNetworkOperation,
    phase: SimplePhase,
    event: Event,
) -> (r: (SimplePhase, Action))
    ensures
        op == FirecrackerNetworkOperation::Check ==> !mutates(r.1),
        phase != SimplePhase::Finished && (event matches Event::Failed(e)) ==> r == (
            SimplePhase::Finished,
            Action::Finish(Err(event->Failed_0)),
        ),
        phase == SimplePhase::Start && event is Begin ==> match op {
            FirecrackerNetworkOperation::Add => if same_family(
                network.tap_ip.address,
                network.guest_ip.address,
            ) {
                r.0 == SimplePhase::AwaitTap && (r.1 matches Action::CreateTap { name } && name@
                    == network.tap_name@)
            } else {
                r == (
                    SimplePhase::Finished,
                    Action::Finish(Err(FirecrackerNetworkError::ForbiddenDualStackInRoute)),
                )
            },
            _ => r.0 == SimplePhase::AwaitIndex && (r.1 matches Action::LookupLink {
                name,
                kind,
            } && name@ == network.tap_name@ && kind == FirecrackerNetworkObjectType::Tap),
        },
        phase == SimplePhase::AwaitTap && event is Done ==> r.0 == SimplePhase::AwaitIndex && (
        r.1 matches Action::LookupLink { name, kind } && name@ == network.tap_name@ && kind
            == FirecrackerNetworkObjectType::Tap),
        phase == SimplePhase::AwaitIndex && (event matches Event::LinkIndex(None)) ==> r == (
            SimplePhase::Finished,
            Action::Finish(
                Err(FirecrackerNetworkError::ObjectNotFound(FirecrackerNetworkObjectType::Tap)),
            ),
        ),
        phase == SimplePhase::AwaitIndex && (event matches Event::LinkIndex(Some(i))) ==> match op {
            FirecrackerNetworkOperation::Add => r == (
                SimplePhase::AwaitAddress,
                Action::AddAddress { index: event->LinkIndex_0->Some_0, inet: network.tap_ip },
            ),
            FirecrackerNetworkOperation::Delete => r == (
                SimplePhase::AwaitLinkDelete,
                Action::DeleteLink { index: event->LinkIndex_0->Some_0 },
            ),
            FirecrackerNetworkOperation::Check => r == (
                SimplePhase::AwaitRuleset,
                Action::ReadRuleset,
            ),
        },
        (phase == SimplePhase::AwaitAddress || phase == SimplePhase::AwaitLinkDelete) && event is Done
            ==> r == (SimplePhase::AwaitRuleset, Action::ReadRuleset),
        phase == SimplePhase::AwaitRuleset && (event matches Event::Ruleset(rs)) ==> match op {
            FirecrackerNetworkOperation::Add => r.0 == SimplePhase::AwaitApply && (r.1 matches Action::ApplyBatch(
                b,
            ) && batch_view(b@) == add_ops_v(network, objects_view(event->Ruleset_0@))),
            FirecrackerNetworkOperation::Delete => match delete_outcome_v(
                network,
                objects_view(event->Ruleset_0@),
            ) {
                Ok(ops) => r.0 == SimplePhase::AwaitApply && (r.1 matches Action::ApplyBatch(b)
                    && batch_view(b@) == ops),
                Err(kind) => r == (
                    SimplePhase::Finished,
                    Action::Finish(Err(FirecrackerNetworkError::ObjectNotFound(kind))),
                ),
            },
            FirecrackerNetworkOperation::Check => r.0 == SimplePhase::Finished && match check_outcome_v(
                network,
                objects_view(event->Ruleset_0@),
            ) {
                Some(kind) => r.1 == Action::Finish(
                    Err(FirecrackerNetworkError::ObjectNotFound(kind)),
                ),
                None => r.1 == Action::Finish(Ok(())),
            },
        },
        phase == SimplePhase::AwaitApply && event is Done ==> r == (
            SimplePhase::Finished,
            Action::Finish(Ok(())),
        ),
{
    match event {
        Event::Failed(e) => {
            if phase != SimplePhase::Finished {
                return (SimplePhase::Finished, Action::Finish(Err(e)));
            }
            (SimplePhase::Finished, Action::Finish(Err(out_of_order())))
        },
        Event::Begin => {
            if phase != SimplePhase::Start {
                return (SimplePhase::Finished, Action::Finish(Err(out_of_order())));
            }
            match op {
                FirecrackerNetworkOperation::Add => match validate(network) {
                    Ok(()) => (SimplePhase::AwaitTap, Action::CreateTap { name: network.tap_name.clone() }),
                    Err(e) => (SimplePhase::Finished, Action::Finish(Err(e))),
                },
                _ => (SimplePhase::AwaitIndex, lookup_tap(network)),
            }
        },
        Event::Done => match phase {
            SimplePhase::AwaitTap => (SimplePhase::AwaitIndex, lookup_tap(network)),
            SimplePhase::AwaitAddress | SimplePhase::AwaitLinkDelete => (
                SimplePhase::AwaitRuleset,
                Action::ReadRuleset,
            ),
            SimplePhase::AwaitApply => (SimplePhase::Finished, Action::Finish(Ok(()))),
            _ => (SimplePhase::Finished, Action::Finish(Err(out_of_order()))),
        },
        Event::LinkIndex(found) => {
            if phase != SimplePhase::AwaitIndex {
                return (SimplePhase::Finished, Action::Finish(Err(out_of_order())));
            }
            match found {
                None => (
                    SimplePhase::Finished,
                    Action::Finish(
                        Err(
                            FirecrackerNetworkError::ObjectNotFound(
                                FirecrackerNetworkObjectType::Tap,
                            ),
                        ),
                    ),
                ),
                Some(index) => match op {
                    FirecrackerNetworkOperation::Add => (
                        SimplePhase::AwaitAddress,
                        Action::AddAddress { index, inet: network.tap_ip },
                    ),
                    FirecrackerNetworkOperation::Delete => (
                        SimplePhase::AwaitLinkDelete,
                        Action::DeleteLink { index },
                    ),
                    FirecrackerNetworkOperation::Check => (SimplePhase::AwaitRuleset, Action::ReadRuleset),
                },
            }
        },
        Event::Ruleset(rs) => {
            if phase != SimplePhase::AwaitRuleset {
                return (SimplePhase::Finished, Action::Finish(Err(out_of_order())));
            }
            match op {
                FirecrackerNetworkOperation::Add => (
                    SimplePhase::AwaitApply,
                    Action::ApplyBatch(add_batch(network, &rs)),
                ),
                FirecrackerNetworkOperation::Delete => match delete_batch(network, &rs) {
                    Ok(b) => (SimplePhase::AwaitApply, Action::ApplyBatch(b)),
                    Err(e) => (SimplePhase::Finished, Action::Finish(Err(e))),
                },
                FirecrackerNetworkOperation::Check => match check_ruleset(network, &rs) {
                    Ok(()) => (SimplePhase::Finished, Action::Finish(Ok(()))),
                    Err(e) => (SimplePhase::Finished, Action::Finish(Err(e))),
                },
            }
        },
    }
}

fn lookup_tap(network: &FirecrackerNetwork) -> (r: Action)
    ensures
        r matches Action::LookupLink { name, kind } && name@ == network.tap_name@ && kind
            == FirecrackerNetworkObjectType::Tap,
{
    Action::LookupLink { name: network.tap_name.clone(), kind: FirecrackerNetworkObjectType::Tap }
}

/// Where a namespaced Add stands. The phases from `AwaitTap` to `AwaitInnerApply` run inside
/// the target namespace.
#[derive(Clone, Debug)]
pub enum NamespacedPhase {
    Start,
    AwaitVeth,
    AwaitVeth1Index,
    AwaitVeth1Address,
    AwaitVethUp,
    AwaitVeth2Index,
    AwaitMove,
    AwaitEnter,
    AwaitTap,
    AwaitInnerVeth2Index,
    AwaitVeth2Address(u32),
    AwaitVeth2Up,
    AwaitDefaultRoute,
    AwaitInnerTapIndex,
    AwaitTapAddress(u32),
    AwaitTapUp,
    AwaitInnerApply,
    LeavingAfterFailure(FirecrackerNetworkError),
    AwaitLeave,
    AwaitOuterRuleset,
    AwaitOuterApply,
    AwaitForwardRoute,
    Finished,
}

/// Whether a phase runs inside the target namespace.
pub open spec fn inside_netns(p: NamespacedPhase) -> bool {
    match p {
        NamespacedPhase::AwaitTap | NamespacedPhase::AwaitInnerVeth2Index
        | NamespacedPhase::AwaitVeth2Address(_) | NamespacedPhase::AwaitVeth2Up
        | NamespacedPhase::AwaitDefaultRoute | NamespacedPhase::AwaitInnerTapIndex
        | NamespacedPhase::AwaitTapAddress(_) | NamespacedPhase::AwaitTapUp
        | NamespacedPhase::AwaitInnerApply => true,
        _ => false,
    }
}

pub open spec fn is_lookup(a: Action, name: Seq<char>, k: FirecrackerNetworkObjectType) -> bool {
    a matches Action::LookupLink { name: x, kind } && x@ == name && kind == k
}

fn lookup(name: &String, kind: FirecrackerNetworkObjectType) -> (r: Action)
    ensures
        is_lookup(r, name@, kind),
{
    Action::LookupLink { name: name.clone(), kind }
}

fn fail(phase: &NamespacedPhase, e: FirecrackerNetworkError) -> (r: (NamespacedPhase, Action))
    ensures
        inside_netns(*phase) ==> r == (NamespacedPhase::LeavingAfterFailure(e), Action::LeaveNetns),
        !inside_netns(*phase) ==> r == (NamespacedPhase::Finished, Action::Finish(Err(e))),
{
    match phase {
        NamespacedPhase::AwaitTap | NamespacedPhase::AwaitInnerVeth2Index
        | NamespacedPhase::AwaitVeth2Address(_) | NamespacedPhase::AwaitVeth2Up
        | NamespacedPhase::AwaitDefaultRoute | NamespacedPhase::AwaitInnerTapIndex
        | NamespacedPhase::AwaitTapAddress(_) | NamespacedPhase::AwaitTapUp
        | NamespacedPhase::AwaitInnerApply => (
            NamespacedPhase::LeavingAfterFailure(e),
            Action::LeaveNetns,
        ),
        _ => (NamespacedPhase::Finished, Action::Finish(Err(e))),
    }
}

/// The next step of Add on the namespaced topology.
///
/// Outside: family check, create the veth pair, give veth1 its address, bring the pair up,
/// move veth2 into the namespace, enter it. Inside: create the TAP, give veth2 its address
/// and bring it up, add the default route through veth1, give the TAP its address and bring
/// it up, apply the inner batch, leave. Outside again: read the ruleset, apply the outer
/// batch, add the route of the forwarded address if there is one.
///
/// Inside the namespace no step finishes the operation: a failure there leaves the namespace
/// first and reports the failure once out.
pub fn namespaced_next(
    network: &FirecrackerNetwork,
    ns: &NamespacedData,
    phase: NamespacedPhase,
    event: Event,
) -> (r: (NamespacedPhase, Action))
    ensures
        inside_netns(phase) ==> !(r.1 is Finish),
        inside_netns(phase) && (event matches Event::Failed(e)) ==> r == (
            NamespacedPhase::LeavingAfterFailure(event->Failed_0),
            Action::LeaveNetns,
        ),
        !inside_netns(phase) && !(phase is Finished) && (event matches Event::Failed(e)) ==> r == (
            NamespacedPhase::Finished,
            Action::Finish(Err(event->Failed_0)),
        ),
        (phase matches NamespacedPhase::LeavingAfterFailure(e)) && !(event is Failed) ==> r == (
            NamespacedPhase::Finished,
            Action::Finish(Err(phase->LeavingAfterFailure_0)),
        ),
        phase is Start && event is Begin ==> if families_agree(network, ns) {
            r.0 is AwaitVeth && (r.1 matches Action::CreateVethPair { veth1, veth2 } && veth1@
                == ns.veth1_name@ && veth2@ == ns.veth2_name@)
        } else {
            r == (
                NamespacedPhase::Finished,
                Action::Finish(Err(FirecrackerNetworkError::ForbiddenDualStackInRoute)),
            )
        },
        phase is AwaitVeth && event is Done ==> r.0 is AwaitVeth1Index && is_lookup(
            r.1,
            ns.veth1_name@,
            FirecrackerNetworkObjectType::Veth,
        ),
        (phase is AwaitVeth1Index || phase is AwaitVeth2Index || phase is AwaitInnerVeth2Index)
            && (event matches Event::LinkIndex(None)) ==> r == fail_v(
            phase,
            FirecrackerNetworkError::ObjectNotFound(FirecrackerNetworkObjectType::Veth),
        ),
        phase is AwaitInnerTapIndex && (event matches Event::LinkIndex(None)) ==> r == fail_v(
            phase,
            FirecrackerNetworkError::ObjectNotFound(FirecrackerNetworkObjectType::Tap),
        ),
        phase is AwaitVeth1Index && (event matches Event::LinkIndex(Some(i))) ==> r == (
            NamespacedPhase::AwaitVeth1Address,
            Action::AddAddress { index: event->LinkIndex_0->Some_0, inet: ns.veth1_ip },
        ),
        phase is AwaitVeth1Address && event is Done ==> r.0 is AwaitVethUp && (r.1 matches Action::SetVethPairUp {
            veth1,
            veth2,
        } && veth1@ == ns.veth1_name@ && veth2@ == ns.veth2_name@),
        phase is AwaitVethUp && event is Done ==> r.0 is AwaitVeth2Index && is_lookup(
            r.1,
            ns.veth2_name@,
            FirecrackerNetworkObjectType::Veth,
        ),
        phase is AwaitVeth2Index && (event matches Event::LinkIndex(Some(i))) ==> r.0 is AwaitMove
            && (r.1 matches Action::MoveLinkToNetns { index, netns } && index
            == event->LinkIndex_0->Some_0 && netns@ == ns.netns_name@),
        phase is AwaitMove && event is Done ==> r.0 is AwaitEnter && (r.1 matches Action::EnterNetns {
            netns,
        } && netns@ == ns.netns_name@),
        phase is AwaitEnter && event is Done ==> r.0 is AwaitTap && (r.1 matches Action::CreateTap {
            name,
        } && name@ == network.tap_name@),
        phase is AwaitTap && event is Done ==> r.0 is AwaitInnerVeth2Index && is_lookup(
            r.1,
            ns.veth2_name@,
            FirecrackerNetworkObjectType::Veth,
        ),
        phase is AwaitInnerVeth2Index && (event matches Event::LinkIndex(Some(i))) ==> r == (
            NamespacedPhase::AwaitVeth2Address(event->LinkIndex_0->Some_0),
            Action::AddAddress { index: event->LinkIndex_0->Some_0, inet: ns.veth2_ip },
        ),
        (phase matches NamespacedPhase::AwaitVeth2Address(i)) && event is Done ==> r == (
            NamespacedPhase::AwaitVeth2Up,
            Action::SetLinkUp { index: phase->AwaitVeth2Address_0 },
        ),
        phase is AwaitVeth2Up && event is Done ==> if same_family(
            ns.veth1_ip.address,
            ns.veth2_ip.address,
        ) {
            r == (
                NamespacedPhase::AwaitDefaultRoute,
                Action::AddRoute(Route { destination: None, gateway: ns.veth1_ip.address }),
            )
        } else {
            r == fail_v(phase, FirecrackerNetworkError::ForbiddenDualStackInRoute)
        },
        phase is AwaitDefaultRoute && event is Done ==> r.0 is AwaitInnerTapIndex && is_lookup(
            r.1,
            network.tap_name@,
            FirecrackerNetworkObjectType::Tap,
        ),
        phase is AwaitInnerTapIndex && (event matches Event::LinkIndex(Some(i))) ==> r == (
            NamespacedPhase::AwaitTapAddress(event->LinkIndex_0->Some_0),
            Action::AddAddress { index: event->LinkIndex_0->Some_0, inet: network.tap_ip },
        ),
        (phase matches NamespacedPhase::AwaitTapAddress(i)) && event is Done ==> r == (
            NamespacedPhase::AwaitTapUp,
            Action::SetLinkUp { index: phase->AwaitTapAddress_0 },
        ),
        phase is AwaitTapUp && event is Done ==> r.0 is AwaitInnerApply && (r.1 matches Action::ApplyBatch(
            b,
        ) && batch_view(b@) == inner_ops_v(
            family_of(network.guest_ip.address),
            ns.veth2_name@,
            ns.veth2_ip,
            ns.forwarded_guest_ip,
            network.guest_ip,
        )),
        phase is AwaitInnerApply && event is Done ==> r == (
            NamespacedPhase::AwaitLeave,
            Action::LeaveNetns,
        ),
        phase is AwaitLeave && event is Done ==> r == (
            NamespacedPhase::AwaitOuterRuleset,
            Action::ReadRuleset,
        ),
        phase is AwaitOuterRuleset && (event matches Event::Ruleset(rs)) ==> r.0 is AwaitOuterApply
            && (r.1 matches Action::ApplyBatch(b) && batch_view(b@) == outer_ops_v(
            network,
            ns,
            objects_view(event->Ruleset_0@),
        )),
        phase is AwaitOuterApply && event is Done ==> match ns.forwarded_guest_ip {
            None => r == (NamespacedPhase::Finished, Action::Finish(Ok(()))),
            Some(a) => if same_family(a, ns.veth2_ip.address) {
                r == (
                    NamespacedPhase::AwaitForwardRoute,
                    Action::AddRoute(forward_route_v(a, ns.veth2_ip)),
                )
            } else {
                r == (
                    NamespacedPhase::Finished,
                    Action::Finish(Err(FirecrackerNetworkError::ForbiddenDualStackInRoute)),
                )
            },
        },
        phase is AwaitForwardRoute && event is Done ==> r == (
            NamespacedPhase::Finished,
            Action::Finish(Ok(())),
        ),
{
    let out = out_of_order();
    match event {
        Event::Failed(e) => {
            if let NamespacedPhase::Finished = phase {
                return (NamespacedPhase::Finished, Action::Finish(Err(out)));
            }
            fail(&phase, e)
        },
        Event::Begin => match phase {
            NamespacedPhase::Start => match validate_namespaced(network, ns) {
                Ok(()) => (
                    NamespacedPhase::AwaitVeth,
                    Action::CreateVethPair {
                        veth1: ns.veth1_name.clone(),
                        veth2: ns.veth2_name.clone(),
                    },
                ),
                Err(e) => (NamespacedPhase::Finished, Action::Finish(Err(e))),
            },
            NamespacedPhase::LeavingAfterFailure(e) => (NamespacedPhase::Finished, Action::Finish(Err(e))),
            _ => fail(&phase, out),
        },
        Event::LinkIndex(found) => match (phase, found) {
            (NamespacedPhase::AwaitVeth1Index, Some(index)) => (
                NamespacedPhase::AwaitVeth1Address,
                Action::AddAddress { index, inet: ns.veth1_ip },
            ),
            (NamespacedPhase::AwaitVeth2Index, Some(index)) => (
                NamespacedPhase::AwaitMove,
                Action::MoveLinkToNetns { index, netns: ns.netns_name.clone() },
            ),
            (NamespacedPhase::AwaitInnerVeth2Index, Some(index)) => (
                NamespacedPhase::AwaitVeth2Address(index),
                Action::AddAddress { index, inet: ns.veth2_ip },
            ),
            (NamespacedPhase::AwaitInnerTapIndex, Some(index)) => (
                NamespacedPhase::AwaitTapAddress(index),
                Action::AddAddress { index, inet: network.tap_ip },
            ),
            (NamespacedPhase::AwaitInnerTapIndex, None) => fail(
                &NamespacedPhase::AwaitInnerTapIndex,
                FirecrackerNetworkError::ObjectNotFound(FirecrackerNetworkObjectType::Tap),
            ),
            (NamespacedPhase::LeavingAfterFailure(e), _) => (NamespacedPhase::Finished, Action::Finish(Err(e))),
            (p, None) => {
                if matches!(p, NamespacedPhase::AwaitVeth1Index | NamespacedPhase::AwaitVeth2Index | NamespacedPhase::AwaitInnerVeth2Index) {
                    fail(&p, FirecrackerNetworkError::ObjectNotFound(FirecrackerNetworkObjectType::Veth))
                } else {
                    fail(&p, out)
                }
            },
            (p, Some(_)) => fail(&p, out),
        },
        Event::Ruleset(rs) => match phase {
            NamespacedPhase::AwaitOuterRuleset => (
                NamespacedPhase::AwaitOuterApply,
                Action::ApplyBatch(outer_nf_batch(network, ns, &rs)),
            ),
            NamespacedPhase::LeavingAfterFailure(e) => (NamespacedPhase::Finished, Action::Finish(Err(e))),
            _ => fail(&phase, out),
        },
        Event::Done => match phase {
            NamespacedPhase::AwaitVeth => (NamespacedPhase::AwaitVeth1Index, lookup(&ns.veth1_name, FirecrackerNetworkObjectType::Veth)),
            NamespacedPhase::AwaitVeth1Address => (
                NamespacedPhase::AwaitVethUp,
                Action::SetVethPairUp { veth1: ns.veth1_name.clone(), veth2: ns.veth2_name.clone() },
            ),
            NamespacedPhase::AwaitVethUp => (NamespacedPhase::AwaitVeth2Index, lookup(&ns.veth2_name, FirecrackerNetworkObjectType::Veth)),
            NamespacedPhase::AwaitMove => (
                NamespacedPhase::AwaitEnter,
                Action::EnterNetns { netns: ns.netns_name.clone() },
            ),
            NamespacedPhase::AwaitEnter => (
                NamespacedPhase::AwaitTap,
                Action::CreateTap { name: network.tap_name.clone() },
            ),
            NamespacedPhase::AwaitTap => (NamespacedPhase::AwaitInnerVeth2Index, lookup(&ns.veth2_name, FirecrackerNetworkObjectType::Veth)),
            NamespacedPhase::AwaitVeth2Address(index) => (NamespacedPhase::AwaitVeth2Up, Action::SetLinkUp { index }),
            NamespacedPhase::AwaitVeth2Up => match inner_default_route(ns) {
                Ok(route) => (NamespacedPhase::AwaitDefaultRoute, Action::AddRoute(route)),
                Err(e) => fail(&NamespacedPhase::AwaitVeth2Up, e),
            },
            NamespacedPhase::AwaitDefaultRoute => (NamespacedPhase::AwaitInnerTapIndex, lookup(&network.tap_name, FirecrackerNetworkObjectType::Tap)),
            NamespacedPhase::AwaitTapAddress(index) => (NamespacedPhase::AwaitTapUp, Action::SetLinkUp { index }),
            NamespacedPhase::AwaitTapUp => {
                let f = family_from_addr(network.guest_ip.address);
                let b = inner_nf_batch(f, &ns.veth2_name, ns.veth2_ip, ns.forwarded_guest_ip, network.guest_ip);
                (NamespacedPhase::AwaitInnerApply, Action::ApplyBatch(b))
            },
            NamespacedPhase::AwaitInnerApply => (NamespacedPhase::AwaitLeave, Action::LeaveNetns),
            NamespacedPhase::AwaitLeave => (NamespacedPhase::AwaitOuterRuleset, Action::ReadRuleset),
            NamespacedPhase::AwaitOuterApply => match outer_forward_route(ns) {
                Ok(Some(route)) => (NamespacedPhase::AwaitForwardRoute, Action::AddRoute(route)),
                Ok(None) => (NamespacedPhase::Finished, Action::Finish(Ok(()))),
                Err(e) => (NamespacedPhase::Finished, Action::Finish(Err(e))),
            },
            NamespacedPhase::AwaitForwardRoute => (NamespacedPhase::Finished, Action::Finish(Ok(()))),
            NamespacedPhase::LeavingAfterFailure(e) => (NamespacedPhase::Finished, Action::Finish(Err(e))),
            p => fail(&p, out),
        },
    }
}

/// The step that a failure in a phase leads to.
pub open spec fn fail_v(p: NamespacedPhase, e: FirecrackerNetworkError) -> (NamespacedPhase, Action) {
    if inside_netns(p) {
        (NamespacedPhase::LeavingAfterFailure(e), Action::LeaveNetns)
    } else {
        (NamespacedPhase::Finished, Action::Finish(Err(e)))
    }
}

} // verus!
