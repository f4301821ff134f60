use vstd::prelude::*;

use crate::model::{
    batch_view, family_of, objects_view, same_family, BatchOp, BatchOpV, FirecrackerNetwork,
    FirecrackerNetworkError, FirecrackerNetworkObjectType, NfObject, NfObjectV, Rule, RuleV,
    family_from_addr, is_same_family, name_string, NFT_FILTER_CHAIN, NFT_POSTROUTING_CHAIN,
    NFT_TABLE,
};
use crate::rules::{forward_expr, forward_expr_v, masq_expr, masq_expr_v};
use crate::ruleset::{
    add_base_chains_if_needed, base_ops_v, check_base_chains, check_base_chains_v,
    find_rule_handle, first_rule_handle_v, has_rule_v, new_rule, push_op, rule_exists, rule_v,
};

verus! {

/// The family of a simple topology: that of the guest address.
pub open spec fn network_family(n: &FirecrackerNetwork) -> crate::model::NfFamily {
    family_of(n.guest_ip.address)
}

/// The forward rule of a network, unplaced.
pub open spec fn forward_rule_v(n: &FirecrackerNetwork) -> RuleV {
    rule_v(
        network_family(n),
        NFT_FILTER_CHAIN@,
        forward_expr_v(n.tap_name@, n.iface_name@),
    )
}

/// The masquerade rule of a network, unplaced.
pub open spec fn masq_rule_v(n: &FirecrackerNetwork) -> RuleV {
    rule_v(
        network_family(n),
        NFT_POSTROUTING_CHAIN@,
        masq_expr_v(n.iface_name@, n.guest_ip.address),
    )
}

/// Whether the listing already holds the masquerade rule of a network.
pub open spec fn has_masq_v(n: &FirecrackerNetwork, objs: Seq<NfObjectV>) -> bool {
    has_rule_v(
        objs,
        NFT_TABLE@,
        NFT_POSTROUTING_CHAIN@,
        masq_expr_v(n.iface_name@, n.guest_ip.address),
    )
}

/// Whether the listing already holds the forward rule of a network.
pub open spec fn has_forward_v(n: &FirecrackerNetwork, objs: Seq<NfObjectV>) -> bool {
    has_rule_v(objs, NFT_TABLE@, NFT_FILTER_CHAIN@, forward_expr_v(n.tap_name@, n.iface_name@))
}

/// The batch of an Add: missing base objects, the forward rule, and the masquerade rule
/// unless an equal one is already there.
pub open spec fn add_ops_v(n: &FirecrackerNetwork, objs: Seq<NfObjectV>) -> Seq<BatchOpV> {
    base_ops_v(network_family(n), objs) + seq![BatchOpV::Add(NfObjectV::Rule(forward_rule_v(n)))]
        + if has_masq_v(n, objs) {
        Seq::empty()
    } else {
        seq![BatchOpV::Add(NfObjectV::Rule(masq_rule_v(n)))]
    }
}

pub open spec fn forward_handle_v(n: &FirecrackerNetwork, objs: Seq<NfObjectV>) -> Option<u64> {
    first_rule_handle_v(
        objs,
        NFT_TABLE@,
        NFT_FILTER_CHAIN@,
        forward_expr_v(n.tap_name@, n.iface_name@),
    )
}

pub open spec fn masq_handle_v(n: &FirecrackerNetwork, objs: Seq<NfObjectV>) -> Option<u64> {
    first_rule_handle_v(
        objs,
        NFT_TABLE@,
        NFT_POSTROUTING_CHAIN@,
        masq_expr_v(n.iface_name@, n.guest_ip.address),
    )
}

/// The batch of a Delete: both rules, each by the handle found for it.
pub open spec fn delete_ops_v(n: &FirecrackerNetwork, fwd: u64, masq: u64) -> Seq<BatchOpV> {
    seq![
        BatchOpV::Delete(NfObjectV::Rule(RuleV { handle: Some(fwd), ..forward_rule_v(n) })),
        BatchOpV::Delete(NfObjectV::Rule(RuleV { handle: Some(masq), ..masq_rule_v(n) })),
    ]
}

/// What a Delete finds in a ruleset: its batch, or the kind of the rule that is missing.
pub open spec fn delete_outcome_v(n: &FirecrackerNetwork, objs: Seq<NfObjectV>) -> Result<
    Seq<BatchOpV>,
    FirecrackerNetworkObjectType,
> {
    match (forward_handle_v(n, objs), masq_handle_v(n, objs)) {
        (None, _) => Err(FirecrackerNetworkObjectType::NfEgressForwardRule),
        (Some(_), None) => Err(FirecrackerNetworkObjectType::NfMasqueradeRule),
        (Some(fh), Some(mh)) => Ok(delete_ops_v(n, fh, mh)),
    }
}

/// What a Check finds missing in a ruleset, if anything: base objects first, then the
/// masquerade rule, then the forward rule.
pub open spec fn check_outcome_v(n: &FirecrackerNetwork, objs: Seq<NfObjectV>) -> Option<
    FirecrackerNetworkObjectType,
> {
    match check_base_chains_v(network_family(n), objs) {
        Some(kind) => Some(kind),
        None => if !has_masq_v(n, objs) {
            Some(FirecrackerNetworkObjectType::NfMasqueradeRule)
        } else if !has_forward_v(n, objs) {
            Some(FirecrackerNetworkObjectType::NfEgressForwardRule)
        } else {
            None
        },
    }
}

/// The tap and guest addresses of a network belong to one family.
pub fn validate(network: &FirecrackerNetwork) -> (r: Result<(), FirecrackerNetworkError>)
    ensures
        same_family(network.tap_ip.address, network.guest_ip.address) <==> r is Ok,
        r is Err ==> r == Err::<(), FirecrackerNetworkError>(
            FirecrackerNetworkError::ForbiddenDualStackInRoute,
        ),
{
    if is_same_family(network.tap_ip.address, network.guest_ip.address) {
        Ok(())
    } else {
        Err(FirecrackerNetworkError::ForbiddenDualStackInRoute)
    }
}

/// The outcome of a link lookup: its index, or the absence of that kind of link.
pub fn link_index(found: Option<u32>, kind: FirecrackerNetworkObjectType) -> (r: Result<
    u32,
    FirecrackerNetworkError,
>)
    ensures
        match found {
            Some(i) => r == Ok::<u32, FirecrackerNetworkError>(i),
            None => r == Err::<u32, FirecrackerNetworkError>(
                FirecrackerNetworkError::ObjectNotFound(kind),
            ),
        },
{
    match found {
        Some(i) => Ok(i),
        None => Err(FirecrackerNetworkError::ObjectNotFound(kind)),
    }
}

/// The nftables batch that an Add applies, given the current ruleset.
pub fn add_batch(network: &FirecrackerNetwork, current: &Vec<NfObject>) -> (r: Vec<BatchOp>)
    ensures
        batch_view(r@) == add_ops_v(network, objects_view(current@)),
{
    let f = family_from_addr(network.guest_ip.address);
    let table = name_string(NFT_TABLE);
    let post = name_string(NFT_POSTROUTING_CHAIN);
    let masq = masq_expr(network);
    let masquerade_rule_exists = rule_exists(current, &table, &post, &masq);
    let mut batch: Vec<BatchOp> = Vec::new();
    assert(batch_view(batch@) =~= Seq::<BatchOpV>::empty());
    add_base_chains_if_needed(f, current, &mut batch);
    push_op(&mut batch, BatchOp::Add(NfObject::Rule(new_rule(f, NFT_FILTER_CHAIN, forward_expr(network)))));
    if !masquerade_rule_exists {
        push_op(&mut batch, BatchOp::Add(NfObject::Rule(new_rule(f, NFT_POSTROUTING_CHAIN, masq))));
    }
    assert(batch_view(batch@) =~= add_ops_v(network, objects_view(current@)));
    batch
}

fn with_handle(rule: Rule, h: u64) -> (r: Rule)
    ensures
        r@ == (RuleV { handle: Some(h), ..rule@ }),
{
    Rule { handle: Some(h), ..rule }
}

/// The nftables batch that a Delete applies, or the rule that is missing.
pub fn delete_batch(network: &FirecrackerNetwork, current: &Vec<NfObject>) -> (r: Result<
    Vec<BatchOp>,
    FirecrackerNetworkError,
>)
    ensures
        match delete_outcome_v(network, objects_view(current@)) {
            Ok(ops) => r is Ok && batch_view(r->Ok_0@) == ops,
            Err(kind) => r == Err::<Vec<BatchOp>, FirecrackerNetworkError>(
                FirecrackerNetworkError::ObjectNotFound(kind),
            ),
        },
{
    let f = family_from_addr(network.guest_ip.address);
    let table = name_string(NFT_TABLE);
    let post = name_string(NFT_POSTROUTING_CHAIN);
    let filter = name_string(NFT_FILTER_CHAIN);
    let fwd = forward_expr(network);
    let masq = masq_expr(network);
    let forward_rule_handle = find_rule_handle(current, &table, &filter, &fwd);
    let masquerade_rule_handle = find_rule_handle(current, &table, &post, &masq);
    let fh = match forward_rule_handle {
        Some(h) => h,
        None => {
            return Err(
                FirecrackerNetworkError::ObjectNotFound(
                    FirecrackerNetworkObjectType::NfEgressForwardRule,
                ),
            );
        },
    };
    let mh = match masquerade_rule_handle {
        Some(h) => h,
        None => {
            return Err(
                FirecrackerNetworkError::ObjectNotFound(
                    FirecrackerNetworkObjectType::NfMasqueradeRule,
                ),
            );
        },
    };
    let fwd_rule = with_handle(new_rule(f, NFT_FILTER_CHAIN, fwd), fh);
    let masq_rule = with_handle(new_rule(f, NFT_POSTROUTING_CHAIN, masq), mh);
    let batch = vec![BatchOp::Delete(NfObject::Rule(fwd_rule)), BatchOp::Delete(NfObject::Rule(masq_rule))];
    assert(batch_view(batch@) =~= delete_ops_v(network, fh, mh));
    Ok(batch)
}

/// The verdict of a Check on the current ruleset: the first missing object, if any.
pub fn check_ruleset(network: &FirecrackerNetwork, current: &Vec<NfObject>) -> (r: Result<
    (),
    FirecrackerNetworkError,
>)
    ensures
        match check_outcome_v(network, objects_view(current@)) {
            Some(kind) => r == Err::<(), FirecrackerNetworkError>(
                FirecrackerNetworkError::ObjectNotFound(kind),
            ),
            None => r is Ok,
        },
{
    let f = family_from_addr(network.guest_ip.address);
    check_base_chains(f, current)?;
    let table = name_string(NFT_TABLE);
    let post = name_string(NFT_POSTROUTING_CHAIN);
    let filter = name_string(NFT_FILTER_CHAIN);
    if !rule_exists(current, &table, &post, &masq_expr(network)) {
        return Err(
            FirecrackerNetworkError::ObjectNotFound(FirecrackerNetworkObjectType::NfMasqueradeRule),
        );
    }
    if !rule_exists(current, &table, &filter, &forward_expr(network)) {
        return Err(
            FirecrackerNetworkError::ObjectNotFound(
                FirecrackerNetworkObjectType::NfEgressForwardRule,
            ),
        );
    }
    Ok(())
}

} // verus!
