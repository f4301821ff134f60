use vstd::prelude::*;

use crate::model::{
    BatchOpV, FirecrackerNetwork, NfFamily, NfObjectV, RuleV, NFT_FILTER_CHAIN,
    NFT_POSTROUTING_CHAIN, NFT_TABLE,
};
use crate::ruleset::{
    base_ops_v, first_rule_handle_v, has_chain_v, has_rule_v, has_table_v, is_chain_v, is_rule_v,
    is_table_v,
};
use crate::rules::{forward_expr_v, masq_expr_v};
use crate::simple::{
    add_ops_v, delete_ops_v, forward_handle_v, forward_rule_v, has_forward_v, has_masq_v,
    masq_handle_v, masq_rule_v, network_family,
};

verus! {

/// What the kernel's ruleset becomes under one command, the rule handle it would assign
/// being `h`: an added table or chain that already exists changes nothing, an added rule
/// is appended with its handle, a deleted rule goes with every rule of its handle.
pub open spec fn apply_op_v(objs: Seq<NfObjectV>, op: BatchOpV, h: u64) -> Seq<NfObjectV> {
    match op {
        BatchOpV::Add(NfObjectV::Table(t)) => if has_table_v(objs, t.family, t.name) {
            objs
        } else {
            objs.push(NfObjectV::Table(t))
        },
        BatchOpV::Add(NfObjectV::Chain(c)) => if has_chain_v(objs, c.family, c.table, c.name) {
            objs
        } else {
            objs.push(NfObjectV::Chain(c))
        },
        BatchOpV::Add(NfObjectV::Rule(r)) => objs.push(
            NfObjectV::Rule(RuleV { handle: Some(h), ..r }),
        ),
        BatchOpV::Delete(NfObjectV::Rule(r)) => remove_rule_v(objs, r),
        BatchOpV::Delete(_) => objs,
    }
}

/// Whether an object is a rule of the given table, chain and handle.
pub open spec fn is_handle_v(o: NfObjectV, r: RuleV) -> bool {
    match o {
        NfObjectV::Rule(x) => x.table == r.table && x.chain == r.chain && x.handle == r.handle,
        _ => false,
    }
}

/// The ruleset without the rules that a delete of `r` names.
pub open spec fn remove_rule_v(objs: Seq<NfObjectV>, r: RuleV) -> Seq<NfObjectV>
    decreases objs.len(),
{
    if objs.len() == 0 {
        objs
    } else {
        let rest = remove_rule_v(objs.drop_last(), r);
        if is_handle_v(objs.last(), r) {
            rest
        } else {
            rest.push(objs.last())
        }
    }
}

/// The ruleset after a whole batch, the kernel assigning handles from `h` on, one per command.
pub open spec fn apply_batch_v(objs: Seq<NfObjectV>, ops: Seq<BatchOpV>, h: u64) -> Seq<
    NfObjectV,
>
    decreases ops.len(),
{
    if ops.len() == 0 {
        objs
    } else {
        apply_op_v(
            apply_batch_v(objs, ops.drop_last(), h),
            ops.last(),
            (h + ops.len() - 1) as u64,
        )
    }
}

/// How many tables of the given family and name the ruleset holds.
pub open spec fn count_tables(objs: Seq<NfObjectV>, f: NfFamily, name: Seq<char>) -> nat
    decreases objs.len(),
{
    if objs.len() == 0 {
        0
    } else {
        count_tables(objs.drop_last(), f, name) + if is_table_v(objs.last(), f, name) {
            1nat
        } else {
            0nat
        }
    }
}

/// How many chains of the given family, table and name the ruleset holds.
pub open spec fn count_chains(objs: Seq<NfObjectV>, f: NfFamily, table: Seq<char>, name: Seq<char>) -> nat
    decreases objs.len(),
{
    if objs.len() == 0 {
        0
    } else {
        count_chains(objs.drop_last(), f, table, name) + if is_chain_v(objs.last(), f, table, name) {
            1nat
        } else {
            0nat
        }
    }
}

/// Whether a command adds a table of the given family and name.
pub open spec fn adds_table(op: BatchOpV, f: NfFamily, name: Seq<char>) -> bool {
    match op {
        BatchOpV::Add(o) => is_table_v(o, f, name),
        _ => false,
    }
}

/// Whether a command adds a chain of the given family, table and name.
pub open spec fn adds_chain(op: BatchOpV, f: NfFamily, t: Seq<char>, name: Seq<char>) -> bool {
    match op {
        BatchOpV::Add(o) => is_chain_v(o, f, t, name),
        _ => false,
    }
}

/// Whether every command of a batch adds an object.
pub open spec fn all_adds(ops: Seq<BatchOpV>) -> bool {
    forall|i: int| 0 <= i < ops.len() ==> (#[trigger] ops[i]) is Add
}

proof fn lemma_count_tables_has(objs: Seq<NfObjectV>, f: NfFamily, name: Seq<char>)
    ensures
        count_tables(objs, f, name) > 0 <==> has_table_v(objs, f, name),
    decreases objs.len(),
{
    if objs.len() > 0 {
        let pre = objs.drop_last();
        lemma_count_tables_has(pre, f, name);
        if has_table_v(pre, f, name) {
            let i = choose|i: int| 0 <= i < pre.len() && #[trigger] is_table_v(pre[i], f, name);
            assert(objs[i] == pre[i]);
        }
        if is_table_v(objs.last(), f, name) {
            assert(is_table_v(objs[objs.len() - 1], f, name));
        }
        if has_table_v(objs, f, name) {
            let i = choose|i: int| 0 <= i < objs.len() && #[trigger] is_table_v(objs[i], f, name);
            if i < objs.len() - 1 {
                assert(pre[i] == objs[i]);
            }
        }
    }
}

proof fn lemma_count_chains_has(objs: Seq<NfObjectV>, f: NfFamily, t: Seq<char>, name: Seq<char>)
    ensures
        count_chains(objs, f, t, name) > 0 <==> has_chain_v(objs, f, t, name),
    decreases objs.len(),
{
    if objs.len() > 0 {
        let pre = objs.drop_last();
        lemma_count_chains_has(pre, f, t, name);
        if has_chain_v(pre, f, t, name) {
            let i = choose|i: int| 0 <= i < pre.len() && #[trigger] is_chain_v(pre[i], f, t, name);
            assert(objs[i] == pre[i]);
        }
        if is_chain_v(objs.last(), f, t, name) {
            assert(is_chain_v(objs[objs.len() - 1], f, t, name));
        }
        if has_chain_v(objs, f, t, name) {
            let i = choose|i: int| 0 <= i < objs.len() && #[trigger] is_chain_v(objs[i], f, t, name);
            if i < objs.len() - 1 {
                assert(pre[i] == objs[i]);
            }
        }
    }
}

/// One added object: a table is never counted twice, and one that is there stays.
proof fn lemma_op_tables(objs: Seq<NfObjectV>, op: BatchOpV, h: u64, f: NfFamily, name: Seq<char>)
    requires
        op is Add,
    ensures
        count_tables(objs, f, name) <= 1 ==> count_tables(apply_op_v(objs, op, h), f, name) <= 1,
        has_table_v(objs, f, name) || adds_table(op, f, name) ==> has_table_v(
            apply_op_v(objs, op, h),
            f,
            name,
        ),
{
    let after = apply_op_v(objs, op, h);
    lemma_count_tables_has(objs, f, name);
    if after.len() > objs.len() {
        assert(after.drop_last() =~= objs);
        assert(is_table_v(after[after.len() - 1], f, name) ==> adds_table(op, f, name));
    }
    if has_table_v(objs, f, name) {
        let i = choose|i: int| 0 <= i < objs.len() && #[trigger] is_table_v(objs[i], f, name);
        assert(after[i] == objs[i]);
    } else if adds_table(op, f, name) {
        assert(is_table_v(after[after.len() - 1], f, name));
    }
}

/// One added object: a chain is never counted twice, and one that is there stays.
proof fn lemma_op_chains(
    objs: Seq<NfObjectV>,
    op: BatchOpV,
    h: u64,
    f: NfFamily,
    t: Seq<char>,
    name: Seq<char>,
)
    requires
        op is Add,
    ensures
        count_chains(objs, f, t, name) <= 1 ==> count_chains(apply_op_v(objs, op, h), f, t, name)
            <= 1,
        has_chain_v(objs, f, t, name) || adds_chain(op, f, t, name) ==> has_chain_v(
            apply_op_v(objs, op, h),
            f,
            t,
            name,
        ),
{
    let after = apply_op_v(objs, op, h);
    lemma_count_chains_has(objs, f, t, name);
    if after.len() > objs.len() {
        assert(after.drop_last() =~= objs);
        assert(is_chain_v(after[after.len() - 1], f, t, name) ==> adds_chain(op, f, t, name));
    }
    if has_chain_v(objs, f, t, name) {
        let i = choose|i: int| 0 <= i < objs.len() && #[trigger] is_chain_v(objs[i], f, t, name);
        assert(after[i] == objs[i]);
    } else if adds_chain(op, f, t, name) {
        assert(is_chain_v(after[after.len() - 1], f, t, name));
    }
}

/// A batch of adds: a table is never counted twice, one that is there stays, one that the
/// batch adds is there after it.
proof fn lemma_batch_tables(objs: Seq<NfObjectV>, ops: Seq<BatchOpV>, h: u64, f: NfFamily, name: Seq<char>)
    requires
        all_adds(ops),
    ensures
        count_tables(objs, f, name) <= 1 ==> count_tables(apply_batch_v(objs, ops, h), f, name) <= 1,
        has_table_v(objs, f, name) || (exists|i: int| 0 <= i < ops.len() && #[trigger] adds_table(ops[i], f, name))
            ==> has_table_v(apply_batch_v(objs, ops, h), f, name),
    decreases ops.len(),
{
    if ops.len() > 0 {
        let pre = ops.drop_last();
        assert forall|i: int| 0 <= i < pre.len() implies (#[trigger] pre[i]) is Add by {
            assert(pre[i] == ops[i]);
        }
        lemma_batch_tables(objs, pre, h, f, name);
        let mid = apply_batch_v(objs, pre, h);
        assert(ops[ops.len() - 1] is Add);
        lemma_op_tables(mid, ops.last(), (h + ops.len() - 1) as u64, f, name);
        if exists|i: int| 0 <= i < ops.len() && #[trigger] adds_table(ops[i], f, name) {
            let i = choose|i: int| 0 <= i < ops.len() && #[trigger] adds_table(ops[i], f, name);
            if i < ops.len() - 1 {
                assert(adds_table(pre[i], f, name));
            }
        }
    }
}

/// A batch of adds: a chain is never counted twice, one that is there stays, one that the
/// batch adds is there after it.
proof fn lemma_batch_chains(
    objs: Seq<NfObjectV>,
    ops: Seq<BatchOpV>,
    h: u64,
    f: NfFamily,
    t: Seq<char>,
    name: Seq<char>,
)
    requires
        all_adds(ops),
    ensures
        count_chains(objs, f, t, name) <= 1 ==> count_chains(apply_batch_v(objs, ops, h), f, t, name)
            <= 1,
        has_chain_v(objs, f, t, name) || (exists|i: int| 0 <= i < ops.len() && #[trigger] adds_chain(ops[i], f, t, name))
            ==> has_chain_v(apply_batch_v(objs, ops, h), f, t, name),
    decreases ops.len(),
{
    if ops.len() > 0 {
        let pre = ops.drop_last();
        assert forall|i: int| 0 <= i < pre.len() implies (#[trigger] pre[i]) is Add by {
            assert(pre[i] == ops[i]);
        }
        lemma_batch_chains(objs, pre, h, f, t, name);
        let mid = apply_batch_v(objs, pre, h);
        assert(ops[ops.len() - 1] is Add);
        lemma_op_chains(mid, ops.last(), (h + ops.len() - 1) as u64, f, t, name);
        if exists|i: int| 0 <= i < ops.len() && #[trigger] adds_chain(ops[i], f, t, name) {
            let i = choose|i: int| 0 <= i < ops.len() && #[trigger] adds_chain(ops[i], f, t, name);
            if i < ops.len() - 1 {
                assert(adds_chain(pre[i], f, t, name));
            }
        }
    }
}

/// Adding a network twice leaves exactly one table and one of each base chain of the
/// topology, where there was at most one of each before; the second Add adds neither a
/// table nor a chain.
pub proof fn law_add_twice_base_objects(
    n: &FirecrackerNetwork,
    objs: Seq<NfObjectV>,
    h1: u64,
    h2: u64,
)
    requires
        count_tables(objs, network_family(n), NFT_TABLE@) <= 1,
        count_chains(objs, network_family(n), NFT_TABLE@, NFT_POSTROUTING_CHAIN@) <= 1,
        count_chains(objs, network_family(n), NFT_TABLE@, NFT_FILTER_CHAIN@) <= 1,
    ensures
        ({
            let f = network_family(n);
            let objs1 = apply_batch_v(objs, add_ops_v(n, objs), h1);
            let objs2 = apply_batch_v(objs1, add_ops_v(n, objs1), h2);
            &&& base_ops_v(f, objs1) == Seq::<BatchOpV>::empty()
            &&& count_tables(objs2, f, NFT_TABLE@) == 1
            &&& count_chains(objs2, f, NFT_TABLE@, NFT_POSTROUTING_CHAIN@) == 1
            &&& count_chains(objs2, f, NFT_TABLE@, NFT_FILTER_CHAIN@) == 1
        }),
{
    let f = network_family(n);
    let t = NFT_TABLE@;
    let post = NFT_POSTROUTING_CHAIN@;
    let filter = NFT_FILTER_CHAIN@;
    let ops1 = add_ops_v(n, objs);
    assert(all_adds(ops1));
    let ht = has_table_v(objs, f, t);
    let hp = has_chain_v(objs, f, t, post);
    if !ht {
        assert(adds_table(ops1[0], f, t));
    }
    if !hp {
        let k: int = if ht { 0 } else { 1 };
        assert(adds_chain(ops1[k], f, t, post));
    }
    if !has_chain_v(objs, f, t, filter) {
        let k: int = (if ht { 0int } else { 1int }) + (if hp { 0int } else { 1int });
        assert(adds_chain(ops1[k], f, t, filter));
    }
    lemma_batch_tables(objs, ops1, h1, f, t);
    lemma_batch_chains(objs, ops1, h1, f, t, post);
    lemma_batch_chains(objs, ops1, h1, f, t, filter);
    let objs1 = apply_batch_v(objs, ops1, h1);
    assert(base_ops_v(f, objs1) =~= Seq::<BatchOpV>::empty());
    let ops2 = add_ops_v(n, objs1);
    assert(all_adds(ops2));
    lemma_batch_tables(objs1, ops2, h2, f, t);
    lemma_batch_chains(objs1, ops2, h2, f, t, post);
    lemma_batch_chains(objs1, ops2, h2, f, t, filter);
    let objs2 = apply_batch_v(objs1, ops2, h2);
    lemma_count_tables_has(objs2, f, t);
    lemma_count_chains_has(objs2, f, t, post);
    lemma_count_chains_has(objs2, f, t, filter);
}

/// Where the ruleset already holds the network's masquerade rule, Add adds the forward rule
/// and no rule at all to the postrouting chain.
pub proof fn law_no_duplicate_masquerade(n: &FirecrackerNetwork, objs: Seq<NfObjectV>)
    requires
        has_masq_v(n, objs),
    ensures
        ({
            let ops = add_ops_v(n, objs);
            &&& exists|i: int|
                0 <= i < ops.len() && ops[i] == BatchOpV::Add(NfObjectV::Rule(forward_rule_v(n)))
            &&& forall|i: int|
                0 <= i < ops.len() ==> !(#[trigger] ops[i] matches BatchOpV::Add(NfObjectV::Rule(r))
                    && r.chain == NFT_POSTROUTING_CHAIN@)
        }),
{
    let f = network_family(n);
    let ops = add_ops_v(n, objs);
    let base = base_ops_v(f, objs);
    reveal_strlit("filter");
    reveal_strlit("postrouting");
    assert(NFT_FILTER_CHAIN@ != NFT_POSTROUTING_CHAIN@) by {
        assert(NFT_FILTER_CHAIN@.len() != NFT_POSTROUTING_CHAIN@.len());
    }
    assert(ops[base.len() as int] == BatchOpV::Add(NfObjectV::Rule(forward_rule_v(n))));
}

/// Every rule of the ruleset carries a handle below `h`.
pub open spec fn handles_below(objs: Seq<NfObjectV>, h: u64) -> bool {
    forall|i: int|
        0 <= i < objs.len() && (#[trigger] objs[i]) is Rule ==> (objs[i]->Rule_0.handle matches Some(
            x,
        ) && x < h)
}

/// Whether every command of a batch adds a table or a chain.
pub open spec fn adds_base_only(ops: Seq<BatchOpV>) -> bool {
    forall|i: int|
        0 <= i < ops.len() ==> (#[trigger] ops[i] matches BatchOpV::Add(o) && !(o is Rule))
}

proof fn lemma_base_ops_keep_rules(
    objs: Seq<NfObjectV>,
    ops: Seq<BatchOpV>,
    h: u64,
    hb: u64,
    t: Seq<char>,
    c: Seq<char>,
    e: Seq<crate::model::StatementV>,
)
    requires
        adds_base_only(ops),
        handles_below(objs, hb),
        !has_rule_v(objs, t, c, e),
    ensures
        handles_below(apply_batch_v(objs, ops, h), hb),
        !has_rule_v(apply_batch_v(objs, ops, h), t, c, e),
    decreases ops.len(),
{
    if ops.len() > 0 {
        let pre = ops.drop_last();
        assert forall|i: int| 0 <= i < pre.len() implies (#[trigger] pre[i] matches BatchOpV::Add(
            o,
        ) && !(o is Rule)) by {
            assert(pre[i] == ops[i]);
        }
        lemma_base_ops_keep_rules(objs, pre, h, hb, t, c, e);
        let mid = apply_batch_v(objs, pre, h);
        let after = apply_batch_v(objs, ops, h);
        assert(ops[ops.len() - 1] matches BatchOpV::Add(o) && !(o is Rule));
        if after.len() > mid.len() {
            assert forall|i: int| 0 <= i < mid.len() implies after[i] == mid[i] by {}
            assert(!(after[after.len() - 1] is Rule));
        }
    }
}

proof fn lemma_first_handle_push(
    a: Seq<NfObjectV>,
    x: NfObjectV,
    t: Seq<char>,
    c: Seq<char>,
    e: Seq<crate::model::StatementV>,
)
    ensures
        first_rule_handle_v(a.push(x), t, c, e) == if has_rule_v(a, t, c, e) {
            first_rule_handle_v(a, t, c, e)
        } else if is_rule_v(x, t, c, e) {
            x->Rule_0.handle
        } else {
            None
        },
    decreases a.len(),
{
    if a.len() == 0 {
        assert(a.push(x).drop_first() =~= Seq::<NfObjectV>::empty());
        assert(a.push(x)[0] == x);
        assert(first_rule_handle_v(Seq::<NfObjectV>::empty(), t, c, e) == None::<u64>);
        assert(!has_rule_v(a, t, c, e));
    } else {
        let d = a.drop_first();
        assert(a.push(x)[0] == a[0]);
        assert(a.push(x).drop_first() =~= d.push(x));
        lemma_first_handle_push(d, x, t, c, e);
        if has_rule_v(a, t, c, e) && !is_rule_v(a[0], t, c, e) {
            let i = choose|i: int| 0 <= i < a.len() && #[trigger] is_rule_v(a[i], t, c, e);
            assert(d[i - 1] == a[i]);
        }
        if has_rule_v(d, t, c, e) {
            let i = choose|i: int| 0 <= i < d.len() && #[trigger] is_rule_v(d[i], t, c, e);
            assert(a[i + 1] == d[i]);
        }
    }
}

proof fn lemma_remove_none(a: Seq<NfObjectV>, r: RuleV)
    requires
        forall|i: int| 0 <= i < a.len() ==> !is_handle_v(#[trigger] a[i], r),
    ensures
        remove_rule_v(a, r) == a,
    decreases a.len(),
{
    if a.len() > 0 {
        lemma_remove_none(a.drop_last(), r);
        assert(a.drop_last().push(a.last()) =~= a);
    }
}

/// Adding a network and then deleting it leaves the ruleset as the base objects that the
/// Add created alone would: both rules are found by their expressions, and exactly those two
/// rules go. This holds where neither rule was there before the Add (a masquerade rule shared
/// with another network would go with the Delete) and every rule's handle is below the first
/// handle that the kernel assigns.
pub proof fn law_add_then_delete(n: &FirecrackerNetwork, objs: Seq<NfObjectV>, h1: u64, h2: u64)
    requires
        !has_masq_v(n, objs),
        !has_forward_v(n, objs),
        handles_below(objs, h1),
        h1 + 5 <= u64::MAX,
    ensures
        ({
            let f = network_family(n);
            let objs1 = apply_batch_v(objs, add_ops_v(n, objs), h1);
            let fh = forward_handle_v(n, objs1);
            let mh = masq_handle_v(n, objs1);
            &&& fh is Some
            &&& mh is Some
            &&& apply_batch_v(objs1, delete_ops_v(n, fh->0, mh->0), h2) == apply_batch_v(
                objs,
                base_ops_v(f, objs),
                h1,
            )
            &&& !has_masq_v(n, apply_batch_v(objs1, delete_ops_v(n, fh->0, mh->0), h2))
            &&& !has_forward_v(n, apply_batch_v(objs1, delete_ops_v(n, fh->0, mh->0), h2))
        }),
{
    let f = network_family(n);
    let t = NFT_TABLE@;
    reveal_strlit("filter");
    reveal_strlit("postrouting");
    assert(NFT_FILTER_CHAIN@ != NFT_POSTROUTING_CHAIN@) by {
        assert(NFT_FILTER_CHAIN@.len() != NFT_POSTROUTING_CHAIN@.len());
    }
    let fe = forward_expr_v(n.tap_name@, n.iface_name@);
    let me = masq_expr_v(n.iface_name@, n.guest_ip.address);
    let base = base_ops_v(f, objs);
    let b = base.len();
    let af = BatchOpV::Add(NfObjectV::Rule(forward_rule_v(n)));
    let am = BatchOpV::Add(NfObjectV::Rule(masq_rule_v(n)));
    let ops1 = add_ops_v(n, objs);
    assert(ops1 =~= base + seq![af] + seq![am]);
    assert(ops1.drop_last() =~= base + seq![af]);
    assert((base + seq![af]).drop_last() =~= base);
    assert(adds_base_only(base));
    lemma_base_ops_keep_rules(objs, base, h1, h1, t, NFT_FILTER_CHAIN@, fe);
    lemma_base_ops_keep_rules(objs, base, h1, h1, t, NFT_POSTROUTING_CHAIN@, me);
    let objs_b = apply_batch_v(objs, base, h1);
    let fr = RuleV { handle: Some((h1 + b) as u64), ..forward_rule_v(n) };
    let mr = RuleV { handle: Some((h1 + b + 1) as u64), ..masq_rule_v(n) };
    let objs_f = objs_b.push(NfObjectV::Rule(fr));
    let objs1 = objs_f.push(NfObjectV::Rule(mr));
    assert(apply_batch_v(objs, base + seq![af], h1) == objs_f);
    assert(apply_batch_v(objs, ops1, h1) == objs1);
    lemma_first_handle_push(objs_b, NfObjectV::Rule(fr), t, NFT_FILTER_CHAIN@, fe);
    lemma_first_handle_push(objs_f, NfObjectV::Rule(mr), t, NFT_FILTER_CHAIN@, fe);
    lemma_first_handle_push(objs_b, NfObjectV::Rule(fr), t, NFT_POSTROUTING_CHAIN@, me);
    lemma_first_handle_push(objs_f, NfObjectV::Rule(mr), t, NFT_POSTROUTING_CHAIN@, me);
    assert(is_rule_v(objs_f[objs_b.len() as int], t, NFT_FILTER_CHAIN@, fe));
    assert(forward_handle_v(n, objs1) == Some((h1 + b) as u64));
    assert(masq_handle_v(n, objs1) == Some((h1 + b + 1) as u64));
    let dops = delete_ops_v(n, (h1 + b) as u64, (h1 + b + 1) as u64);
    let df = RuleV { handle: Some((h1 + b) as u64), ..forward_rule_v(n) };
    let dm = RuleV { handle: Some((h1 + b + 1) as u64), ..masq_rule_v(n) };
    assert(dops.drop_last() =~= seq![dops[0]]);
    assert(seq![dops[0]].drop_last() =~= Seq::<BatchOpV>::empty());
    assert forall|i: int| 0 <= i < objs_b.len() implies !is_handle_v(#[trigger] objs_b[i], df) by {}
    assert forall|i: int| 0 <= i < objs_b.len() implies !is_handle_v(#[trigger] objs_b[i], dm) by {}
    lemma_remove_none(objs_b, df);
    lemma_remove_none(objs_b, dm);
    assert(objs1.drop_last() =~= objs_f);
    assert(objs_f.drop_last() =~= objs_b);
    assert(remove_rule_v(objs_f, df) == objs_b);
    assert(remove_rule_v(objs1, df) == objs_b.push(NfObjectV::Rule(mr)));
    assert(objs_b.push(NfObjectV::Rule(mr)).drop_last() =~= objs_b);
    assert(remove_rule_v(objs_b.push(NfObjectV::Rule(mr)), dm) == objs_b);
    assert(dops[0] == BatchOpV::Delete(NfObjectV::Rule(df)));
    assert(dops[1] == BatchOpV::Delete(NfObjectV::Rule(dm)));
    assert(apply_batch_v(objs1, Seq::<BatchOpV>::empty(), h2) == objs1);
    assert(apply_batch_v(objs1, seq![dops[0]], h2) == remove_rule_v(objs1, df));
    assert(apply_batch_v(objs1, dops, h2) == objs_b);
}

} // verus!
