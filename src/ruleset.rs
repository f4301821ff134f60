use vstd::prelude::*;

use crate::model::{
    batch_view, objects_view, stmts_view, BatchOp, BatchOpV, Chain, ChainType, ChainV,
    FirecrackerNetworkError, FirecrackerNetworkObjectType, Hook, NfFamily, NfObject, NfObjectV,
    Policy, Rule, RuleV, Statement, StatementV, Table, TableV, name_string, FILTER_PRIORITY,
    NFT_FILTER_CHAIN, NFT_POSTROUTING_CHAIN, NFT_PREROUTING_CHAIN, NFT_TABLE,
    POSTROUTING_PRIORITY, PREROUTING_PRIORITY,
};

verus! {

/// The table of this library, in a family.
pub open spec fn table_v(f: NfFamily) -> TableV {
    TableV { family: f, name: NFT_TABLE@ }
}

/// The postrouting base chain: NAT, hook postrouting, priority 100, policy accept.
pub open spec fn postrouting_chain_v(f: NfFamily) -> ChainV {
    ChainV {
        family: f,
        table: NFT_TABLE@,
        name: NFT_POSTROUTING_CHAIN@,
        chain_type: Some(ChainType::Nat),
        hook: Some(Hook::Postrouting),
        prio: Some(POSTROUTING_PRIORITY),
        policy: Some(Policy::Accept),
    }
}

/// The prerouting base chain: NAT, hook prerouting, priority -100, policy accept.
pub open spec fn prerouting_chain_v(f: NfFamily) -> ChainV {
    ChainV {
        family: f,
        table: NFT_TABLE@,
        name: NFT_PREROUTING_CHAIN@,
        chain_type: Some(ChainType::Nat),
        hook: Some(Hook::Prerouting),
        prio: Some(PREROUTING_PRIORITY),
        policy: Some(Policy::Accept),
    }
}

/// The filter base chain: filter, hook forward, priority 0, policy accept.
pub open spec fn filter_chain_v(f: NfFamily) -> ChainV {
    ChainV {
        family: f,
        table: NFT_TABLE@,
        name: NFT_FILTER_CHAIN@,
        chain_type: Some(ChainType::Filter),
        hook: Some(Hook::Forward),
        prio: Some(FILTER_PRIORITY),
        policy: Some(Policy::Accept),
    }
}

/// An unplaced rule of this library's table.
pub open spec fn rule_v(f: NfFamily, chain: Seq<char>, expr: Seq<StatementV>) -> RuleV {
    RuleV { family: f, table: NFT_TABLE@, chain, expr, handle: None }
}

pub open spec fn is_table_v(o: NfObjectV, f: NfFamily, name: Seq<char>) -> bool {
    match o {
        NfObjectV::Table(t) => t.family == f && t.name == name,
        _ => false,
    }
}

pub open spec fn is_chain_v(o: NfObjectV, f: NfFamily, table: Seq<char>, name: Seq<char>) -> bool {
    match o {
        NfObjectV::Chain(c) => c.family == f && c.table == table && c.name == name,
        _ => false,
    }
}

/// A rule of the given table and chain with exactly the given expression.
pub open spec fn is_rule_v(
    o: NfObjectV,
    table: Seq<char>,
    chain: Seq<char>,
    expr: Seq<StatementV>,
) -> bool {
    match o {
        NfObjectV::Rule(r) => r.table == table && r.chain == chain && r.expr == expr,
        _ => false,
    }
}

pub open spec fn has_table_v(objs: Seq<NfObjectV>, f: NfFamily, name: Seq<char>) -> bool {
    exists|i: int| 0 <= i < objs.len() && #[trigger] is_table_v(objs[i], f, name)
}

pub open spec fn has_chain_v(
    objs: Seq<NfObjectV>,
    f: NfFamily,
    table: Seq<char>,
    name: Seq<char>,
) -> bool {
    exists|i: int| 0 <= i < objs.len() && #[trigger] is_chain_v(objs[i], f, table, name)
}

pub open spec fn has_rule_v(
    objs: Seq<NfObjectV>,
    table: Seq<char>,
    chain: Seq<char>,
    expr: Seq<StatementV>,
) -> bool {
    exists|i: int| 0 <= i < objs.len() && #[trigger] is_rule_v(objs[i], table, chain, expr)
}

/// The handle of the first rule that has the given table, chain and expression.
pub open spec fn first_rule_handle_v(
    objs: Seq<NfObjectV>,
    table: Seq<char>,
    chain: Seq<char>,
    expr: Seq<StatementV>,
) -> Option<u64>
    decreases objs.len(),
{
    if objs.len() == 0 {
        None
    } else if is_rule_v(objs[0], table, chain, expr) {
        objs[0]->Rule_0.handle
    } else {
        first_rule_handle_v(objs.drop_first(), table, chain, expr)
    }
}

/// What the base chains of a topology add to a batch: only the missing ones.
pub open spec fn base_ops_v(f: NfFamily, objs: Seq<NfObjectV>) -> Seq<BatchOpV> {
    (if has_table_v(objs, f, NFT_TABLE@) {
        Seq::empty()
    } else {
        seq![BatchOpV::Add(NfObjectV::Table(table_v(f)))]
    }) + (if has_chain_v(objs, f, NFT_TABLE@, NFT_POSTROUTING_CHAIN@) {
        Seq::empty()
    } else {
        seq![BatchOpV::Add(NfObjectV::Chain(postrouting_chain_v(f)))]
    }) + (if has_chain_v(objs, f, NFT_TABLE@, NFT_FILTER_CHAIN@) {
        Seq::empty()
    } else {
        seq![BatchOpV::Add(NfObjectV::Chain(filter_chain_v(f)))]
    })
}

/// What `check_base_chains` reports.
pub open spec fn check_base_chains_v(f: NfFamily, objs: Seq<NfObjectV>) -> Option<
    FirecrackerNetworkObjectType,
> {
    if !has_table_v(objs, f, NFT_TABLE@) {
        Some(FirecrackerNetworkObjectType::NfTable)
    } else if !has_chain_v(objs, f, NFT_TABLE@, NFT_POSTROUTING_CHAIN@) {
        Some(FirecrackerNetworkObjectType::NfPostroutingChain)
    } else if !has_chain_v(objs, f, NFT_TABLE@, NFT_FILTER_CHAIN@) {
        Some(FirecrackerNetworkObjectType::NfFilterChain)
    } else {
        None
    }
}

/// Whether two statements are equal.
pub fn statement_eq(a: &Statement, b: &Statement) -> (r: bool)
    ensures
        r == (a@ == b@),
{
    match (a, b) {
        (Statement::MatchMeta { key: k1, value: v1 }, Statement::MatchMeta { key: k2, value: v2 }) => {
            *k1 == *k2 && v1.eq(v2)
        },
        (
            Statement::MatchAddr { proto: p1, field: f1, addr: a1 },
            Statement::MatchAddr { proto: p2, field: f2, addr: a2 },
        ) => *p1 == *p2 && *f1 == *f2 && *a1 == *a2,
        (
            Statement::MatchPrefix { proto: p1, field: f1, addr: a1, len: l1 },
            Statement::MatchPrefix { proto: p2, field: f2, addr: a2, len: l2 },
        ) => *p1 == *p2 && *f1 == *f2 && *a1 == *a2 && *l1 == *l2,
        (Statement::Masquerade, Statement::Masquerade) => true,
        (Statement::Accept, Statement::Accept) => true,
        (Statement::Snat { proto: p1, addr: a1 }, Statement::Snat { proto: p2, addr: a2 }) => {
            *p1 == *p2 && *a1 == *a2
        },
        (Statement::Dnat { proto: p1, addr: a1 }, Statement::Dnat { proto: p2, addr: a2 }) => {
            *p1 == *p2 && *a1 == *a2
        },
        _ => false,
    }
}

/// Whether two expressions are equal, statement by statement.
pub fn exprs_eq(a: &Vec<Statement>, b: &Vec<Statement>) -> (r: bool)
    ensures
        r == (stmts_view(a@) == stmts_view(b@)),
{
    if a.len() != b.len() {
        assert(stmts_view(a@).len() != stmts_view(b@).len());
        return false;
    }
    let mut i: usize = 0;
    while i < a.len()
        invariant
            a@.len() == b@.len(),
            i <= a@.len(),
            forall|j: int| 0 <= j < i ==> (#[trigger] a@[j])@ == b@[j]@,
        decreases a@.len() - i,
    {
        if !statement_eq(&a[i], &b[i]) {
            assert(stmts_view(a@)[i as int] != stmts_view(b@)[i as int]);
            return false;
        }
        i = i + 1;
    }
    assert(stmts_view(a@) =~= stmts_view(b@));
    true
}

/// Whether a listing object is a rule of the given table and chain with the given expression.
pub fn is_rule(o: &NfObject, table: &String, chain: &String, expr: &Vec<Statement>) -> (r: bool)
    ensures
        r == is_rule_v(o@, table@, chain@, stmts_view(expr@)),
{
    match o {
        NfObject::Rule(rule) => rule.table == *table && rule.chain == *chain && exprs_eq(
            &rule.expr,
            expr,
        ),
        _ => false,
    }
}

/// Whether the listing holds the table of this library in the family.
pub fn has_table(current: &Vec<NfObject>, f: NfFamily) -> (r: bool)
    ensures
        r == has_table_v(objects_view(current@), f, NFT_TABLE@),
{
    let name = name_string(NFT_TABLE);
    let ghost ov = objects_view(current@);
    let mut i: usize = 0;
    while i < current.len()
        invariant
            i <= current@.len(),
            ov == objects_view(current@),
            name@ == NFT_TABLE@,
            forall|j: int| 0 <= j < i ==> !is_table_v(#[trigger] ov[j], f, NFT_TABLE@),
        decreases current@.len() - i,
    {
        if let NfObject::Table(t) = &current[i] {
            if t.family == f && t.name == name {
                assert(is_table_v(ov[i as int], f, NFT_TABLE@));
                return true;
            }
        }
        assert(!is_table_v(ov[i as int], f, NFT_TABLE@));
        i = i + 1;
    }
    false
}

/// Whether the listing holds a chain with the given family, table and name.
pub fn has_chain(current: &Vec<NfObject>, f: NfFamily, table: &String, name: &String) -> (r: bool)
    ensures
        r == has_chain_v(objects_view(current@), f, table@, name@),
{
    let ghost ov = objects_view(current@);
    let mut i: usize = 0;
    while i < current.len()
        invariant
            i <= current@.len(),
            ov == objects_view(current@),
            forall|j: int| 0 <= j < i ==> !is_chain_v(#[trigger] ov[j], f, table@, name@),
        decreases current@.len() - i,
    {
        if let NfObject::Chain(c) = &current[i] {
            if c.family == f && c.table == *table && c.name == *name {
                assert(is_chain_v(ov[i as int], f, table@, name@));
                return true;
            }
        }
        assert(!is_chain_v(ov[i as int], f, table@, name@));
        i = i + 1;
    }
    false
}

/// Whether the listing holds a rule of the given table and chain with the given expression.
pub fn rule_exists(current: &Vec<NfObject>, table: &String, chain: &String, expr: &Vec<Statement>) -> (r:
    bool)
    ensures
        r == has_rule_v(objects_view(current@), table@, chain@, stmts_view(expr@)),
{
    let ghost ov = objects_view(current@);
    let mut i: usize = 0;
    while i < current.len()
        invariant
            i <= current@.len(),
            ov == objects_view(current@),
            forall|j: int|
                0 <= j < i ==> !is_rule_v(#[trigger] ov[j], table@, chain@, stmts_view(expr@)),
        decreases current@.len() - i,
    {
        if is_rule(&current[i], table, chain, expr) {
            assert(is_rule_v(ov[i as int], table@, chain@, stmts_view(expr@)));
            return true;
        }
        i = i + 1;
    }
    false
}

/// The kernel handle of the first rule with the given table, chain and expression.
pub fn find_rule_handle(
    current: &Vec<NfObject>,
    table: &String,
    chain: &String,
    expr: &Vec<Statement>,
) -> (r: Option<u64>)
    ensures
        r == first_rule_handle_v(objects_view(current@), table@, chain@, stmts_view(expr@)),
{
    let ghost ov = objects_view(current@);
    let ghost e = stmts_view(expr@);
    assert(ov.subrange(0, ov.len() as int) =~= ov);
    let mut i: usize = 0;
    while i < current.len()
        invariant
            i <= current@.len(),
            ov == objects_view(current@),
            e == stmts_view(expr@),
            first_rule_handle_v(ov, table@, chain@, e) == first_rule_handle_v(
                ov.subrange(i as int, ov.len() as int),
                table@,
                chain@,
                e,
            ),
        decreases current@.len() - i,
    {
        let ghost rest = ov.subrange(i as int, ov.len() as int);
        assert(rest.drop_first() =~= ov.subrange(i + 1, ov.len() as int));
        assert(rest[0] == ov[i as int]);
        if is_rule(&current[i], table, chain, expr) {
            if let NfObject::Rule(rule) = &current[i] {
                return rule.handle;
            }
        }
        i = i + 1;
    }
    assert(ov.subrange(i as int, ov.len() as int) =~= Seq::<NfObjectV>::empty());
    None
}

fn base_chain(
    f: NfFamily,
    name: &'static str,
    chain_type: ChainType,
    hook: Hook,
    prio: i32,
) -> (r: Chain)
    ensures
        r@ == (ChainV {
            family: f,
            table: NFT_TABLE@,
            name: name@,
            chain_type: Some(chain_type),
            hook: Some(hook),
            prio: Some(prio),
            policy: Some(Policy::Accept),
        }),
{
    Chain {
        family: f,
        table: name_string(NFT_TABLE),
        name: name_string(name),
        chain_type: Some(chain_type),
        hook: Some(hook),
        prio: Some(prio),
        policy: Some(Policy::Accept),
    }
}

/// The table of this library, in a family.
pub fn fcnet_table(f: NfFamily) -> (r: Table)
    ensures
        r@ == table_v(f),
{
    Table { family: f, name: name_string(NFT_TABLE) }
}

/// The postrouting base chain.
pub fn postrouting_chain(f: NfFamily) -> (r: Chain)
    ensures
        r@ == postrouting_chain_v(f),
{
    base_chain(f, NFT_POSTROUTING_CHAIN, ChainType::Nat, Hook::Postrouting, POSTROUTING_PRIORITY)
}

/// The prerouting base chain.
pub fn prerouting_chain(f: NfFamily) -> (r: Chain)
    ensures
        r@ == prerouting_chain_v(f),
{
    base_chain(f, NFT_PREROUTING_CHAIN, ChainType::Nat, Hook::Prerouting, PREROUTING_PRIORITY)
}

/// The filter base chain.
pub fn filter_chain(f: NfFamily) -> (r: Chain)
    ensures
        r@ == filter_chain_v(f),
{
    base_chain(f, NFT_FILTER_CHAIN, ChainType::Filter, Hook::Forward, FILTER_PRIORITY)
}

/// A rule of this library's table, without a handle.
pub fn new_rule(f: NfFamily, chain: &'static str, expr: Vec<Statement>) -> (r: Rule)
    ensures
        r@ == rule_v(f, chain@, stmts_view(expr@)),
{
    Rule { family: f, table: name_string(NFT_TABLE), chain: name_string(chain), expr, handle: None }
}

/// Appends one command to a batch.
pub fn push_op(batch: &mut Vec<BatchOp>, op: BatchOp)
    ensures
        batch_view(final(batch)@) == batch_view(old(batch)@).push(op@),
{
    batch.push(op);
    assert(batch_view(batch@) =~= batch_view(old(batch)@).push(op@));
}

/// Adds to `batch` the table and the base chains of a topology that `current` lacks.
pub fn add_base_chains_if_needed(f: NfFamily, current: &Vec<NfObject>, batch: &mut Vec<BatchOp>)
    ensures
        batch_view(final(batch)@) == batch_view(old(batch)@) + base_ops_v(
            f,
            objects_view(current@),
        ),
{
    let ghost ov = objects_view(current@);
    let table = name_string(NFT_TABLE);
    let post = name_string(NFT_POSTROUTING_CHAIN);
    let filter = name_string(NFT_FILTER_CHAIN);
    if !has_table(current, f) {
        push_op(batch, BatchOp::Add(NfObject::Table(fcnet_table(f))));
    }
    if !has_chain(current, f, &table, &post) {
        push_op(batch, BatchOp::Add(NfObject::Chain(postrouting_chain(f))));
    }
    if !has_chain(current, f, &table, &filter) {
        push_op(batch, BatchOp::Add(NfObject::Chain(filter_chain(f))));
    }
    assert(batch_view(batch@) =~= batch_view(old(batch)@) + base_ops_v(f, ov));
}

/// Reports the first missing base object of a topology, without changing anything.
pub fn check_base_chains(f: NfFamily, current: &Vec<NfObject>) -> (r: Result<
    (),
    FirecrackerNetworkError,
>)
    ensures
        match check_base_chains_v(f, objects_view(current@)) {
            Some(kind) => r == Err::<(), FirecrackerNetworkError>(
                FirecrackerNetworkError::ObjectNotFound(kind),
            ),
            None => r is Ok,
        },
{
    let table = name_string(NFT_TABLE);
    let post = name_string(NFT_POSTROUTING_CHAIN);
    let filter = name_string(NFT_FILTER_CHAIN);
    if !has_table(current, f) {
        return Err(FirecrackerNetworkError::ObjectNotFound(FirecrackerNetworkObjectType::NfTable));
    }
    if !has_chain(current, f, &table, &post) {
        return Err(
            FirecrackerNetworkError::ObjectNotFound(
                FirecrackerNetworkObjectType::NfPostroutingChain,
            ),
        );
    }
    if !has_chain(current, f, &table, &filter) {
        return Err(
            FirecrackerNetworkError::ObjectNotFound(FirecrackerNetworkObjectType::NfFilterChain),
        );
    }
    Ok(())
}

} // verus!
