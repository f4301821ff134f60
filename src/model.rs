use vstd::prelude::*;

verus! {

/// Name of the nftables table that holds every rule this library manages.
pub const NFT_TABLE: &'static str = "fcnet";

/// Base chain hooked at postrouting (NAT).
pub const NFT_POSTROUTING_CHAIN: &'static str = "postrouting";

/// Base chain hooked at prerouting (NAT), used for forwarding only.
pub const NFT_PREROUTING_CHAIN: &'static str = "prerouting";

/// Base chain hooked at forward (filter).
pub const NFT_FILTER_CHAIN: &'static str = "filter";

/// Priority of the postrouting base chain.
pub const POSTROUTING_PRIORITY: i32 = 100;

/// Priority of the prerouting base chain.
pub const PREROUTING_PRIORITY: i32 = -100;

/// Priority of the filter base chain.
pub const FILTER_PRIORITY: i32 = 0;

/// An IP address: IPv4 as a 32-bit number, IPv6 as a 128-bit number.
#[derive(Clone, Copy, Debug, PartialEq, Eq, Structural)]
pub enum IpAddr {
    V4(u32),
    V6(u128),
}

/// An address together with a network prefix length.
#[derive(Clone, Copy, Debug, PartialEq, Eq, Structural)]
pub struct IpInet {
    pub address: IpAddr,
    pub prefix_len: u8,
}

/// Address family of a ruleset object.
#[derive(Clone, Copy, Debug, PartialEq, Eq, Structural)]
pub enum NfFamily {
    IP,
    IP6,
}

/// L3 protocol tag used in payload matches and NAT statements.
#[derive(Clone, Copy, Debug, PartialEq, Eq, Structural)]
pub enum Proto {
    Ip,
    Ip6,
}

#[derive(Clone, Copy, Debug, PartialEq, Eq, Structural)]
pub enum AddrField {
    Saddr,
    Daddr,
}

#[derive(Clone, Copy, Debug, PartialEq, Eq, Structural)]
pub enum MetaKey {
    Iifname,
    Oifname,
}

#[derive(Clone, Copy, Debug, PartialEq, Eq, Structural)]
pub enum ChainType {
    Filter,
    Nat,
}

#[derive(Clone, Copy, Debug, PartialEq, Eq, Structural)]
pub enum Hook {
    Prerouting,
    Forward,
    Postrouting,
}

#[derive(Clone, Copy, Debug, PartialEq, Eq, Structural)]
pub enum Policy {
    Accept,
    Drop,
}

/// One match or action of a rule expression.
#[derive(Clone, Debug)]
pub enum Statement {
    /// `meta <key> == <value>`
    MatchMeta { key: MetaKey, value: String },
    /// `<proto> <field> == <addr>`
    MatchAddr { proto: Proto, field: AddrField, addr: IpAddr },
    /// `<proto> <field> == <addr>/<len>`
    MatchPrefix { proto: Proto, field: AddrField, addr: IpAddr, len: u8 },
    Masquerade,
    Accept,
    Snat { proto: Proto, addr: IpAddr },
    Dnat { proto: Proto, addr: IpAddr },
}

/// The mathematical value of a [`Statement`].
pub enum StatementV {
    MatchMeta { key: MetaKey, value: Seq<char> },
    MatchAddr { proto: Proto, field: AddrField, addr: IpAddr },
    MatchPrefix { proto: Proto, field: AddrField, addr: IpAddr, len: u8 },
    Masquerade,
    Accept,
    Snat { proto: Proto, addr: IpAddr },
    Dnat { proto: Proto, addr: IpAddr },
}

impl View for Statement {
    type V = StatementV;

    open spec fn view(&self) -> StatementV {
        match self {
            Statement::MatchMeta { key, value } => StatementV::MatchMeta { key: *key, value: value@ },
            Statement::MatchAddr { proto, field, addr } => StatementV::MatchAddr {
                proto: *proto,
                field: *field,
                addr: *addr,
            },
            Statement::MatchPrefix { proto, field, addr, len } => StatementV::MatchPrefix {
                proto: *proto,
                field: *field,
                addr: *addr,
                len: *len,
            },
            Statement::Masquerade => StatementV::Masquerade,
            Statement::Accept => StatementV::Accept,
            Statement::Snat { proto, addr } => StatementV::Snat { proto: *proto, addr: *addr },
            Statement::Dnat { proto, addr } => StatementV::Dnat { proto: *proto, addr: *addr },
        }
    }
}

/// The value of a list of statements.
pub open spec fn stmts_view(s: Seq<Statement>) -> Seq<StatementV> {
    s.map_values(|x: Statement| x@)
}

/// A table object of a ruleset.
#[derive(Clone, Debug)]
pub struct Table {
    pub family: NfFamily,
    pub name: String,
}

pub struct TableV {
    pub family: NfFamily,
    pub name: Seq<char>,
}

impl View for Table {
    type V = TableV;

    open spec fn view(&self) -> TableV {
        TableV { family: self.family, name: self.name@ }
    }
}

/// A chain object of a ruleset; base chains carry type, hook, priority and policy.
#[derive(Clone, Debug)]
pub struct Chain {
    pub family: NfFamily,
    pub table: String,
    pub name: String,
    pub chain_type: Option<ChainType>,
    pub hook: Option<Hook>,
    pub prio: Option<i32>,
    pub policy: Option<Policy>,
}

pub struct ChainV {
    pub family: NfFamily,
    pub table: Seq<char>,
    pub name: Seq<char>,
    pub chain_type: Option<ChainType>,
    pub hook: Option<Hook>,
    pub prio: Option<i32>,
    pub policy: Option<Policy>,
}

impl View for Chain {
    type V = ChainV;

    open spec fn view(&self) -> ChainV {
        ChainV {
            family: self.family,
            table: self.table@,
            name: self.name@,
            chain_type: self.chain_type,
            hook: self.hook,
            prio: self.prio,
            policy: self.policy,
        }
    }
}

/// A rule object of a ruleset; `handle` is assigned by the kernel.
#[derive(Clone, Debug)]
pub struct Rule {
    pub family: NfFamily,
    pub table: String,
    pub chain: String,
    pub expr: Vec<Statement>,
    pub handle: Option<u64>,
}

pub struct RuleV {
    pub family: NfFamily,
    pub table: Seq<char>,
    pub chain: Seq<char>,
    pub expr: Seq<StatementV>,
    pub handle: Option<u64>,
}

impl View for Rule {
    type V = RuleV;

    open spec fn view(&self) -> RuleV {
        RuleV {
            family: self.family,
            table: self.table@,
            chain: self.chain@,
            expr: stmts_view(self.expr@),
            handle: self.handle,
        }
    }
}

/// One object of a ruleset listing.
#[derive(Clone, Debug)]
pub enum NfObject {
    Table(Table),
    Chain(Chain),
    Rule(Rule),
}

pub enum NfObjectV {
    Table(TableV),
    Chain(ChainV),
    Rule(RuleV),
}

impl View for NfObject {
    type V = NfObjectV;

    open spec fn view(&self) -> NfObjectV {
        match self {
            NfObject::Table(t) => NfObjectV::Table(t@),
            NfObject::Chain(c) => NfObjectV::Chain(c@),
            NfObject::Rule(r) => NfObjectV::Rule(r@),
        }
    }
}

/// The value of a ruleset listing.
pub open spec fn objects_view(s: Seq<NfObject>) -> Seq<NfObjectV> {
    s.map_values(|x: NfObject| x@)
}

/// One command of an nftables batch.
#[derive(Clone, Debug)]
pub enum BatchOp {
    Add(NfObject),
    Delete(NfObject),
}

pub enum BatchOpV {
    Add(NfObjectV),
    Delete(NfObjectV),
}

impl View for BatchOp {
    type V = BatchOpV;

    open spec fn view(&self) -> BatchOpV {
        match self {
            BatchOp::Add(o) => BatchOpV::Add(o@),
            BatchOp::Delete(o) => BatchOpV::Delete(o@),
        }
    }
}

/// The value of a batch.
pub open spec fn batch_view(s: Seq<BatchOp>) -> Seq<BatchOpV> {
    s.map_values(|x: BatchOp| x@)
}

/// The kinds of kernel object whose absence is reported.
#[derive(Clone, Copy, Debug, PartialEq, Eq, Structural)]
pub enum FirecrackerNetworkObjectType {
    Tap,
    Veth,
    NfTable,
    NfPostroutingChain,
    NfPreroutingChain,
    NfFilterChain,
    NfMasqueradeRule,
    NfEgressForwardRule,
    NfIngressForwardRule,
    NfSnatRule,
    NfDnatRule,
}

/// Errors of an operation; outside causes are carried as their messages.
#[derive(Clone, Debug, PartialEq, Eq)]
pub enum FirecrackerNetworkError {
    NetlinkOperationError(String),
    NftablesError(String),
    TapDeviceError(String),
    NetnsError(String),
    IoError(String),
    ObjectNotFound(FirecrackerNetworkObjectType),
    ForbiddenDualStackInRoute,
}

/// The three operations on a topology.
#[derive(Clone, Copy, Debug, PartialEq, Eq, Structural)]
pub enum FirecrackerNetworkOperation {
    Add,
    Check,
    Delete,
}

/// Description of the guest connectivity of one microVM.
#[derive(Clone, Debug)]
pub struct FirecrackerNetwork {
    pub nft_path: Option<String>,
    pub iface_name: String,
    pub tap_name: String,
    pub tap_ip: IpInet,
    pub guest_ip: IpInet,
}

/// The extension of a network description for the two-namespace topology.
#[derive(Clone, Debug)]
pub struct NamespacedData {
    pub netns_name: String,
    pub veth1_name: String,
    pub veth2_name: String,
    pub veth1_ip: IpInet,
    pub veth2_ip: IpInet,
    pub forwarded_guest_ip: Option<IpAddr>,
}

pub open spec fn is_v4(a: IpAddr) -> bool {
    a is V4
}

/// Whether two addresses belong to the same family.
pub open spec fn same_family(a: IpAddr, b: IpAddr) -> bool {
    is_v4(a) == is_v4(b)
}

/// The family of a network: that of its guest address.
pub open spec fn family_of(a: IpAddr) -> NfFamily {
    if is_v4(a) {
        NfFamily::IP
    } else {
        NfFamily::IP6
    }
}

/// The protocol tag of an address: `ip` for IPv4, `ip6` for IPv6.
pub open spec fn proto_of(a: IpAddr) -> Proto {
    if is_v4(a) {
        Proto::Ip
    } else {
        Proto::Ip6
    }
}

/// Protocol tag of an address.
pub fn nat_proto_from_addr(a: IpAddr) -> (r: Proto)
    ensures
        r == proto_of(a),
{
    match a {
        IpAddr::V4(_) => Proto::Ip,
        IpAddr::V6(_) => Proto::Ip6,
    }
}

/// Family of an address.
pub fn family_from_addr(a: IpAddr) -> (r: NfFamily)
    ensures
        r == family_of(a),
{
    match a {
        IpAddr::V4(_) => NfFamily::IP,
        IpAddr::V6(_) => NfFamily::IP6,
    }
}

/// Whether two addresses belong to the same family.
pub fn is_same_family(a: IpAddr, b: IpAddr) -> (r: bool)
    ensures
        r == same_family(a, b),
{
    match (a, b) {
        (IpAddr::V4(_), IpAddr::V4(_)) => true,
        (IpAddr::V6(_), IpAddr::V6(_)) => true,
        _ => false,
    }
}

/// The network mask of a prefix length, as a 32-bit number.
pub open spec fn mask_v4(len: u8) -> u32 {
    if len == 0 {
        0
    } else if len >= 32 {
        0xffff_ffffu32
    } else {
        (0xffff_ffffu32 << ((32 - len) as u32)) as u32
    }
}

/// The network mask of a prefix length, as a 128-bit number.
pub open spec fn mask_v6(len: u8) -> u128 {
    if len == 0 {
        0
    } else if len >= 128 {
        0xffff_ffff_ffff_ffff_ffff_ffff_ffff_ffffu128
    } else {
        (0xffff_ffff_ffff_ffff_ffff_ffff_ffff_ffffu128 << ((128 - len) as u128)) as u128
    }
}

/// The first address of the network an address belongs to.
pub open spec fn network_addr(i: IpInet) -> IpAddr {
    match i.address {
        IpAddr::V4(a) => IpAddr::V4(a & mask_v4(i.prefix_len)),
        IpAddr::V6(a) => IpAddr::V6(a & mask_v6(i.prefix_len)),
    }
}

/// Network address of a CIDR: the address with its host bits cleared.
pub fn network_address(i: IpInet) -> (r: IpAddr)
    ensures
        r == network_addr(i),
{
    match i.address {
        IpAddr::V4(a) => {
            let len = i.prefix_len;
            let m: u32 = if len == 0 {
                0
            } else if len >= 32 {
                0xffff_ffffu32
            } else {
                0xffff_ffffu32 << ((32 - len) as u32)
            };
            IpAddr::V4(a & m)
        },
        IpAddr::V6(a) => {
            let len = i.prefix_len;
            let m: u128 = if len == 0 {
                0
            } else if len >= 128 {
                0xffff_ffff_ffff_ffff_ffff_ffff_ffff_ffffu128
            } else {
                0xffff_ffff_ffff_ffff_ffff_ffff_ffff_ffffu128 << ((128 - len) as u128)
            };
            IpAddr::V6(a & m)
        },
    }
}

/// A string with the same characters as a name constant.
pub fn name_string(s: &str) -> (r: String)
    ensures
        r@ == s@,
{
    s.to_string()
}

} // verus!
