//! The rule manager: the kernel packet-interception rules the service
//! installs and removes, and the network-stack tuning parameter it sets.
//!
//! Installation is not idempotent — applying the install actions twice
//! duplicates rules. The orchestrator's conflict guard is the sole
//! protection against that, so these plans only say exactly which actions
//! one install or one removal performs; the I/O layer applies them in
//! order.

use vstd::prelude::*;

verus! {

/// How an action manipulates its chain.
#[derive(Clone, Copy, Debug, PartialEq, Eq, Structural)]
pub enum RuleOp {
    /// Insert at the head of the chain (position 1).
    InsertHead,
    /// Append at the end of the chain.
    Append,
    /// Delete the matching rule from the chain.
    Delete,
}

/// The packet-filter table an action addresses.
#[derive(Clone, Copy, Debug, PartialEq, Eq, Structural)]
pub enum Table {
    Mangle,
    Filter,
}

/// The chain within the table an action addresses.
#[derive(Clone, Copy, Debug, PartialEq, Eq, Structural)]
pub enum Chain {
    Postrouting,
    Prerouting,
    Forward,
}

/// One rule manipulation. Every action carries the same match-and-target
/// specification: divert to the interception queue, bypassing when no
/// consumer is bound (see [`rule_spec_string`]).
#[derive(Clone, Copy, Debug, PartialEq, Eq, Structural)]
pub struct RuleAction {
    pub op: RuleOp,
    pub table: Table,
    pub chain: Chain,
}

/// The match-and-target specification shared by every action: divert to
/// interception queue 200 with the bypass-on-full policy.
pub fn rule_spec_string() -> (r: String)
    ensures
        r@ == "-j NFQUEUE --queue-num 200 --queue-bypass"@,
{
    String::from_str("-j NFQUEUE --queue-num 200 --queue-bypass")
}

/// The table's name as the packet-filter tooling spells it.
pub fn table_name(t: Table) -> (r: String)
    ensures
        r@ == (match t {
            Table::Mangle => "mangle"@,
            Table::Filter => "filter"@,
        }),
{
    match t {
        Table::Mangle => String::from_str("mangle"),
        Table::Filter => String::from_str("filter"),
    }
}

/// The chain's name as the packet-filter tooling spells it.
pub fn chain_name(c: Chain) -> (r: String)
    ensures
        r@ == (match c {
            Chain::Postrouting => "POSTROUTING"@,
            Chain::Prerouting => "PREROUTING"@,
            Chain::Forward => "FORWARD"@,
        }),
{
    match c {
        Chain::Postrouting => String::from_str("POSTROUTING"),
        Chain::Prerouting => String::from_str("PREROUTING"),
        Chain::Forward => String::from_str("FORWARD"),
    }
}

/// The three actions of one install: head insertions into the mangle
/// output and input chains, and an append to the forwarding chain.
pub open spec fn setup_rules() -> Seq<RuleAction> {
    seq![
        (RuleAction { op: RuleOp::InsertHead, table: Table::Mangle, chain: Chain::Postrouting }),
        (RuleAction { op: RuleOp::InsertHead, table: Table::Mangle, chain: Chain::Prerouting }),
        (RuleAction { op: RuleOp::Append, table: Table::Filter, chain: Chain::Forward }),
    ]
}

/// The three actions of one removal: the symmetric deletions, in the same
/// table-and-chain order.
pub open spec fn clear_rules() -> Seq<RuleAction> {
    seq![
        (RuleAction { op: RuleOp::Delete, table: Table::Mangle, chain: Chain::Postrouting }),
        (RuleAction { op: RuleOp::Delete, table: Table::Mangle, chain: Chain::Prerouting }),
        (RuleAction { op: RuleOp::Delete, table: Table::Filter, chain: Chain::Forward }),
    ]
}

/// The ordered actions one install performs.
pub fn setup_iptables_rules() -> (r: Vec<RuleAction>)
    ensures
        r@ == setup_rules(),
{
    let mut r: Vec<RuleAction> = Vec::new();
    r.push(RuleAction { op: RuleOp::InsertHead, table: Table::Mangle, chain: Chain::Postrouting });
    r.push(RuleAction { op: RuleOp::InsertHead, table: Table::Mangle, chain: Chain::Prerouting });
    r.push(RuleAction { op: RuleOp::Append, table: Table::Filter, chain: Chain::Forward });
    proof {
        assert(r@ =~= setup_rules());
    }
    r
}

/// The ordered actions one removal performs.
pub fn clear_iptables_rules() -> (r: Vec<RuleAction>)
    ensures
        r@ == clear_rules(),
{
    let mut r: Vec<RuleAction> = Vec::new();
    r.push(RuleAction { op: RuleOp::Delete, table: Table::Mangle, chain: Chain::Postrouting });
    r.push(RuleAction { op: RuleOp::Delete, table: Table::Mangle, chain: Chain::Prerouting });
    r.push(RuleAction { op: RuleOp::Delete, table: Table::Filter, chain: Chain::Forward });
    proof {
        assert(r@ =~= clear_rules());
    }
    r
}

/// Removal is the mirror of installation: the same number of actions,
/// each deleting from exactly the table and chain its counterpart
/// installed into.
pub proof fn lemma_remove_mirrors_install()
    ensures
        clear_rules().len() == setup_rules().len(),
        forall|i: int|
            0 <= i < setup_rules().len() ==> (#[trigger] clear_rules()[i]).table
                == setup_rules()[i].table && clear_rules()[i].chain == setup_rules()[i].chain
                && clear_rules()[i].op == RuleOp::Delete,
{
}

/// The kernel network-stack parameter one start sets, and its value:
/// relaxes TCP connection-tracking strictness so the engine's intentional
/// out-of-window segments are not dropped.
pub fn tune_parameter() -> (r: (String, String))
    ensures
        r.0@ == "net.netfilter.nf_conntrack_tcp_be_liberal"@,
        r.1@ == "1"@,
{
    (
        String::from_str("net.netfilter.nf_conntrack_tcp_be_liberal"),
        String::from_str("1"),
    )
}

} // verus!
