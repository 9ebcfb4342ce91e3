//! Resolving the configured topology into node names and addresses, and the
//! startup probe policy that decides whether the remote tier is used at all.
//!
//! Containerized addressing gives each node a symbolic hostname; local
//! addressing gives host:port pairs on consecutive ports. Both give the
//! logical names used as ring identifiers. Probing the addresses is outside
//! work; the policy on the probes' results stands here: failure to reach
//! the first node disables the remote tier for the whole process, however
//! the later nodes fared, while failure to reach any later node only leaves
//! that node out of the usable set. There is no re-probing or reconnection.

use vstd::prelude::*;

use crate::text::append_dec;
use crate::text::dec_rep;

verus! {

/// The logical name of the node at an index: "node1", "node2", and so on.
pub open spec fn spec_node_name(i: nat) -> Seq<char> {
    "node"@ + dec_rep(i + 1)
}

/// The address of the node at an index: the symbolic per-node hostname
/// under containerized addressing, host:port on consecutive ports
/// otherwise.
pub open spec fn spec_node_address(docker: bool, host: Seq<char>, base_port: u16, i: nat) -> Seq<
    char,
> {
    if docker {
        "redis-"@ + dec_rep(i + 1)
    } else {
        host + ":"@ + dec_rep(base_port as nat + i)
    }
}

/// Whether the remote tier stays active: only when it was asked for and
/// the probe of the first node succeeded.
pub open spec fn spec_remote_active(use_remote: bool, probes: Seq<bool>) -> bool {
    use_remote && probes.len() > 0 && probes[0]
}

pub fn node_name(i: usize) -> (s: String)
    requires
        i < usize::MAX,
    ensures
        s@ == spec_node_name(i as nat),
{
    let mut s = "node".to_owned();
    append_dec(&mut s, i as u64 + 1);
    s
}

pub fn node_address(docker: bool, host: &str, base_port: u16, i: usize) -> (s: String)
    requires
        base_port + i <= u16::MAX,
    ensures
        s@ == spec_node_address(docker, host@, base_port, i as nat),
{
    if docker {
        let mut s = "redis-".to_owned();
        append_dec(&mut s, i as u64 + 1);
        s
    } else {
        let mut s = host.to_owned();
        s.append(":");
        append_dec(&mut s, base_port as u64 + i as u64);
        proof {
            assert(s@ =~= host@ + ":"@ + dec_rep((base_port + i) as nat));
        }
        s
    }
}

/// The logical names of all configured nodes, in index order.
pub fn node_names(num_nodes: usize) -> (r: Vec<String>)
    requires
        num_nodes < usize::MAX,
    ensures
        r@.len() == num_nodes,
        forall|i: int| 0 <= i < num_nodes ==> (#[trigger] r@[i])@ == spec_node_name(i as nat),
{
    let mut r: Vec<String> = Vec::new();
    let mut i: usize = 0;
    while i < num_nodes
        invariant
            num_nodes < usize::MAX,
            i <= num_nodes,
            r@.len() == i,
            forall|j: int| 0 <= j < i ==> (#[trigger] r@[j])@ == spec_node_name(j as nat),
        decreases num_nodes - i,
    {
        r.push(node_name(i));
        i = i + 1;
    }
    r
}

/// The addresses of all configured nodes, in index order.
pub fn node_addresses(docker: bool, host: &str, base_port: u16, num_nodes: usize) -> (r: Vec<
    String,
>)
    requires
        base_port + num_nodes <= u16::MAX + 1,
    ensures
        r@.len() == num_nodes,
        forall|i: int|
            0 <= i < num_nodes ==> (#[trigger] r@[i])@ == spec_node_address(
                docker,
                host@,
                base_port,
                i as nat,
            ),
{
    let mut r: Vec<String> = Vec::new();
    let mut i: usize = 0;
    while i < num_nodes
        invariant
            base_port + num_nodes <= u16::MAX + 1,
            i <= num_nodes,
            r@.len() == i,
            forall|j: int|
                0 <= j < i ==> (#[trigger] r@[j])@ == spec_node_address(
                    docker,
                    host@,
                    base_port,
                    j as nat,
                ),
        decreases num_nodes - i,
    {
        r.push(node_address(docker, host, base_port, i));
        i = i + 1;
    }
    r
}

/// The startup policy on the probes' results: the remote tier is used only
/// when it was asked for and the first node answered its probe.
pub fn remote_tier_active(use_remote: bool, probes: &Vec<bool>) -> (b: bool)
    ensures
        b == spec_remote_active(use_remote, probes@),
{
    use_remote && probes.len() > 0 && probes[0]
}

} // verus!
