//! The key-value service facade: the consistent-hash ring, the startup
//! policy's outcome, and the fallback store, composed into the get, set,
//! delete and keys operations.
//!
//! Talking to a remote node is outside work, so each operation takes the
//! remote tier's answer, when there was one, as a plain value, and the
//! contracts say exactly which answer reaches the caller and what the
//! fallback store holds afterwards: a missing or unreachable connection
//! falls over to the fallback store for that call, a rejected command
//! surfaces as a backend failure, and a key the remote tier answered for
//! never touches the fallback store.

use vstd::prelude::*;

use crate::fallback::FallbackStore;
use crate::fallback::seq_has_key;
use crate::glob::glob_matches;
use crate::outcome::BackendReply;
use crate::outcome::DeleteReply;
use crate::outcome::OperationOutcome;
use crate::outcome::OutcomeView;
use crate::outcome::SetReply;
use crate::outcome::outcome_of_delete_reply;
use crate::outcome::outcome_of_get_reply;
use crate::registry::remote_tier_active;
use crate::registry::spec_node_name;
use crate::registry::spec_remote_active;
use crate::registry::node_name;
use crate::ring::ring_add;
use crate::ring::ring_lookup;
use crate::ring::ring_new;
use crate::ring::ring_nodes;
use crate::ring::ring_route;

verus! {

/// The names of the nodes whose startup probe succeeded, in index order,
/// out of the first `n` configured nodes.
pub open spec fn spec_healthy_names(n: nat, probes: Seq<bool>) -> Seq<Seq<char>>
    decreases n,
{
    if n == 0 {
        Seq::empty()
    } else if probes[n - 1] {
        spec_healthy_names((n - 1) as nat, probes) + seq![spec_node_name((n - 1) as nat)]
    } else {
        spec_healthy_names((n - 1) as nat, probes)
    }
}

/// Where one operation on a key goes: `Some` node name when the remote
/// tier is active, the ring routes the key, and the routed node is
/// healthy; `None` — the fallback store — otherwise. An empty ring counts
/// as a disabled remote tier.
pub open spec fn spec_plan(
    active: bool,
    nodes: Seq<Seq<char>>,
    healthy: Seq<Seq<char>>,
    key: Seq<char>,
) -> Option<Seq<char>> {
    if !active {
        None
    } else {
        match ring_route(nodes, key) {
            Some(n) => if healthy.contains(n) {
                Some(n)
            } else {
                None
            },
            None => None,
        }
    }
}

/// What reading a key from the fallback store reports.
pub open spec fn spec_fallback_get(m: Map<Seq<char>, Seq<char>>, k: Seq<char>) -> OutcomeView {
    if m.contains_key(k) {
        OutcomeView::Success(Some(m[k]))
    } else {
        OutcomeView::Absent
    }
}

/// What a get reports: a remote answer passes through, with a missing key
/// as `Absent`; a remote error, or no remote call at all, reads the
/// fallback store.
pub open spec fn spec_get(
    m: Map<Seq<char>, Seq<char>>,
    k: Seq<char>,
    remote: Option<BackendReply>,
) -> OutcomeView {
    match remote {
        Some(BackendReply::Found(v)) => OutcomeView::Success(Some(v@)),
        Some(BackendReply::Missing) => OutcomeView::Absent,
        Some(BackendReply::Failed(_)) => spec_fallback_get(m, k),
        None => spec_fallback_get(m, k),
    }
}

/// What a set reports: a landed write is success, a rejected command is a
/// backend failure, and a missing connection, or no remote call at all,
/// writes the fallback store instead and succeeds.
pub open spec fn spec_set_outcome(remote: Option<SetReply>) -> OutcomeView {
    match remote {
        Some(SetReply::Done) => OutcomeView::Success(None),
        Some(SetReply::CommandFailed(e)) => OutcomeView::BackendFailure(e@),
        Some(SetReply::ConnectionFailed(_)) => OutcomeView::Success(None),
        None => OutcomeView::Success(None),
    }
}

/// What the fallback store holds after a set: unchanged when the remote
/// tier answered, the pair written otherwise.
pub open spec fn spec_set_store(
    m: Map<Seq<char>, Seq<char>>,
    k: Seq<char>,
    v: Seq<char>,
    remote: Option<SetReply>,
) -> Map<Seq<char>, Seq<char>> {
    match remote {
        Some(SetReply::Done) => m,
        Some(SetReply::CommandFailed(_)) => m,
        Some(SetReply::ConnectionFailed(_)) => m.insert(k, v),
        None => m.insert(k, v),
    }
}

/// What a delete reports: a remote count passes through (at least one
/// removed entry is success, none means the key did not exist); a remote
/// error, or no remote call at all, removes from the fallback store.
pub open spec fn spec_delete_outcome(
    m: Map<Seq<char>, Seq<char>>,
    k: Seq<char>,
    remote: Option<DeleteReply>,
) -> OutcomeView {
    match remote {
        Some(DeleteReply::Counted(c)) => if c >= 1 {
            OutcomeView::Success(None)
        } else {
            OutcomeView::Absent
        },
        Some(DeleteReply::Failed(_)) => if m.contains_key(k) {
            OutcomeView::Success(None)
        } else {
            OutcomeView::Absent
        },
        None => if m.contains_key(k) {
            OutcomeView::Success(None)
        } else {
            OutcomeView::Absent
        },
    }
}

/// What the fallback store holds after a delete: unchanged when the remote
/// tier counted the removal, the key removed otherwise.
pub open spec fn spec_delete_store(
    m: Map<Seq<char>, Seq<char>>,
    k: Seq<char>,
    remote: Option<DeleteReply>,
) -> Map<Seq<char>, Seq<char>> {
    match remote {
        Some(DeleteReply::Counted(_)) => m,
        Some(DeleteReply::Failed(_)) => m.remove(k),
        None => m.remove(k),
    }
}

/// The node replies to a keys query, merged in node order, duplicates
/// kept.
pub open spec fn spec_merged(rs: Seq<Vec<String>>) -> Seq<String>
    decreases rs.len(),
{
    if rs.len() == 0 {
        Seq::empty()
    } else {
        spec_merged(rs.drop_last()) + rs.last()@
    }
}

/// Where one operation on a key goes, as handed to the runner.
pub enum RoutePlan {
    Remote(String),
    Local,
}

/// The sharded store: ring membership and the set of usable connections
/// are fixed at startup; only the fallback store changes underneath.
pub struct KvStore {
    ring: hashring::HashRing<String>,
    use_remote: bool,
    healthy: Vec<String>,
    fallback: FallbackStore,
}

impl KvStore {
    /// The ring's node names, in the order they were added.
    pub closed spec fn nodes(self) -> Seq<Seq<char>> {
        ring_nodes(self.ring)
    }

    /// Whether the remote tier is active for this process.
    pub closed spec fn remote_active(self) -> bool {
        self.use_remote
    }

    /// The names of the nodes with usable connections.
    pub closed spec fn healthy_nodes(self) -> Seq<Seq<char>> {
        self.healthy@.map_values(|s: String| s@)
    }

    /// The fallback store's mapping.
    pub closed spec fn store(self) -> Map<Seq<char>, Seq<char>> {
        self.fallback@
    }

    pub closed spec fn wf(self) -> bool {
        self.fallback.wf()
    }

    /// Resolves the topology and the startup probes' results into a ready
    /// service: a ring over all configured node names, the remote tier
    /// active only if asked for and the first probe succeeded, the healthy
    /// set holding the probed-reachable nodes, and an empty fallback store.
    pub fn new(num_nodes: usize, use_remote: bool, probes: &Vec<bool>) -> (s: KvStore)
        requires
            probes@.len() == num_nodes,
            num_nodes < usize::MAX,
        ensures
            s.wf(),
            s.store() == Map::<Seq<char>, Seq<char>>::empty(),
            s.nodes().len() == num_nodes,
            forall|i: int| 0 <= i < num_nodes ==> s.nodes()[i] == spec_node_name(i as nat),
            s.remote_active() == spec_remote_active(use_remote, probes@),
            s.healthy_nodes() == if spec_remote_active(use_remote, probes@) {
                spec_healthy_names(num_nodes as nat, probes@)
            } else {
                Seq::<Seq<char>>::empty()
            },
    {
        let active = remote_tier_active(use_remote, probes);
        let mut ring = ring_new();
        let mut i: usize = 0;
        while i < num_nodes
            invariant
                num_nodes < usize::MAX,
                i <= num_nodes,
                ring_nodes(ring).len() == i,
                forall|j: int| 0 <= j < i ==> ring_nodes(ring)[j] == spec_node_name(j as nat),
            decreases num_nodes - i,
        {
            ring_add(&mut ring, node_name(i));
            i = i + 1;
        }
        let mut healthy: Vec<String> = Vec::new();
        if active {
            let mut i: usize = 0;
            while i < num_nodes
                invariant
                    probes@.len() == num_nodes,
                    num_nodes < usize::MAX,
                    i <= num_nodes,
                    healthy@.map_values(|s: String| s@) == spec_healthy_names(i as nat, probes@),
                decreases num_nodes - i,
            {
                if probes[i] {
                    healthy.push(node_name(i));
                }
                proof {
                    assert(healthy@.map_values(|s: String| s@) =~= spec_healthy_names(
                        i as nat + 1,
                        probes@,
                    ));
                }
                i = i + 1;
            }
        }
        let s = KvStore { ring, use_remote: active, healthy, fallback: FallbackStore::new() };
        proof {
            if !active {
                assert(s.healthy_nodes() =~= Seq::<Seq<char>>::empty());
            }
        }
        s
    }

    /// Whether the remote tier is active: it was asked for at startup and
    /// the first node answered its probe.
    pub fn remote_enabled(&self) -> (b: bool)
        ensures
            b == self.remote_active(),
    {
        self.use_remote
    }

    /// The node the ring assigns to a key: `Some` exactly when the ring has
    /// nodes, and then a pure function of the node set and the key, so
    /// repeated calls name the same node.
    pub fn route(&self, key: &str) -> (r: Option<String>)
        ensures
            r is Some <==> self.nodes().len() > 0,
            match r {
                Some(n) => ring_route(self.nodes(), key@) == Some(n@),
                None => ring_route(self.nodes(), key@) is None,
            },
    {
        ring_lookup(&self.ring, key)
    }

    fn is_healthy(&self, name: &String) -> (b: bool)
        ensures
            b == self.healthy_nodes().contains(name@),
    {
        let n = self.healthy.len();
        let mut i: usize = 0;
        while i < n
            invariant
                n == self.healthy@.len(),
                i <= n,
                forall|j: int| 0 <= j < i ==> (#[trigger] self.healthy@[j])@ != name@,
            decreases n - i,
        {
            if self.healthy[i] == *name {
                proof {
                    assert(self.healthy_nodes()[i as int] == name@);
                }
                return true;
            }
            i = i + 1;
        }
        proof {
            assert forall|j: int|
                0 <= j < self.healthy_nodes().len() implies #[trigger] self.healthy_nodes()[j]
                != name@ by {
                assert(self.healthy_nodes()[j] == self.healthy@[j]@);
            }
        }
        false
    }

    /// Decides where one operation on a key goes, without performing it:
    /// to the routed node when the remote tier is active and that node is
    /// healthy, to the fallback store otherwise.
    pub fn plan(&self, key: &str) -> (p: RoutePlan)
        ensures
            match p {
                RoutePlan::Remote(n) => spec_plan(
                    self.remote_active(),
                    self.nodes(),
                    self.healthy_nodes(),
                    key@,
                ) == Some(n@),
                RoutePlan::Local => spec_plan(
                    self.remote_active(),
                    self.nodes(),
                    self.healthy_nodes(),
                    key@,
                ) is None,
            },
    {
        if !self.use_remote {
            return RoutePlan::Local;
        }
        match ring_lookup(&self.ring, key) {
            None => RoutePlan::Local,
            Some(node) => {
                if self.is_healthy(&node) {
                    RoutePlan::Remote(node)
                } else {
                    RoutePlan::Local
                }
            },
        }
    }

    fn fallback_get_outcome(&self, key: &str) -> (o: OperationOutcome)
        requires
            self.wf(),
        ensures
            o@ == spec_fallback_get(self.store(), key@),
    {
        match self.fallback.get(key) {
            Some(v) => OperationOutcome::Success(Some(v)),
            None => OperationOutcome::Absent,
        }
    }

    /// Reads a key. A remote answer passes through unchanged — a missing
    /// key reads as `Absent`, never as a failure — and a remote error falls
    /// over to the fallback store for this call, as does having had no
    /// remote call at all.
    pub fn get(&self, key: &str, remote: Option<BackendReply>) -> (o: OperationOutcome)
        requires
            self.wf(),
        ensures
            o@ == spec_get(self.store(), key@, remote),
    {
        match remote {
            Some(reply) => {
                let out = outcome_of_get_reply(reply);
                match out {
                    OperationOutcome::BackendFailure(_) => self.fallback_get_outcome(key),
                    other => other,
                }
            },
            None => self.fallback_get_outcome(key),
        }
    }

    /// Writes a key. A landed remote write succeeds and leaves the fallback
    /// store alone; a rejected command surfaces as a backend failure; a
    /// missing connection, or no remote call at all, writes the fallback
    /// store instead.
    pub fn set(&mut self, key: &str, value: &str, remote: Option<SetReply>) -> (o:
        OperationOutcome)
        requires
            old(self).wf(),
        ensures
            final(self).wf(),
            o@ == spec_set_outcome(remote),
            final(self).store() == spec_set_store(old(self).store(), key@, value@, remote),
            final(self).nodes() == old(self).nodes(),
            final(self).remote_active() == old(self).remote_active(),
            final(self).healthy_nodes() == old(self).healthy_nodes(),
    {
        match remote {
            Some(SetReply::Done) => OperationOutcome::Success(None),
            Some(SetReply::CommandFailed(e)) => OperationOutcome::BackendFailure(e),
            Some(SetReply::ConnectionFailed(_)) => {
                self.fallback.set(key, value);
                OperationOutcome::Success(None)
            },
            None => {
                self.fallback.set(key, value);
                OperationOutcome::Success(None)
            },
        }
    }

    /// Deletes a key. A remote count passes through — at least one removed
    /// entry reads as deleted, none as "did not exist" — and a remote
    /// error, or no remote call at all, removes from the fallback store.
    pub fn delete(&mut self, key: &str, remote: Option<DeleteReply>) -> (o: OperationOutcome)
        requires
            old(self).wf(),
        ensures
            final(self).wf(),
            o@ == spec_delete_outcome(old(self).store(), key@, remote),
            final(self).store() == spec_delete_store(old(self).store(), key@, remote),
            final(self).nodes() == old(self).nodes(),
            final(self).remote_active() == old(self).remote_active(),
            final(self).healthy_nodes() == old(self).healthy_nodes(),
    {
        match remote {
            Some(DeleteReply::Counted(c)) => outcome_of_delete_reply(c),
            _ => {
                let existed = self.fallback.delete(key);
                if existed {
                    OperationOutcome::Success(None)
                } else {
                    OperationOutcome::Absent
                }
            },
        }
    }

    /// Lists keys matching a pattern. With the remote tier's replies — one
    /// per healthy node — the result is their merge, in node order, with
    /// duplicates kept; without them it is the fallback store's matching
    /// keys, each once.
    pub fn keys(&self, pattern: &str, remote: Option<Vec<Vec<String>>>) -> (r: Vec<String>)
        requires
            self.wf(),
        ensures
            match remote {
                Some(replies) => r@ == spec_merged(replies@),
                None => {
                    &&& forall|j: int|
                        0 <= j < r@.len() ==> self.store().contains_key((#[trigger] r@[j])@)
                            && glob_matches(pattern@, r@[j]@)
                    &&& forall|k: Seq<char>|
                        self.store().contains_key(k) && glob_matches(pattern@, k)
                            ==> seq_has_key(r@, k)
                    &&& forall|j1: int, j2: int| 0 <= j1 < j2 < r@.len() ==> r@[j1]@ != r@[j2]@
                },
            },
    {
        match remote {
            Some(replies) => merged(replies),
            None => self.fallback.keys_matching(pattern),
        }
    }
}

/// Law: a key-value pair written through the facade without a remote
/// answer lands in the fallback store and reads back as written; deleting
/// it afterwards reports it deleted, and a read after that finds nothing.
pub proof fn lemma_local_round_trip(m: Map<Seq<char>, Seq<char>>, k: Seq<char>, v: Seq<char>)
    ensures
        spec_get(spec_set_store(m, k, v, None), k, None) == OutcomeView::Success(Some(v)),
        spec_delete_outcome(spec_set_store(m, k, v, None), k, None) == OutcomeView::Success(
            None,
        ),
        spec_get(spec_delete_store(spec_set_store(m, k, v, None), k, None), k, None)
            == OutcomeView::Absent,
{
}

/// Law: with the remote tier disabled — by configuration or by the first
/// node's failed probe — every key's plan is the fallback store, whatever
/// the ring and the healthy set hold.
pub proof fn lemma_disabled_tier_plans_local(
    nodes: Seq<Seq<char>>,
    healthy: Seq<Seq<char>>,
    key: Seq<char>,
)
    ensures
        spec_plan(false, nodes, healthy, key) is None,
{
}

fn merged(replies: Vec<Vec<String>>) -> (r: Vec<String>)
    ensures
        r@ == spec_merged(replies@),
{
    let n = replies.len();
    let mut out: Vec<String> = Vec::new();
    let mut i: usize = 0;
    while i < n
        invariant
            n == replies@.len(),
            i <= n,
            out@ == spec_merged(replies@.take(i as int)),
        decreases n - i,
    {
        let m = replies[i].len();
        let mut j: usize = 0;
        while j < m
            invariant
                n == replies@.len(),
                i < n,
                m == replies@[i as int]@.len(),
                j <= m,
                out@ == spec_merged(replies@.take(i as int)) + replies@[i as int]@.take(j as int),
            decreases m - j,
        {
            out.push(replies[i][j].clone());
            proof {
                assert(replies@[i as int]@.take(j as int + 1) =~= replies@[i as int]@.take(
                    j as int,
                ).push(replies@[i as int]@[j as int]));
                assert(out@ =~= spec_merged(replies@.take(i as int)) + replies@[i as int]@.take(
                    j as int + 1,
                ));
            }
            j = j + 1;
        }
        proof {
            assert(replies@.take(i as int + 1).drop_last() =~= replies@.take(i as int));
            assert(replies@.take(i as int + 1).last() == replies@[i as int]);
            assert(replies@[i as int]@.take(m as int) =~= replies@[i as int]@);
            assert(out@ =~= spec_merged(replies@.take(i as int + 1)));
        }
        i = i + 1;
    }
    proof {
        assert(replies@.take(n as int) =~= replies@);
    }
    out
}

} // verus!
