//! Consistent-hash routing from keys to node names.
//!
//! The ring itself comes from the `hashring` crate: node names are hashed
//! onto a numeric space with `SipHasher::new()` (fixed keys, so the same
//! bytes hash the same way in every process), a key is hashed into the same
//! space, and the key is routed to the nearest node point clockwise,
//! wrapping around. The crate's type and calls stand behind the trusted
//! items below; everything that builds on them is verified against their
//! contracts.

use vstd::prelude::*;

verus! {

#[verifier::external_type_specification]
#[verifier::external_body]
#[verifier::reject_recursive_types(T)]
#[verifier::reject_recursive_types(S)]
pub struct ExHashRing<T, S>(hashring::HashRing<T, S>);

#[verifier::external_type_specification]
#[verifier::external_body]
pub struct ExDefaultHashBuilder(hashring::DefaultHashBuilder);

/// The node names a ring holds, in the order they were added.
pub uninterp spec fn ring_nodes(r: hashring::HashRing<String>) -> Seq<Seq<char>>;

/// The node that a ring built from `nodes` assigns to `key`: `None` exactly
/// when `nodes` is empty. The ring's hasher is seeded with fixed keys, so
/// this is a function of the node names and the key alone.
pub uninterp spec fn ring_route(nodes: Seq<Seq<char>>, key: Seq<char>) -> Option<Seq<char>>;

/// Relies on hashring::HashRing::new: a new ring holds no nodes.
#[verifier::external_body]
pub(crate) fn ring_new() -> (r: hashring::HashRing<String>)
    ensures
        ring_nodes(r) == Seq::<Seq<char>>::empty(),
{
    hashring::HashRing::new()
}

/// Relies on hashring::HashRing::add: the node is hashed and put on the
/// ring, so the ring then holds the nodes added so far plus this one.
#[verifier::external_body]
pub(crate) fn ring_add(r: &mut hashring::HashRing<String>, node: String)
    ensures
        ring_nodes(*final(r)) == ring_nodes(*old(r)).push(node@),
{
    r.add(node);
}

/// Relies on hashring::HashRing::get: it answers `None` exactly on an empty
/// ring, and otherwise one of the nodes added, chosen by hashing the key
/// with the ring's fixed-seed hasher — a function of the nodes and the key
/// alone, named `ring_route`.
#[verifier::external_body]
pub(crate) fn ring_lookup(r: &hashring::HashRing<String>, key: &str) -> (res: Option<String>)
    ensures
        res is Some <==> ring_nodes(*r).len() > 0,
        match res {
            Some(n) => ring_route(ring_nodes(*r), key@) == Some(n@) && ring_nodes(*r).contains(n@),
            None => ring_route(ring_nodes(*r), key@) is None,
        },
{
    r.get(&key).cloned()
}

/// Law: routing is deterministic. For a fixed node set, any two nodes the
/// ring names for the same key are the same node.
pub proof fn lemma_route_deterministic(
    nodes: Seq<Seq<char>>,
    key: Seq<char>,
    r1: Option<Seq<char>>,
    r2: Option<Seq<char>>,
)
    requires
        r1 == ring_route(nodes, key),
        r2 == ring_route(nodes, key),
    ensures
        r1 == r2,
{
}

} // verus!
