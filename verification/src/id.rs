//! Stable 64-bit identifiers for UI elements.
//!
//! An element's id is derived from its structural position alone: a child id
//! is the parent id combined with a position hash.  The same tree position
//! therefore yields the same id on every frame, which is the only mechanism
//! by which interaction state survives the per-frame rebuild of the tree.

use vstd::prelude::*;
use crate::math::Vec2;

verus! {

/// One round of a 64-bit finalizer: xor-shifts interleaved with odd
/// multiplications, so close inputs land far apart.
pub closed spec fn spec_mix(z: u64) -> u64 {
    let a = (z ^ (z >> 30)).wrapping_mul(0xbf58476d1ce4e5b9u64);
    let b = (a ^ (a >> 27)).wrapping_mul(0x94d049bb133111ebu64);
    b ^ (b >> 31)
}

/// Order-sensitive combination of two 64-bit values.
pub open spec fn spec_combine(a: u64, b: u64) -> u64 {
    spec_mix(spec_mix(a) ^ b)
}

fn mix(z: u64) -> (r: u64)
    ensures
        r == spec_mix(z),
{
    let a = (z ^ (z >> 30)).wrapping_mul(0xbf58476d1ce4e5b9u64);
    let b = (a ^ (a >> 27)).wrapping_mul(0x94d049bb133111ebu64);
    b ^ (b >> 31)
}

fn combine(a: u64, b: u64) -> (r: u64)
    ensures
        r == spec_combine(a, b),
{
    mix(mix(a) ^ b)
}

/// Stable identifier of one element position in the UI tree.  Equality is
/// bitwise on the 64-bit digest.
#[derive(Clone, Copy, Debug, Hash, PartialEq, Eq, Structural)]
pub struct Id {
    hash: u64,
}

impl Id {
    /// The digest itself.
    pub closed spec fn spec_hash(&self) -> u64 {
        self.hash
    }

    /// The null id, as a specification value.
    pub closed spec fn spec_none() -> Id {
        Id { hash: 0 }
    }

    /// The null id: marks elements that take no interaction.
    pub fn none() -> (r: Id)
        ensures
            r == Id::spec_none(),
            r.spec_hash() == 0,
    {
        Id { hash: 0 }
    }

    /// The id a pair of coordinates hashes to.
    pub open spec fn spec_from_vec2(v: Vec2) -> u64 {
        spec_combine(v.x as u64, v.y as u64)
    }

    /// Hashes a position (index on line, line index) into an id.  The result
    /// depends on the two coordinates alone, so it is the same in every
    /// frame and in every process.
    pub fn from_vec2(v: Vec2) -> (r: Id)
        ensures
            r.spec_hash() == Id::spec_from_vec2(v),
    {
        Id { hash: combine(#[verifier::truncate] (v.x as u64), #[verifier::truncate] (v.y as u64)) }
    }

    /// The id `child` hashes to under parent `self`.
    pub open spec fn spec_with_child(self, child: Id) -> u64 {
        spec_combine(self.spec_hash(), child.spec_hash())
    }

    /// Hashes `self` and `id` into the child's id.  Order-sensitive: parent
    /// and child do not commute.
    pub fn with_child(&self, id: Id) -> (r: Id)
        ensures
            r.spec_hash() == self.spec_with_child(id),
    {
        Id { hash: combine(self.hash, id.hash) }
    }
}

/// Two ids are equal exactly when their digests are: an `Id` is nothing but
/// its 64-bit digest.
pub broadcast proof fn lemma_id_eq_by_hash(a: Id, b: Id)
    ensures
        (#[trigger] a.spec_hash() == #[trigger] b.spec_hash()) <==> a == b,
{
}

/// Id derivation is deterministic: equal parents and equal child keys give
/// equal ids, across invocations and across frames.
pub proof fn lemma_id_deterministic(p1: Id, c1: Id, p2: Id, c2: Id)
    requires
        p1 == p2,
        c1 == c2,
    ensures
        p1.spec_with_child(c1) == p2.spec_with_child(c2),
{
}

} // verus!
