//! Stable element identities derived from string keys.

use std::collections::hash_map::DefaultHasher;
use std::hash::Hasher;
use vstd::prelude::*;
use vstd::std_specs::hash::DefaultHasherAdditionalSpecFns;
use vstd::utf8::encode_utf8;

verus! {

/// Identity of one element of the displayed tree: a name and a number.
/// A non-cryptographic convenience id for reconciliation between renders;
/// distinct keys may collide.
#[derive(Clone, Debug, PartialEq, Eq, Hash)]
pub struct ElementId {
    pub name: String,
    pub index: u64,
}

/// Mathematical value of an [`ElementId`].
pub struct ElementIdView {
    pub name: Seq<char>,
    pub index: u64,
}

impl View for ElementId {
    type V = ElementIdView;

    open spec fn view(&self) -> ElementIdView {
        ElementIdView { name: self.name@, index: self.index }
    }
}

/// The digest of a key: what a fresh default hasher returns after the key's
/// UTF-8 bytes and the terminating byte `0xff` were written to it.
pub open spec fn key_digest(key: Seq<char>) -> u64 {
    DefaultHasher::spec_finish(seq![encode_utf8(key), seq![0xffu8]])
}

/// The identity that belongs to a logical key.
pub open spec fn identity_of(key: Seq<char>) -> ElementIdView {
    ElementIdView { name: "item"@, index: key_digest(key) }
}

/// Hashes `key` with the standard library's default hasher.
pub fn digest_key(key: &str) -> (h: u64)
    ensures
        h == key_digest(key@),
{
    let mut hasher = DefaultHasher::new();
    hasher.write(key.as_bytes());
    let end: [u8; 1] = [0xffu8];
    hasher.write(end.as_slice());
    proof {
        assert(end@ =~= seq![0xffu8]);
        assert(hasher@ =~= seq![encode_utf8(key@), seq![0xffu8]]);
    }
    hasher.finish()
}

/// Derives the element identity of the item with logical key `key`.
pub fn identity(key: &str) -> (id: ElementId)
    ensures
        id@ == identity_of(key@),
{
    ElementId { name: "item".to_owned(), index: digest_key(key) }
}

/// The identity depends on the key alone: equal keys give equal identities,
/// on every derivation.
pub proof fn lemma_identity_deterministic(k1: Seq<char>, k2: Seq<char>)
    requires
        k1 == k2,
    ensures
        identity_of(k1) == identity_of(k2),
{
}

} // verus!
