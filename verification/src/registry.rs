//! The registry of resolved state paths: one entry for each commitment, kept
//! in the order in which the commitments first came.

use crate::values::Commitment;
use crate::values::StatePath;
use indexmap::IndexMap;
use vstd::prelude::*;

verus! {

#[verifier::external_type_specification]
#[verifier::external_body]
#[verifier::reject_recursive_types(K)]
#[verifier::reject_recursive_types(V)]
#[verifier::reject_recursive_types(S)]
pub struct ExIndexMap<K, V, S>(IndexMap<K, V, S>);

/// The entries of a registry from the first inserted to the last, each as its
/// commitment and the encoding of its state path.
pub uninterp spec fn entries(registry: IndexMap<Commitment, StatePath>) -> Seq<
    (Commitment, Seq<u8>),
>;

/// Whether `listed` has an entry for `commitment`.
pub open spec fn has_entry(listed: Seq<(Commitment, Seq<u8>)>, commitment: Commitment) -> bool {
    exists|i: int| 0 <= i < listed.len() && (#[trigger] listed[i]).0 == commitment
}

/// A position at which `listed` has an entry for `commitment`.
pub open spec fn place_of(listed: Seq<(Commitment, Seq<u8>)>, commitment: Commitment) -> int {
    choose|i: int| 0 <= i < listed.len() && (#[trigger] listed[i]).0 == commitment
}

/// No two entries of `listed` are for the same commitment.
pub open spec fn one_entry_each(listed: Seq<(Commitment, Seq<u8>)>) -> bool {
    forall|i: int, j: int|
        0 <= i < j < listed.len() ==> (#[trigger] listed[i]).0 != (#[trigger] listed[j]).0
}

/// `listed` after `path` has been registered for `commitment`: the entry of
/// a commitment that is already there keeps its place and takes the new
/// path; a new commitment goes last.
pub open spec fn with_entry(
    listed: Seq<(Commitment, Seq<u8>)>,
    commitment: Commitment,
    path: Seq<u8>,
) -> Seq<(Commitment, Seq<u8>)> {
    if has_entry(listed, commitment) {
        listed.update(place_of(listed, commitment), (commitment, path))
    } else {
        listed.push((commitment, path))
    }
}

/// Calls `IndexMap::default`, which the crate documents to return an empty map.
#[verifier::external_body]
pub(crate) fn empty_registry() -> (registry: IndexMap<Commitment, StatePath>)
    ensures
        entries(registry) == Seq::<(Commitment, Seq<u8>)>::empty(),
{
    IndexMap::default()
}

/// Calls `IndexMap::insert`. As the crate documents it: where an equal key
/// is in the map, that entry stays in its place, takes the new value, and the
/// value that it had is returned; else the pair becomes the last entry and
/// nothing is returned.
#[verifier::external_body]
pub(crate) fn registry_insert(
    registry: &mut IndexMap<Commitment, StatePath>,
    commitment: Commitment,
    path: StatePath,
) -> (previous: Option<StatePath>)
    requires
        one_entry_each(entries(*old(registry))),
    ensures
        entries(*final(registry)) == with_entry(entries(*old(registry)), commitment, path@),
        previous is Some <==> has_entry(entries(*old(registry)), commitment),
        previous matches Some(p) ==> p@ == entries(*old(registry))[place_of(
            entries(*old(registry)),
            commitment,
        )].1,
{
    registry.insert(commitment, path)
}

/// Calls `IndexMap::clone`, which copies the entries in their order; each
/// state path is copied by `StatePath::clone`, which keeps its encoding.
#[verifier::external_body]
pub(crate) fn registry_copy(registry: &IndexMap<Commitment, StatePath>) -> (copy: IndexMap<
    Commitment,
    StatePath,
>)
    ensures
        entries(copy) == entries(*registry),
{
    registry.clone()
}

/// Registering a state path keeps the commitments of the entries distinct.
pub proof fn lemma_with_entry_keeps_one_each(
    listed: Seq<(Commitment, Seq<u8>)>,
    commitment: Commitment,
    path: Seq<u8>,
)
    requires
        one_entry_each(listed),
    ensures
        one_entry_each(with_entry(listed, commitment, path)),
        has_entry(with_entry(listed, commitment, path), commitment),
{
    let after = with_entry(listed, commitment, path);
    if has_entry(listed, commitment) {
        let at = place_of(listed, commitment);
        assert(after[at].0 == commitment);
    } else {
        assert(after[listed.len() as int].0 == commitment);
    }
}

} // verus!
