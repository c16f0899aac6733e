//! The crate's laws, each stated over the models that the function contracts
//! use: the registry's mapping, the canonical bytes, and the hash stamp.

use vstd::prelude::*;
use crate::envelope::{error_items, Envelope};
use crate::hashing::{hex_of, sha256_of};

verus! {

/// Law: resolving a name immediately after registering a unit under it yields
/// that exact unit. `register` turns the registry's mapping into
/// `old.insert(name, unit)`, and `resolve` returns the mapping's value at the
/// resolved name, so read-after-write visibility reduces to this fact about
/// the model.
pub proof fn lemma_read_after_write<U>(m: Map<Seq<char>, U>, name: Seq<char>, unit: U)
    ensures
        m.insert(name, unit).contains_key(name),
        m.insert(name, unit)[name] == unit,
{
}

/// Law: an unregistered name stays unresolvable — registering under any other
/// name does not make it appear, and `resolve` answers `None` exactly on the
/// names the mapping does not contain, never a partial or stale entry.
pub proof fn lemma_unregistered_stays_absent<U>(
    m: Map<Seq<char>, U>,
    name: Seq<char>,
    other: Seq<char>,
    unit: U,
)
    requires
        !m.contains_key(name),
        other != name,
    ensures
        !m.insert(other, unit).contains_key(name),
{
}

/// Law: recomputing the canonical hash over the non-hash fields of an
/// envelope this crate produced — every producer ensures `hash_ok` —
/// reproduces the stored hash exactly, with the same canonicalization rule.
pub proof fn lemma_hash_round_trip(e: Envelope)
    requires
        e.hash_ok(),
    ensures
        e.hash@ == hex_of(sha256_of(e.canonical_of())),
{
}

/// The canonical bytes of two error lists agree when the lists carry the same
/// text, whatever `String` values hold it.
proof fn lemma_error_items_of_text(errs1: Seq<String>, errs2: Seq<String>)
    requires
        errs1.len() == errs2.len(),
        forall|i: int| 0 <= i < errs1.len() ==> errs1[i]@ == errs2[i]@,
    ensures
        error_items(errs1) == error_items(errs2),
    decreases errs1.len(),
{
    if errs1.len() > 0 {
        lemma_error_items_of_text(errs1.drop_last(), errs2.drop_last());
    }
}

/// Law: the hash depends on the seven hashed fields alone. Two envelopes that
/// agree on code, data, timestamp, cache and cost, and whose message and
/// error texts read the same, carry the same hash text, so any party applying
/// the canonicalization rule to the same values reproduces it.
pub proof fn lemma_hash_deterministic(e1: Envelope, e2: Envelope)
    requires
        e1.hash_ok(),
        e2.hash_ok(),
        e1.code == e2.code,
        e1.message@ == e2.message@,
        e1.data == e2.data,
        e1.errors@.len() == e2.errors@.len(),
        forall|i: int| 0 <= i < e1.errors@.len() ==> e1.errors@[i]@ == e2.errors@[i]@,
        e1.timestamp == e2.timestamp,
        e1.cache == e2.cache,
        e1.cost == e2.cost,
    ensures
        e1.hash@ == e2.hash@,
{
    lemma_error_items_of_text(e1.errors@, e2.errors@);
    assert(e1.canonical_of() == e2.canonical_of());
}

} // verus!
