//! The store and extraction laws, stated over the map model that the
//! executable contracts use and proved once for every storable type.

use crate::extensions::Stored;
use crate::extensions::TypeKey;
use crate::extensions::Value;
use crate::extensions::stored_in;
use crate::extract::Extract;
use crate::extract::ExtractError;
use crate::extract::ExtractOrDefault;
use crate::extract::PickUp;
use crate::extract::extracted_or_default;
use vstd::prelude::*;

verus! {

/// Round-trip: inserting a value of type `T` into any store contents leaves
/// exactly that value retrievable as the store's `T`.
pub proof fn lemma_round_trip<T: Stored>(m: Map<TypeKey, Value>, v: T)
    ensures
        stored_in::<T>(m.insert(T::key(), v.wrap())) == Some(v),
{
    let m2 = m.insert(T::key(), v.wrap());
    assert(v.wrap() == m2[T::key()]);
    let w = choose|x: T| (#[trigger] x.wrap()) == m2[T::key()];
    T::wrap_injective(w, v);
}

/// Overwrite: inserting two values of the same type `T` in sequence leaves
/// only the second retrievable.
pub proof fn lemma_overwrite<T: Stored>(m: Map<TypeKey, Value>, v1: T, v2: T)
    ensures
        stored_in::<T>(m.insert(T::key(), v1.wrap()).insert(T::key(), v2.wrap())) == Some(v2),
{
    lemma_round_trip::<T>(m.insert(T::key(), v1.wrap()), v2);
}

/// Absence, reporting policy: store contents holding nothing under `T`'s key
/// yield no `T`.
pub proof fn lemma_absent<T: Stored>(m: Map<TypeKey, Value>)
    requires
        !m.contains_key(T::key()),
    ensures
        stored_in::<T>(m) is None,
{
}

/// Absence, defaulting policy: store contents holding nothing under `T`'s
/// key yield exactly the declared default for `T` — never a third outcome.
pub proof fn lemma_absent_default<T: ExtractOrDefault>(m: Map<TypeKey, Value>)
    requires
        !m.contains_key(T::key()),
    ensures
        extracted_or_default::<T>(m) == T::spec_default(),
{
}

/// Inserting a value of type `U` never disturbs what the store holds of a
/// type `T` with a different key; in particular, a type that was never
/// inserted stays absent through any number of unrelated inserts.
pub proof fn lemma_insert_preserves_others<T: Stored, U: Stored>(m: Map<TypeKey, Value>, v: U)
    requires
        T::key() != U::key(),
    ensures
        stored_in::<T>(m.insert(U::key(), v.wrap())) == stored_in::<T>(m),
{
}

/// Positional precedence: when composite extraction of `(A, B)` finds `A`
/// absent and `B` present, the reported failure names `A`'s slot, not `B`'s.
pub proof fn lemma_positional_precedence<A: Extract, B: Extract>(m: Map<TypeKey, Value>)
    requires
        stored_in::<A>(m) is None,
        stored_in::<B>(m) is Some,
    ensures
        <(A, B) as PickUp>::spec_pick(m) == Err::<(A, B), ExtractError>(ExtractError { slot: 0 }),
{
}

/// Arity-0 invariance: extraction of the empty parameter tuple yields the
/// same (successful) result from any two stores, so a dispatcher bound to a
/// zero-parameter handler hands the handler the same parameter regardless of
/// store contents.
pub proof fn lemma_arity0_invariant(m1: Map<TypeKey, Value>, m2: Map<TypeKey, Value>)
    ensures
        <() as PickUp>::spec_pick(m1) == <() as PickUp>::spec_pick(m2),
        <() as PickUp>::spec_pick(m1) is Ok,
{
}

} // verus!
