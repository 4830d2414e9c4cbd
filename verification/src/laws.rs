//! The laws of type-erased equality, stated over the concrete types that a
//! comparison erases. `erased_eq` is the value that `level_one`,
//! `level_two`, `dyn_eq` and `opaque_eq` return when the two sides are
//! values of the given concrete types: the blanket capability
//! implementations define the tag of an erased value as its type's tag and
//! its payload as its canonical encoding.

use vstd::prelude::*;

use crate::identity::RuntimeIdentity;

verus! {

/// The outcome of a type-erased comparison between a value of type `T1` and
/// a value of type `T2`: both sides carry the same runtime type tag, and
/// canonically equal values.
pub open spec fn erased_eq<T1: RuntimeIdentity, T2: RuntimeIdentity>(a: &T1, b: &T2) -> bool {
    T1::type_tag() == T2::type_tag() && a.encoding() == b.encoding()
}

/// Reflexivity: comparing an opaque view of a value against an opaque view
/// of an equal copy of it answers `true`.
pub proof fn lemma_reflexive<T: RuntimeIdentity>(a: &T, b: &T)
    requires
        a == b,
    ensures
        erased_eq(a, b),
{
}

/// Type discrimination: values of types with distinct runtime tags never
/// compare equal, whatever their structure.
pub proof fn lemma_type_discrimination<T1: RuntimeIdentity, T2: RuntimeIdentity>(t: &T1, u: &T2)
    requires
        T1::type_tag() != T2::type_tag(),
    ensures
        !erased_eq(t, u),
{
}

/// Equality fidelity: between two values of one type, the erased comparison
/// answers exactly what the type's own equality answers; erasure never
/// changes the answer.
pub proof fn lemma_fidelity<T: RuntimeIdentity>(a: &T, b: &T)
    ensures
        erased_eq(a, b) == a.eq_spec(b),
{
    T::encoding_faithful(a, b);
}

/// Symmetry: the erased comparison of (a, b) equals the erased comparison
/// of (b, a); the direction of the dispatch never affects the answer.
pub proof fn lemma_symmetric<T1: RuntimeIdentity, T2: RuntimeIdentity>(a: &T1, b: &T2)
    ensures
        erased_eq(a, b) == erased_eq(b, a),
{
}

} // verus!
