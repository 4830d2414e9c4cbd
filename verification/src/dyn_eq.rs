//! The double-dispatch equality capabilities.
//!
//! `DynEq` lets an erased value start a comparison; `DynEqHelper` completes
//! it. The comparison is always routed to the completion side, which
//! statically knows its own concrete type and attempts the downcast from
//! there: the only place a type mismatch is detected, and it is reported as
//! an ordinary `false`. Every type that meets `RuntimeIdentity` gains both
//! capabilities through the blanket implementations below, with no work per
//! type.

use vstd::prelude::*;

use crate::identity::AnyView;
use crate::identity::RuntimeIdentity;

verus! {

/// The comparison-completion capability: recover the erased candidate as a
/// value of one's own concrete type, and on success apply that type's own
/// equality.
pub trait DynEqHelper {
    /// The runtime tag of this value's concrete type.
    spec fn tag_spec(&self) -> u64;

    /// The canonical encoding of this value.
    spec fn repr_spec(&self) -> Seq<u64>;

    /// Complete a comparison: downcast the candidate view `arg1` to this
    /// value's own concrete type; on success compare under that type's
    /// equality, on type mismatch answer `false`. The answer is `true`
    /// exactly when the two sides carry the same type tag and canonically
    /// equal values.
    fn level_two(&self, arg1: &AnyView) -> (r: bool)
        ensures
            r == (self.tag_spec() == arg1.tag_spec() && self.repr_spec() == arg1.repr_spec()),
    ;
}

/// The identity-exposing capability: reveal a runtime-tagged view fit for
/// downcast attempts, and start a comparison against a completion view of
/// another erased value.
pub trait DynEq {
    /// The runtime tag of this value's concrete type.
    spec fn tag_spec(&self) -> u64;

    /// The canonical encoding of this value.
    spec fn repr_spec(&self) -> Seq<u64>;

    /// Reveal the runtime-tagged view of this value; downcast attempts are
    /// made on the view, never on this reference itself.
    fn as_any(&self) -> (r: AnyView)
        ensures
            r.tag_spec() == self.tag_spec(),
            r.repr_spec() == self.repr_spec(),
    ;

    /// Start a comparison: delegate to `arg2`'s completion step, handing it
    /// this value's runtime-tagged view to downcast. `true` exactly when
    /// both sides carry the same type tag and canonically equal values; a
    /// mismatch of concrete types is a normal `false`, never an error.
    fn level_one(&self, arg2: &dyn DynEqHelper) -> (r: bool)
        ensures
            r == (self.tag_spec() == arg2.tag_spec() && self.repr_spec() == arg2.repr_spec()),
    ;
}

impl<T: RuntimeIdentity> DynEqHelper for T {
    open spec fn tag_spec(&self) -> u64 {
        T::type_tag()
    }

    open spec fn repr_spec(&self) -> Seq<u64> {
        self.encoding()
    }

    fn level_two(&self, arg1: &AnyView) -> (r: bool) {
        match arg1.downcast::<T>() {
            Some(other) => {
                proof {
                    T::encoding_faithful(self, &other);
                }
                self.eq_val(&other)
            },
            None => false,
        }
    }
}

impl<T: RuntimeIdentity> DynEq for T {
    open spec fn tag_spec(&self) -> u64 {
        T::type_tag()
    }

    open spec fn repr_spec(&self) -> Seq<u64> {
        self.encoding()
    }

    fn as_any(&self) -> (r: AnyView) {
        AnyView::of(self)
    }

    fn level_one(&self, arg2: &dyn DynEqHelper) -> (r: bool) {
        arg2.level_two(&AnyView::of(self))
    }
}

/// Equality of two erased values: the identity-exposing side starts the
/// comparison, the completion side discovers the concrete type. A mismatch
/// of concrete types is a normal `false`, never an error.
pub fn dyn_eq(a: &dyn DynEq, b: &dyn DynEqHelper) -> (r: bool)
    ensures
        r == (a.tag_spec() == b.tag_spec() && a.repr_spec() == b.repr_spec()),
{
    a.level_one(b)
}

} // verus!
