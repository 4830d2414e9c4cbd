//! The opaque-value facade: the handle surface that application code stores
//! and passes around. A facade handle can reveal its runtime-tagged view and
//! receive a comparison-completion request; equality of two handles routes
//! through the two capabilities, so the concrete type is discovered exactly
//! once, on the side that statically knows it.

use vstd::prelude::*;

use crate::dyn_eq::DynEqHelper;
use crate::identity::AnyView;
use crate::identity::RuntimeIdentity;

verus! {

/// The facade capability of an opaque value: thread-safe to share, of
/// unbounded lifetime, able to reveal its runtime-tagged view, and able to
/// complete an equality check against the view of another opaque value.
pub trait OpaqueData: Send + Sync + 'static {
    /// The runtime tag of this value's concrete type.
    spec fn tag_spec(&self) -> u64;

    /// The canonical encoding of this value.
    spec fn repr_spec(&self) -> Seq<u64>;

    /// Reveal the runtime-tagged view of this value, fit for downcast
    /// attempts.
    fn as_any(&self) -> (r: AnyView)
        ensures
            r.tag_spec() == self.tag_spec(),
            r.repr_spec() == self.repr_spec(),
    ;

    /// Complete an equality check: downcast the candidate view to this
    /// value's own concrete type and, on success, compare under that type's
    /// equality; a type mismatch is a normal `false`, never an error.
    fn complete_eq(&self, candidate: &AnyView) -> (r: bool)
        ensures
            r == (self.tag_spec() == candidate.tag_spec() && self.repr_spec()
                == candidate.repr_spec()),
    ;
}

/// Every type with a runtime identity that may be shared across threads is
/// an opaque value, with no work per type.
impl<T: RuntimeIdentity + Send + Sync> OpaqueData for T {
    open spec fn tag_spec(&self) -> u64 {
        T::type_tag()
    }

    open spec fn repr_spec(&self) -> Seq<u64> {
        self.encoding()
    }

    fn as_any(&self) -> (r: AnyView) {
        AnyView::of(self)
    }

    fn complete_eq(&self, candidate: &AnyView) -> (r: bool) {
        self.level_two(candidate)
    }
}

/// Equality of two opaque handles: the first reveals its runtime-tagged
/// view, the second completes the comparison from the side that statically
/// knows its own concrete type. `true` exactly when both handles carry the
/// same type tag and canonically equal values; a mismatch of concrete types
/// is a normal `false`, never an error.
pub fn opaque_eq(a: &dyn OpaqueData, b: &dyn OpaqueData) -> (r: bool)
    ensures
        r == (a.tag_spec() == b.tag_spec() && a.repr_spec() == b.repr_spec()),
{
    b.complete_eq(&a.as_any())
}

} // verus!
