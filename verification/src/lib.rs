//! Type-erased equality by double dispatch.
//!
//! Two cooperating capabilities let a value whose concrete type has been
//! erased compare itself against another erased value: the comparison is
//! routed to the side that statically knows its own concrete type, which
//! attempts to downcast the other side and, on success, applies that type's
//! own equality. A type mismatch is a normal "not equal", never an error.

pub mod dyn_eq;
pub mod identity;
pub mod laws;
pub mod opaque;
pub mod sample;

pub use dyn_eq::DynEq;
pub use dyn_eq::dyn_eq;
pub use dyn_eq::DynEqHelper;
pub use identity::AnyView;
pub use identity::RuntimeIdentity;
pub use opaque::OpaqueData;
pub use opaque::opaque_eq;
pub use sample::A;
pub use sample::B;
