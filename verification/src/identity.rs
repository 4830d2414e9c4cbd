//! The runtime-identity primitive: every concrete type that participates in
//! type-erased equality registers a stable type tag and a canonical encoding
//! of its values. A downcast is then "check the tag, then rebuild the value
//! from the encoding".

use vstd::prelude::*;

verus! {

/// The contract a concrete type must meet to take part in type-erased
/// equality: a self-equality definition (`eq_spec` / `eq_val`), a stable
/// runtime type identity (`type_tag` / `runtime_tag`), an unbounded lifetime
/// (`'static`), and a canonical encoding of its values that is faithful to
/// its equality (`encoding_faithful`).
///
/// Faithfulness makes the encoding a canonical form: two values encode alike
/// exactly when the type's own equality calls them equal. Reflexivity and
/// symmetry of the erased comparison follow from this alone.
pub trait RuntimeIdentity: Sized + 'static {
    /// The type's runtime tag. Distinct participating types must register
    /// distinct tags; the tag is what stands for "the concrete type" once
    /// the static type is erased.
    spec fn type_tag() -> u64;

    /// The type's own equality definition.
    spec fn eq_spec(&self, other: &Self) -> bool;

    /// The canonical encoding of a value, the payload of its erased view.
    spec fn encoding(&self) -> Seq<u64>;

    /// The encoding decides equality: values encode alike exactly when the
    /// type's own equality holds of them.
    proof fn encoding_faithful(a: &Self, b: &Self)
        ensures
            (a.encoding() == b.encoding()) == a.eq_spec(b),
    ;

    /// The runtime tag, as a value.
    fn runtime_tag() -> (t: u64)
        ensures
            t == Self::type_tag(),
    ;

    /// Encode a value.
    fn encode(&self) -> (w: Vec<u64>)
        ensures
            w@ == self.encoding(),
    ;

    /// Rebuild a value from an encoding. Succeeds exactly on the words that
    /// encode some value of this type.
    fn decode(w: &Vec<u64>) -> (r: Option<Self>)
        ensures
            match r {
                Some(v) => v.encoding() == w@,
                None => forall|v: Self| v.encoding() != w@,
            },
    ;

    /// The type's own equality, as a decision.
    fn eq_val(&self, other: &Self) -> (r: bool)
        ensures
            r == self.eq_spec(other),
    ;
}

/// A type-erased, runtime-tagged view of a concrete value: the tag of the
/// value's type and the canonical encoding of the value. Its only use is to
/// attempt a downcast to a statically known concrete type.
pub struct AnyView {
    tag: u64,
    words: Vec<u64>,
}

impl AnyView {
    /// The tag carried by this view.
    pub closed spec fn tag_spec(&self) -> u64 {
        self.tag
    }

    /// The encoded payload carried by this view.
    pub closed spec fn repr_spec(&self) -> Seq<u64> {
        self.words@
    }

    /// Erase a concrete value into its runtime-tagged view.
    pub fn of<T: RuntimeIdentity>(v: &T) -> (r: AnyView)
        ensures
            r.tag_spec() == T::type_tag(),
            r.repr_spec() == v.encoding(),
    {
        AnyView { tag: T::runtime_tag(), words: v.encode() }
    }

    /// Attempt to recover a value of type `T` from this view: check the tag,
    /// then rebuild from the encoding. Yields a value exactly when the view
    /// was made from a `T`-tagged value; a mismatched type is a normal `None`,
    /// never an error.
    pub fn downcast<T: RuntimeIdentity>(&self) -> (r: Option<T>)
        ensures
            match r {
                Some(v) => self.tag_spec() == T::type_tag() && v.encoding() == self.repr_spec(),
                None => self.tag_spec() != T::type_tag() || forall|v: T|
                    v.encoding() != self.repr_spec(),
            },
    {
        if self.tag == T::runtime_tag() {
            T::decode(&self.words)
        } else {
            None
        }
    }
}

} // verus!
