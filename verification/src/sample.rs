//! Two small concrete types with registered runtime identities, the values
//! that the opaque handles of the tests erase: a one-field record and a
//! zero-field marker type.

use vstd::prelude::*;

use crate::identity::RuntimeIdentity;

verus! {

/// A concrete record with one byte of content.
#[derive(Clone, Copy, Debug, Eq, PartialEq, Structural)]
pub struct A {
    pub i: u8,
}

/// A concrete zero-field marker type, structurally unlike `A`.
#[derive(Clone, Copy, Debug, Eq, PartialEq, Structural)]
pub struct B;

impl RuntimeIdentity for A {
    open spec fn type_tag() -> u64 {
        1u64
    }

    open spec fn eq_spec(&self, other: &Self) -> bool {
        self == other
    }

    open spec fn encoding(&self) -> Seq<u64> {
        seq![self.i as u64]
    }

    proof fn encoding_faithful(a: &Self, b: &Self) {
        if a.encoding() == b.encoding() {
            assert(a.encoding()[0] == b.encoding()[0]);
        }
    }

    fn runtime_tag() -> (t: u64) {
        1u64
    }

    fn encode(&self) -> (w: Vec<u64>) {
        let mut w: Vec<u64> = Vec::new();
        w.push(self.i as u64);
        proof {
            assert(w@ =~= self.encoding());
        }
        w
    }

    fn decode(w: &Vec<u64>) -> (r: Option<Self>) {
        if w.len() == 1 && w[0] <= 255 {
            let v = A { i: w[0] as u8 };
            proof {
                assert(v.encoding() =~= w@);
            }
            Some(v)
        } else {
            proof {
                assert forall|v: A| v.encoding() != w@ by {
                    if v.encoding() == w@ {
                        assert(v.encoding()[0] == w@[0]);
                        assert(v.encoding().len() == w@.len());
                    }
                }
            }
            None
        }
    }

    fn eq_val(&self, other: &Self) -> (r: bool) {
        self == other
    }
}

impl RuntimeIdentity for B {
    open spec fn type_tag() -> u64 {
        2u64
    }

    open spec fn eq_spec(&self, other: &Self) -> bool {
        self == other
    }

    open spec fn encoding(&self) -> Seq<u64> {
        Seq::empty()
    }

    proof fn encoding_faithful(a: &Self, b: &Self) {
    }

    fn runtime_tag() -> (t: u64) {
        2u64
    }

    fn encode(&self) -> (w: Vec<u64>) {
        let w: Vec<u64> = Vec::new();
        proof {
            assert(w@ =~= self.encoding());
        }
        w
    }

    fn decode(w: &Vec<u64>) -> (r: Option<Self>) {
        if w.len() == 0 {
            let v = B;
            proof {
                assert(v.encoding() =~= w@);
            }
            Some(v)
        } else {
            proof {
                assert forall|v: B| v.encoding() != w@ by {
                    if v.encoding() == w@ {
                        assert(v.encoding().len() == w@.len());
                    }
                }
            }
            None
        }
    }

    fn eq_val(&self, other: &Self) -> (r: bool) {
        self == other
    }
}

} // verus!
