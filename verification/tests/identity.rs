use opaque_eq::A;
use opaque_eq::B;
use opaque_eq::RuntimeIdentity;

#[test]
fn tags_are_distinct() {
    assert_ne!(A::runtime_tag(), B::runtime_tag());
}

#[test]
fn encode_decode_round_trip() {
    let a = A { i: 7 };
    let w = a.encode();
    assert_eq!(w, vec![7u64]);
    assert_eq!(A::decode(&w), Some(A { i: 7 }));

    let b = B;
    let w = b.encode();
    assert_eq!(w, Vec::<u64>::new());
    assert_eq!(B::decode(&w), Some(B));
}

#[test]
fn decode_rejects_foreign_words() {
    assert_eq!(A::decode(&Vec::new()), None);
    assert_eq!(A::decode(&vec![1, 2]), None);
    assert_eq!(A::decode(&vec![300]), None);
    assert_eq!(B::decode(&vec![0]), None);
}

#[test]
fn eq_val_is_plain_equality() {
    assert!(A { i: 5 }.eq_val(&A { i: 5 }));
    assert!(!A { i: 5 }.eq_val(&A { i: 6 }));
    assert!(B.eq_val(&B));
}
