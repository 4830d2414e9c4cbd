use std::sync::Arc;

use opaque_eq::A;
use opaque_eq::B;
use opaque_eq::OpaqueData;
use opaque_eq::opaque_eq;

#[test]
fn test() {
    let a = A { i: 1 };

    // Creation of a blackbox
    let dyn_a: Arc<dyn OpaqueData> = Arc::new(a.clone());

    // Downcasting to the right type
    let downcasted = dyn_a.as_any().downcast::<A>().unwrap();
    assert_eq!(a, downcasted);

    // Downcasting to the wrong type
    assert!(dyn_a.as_any().downcast::<B>().is_none());
}

#[test]
fn scenario_four_handles() {
    let h1: Arc<dyn OpaqueData> = Arc::new(A { i: 1 });
    let h2: Arc<dyn OpaqueData> = Arc::new(A { i: 1 });
    let h3: Arc<dyn OpaqueData> = Arc::new(A { i: 2 });
    let h4: Arc<dyn OpaqueData> = Arc::new(B);

    assert!(opaque_eq(&*h1, &*h2));
    assert!(!opaque_eq(&*h1, &*h3));
    assert!(!opaque_eq(&*h1, &*h4));
    assert!(h1.as_any().downcast::<B>().is_none());
}

#[test]
fn reflexive_through_clone() {
    let v = A { i: 42 };
    let w = v.clone();
    assert!(opaque_eq(&v, &w));

    let b = B;
    let c = b.clone();
    assert!(opaque_eq(&b, &c));
}

#[test]
fn fidelity_matches_plain_equality() {
    let pairs = [(0u8, 0u8), (0, 1), (5, 5), (5, 6), (255, 255), (255, 0)];
    for (x, y) in pairs {
        let a = A { i: x };
        let b = A { i: y };
        assert_eq!(opaque_eq(&a, &b), a == b);
    }
}

#[test]
fn symmetric_in_both_directions() {
    let a1 = A { i: 3 };
    let a2 = A { i: 3 };
    let a3 = A { i: 4 };
    let b = B;
    assert_eq!(opaque_eq(&a1, &a2), opaque_eq(&a2, &a1));
    assert_eq!(opaque_eq(&a1, &a3), opaque_eq(&a3, &a1));
    assert_eq!(opaque_eq(&a1, &b), opaque_eq(&b, &a1));
}

#[test]
fn completion_step_on_handle() {
    let a1 = A { i: 9 };
    let a2 = A { i: 9 };
    let b = B;
    assert!(a2.complete_eq(&a1.as_any()));
    assert!(!b.complete_eq(&a1.as_any()));
}
