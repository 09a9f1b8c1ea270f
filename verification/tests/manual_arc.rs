use narcissus::manual_arc::{ManualArc, Release};

#[test]
fn basic() {
    let arc1 = ManualArc::new(42);
    let arc2 = arc1.clone();

    assert_eq!(*arc1, 42);
    assert_eq!(*arc2, 42);

    assert_eq!(arc2.release(), Release::Shared);
    assert_eq!(arc1.release(), Release::Unique(42));
}

#[test]
fn release_of_only_reference_returns_value() {
    let arc = ManualArc::new(String::from("hello"));
    assert_eq!(arc.get().as_str(), "hello");
    match arc.release() {
        Release::Unique(s) => assert_eq!(s, "hello"),
        Release::Shared => panic!("the only reference must release the value"),
    }
}

#[test]
fn release_in_any_order() {
    let a = ManualArc::new(vec![1u8, 2, 3]);
    let b = a.clone();
    let c = b.clone();
    assert_eq!(b.release(), Release::Shared);
    assert_eq!(a.release(), Release::Shared);
    assert_eq!(c.release(), Release::Unique(vec![1u8, 2, 3]));
}

#[test]
fn default_holds_default_value() {
    let arc: ManualArc<u32> = Default::default();
    assert_eq!(*arc, 0);
    assert_eq!(arc.release(), Release::Unique(0));
}

#[test]
fn release_outcomes() {
    assert_eq!(Release::from_last(Some(5u8)), Release::Unique(5));
    assert_eq!(Release::<u8>::from_last(None), Release::Shared);
}
