use or::Or;

#[test]
fn variant_a_projections() {
    let x: Or<i32, ()> = Or::A(545);
    assert!(x.is_a());
    assert!(!x.is_b());
    assert_eq!(x.clone().a(), Some(545));
    assert_eq!(x.b(), None);
}

#[test]
fn variant_b_projections() {
    let y: Or<(), i32> = Or::B(2);
    assert!(y.is_b());
    assert!(!y.is_a());
    assert_eq!(y.clone().b(), Some(2));
    assert_eq!(y.a(), None);
}

#[test]
fn swap_involution() {
    let v: Or<i32, String> = Or::A(7);
    assert_eq!(v.clone().swap().swap(), v);
    let w: Or<i32, String> = Or::B(String::from("payload"));
    assert_eq!(w.clone().swap().swap(), w);
}

#[test]
fn swap_exchanges_tags_and_keeps_payload() {
    let a: Or<i32, u8> = Or::A(3);
    assert_eq!(a.swap(), Or::B(3));
    let b: Or<i32, u8> = Or::B(5);
    assert_eq!(b.swap(), Or::A(5));
}

#[test]
fn as_ref_leaves_original_unchanged() {
    let x: Or<String, ()> = Or::A(String::from("hello"));
    {
        let _view = x.as_ref();
    }
    assert!(x.is_a());
    assert_eq!(x.as_ref().a(), Some(&String::from("hello")));
    assert_eq!(x.a(), Some(String::from("hello")));
}

#[test]
fn as_mut_mutation_is_visible() {
    let mut x: Or<String, ()> = Or::A(String::from("hello"));
    if let Some(s) = x.as_mut().a() {
        s.push_str(" world!");
    }
    assert_eq!(x.as_ref().a(), Some(&String::from("hello world!")));
}

#[test]
fn equality_distinguishes_variants() {
    let a1: Or<i32, i32> = Or::A(1);
    let b1: Or<i32, i32> = Or::B(1);
    assert_ne!(a1, b1);
    assert_eq!(a1, Or::A(1));
    assert_eq!(b1, Or::B(1));
}

#[test]
fn ordering_puts_variant_a_first() {
    let big_a: Or<i32, i32> = Or::A(100);
    let small_b: Or<i32, i32> = Or::B(-100);
    assert!(big_a < small_b);
    assert!(Or::<i32, i32>::A(1) < Or::<i32, i32>::A(2));
    assert!(Or::<i32, i32>::B(1) < Or::<i32, i32>::B(2));
}

#[test]
fn scenario_a_545() {
    let x: Or<i32, ()> = Or::A(545);
    assert!(x.is_a());
    assert_eq!(x.a(), Some(545));
}

#[test]
fn scenario_b_2() {
    let y: Or<(), i32> = Or::B(2);
    assert!(y.is_b());
    assert_eq!(y.clone().b(), Some(2));
    assert_eq!(y.a(), None);
}

#[test]
fn scenario_append_through_as_mut() {
    let mut x: Or<String, ()> = Or::A(String::from("hello"));
    x.as_mut().a().map(|s| s.push_str(" world!"));
    assert_eq!(x.as_ref().a(), Some(&String::from("hello world!")));
}

#[test]
fn scenario_swap_then_project_b() {
    let x: Or<i32, ()> = Or::A(73);
    assert_eq!(x.swap().b(), Some(73));
}
