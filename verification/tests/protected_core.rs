use vitaminc::{
    flatten_array, Controlled, ControlledPrivate, Equatable, Exportable, Protected, RedactedDebug,
    Wipe, Zeroed,
};

#[test]
fn test_new_array() {
    let x = Protected::new([0u8; 32]);
    assert_eq!(x.risky_unwrap(), [0u8; 32]);
}

#[test]
fn lib_test_new_array() {
    let x = Protected::new([0u8; 32]);
    assert_eq!(x.risky_unwrap(), [0u8; 32]);
}

#[test]
fn mod_test_new_array() {
    let x = Protected::new([0u8; 32]);
    assert_eq!(x.risky_unwrap(), [0u8; 32]);
}

#[test]
fn test_opaque_debug() {
    let x = Protected::new([0u8; 32]);
    assert_eq!(x.debug_repr(), "Protected<[u8; 32]> { ... }");
}

#[test]
fn lib_test_opaque_debug() {
    let x = Protected::new([0u8; 32]);
    assert_eq!(x.debug_repr(), "Protected<[u8; 32]> { ... }");
}

#[test]
fn mod_test_opaque_debug() {
    let x: Equatable<Protected<[u8; 32]>> = Equatable::new([0u8; 32]);
    assert_eq!(x.debug_repr(), "Equatable(Protected<[u8; 32]> { ... })");
    let y: Exportable<Protected<[u8; 32]>> = Exportable::new([0u8; 32]);
    assert_eq!(y.debug_repr(), "Exportable(Protected<[u8; 32]> { ... })");
    let z = Protected::new([0u8; 32]);
    assert_eq!(z.debug_repr(), "Protected<[u8; 32]> { ... }");
}

#[test]
fn test_flatten() {
    let x = Protected::new(Protected::new([0u8; 32]));
    let y = x.flatten();
    assert_eq!(y.risky_unwrap(), [0u8; 32]);
}

#[test]
fn lib_test_flatten() {
    let x = Protected::new(Protected::new([0u8; 32]));
    let y = x.flatten();
    assert_eq!(y.risky_unwrap(), [0u8; 32]);
}

#[test]
fn mod_test_flatten() {
    let x = Protected::new(Protected::new([0u8; 32]));
    let y = x.flatten();
    assert_eq!(y.risky_unwrap(), [0u8; 32]);
}

#[test]
fn test_transpose() {
    let x = Protected::new(Some([0u8; 32]));
    let y = x.transpose();
    assert!(y.is_some());
    assert_eq!(y.unwrap().risky_unwrap(), [0u8; 32]);
    let n: Protected<Option<[u8; 32]>> = Protected::new(None);
    assert!(n.transpose().is_none());
}

#[test]
fn lib_test_flatten_array() {
    let x = Protected::new(1);
    let y = Protected::new(2);
    let z = Protected::new(3);
    let array: [Protected<u8>; 3] = [x, y, z];
    let flattened = flatten_array(array);
    assert_eq!(flattened.risky_unwrap(), [1, 2, 3]);
}

#[test]
fn mod_test_flatten_array() {
    let x = Protected::new(1);
    let y = Protected::new(2);
    let z = Protected::new(3);
    let array: [Protected<u8>; 3] = [x, y, z];
    let flattened = flatten_array(array);
    assert_eq!(flattened.risky_unwrap(), [1, 2, 3]);
}

#[test]
fn test_map_homogenous_inner() {
    let x = Protected::new(100u8);
    let y = x.map(|x| x + 10);
    assert_eq!(y.risky_unwrap(), 110u8);
}

#[test]
fn test_map_different_inner() {
    let x = Protected::new(100u8);
    let y: Protected<u16> = x.map(u16::from);
    assert_eq!(y.risky_unwrap(), 100u16);
}

#[test]
fn test_zip() {
    let x = Protected::new(1);
    let y = Protected::new(2);
    let z = x.zip(y, |a: u8, b: u8| a + b);
    assert_eq!(z.risky_unwrap(), 3);
}

#[test]
fn test_update_in_place() {
    let mut x = Protected::new([0u8; 4]);
    x.update(|a| [a[0] + 1, a[1] + 1, a[2] + 1, a[3] + 1]);
    assert_eq!(x.risky_unwrap(), [1, 1, 1, 1]);
}

#[test]
fn test_update_with_other() {
    let mut x = Protected::new([0u8; 4]);
    let y = Protected::new([7u8; 4]);
    x.update_with(y, |_a, b| b);
    assert_eq!(x.risky_unwrap(), [7u8; 4]);
}

#[test]
fn test_generate() {
    let x: Protected<[u8; 8]> = Protected::generate(|| {
        let mut input: [u8; 8] = [0; 8];
        let mut i = 0usize;
        while i < 8 {
            input[i] = (i + 1) as u8;
            i += 1;
        }
        input
    });
    assert_eq!(x.risky_unwrap(), [1, 2, 3, 4, 5, 6, 7, 8]);
}

#[test]
fn test_generate_ok() {
    let ok: Result<Protected<u8>, ()> = Protected::generate_ok(|| Ok(9u8));
    assert_eq!(ok.unwrap().risky_unwrap(), 9);
    let err: Result<Protected<u8>, i32> = Protected::generate_ok(|| Err(-1));
    match err {
        Err(e) => assert_eq!(e, -1),
        Ok(_) => panic!("expected the closure's error to pass through"),
    }
}

#[test]
fn test_iter_elements() {
    let x = Protected::new([5u8, 6, 7]);
    let parts = x.iter();
    assert_eq!(parts.len(), 3);
    let mut total = 0u32;
    for p in parts {
        total += u32::from(p.risky_unwrap());
    }
    assert_eq!(total, 18);
}

#[test]
fn test_wipe_clears_value() {
    let mut x = Protected::new([9u8; 4]);
    x.wipe();
    assert_eq!(x.risky_unwrap(), [0u8; 4]);
    let mut n = Protected::new(77u64);
    n.wipe();
    assert_eq!(n.risky_unwrap(), 0);
    let mut s = Protected::new(String::from("secret"));
    s.wipe();
    assert_eq!(s.risky_unwrap(), "");
    let mut v = Protected::new(vec![1u8, 2, 3]);
    v.wipe();
    assert!(v.risky_unwrap().is_empty());
}

#[test]
fn test_risky_unwrap_returns_value_unwiped() {
    let x = Protected::new([3u8; 4]);
    let raw = x.risky_unwrap();
    assert_eq!(raw, [3u8; 4]);
}

#[test]
fn test_zeroed_matches_wipe_pattern() {
    let z: Protected<[u8; 16]> = Zeroed::zeroed();
    assert_eq!(z.risky_unwrap(), [0u8; 16]);
    let e: Equatable<Protected<u32>> = Zeroed::zeroed();
    assert_eq!(e.risky_unwrap(), 0);
    let x: Exportable<Protected<u64>> = Zeroed::zeroed();
    assert_eq!(x.risky_unwrap(), 0);
}

#[test]
fn test_init_from_inner_roundtrip() {
    let x: Exportable<Protected<u8>> = Exportable::init_from_inner(42);
    assert_eq!(x.inner(), &42);
}

#[test]
fn test_wipe_all_primitive_widths() {
    let mut a = Protected::new(1000u16);
    a.wipe();
    assert_eq!(a.risky_unwrap(), 0);
    let mut b = Protected::new(70_000u32);
    b.wipe();
    assert_eq!(b.risky_unwrap(), 0);
    let mut c = Protected::new(1u128 << 100);
    c.wipe();
    assert_eq!(c.risky_unwrap(), 0);
    let mut d = Protected::new(9usize);
    d.wipe();
    assert_eq!(d.risky_unwrap(), 0);
    let mut e = Protected::new('x');
    e.wipe();
    assert_eq!(e.risky_unwrap(), '\0');
    let mut f = Protected::new(Some(5u8));
    f.wipe();
    assert_eq!(f.risky_unwrap(), Some(0u8));
    let mut g: Protected<Option<u8>> = Protected::new(None);
    g.wipe();
    assert_eq!(g.risky_unwrap(), None);
}

#[test]
fn test_wipe_nested_wrappers() {
    let mut x: Equatable<Protected<[u8; 4]>> = Equatable::new([5; 4]);
    x.wipe();
    assert_eq!(x.risky_unwrap(), [0u8; 4]);
    let mut y: Exportable<Equatable<Protected<u16>>> = Exportable::new(77);
    y.wipe();
    assert_eq!(y.risky_unwrap(), 0);
}
