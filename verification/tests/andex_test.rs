use andex::Andex;

/* Basic tests */

#[derive(Debug)]
enum Marker {}
type C = Andex<Marker, 3>;

fn assert_send<T: Send>() {}

fn assert_sync<T: Sync>() {}

#[test]
fn andex_test_test_basic() {
    for i in C::iter() {
        assert!(usize::from(i) < 3_usize);
    }
    let is = C::iter().map(usize::from).collect::<Vec<_>>();
    assert_eq!(is, vec![0, 1, 2]);
    let i = C::first();
    assert_eq!(usize::from(i), 0_usize);
    let j: C = C::new::<2>();
    assert_eq!(usize::from(j), 2_usize);
    let k: C = C::new::<1>();
    assert_eq!(usize::from(k), 1_usize);
    assert_eq!(usize::from(C::try_from(2).unwrap()), 2);
    assert!(C::try_from(3).is_err());
    let _u = k.clone();
}

#[test]
#[should_panic]
fn andex_test_test_oob1() {
    let u: C = C::new::<5>();
    assert_eq!(usize::from(u), 5_usize);
}

#[test]
fn andex_test_test_try_from() {
    let result = C::try_from(5);
    assert!(result.is_err());
    if let Err(ref err) = result {
        println!("{}, {:?}", err.message(), err);
        let _ = err.clone();
    }
}

/* Iterator */

#[test]
fn andex_test_test_iterator() {
    let mut it = C::iter();
    println!("{:?}", it);
    assert_eq!(usize::from(it.next().unwrap()), 0);
    assert_eq!(usize::from(it.next().unwrap()), 1);
    assert_eq!(usize::from(it.next().unwrap()), 2);
    assert!(it.next().is_none());
    assert!(it.next().is_none());
}

/* Test automatic traits */

#[test]
fn andex_test_test_send() {
    assert_send::<C>();
}

#[test]
fn andex_test_test_sync() {
    assert_sync::<C>();
}
