use andex::Andex;

/* Basic tests */

#[derive(Debug)]
enum Marker {}
type C = Andex<Marker, 3>;

fn assert_send<T: Send>() {}

fn assert_sync<T: Sync>() {}

#[test]
fn andex_tests_test_basic() {
    for i in C::iter() {
        assert!(usize::from(i) < 3_usize);
    }
    let is = C::iter().map(usize::from).collect::<Vec<_>>();
    assert_eq!(is, vec![0, 1, 2]);
    let i = C::first();
    assert_eq!(usize::from(i), 0_usize);
    let j: C = C::new::<2>();
    assert_eq!(usize::from(j), 2_usize);
    let k: C = C::try_from(1).unwrap();
    assert_eq!(usize::from(k), 1_usize);
    assert_eq!(usize::from(C::try_from(2).unwrap()), 2);
    assert!(C::try_from(3).is_err());
    let u = k.clone();
    assert_eq!(u, k);
}

#[test]
#[should_panic]
fn andex_tests_test_oob1() {
    let u: C = C::new::<5>();
    assert_eq!(usize::from(u), 5_usize);
}

#[test]
fn andex_tests_test_try_from() {
    let result = C::try_from(5);
    assert!(result.is_err());
    if let Err(ref err) = result {
        println!("{}, {:?}", err.message(), err);
        let _ = err.clone();
    }
}

#[test]
fn test_parse() {
    let c = "0".parse::<C>();
    assert!(c.is_ok());
    assert_eq!(usize::from(c.unwrap()), 0_usize);
    let c = "asdf".parse::<C>();
    if let Err(ref err) = c {
        println!("{}", err.message());
    }
    assert!(c.is_err());
    let c = "4".parse::<C>();
    if let Err(ref err) = c {
        println!("{}", err.message());
    }
    assert!(c.is_err());
}

#[test]
fn test_pair() {
    let f: C = C::first();
    assert_eq!(f.pair(), C::last());
    let f: C = C::last();
    assert_eq!(f.pair(), C::first());
}

/* Iterator */

#[test]
fn andex_tests_test_iterator() {
    let mut it = C::iter();
    println!("{:?}", it);
    let first = it.next().unwrap();
    assert_eq!(usize::from(first), 0);
    let second = it.next().unwrap();
    assert_eq!(usize::from(second), 1);
    assert!(first < second);
    assert!(first <= first);
    assert_eq!(usize::from(it.next().unwrap()), 2);
    assert!(it.next().is_none());
    assert!(it.next().is_none());
}

/* Test automatic traits */

#[test]
fn andex_tests_test_send() {
    assert_send::<C>();
}

#[test]
fn andex_tests_test_sync() {
    assert_sync::<C>();
}
