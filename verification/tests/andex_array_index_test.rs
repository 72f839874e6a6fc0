use andex::Andex;
use andex::AndexableArray;

/* Tests for arrays: */

#[derive(Debug)]
pub struct MyIdxInner;
type MyIdx = Andex<MyIdxInner, 12>;

type MyArray = AndexableArray<MyIdx, u32, 12>;

#[test]
fn andex_array_index_test_test_myarr() {
    let mut m = MyArray::default();
    m[MyIdx::new::<2>()] = 5;
    m[MyIdx::try_from(2).unwrap()] = 5;
    for (num, i) in MyIdx::iter().enumerate() {
        m[i] = num as u32 + 20;
    }
    for (num, i) in MyIdx::iter().enumerate() {
        assert_eq!(m[i], num as u32 + 20);
    }
    let _ = MyIdx::iter().map(|i| i);
    println!("{:?}", m);
}
