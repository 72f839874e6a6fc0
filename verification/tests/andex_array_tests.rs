use andex::Andex;
use andex::AndexableArray;

/* Tests for arrays: */

#[derive(Debug)]
pub struct MyIdxInner;
type MyIdx = Andex<MyIdxInner, 12>;

type MyArray = AndexableArray<MyIdx, u32, 12>;

type MyArray2 = AndexableArray<MyIdx, u32, 12>;

pub struct NoTraits {}
type MyArrayNoTraits = AndexableArray<MyIdx, NoTraits, 12>;

#[test]
fn andex_array_tests_test_myarr() {
    let mut m = MyArray::default();
    m[MyIdx::new::<2>()] = 5;
    m[MyIdx::try_from(2).unwrap()] = 5;
    for (num, i) in MyIdx::iter().enumerate() {
        m[i] = num as u32 + 20;
    }
    for (num, i) in MyIdx::iter().enumerate() {
        assert_eq!(m[i], num as u32 + 20);
    }
    for (num, i) in MyIdx::iter().enumerate() {
        m[&i] = num as u32 + 30;
    }
    for (num, i) in MyIdx::iter().enumerate() {
        assert_eq!(m[&i], num as u32 + 30);
    }
    let _ = MyIdx::iter().map(|i| i);
    println!("{:?}", m);
}

#[test]
fn test_conversions() {
    let mut myarray1 = MyArray::from([3; 12]);
    let array1 = myarray1.as_mut();
    for i in 0..12 {
        array1[i] = i as u32;
    }
    for i in MyIdx::iter() {
        assert_eq!(myarray1[i], usize::from(i) as u32);
    }
    let array2 = <[u32; 12]>::from(&myarray1);
    assert_eq!(&array2, myarray1.as_ref());
    let array3 = <[u32; 12]>::from(myarray1);
    assert_eq!(array3, array2);
    let myarray2 = MyArray::from(&array2);
    assert_eq!(&array2, myarray2.as_ref());
    for a in myarray2 {
        println!("{:?}", a);
    }
    let myarray3 = MyArray::from_iter_ref(array3.iter());
    assert_eq!(myarray3.as_ref(), &array3);
    let myarray4 = MyArray::from_iter(array3.iter().cloned());
    assert_eq!(myarray4.as_ref(), &array3);
    let _myarray5 = myarray4.clone();
    let _myarray6 = *&myarray4;
}

#[test]
fn test_iter() {
    let mut myarray = MyArray2::from([3; 12]);
    for item in &mut myarray {
        *item = 5;
    }
    for item in &myarray {
        assert_eq!(*item, 5);
    }
    for item in myarray {
        assert_eq!(item, 5);
    }
}

#[test]
fn array_of_items_without_traits() {
    let items: Vec<NoTraits> = (0..12).map(|_| NoTraits {}).collect();
    let array = MyArrayNoTraits::from_iter(items.into_iter());
    assert_eq!(array.iter().count(), 12);
    let plain: [NoTraits; 12] = array.into();
    assert_eq!(plain.len(), 12);
}
