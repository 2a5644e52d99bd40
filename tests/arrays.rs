use std::borrow::Borrow;
use ideal::array::IdealArray;
use ideal::vec::IdealVec;

#[test]
fn new_and_get() {
    let a = IdealArray::new([1, 2, 3]);
    assert_eq!(a.len(), 3);
    assert_eq!(a.get_ref(), &[1, 2, 3]);
    assert_eq!(a.get(), [1, 2, 3]);
}

#[test]
fn get_mut_writes() {
    let mut a = IdealArray::new([1, 2]);
    a.get_mut()[1] = 7;
    assert_eq!(a.get(), [1, 7]);
}

#[test]
fn array_as_ideal_slice_borrows() {
    let a = IdealArray::new([4, 5, 6]);
    let view = a.as_ideal_slice();
    assert_eq!(view.len(), 3);
    assert_eq!(view.as_slice().as_ptr(), a.get_ref().as_ptr());
}

#[test]
fn into_ideal_vec_keeps_order() {
    let a = IdealArray::new([String::from("x"), String::from("y")]);
    let v = a.into_ideal_vec();
    assert_eq!(v.len(), 2);
    assert_eq!(v.get(), vec!["x", "y"]);
}

#[test]
fn try_from_ideal_vec_matching_length() {
    let v = IdealVec::new(vec![1, 2, 3]).unwrap();
    let a = IdealArray::<i32, 3>::try_from_ideal_vec(v).unwrap();
    assert_eq!(a.get(), [1, 2, 3]);
}

#[test]
fn try_from_ideal_vec_other_length_gives_back() {
    let v = IdealVec::new(vec![1, 2, 3]).unwrap();
    let back = IdealArray::<i32, 2>::try_from_ideal_vec(v).unwrap_err();
    assert_eq!(back.len(), 3);
    assert_eq!(back.get(), vec![1, 2, 3]);
    let w = IdealVec::new(vec![1]).unwrap();
    let back = IdealArray::<i32, 4>::try_from_ideal_vec(w).unwrap_err();
    assert_eq!(back.get(), vec![1]);
}

#[test]
fn try_from_vec_matching_and_other_length() {
    let a = IdealArray::<u8, 2>::try_from_vec(vec![8, 9]).unwrap();
    assert_eq!(a.get(), [8, 9]);
    let back = IdealArray::<u8, 2>::try_from_vec(vec![]).unwrap_err();
    assert!(back.is_empty());
    let back = IdealArray::<u8, 2>::try_from_vec(vec![1, 2, 3]).unwrap_err();
    assert_eq!(back, vec![1, 2, 3]);
}

#[test]
fn clone_and_copy() {
    let a = IdealArray::new([1, 2]);
    let b = a;
    let c = a.clone();
    assert_eq!(a, b);
    assert_eq!(b, c);
    let s = IdealArray::new([String::from("p")]);
    assert_eq!(s.clone(), s);
}

#[test]
fn array_deref_reaches_elements() {
    let a = IdealArray::new([3, 9, 1]);
    assert_eq!(a[1], 9);
    assert_eq!(a.iter().min(), Some(&1));
}

#[test]
fn array_as_ref_and_borrow() {
    let a = IdealArray::new([1, 2]);
    let r: &[i32] = a.as_ref();
    assert_eq!(r, &[1, 2][..]);
    let b: &[i32] = a.borrow();
    assert_eq!(b, &[1, 2][..]);
}
