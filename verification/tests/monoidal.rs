use sample::monoidal::Monoidal;
use sample::monoidal::reduce;

#[test]
fn intrinsic_identity_concrete() {
    assert_eq!(<i32 as Monoidal>::mzero(), 0);
    assert_eq!(0.mappend(&5), 5);
    assert_eq!(5.mappend(&0), 5);
}

#[test]
fn intrinsic_associative_concrete() {
    assert_eq!(2.mappend(&3).mappend(&4), 2.mappend(&3.mappend(&4)));
}

#[test]
fn intrinsic_reduce_four() {
    assert_eq!(reduce(vec![1, 2, 3, 4]), 10);
}

#[test]
fn intrinsic_reduce_empty() {
    assert_eq!(reduce(Vec::<i32>::new()), 0);
}

#[test]
fn intrinsic_reduce_singleton() {
    assert_eq!(reduce(vec![11]), 11);
}

#[test]
fn intrinsic_reduce_wraps_on_overflow() {
    assert_eq!(reduce(vec![i32::MAX, 1]), i32::MIN);
}
