use sample::monoid::BytesConcat;
use sample::monoid::I32Add;
use sample::monoid::I32Mult;
use sample::monoid::Monoid;
use sample::monoid::reduce;

#[test]
fn add_identity_concrete() {
    assert_eq!(I32Add::mappend(&I32Add::mzero(), &5), 5);
    assert_eq!(I32Add::mappend(&5, &I32Add::mzero()), 5);
}

#[test]
fn mult_identity_concrete() {
    assert_eq!(I32Mult::mzero(), 1);
    assert_eq!(I32Mult::mappend(&I32Mult::mzero(), &7), 7);
    assert_eq!(I32Mult::mappend(&7, &I32Mult::mzero()), 7);
}

#[test]
fn add_associative_concrete() {
    let left = I32Add::mappend(&I32Add::mappend(&2, &3), &4);
    let right = I32Add::mappend(&2, &I32Add::mappend(&3, &4));
    assert_eq!(left, right);
    assert_eq!(left, 9);
}

#[test]
fn mult_associative_concrete() {
    let left = I32Mult::mappend(&I32Mult::mappend(&2, &3), &4);
    let right = I32Mult::mappend(&2, &I32Mult::mappend(&3, &4));
    assert_eq!(left, right);
    assert_eq!(left, 24);
}

#[test]
fn add_reduce_four() {
    assert_eq!(reduce::<i32, I32Add>(vec![1, 2, 3, 4]), 10);
}

#[test]
fn mult_reduce_four() {
    assert_eq!(reduce::<i32, I32Mult>(vec![1, 2, 3, 4]), 24);
}

#[test]
fn add_reduce_empty() {
    assert_eq!(reduce::<i32, I32Add>(Vec::new()), 0);
}

#[test]
fn mult_reduce_empty() {
    assert_eq!(reduce::<i32, I32Mult>(Vec::new()), 1);
}

#[test]
fn add_reduce_singleton() {
    assert_eq!(reduce::<i32, I32Add>(vec![7]), 7);
    assert_eq!(reduce::<i32, I32Add>(vec![-3]), -3);
}

#[test]
fn mult_reduce_singleton() {
    assert_eq!(reduce::<i32, I32Mult>(vec![9]), 9);
}

#[test]
fn add_reduce_wraps_on_overflow() {
    assert_eq!(reduce::<i32, I32Add>(vec![i32::MAX, 1]), i32::MIN);
    assert_eq!(reduce::<i32, I32Add>(vec![i32::MIN, -1]), i32::MAX);
}

#[test]
fn mult_reduce_wraps_on_overflow() {
    assert_eq!(reduce::<i32, I32Mult>(vec![65536, 65536]), 0);
    assert_eq!(reduce::<i32, I32Mult>(vec![i32::MAX, 2]), -2);
}

#[test]
fn concat_reduce_keeps_order() {
    let forward = reduce::<Vec<u8>, BytesConcat>(vec![b"ab".to_vec(), b"cd".to_vec()]);
    let backward = reduce::<Vec<u8>, BytesConcat>(vec![b"cd".to_vec(), b"ab".to_vec()]);
    assert_eq!(forward, b"abcd".to_vec());
    assert_eq!(backward, b"cdab".to_vec());
    assert_ne!(forward, backward);
}

#[test]
fn concat_reduce_empty() {
    assert_eq!(reduce::<Vec<u8>, BytesConcat>(Vec::new()), Vec::<u8>::new());
}

#[test]
fn concat_identity_concrete() {
    let x = b"xyz".to_vec();
    assert_eq!(BytesConcat::mappend(&BytesConcat::mzero(), &x), x);
    assert_eq!(BytesConcat::mappend(&x, &BytesConcat::mzero()), x);
}

#[test]
fn test_reduces_one_and_two_by_multiplication() {
    assert_eq!(sample::monoid::test(), 2);
}
