use uniform_array::subjects::NamedGeneric;
use uniform_array::subjects::Newtype;
use uniform_array::subjects::Tuple;
use uniform_array::subjects::Unit;

#[test]
fn named_generic() {
    let mut value = NamedGeneric::<f32>::default();
    assert_eq!(value.len(), 4);

    // write through the mutable accessor
    *value.get_mut(1) = 1.0;

    // read through the read-only accessor
    assert_eq!(*value.get(0), 0.0);
    assert_eq!(*value.get(1), 1.0);
    assert_eq!(*value.get(2), 0.0);
    assert_eq!(*value.get(3), 0.0);
}

#[test]
fn named_generic_safety() {
    let _some = NamedGeneric::<f32>::from_slice(&[0.0; 4]);
}

#[test]
fn tuple() {
    let mut value = Tuple::default();
    assert_eq!(value.len(), 2);
    assert_eq!(value.0, 0);
    assert_eq!(value.1, 0);

    *value.get_mut(1) = 1;

    assert_eq!(*value.get(0), 0);
    assert_eq!(*value.get(1), 1);
}

#[test]
fn newtype() {
    let mut value = Newtype::default();
    assert_eq!(value.len(), 1);
    assert_eq!(value.0, 0);

    *value.get_mut(0) = 1;

    assert_eq!(*value.get(0), 1);
}

#[test]
fn unit() {
    let value = Unit;
    assert_eq!(value.len(), 0);
}

#[test]
fn lengths_and_emptiness() {
    let named = NamedGeneric::<u8>::default();
    assert_eq!(named.len(), 4);
    assert!(!named.is_empty());

    let newtype = Newtype::default();
    assert_eq!(newtype.len(), 1);
    assert!(!newtype.is_empty());

    let pair = Tuple::default();
    assert_eq!(pair.len(), 2);
    assert!(!pair.is_empty());

    let unit = Unit::default();
    assert_eq!(unit.len(), 0);
    assert!(unit.is_empty());
}

#[test]
fn write_leaves_other_indices_alone() {
    let mut value = NamedGeneric::<i32>::default();
    for i in 0..4usize {
        *value.get_mut(i) = 10 + i as i32;
    }
    // one more write in the middle
    *value.get_mut(2) = 99;
    assert_eq!(*value.get(0), 10);
    assert_eq!(*value.get(1), 11);
    assert_eq!(*value.get(2), 99);
    assert_eq!(*value.get(3), 13);
}

#[test]
fn out_of_range_access_is_refused() {
    let mut named = NamedGeneric::<i32>::default();
    assert!(named.try_get(4).is_none());
    assert!(named.try_get(usize::MAX).is_none());
    assert!(!named.try_set(4, 7));
    // the refused write changed nothing
    assert_eq!(*named.get(0), 0);
    assert_eq!(*named.get(3), 0);

    let mut pair = Tuple::default();
    assert!(pair.try_get(2).is_none());
    assert!(!pair.try_set(2, 7));
    assert_eq!(*pair.get(0), 0);
    assert_eq!(*pair.get(1), 0);

    let single = Newtype::default();
    assert!(single.try_get(1).is_none());
    assert!(single.try_get(0).is_some());
}

#[test]
fn view_round_trip() {
    let source = [3i32, 1, 4, 1];
    let instance = NamedGeneric::from_slice(&source);
    let back = instance.as_vec();
    assert_eq!(back, vec![3, 1, 4, 1]);

    let mut other = NamedGeneric::<i32>::default();
    other.copy_from_slice(&source);
    assert_eq!(*other.get(0), 3);
    assert_eq!(*other.get(1), 1);
    assert_eq!(*other.get(2), 4);
    assert_eq!(*other.get(3), 1);
}

#[test]
fn view_length_mismatch_is_refused() {
    let three = [0i32; 3];
    assert!(NamedGeneric::try_from_slice(&three).is_none());
    let five = [0i32; 5];
    assert!(NamedGeneric::try_from_slice(&five).is_none());
    let four = [0i32; 4];
    assert!(NamedGeneric::try_from_slice(&four).is_some());
}
