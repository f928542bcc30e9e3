use tlist::All;
use tlist::AsDynMut;
use tlist::AsDynRef;
use tlist::AsMutList;
use tlist::AsRefList;
use tlist::Cons;
use tlist::Nil;
use tlist::ToDynBox;

#[test]
fn into_iter() {
    let list = Cons(1, Cons(2, Cons(3, Nil)));
    let mut iter = list.into_iter();
    assert_eq!(iter.next(), Some(1));
    assert_eq!(iter.next(), Some(2));
    assert_eq!(iter.next(), Some(3));
    assert_eq!(iter.next(), None);
}

#[test]
fn ref_into_iter() {
    let list = Cons(1, Cons(2, Cons(3, Nil)));
    let mut iter = list.as_ref_list().into_iter();
    assert_eq!(iter.next(), Some(&1));
    assert_eq!(iter.next(), Some(&2));
    assert_eq!(iter.next(), Some(&3));
    assert_eq!(iter.next(), None);
}

#[test]
fn mut_into_iter() {
    let mut list = Cons(1, Cons(2, Cons(3, Nil)));
    let mut iter = list.as_mut_list().into_iter();
    assert_eq!(iter.next(), Some(&mut 1));
    assert_eq!(iter.next(), Some(&mut 2));
    assert_eq!(iter.next(), Some(&mut 3));
    assert_eq!(iter.next(), None);
}

#[test]
fn different_types() {
    let list = Cons(
        1,
        Cons(
            String::from("Hello"),
            Cons(true, Cons('c', Cons(std::f64::consts::PI.to_bits(), Nil))),
        ),
    );

    let mut iter = list.to_dyn_box().into_iter();
    assert_eq!(iter.next().map(|v| v.downcast_i32().unwrap()), Some(1));
    assert_eq!(
        iter.next().map(|v| v.downcast_text().unwrap()),
        Some(String::from("Hello"))
    );
    assert_eq!(iter.next().map(|v| v.downcast_bool().unwrap()), Some(true));
    assert_eq!(iter.next().map(|v| v.downcast_char().unwrap()), Some('c'));
    assert_eq!(
        iter.next().map(|v| f64::from_bits(v.downcast_u64().unwrap())),
        Some(std::f64::consts::PI)
    );
    assert_eq!(iter.next().map(|v| v.downcast_i32().unwrap()), None);
}

#[test]
fn dyn_ref_iteration_borrows_in_order() {
    let list = Cons(1i32, Cons(true, Cons('c', Nil)));
    let mut iter = list.as_dyn_ref().into_iter();
    assert_eq!(iter.next().map(|h| *h.downcast_i32().unwrap()), Some(1));
    assert_eq!(iter.next().map(|h| *h.downcast_bool().unwrap()), Some(true));
    assert_eq!(iter.next().map(|h| *h.downcast_char().unwrap()), Some('c'));
    assert!(iter.next().is_none());
    assert_eq!(list.0, 1);
}

#[test]
fn dyn_mut_iteration_mutates_in_place() {
    let mut list = Cons(1i32, Cons(true, Nil));
    let mut iter = list.as_dyn_mut().into_iter();
    *iter.next().unwrap().downcast_i32().unwrap() = 9;
    *iter.next().unwrap().downcast_bool().unwrap() = false;
    assert!(iter.next().is_none());
    drop(iter);
    assert_eq!(list.0, 9);
    assert_eq!((list.1).0, false);
}
