use tlist::Cons;
use tlist::DynValue;
use tlist::Get;
use tlist::GetMut;
use tlist::GetOptional;
use tlist::GetOptionalMut;
use tlist::HList;
use tlist::Insert;
use tlist::Nat;
use tlist::NatAdd;
use tlist::NatMul;
use tlist::Nil;
use tlist::Optional;
use tlist::Remove;
use tlist::RemoveOptional;
use tlist::Succ;
use tlist::TNone;
use tlist::TSome;
use tlist::Zero;

type N1 = Succ<Zero>;
type N2 = Succ<N1>;
type N3 = Succ<N2>;

#[test]
fn numeral_values() {
    assert_eq!(Zero::value(), 0);
    assert_eq!(N1::value(), 1);
    assert_eq!(N3::value(), 3);
}

#[test]
fn numeral_arithmetic() {
    assert_eq!(<<N2 as NatAdd<N3>>::Sum as Nat>::value(), 5);
    assert_eq!(<<Zero as NatAdd<N3>>::Sum as Nat>::value(), 3);
    assert_eq!(<<N3 as NatAdd<Zero>>::Sum as Nat>::value(), 3);
    assert_eq!(<<N2 as NatMul<N3>>::Product as Nat>::value(), 6);
    assert_eq!(<<Zero as NatMul<N3>>::Product as Nat>::value(), 0);
    assert_eq!(<<N3 as NatMul<N1>>::Product as Nat>::value(), 3);
}

#[test]
fn capsule_to_option() {
    assert_eq!(TSome(5i32).to_option(), Some(5));
    let absent: Option<i32> = Optional::<i32>::to_option(TNone);
    assert_eq!(absent, None);
}

#[test]
fn capsule_projections_keep_the_variant() {
    let present = TSome(5i32);
    assert_eq!(present.as_ref().to_option(), Some(&5));
    let mut present = TSome(6i32);
    *present.as_mut().0 = 7;
    assert_eq!(present.to_option(), Some(7));
    let mut absent = TNone;
    assert_eq!(Optional::<&i32>::to_option(absent.as_ref()), None);
    assert_eq!(Optional::<&mut i32>::to_option(absent.as_mut()), None);
}

#[test]
fn get_by_position() {
    let list = Cons(5i32, Cons("text", Cons(true, Nil)));
    assert_eq!(*Get::<Zero>::get(&list), 5);
    assert_eq!(*Get::<N1>::get(&list), "text");
    assert_eq!(*Get::<N2>::get(&list), true);
}

#[test]
fn set_replaces_only_the_selected_element() {
    let mut list = Cons(1i32, Cons(2i32, Nil));
    GetMut::<N1>::set(&mut list, 9);
    assert_eq!(list.0, 1);
    assert_eq!((list.1).0, 9);
    GetMut::<Zero>::set(&mut list, 4);
    assert_eq!(list.0, 4);
    assert_eq!((list.1).0, 9);
}

#[test]
fn set_optional_reports_range() {
    let mut list = Cons(1i32, Cons(2i32, Nil));
    assert!(GetOptionalMut::<N1>::set_optional(&mut list, 8));
    assert_eq!(list.0, 1);
    assert_eq!((list.1).0, 8);
    assert!(!GetOptionalMut::<N2>::set_optional(&mut list, ()));
    assert_eq!(list.0, 1);
    assert_eq!((list.1).0, 8);
    let mut empty = Nil;
    assert!(!GetOptionalMut::<Zero>::set_optional(&mut empty, ()));
}

#[test]
fn get_optional_presence() {
    let list = Cons(5i32, Cons(6i32, Nil));
    assert_eq!(GetOptional::<Zero>::get_optional(&list), Some(&5));
    assert_eq!(GetOptional::<N1>::get_optional(&list), Some(&6));
    assert_eq!(GetOptional::<N2>::get_optional(&list), None::<&()>);
    assert_eq!(GetOptional::<Zero>::get_optional(&Nil), None::<&()>);
    assert_eq!(GetOptional::<N3>::get_optional(&Nil), None::<&()>);
}

#[test]
fn push_then_pop_round_trip() {
    let list = Nil.push(3u8).push('a');
    let (head, rest) = list.pop();
    assert_eq!(head, 'a');
    let (next, _empty) = rest.pop();
    assert_eq!(next, 3u8);
}

#[test]
fn insert_remove_round_trip() {
    let list = Cons('a', Cons(true, Nil));
    let inserted = Insert::<N1, i32>::insert(list, 7);
    assert_eq!(inserted.0, 'a');
    assert_eq!((inserted.1).0, 7);
    let (removed, rest) = Remove::<N1>::remove(inserted);
    assert_eq!(removed, 7);
    assert_eq!(rest.0, 'a');
    assert_eq!((rest.1).0, true);

    let front = Insert::<Zero, u8>::insert(Nil, 9);
    let (got, _empty) = Remove::<Zero>::remove(front);
    assert_eq!(got, 9);
}

#[test]
fn remove_optional_on_empty_is_absent() {
    let (absent, rest) = RemoveOptional::<N3>::remove_optional(Nil);
    assert_eq!(absent.to_option(), None::<()>);
    assert!(matches!(rest, Nil));
    let (absent_zero, _rest) = RemoveOptional::<Zero>::remove_optional(Nil);
    assert_eq!(absent_zero.to_option(), None::<()>);
}

#[test]
fn remove_optional_in_and_out_of_range() {
    let list = Cons(1i32, Cons(2i32, Nil));
    let (got, rest) = RemoveOptional::<Zero>::remove_optional(list);
    assert_eq!(got.to_option(), Some(1));
    assert_eq!(rest.0, 2);

    let list = Cons(1i32, Cons(2i32, Nil));
    let (got, rest) = RemoveOptional::<N2>::remove_optional(list);
    assert_eq!(got.to_option(), None::<()>);
    assert_eq!(rest.0, 1);
    assert_eq!((rest.1).0, 2);
}

#[test]
fn downcast_rejects_mismatched_type() {
    let handle = DynValue::I32(7);
    match handle.downcast_bool() {
        Err(DynValue::I32(v)) => assert_eq!(v, 7),
        _ => panic!("a mismatched downcast must give the handle back"),
    }
    assert_eq!(DynValue::Bool(true).downcast_bool().unwrap(), true);
    assert_eq!(DynValue::Char('x').downcast_char().unwrap(), 'x');
    assert_eq!(
        DynValue::Text(String::from("hi")).downcast_text().unwrap(),
        "hi"
    );
}
