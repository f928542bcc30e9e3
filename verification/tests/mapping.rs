use tlist::Apply;
use tlist::Cons;
use tlist::MapWith;
use tlist::Nil;

#[allow(non_camel_case_types)]
struct my_print;

impl<T: std::fmt::Display> Apply<T> for my_print {
    type Output = ();

    fn apply(&self, arg: T) {
        println!("{}", arg);
    }
}

#[test]
fn map_test() {
    let l = Cons(1i32, Cons("str", Cons(true, Cons('c', Nil))));

    l.map(&my_print);
}

#[allow(non_camel_case_types)]
struct describe;

impl Apply<i32> for describe {
    type Output = String;

    fn apply(&self, arg: i32) -> String {
        format!("int {}", arg)
    }
}

impl Apply<bool> for describe {
    type Output = String;

    fn apply(&self, arg: bool) -> String {
        format!("bool {}", arg)
    }
}

#[test]
fn map_keeps_order_and_maps_each_element() {
    let l = Cons(4i32, Cons(true, Nil));
    let mapped = l.map(&describe);
    assert_eq!(mapped.0, "int 4");
    assert_eq!((mapped.1).0, "bool true");
    let empty = Nil.map(&describe);
    assert!(matches!(empty, Nil));
}
