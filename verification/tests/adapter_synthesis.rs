use tlist::hkt;
use tlist::Apply;
use tlist::CallProtocol;
use tlist::FnDef;
use tlist::FnInput;
use tlist::FnParam;

#[allow(non_camel_case_types)]
struct foo;

impl<T> Apply<T> for foo {
    type Output = ();

    fn apply(&self, _arg: T) {}
}

fn f(_: impl Apply<i32, Output = ()> + Apply<&'static str, Output = ()>) {}

#[test]
fn test_hkt() {
    let def = FnDef {
        name: String::from("foo"),
        generics: vec![String::from("T")],
        inputs: vec![FnInput::Param(FnParam {
            pattern: String::from("_"),
            ty: String::from("T"),
        })],
        output: None,
        body: String::new(),
    };
    let adapter = hkt(&def);
    assert_eq!(adapter.struct_name, "foo");
    assert_eq!(adapter.generics, vec![String::from("T")]);
    assert_eq!(adapter.arg_patterns, vec![String::from("_")]);
    assert_eq!(adapter.arg_types, vec![String::from("T")]);
    assert_eq!(adapter.output, None);
    assert_eq!(adapter.impls.len(), 3);
    assert!(matches!(adapter.impls[0].protocol, CallProtocol::Once));
    assert!(matches!(adapter.impls[1].protocol, CallProtocol::Mut));
    assert!(matches!(adapter.impls[2].protocol, CallProtocol::Ref));
    assert_eq!(adapter.impls[0].method, "call_once");
    assert_eq!(adapter.impls[1].method, "call_mut");
    assert_eq!(adapter.impls[2].method, "call");
    assert!(adapter.impls[0].declares_output);
    assert!(!adapter.impls[1].declares_output);
    assert!(!adapter.impls[2].declares_output);

    f(foo);
}

#[allow(non_camel_case_types)]
struct stringify_it;

impl Apply<i32> for stringify_it {
    type Output = String;

    fn apply(&self, arg: i32) -> String {
        format!("{}", arg)
    }
}

impl Apply<bool> for stringify_it {
    type Output = String;

    fn apply(&self, arg: bool) -> String {
        format!("{}", arg)
    }
}

#[test]
fn adapter_value_serves_two_argument_types() {
    let g = stringify_it;
    let a = g.apply(7);
    let b = g.apply(true);
    assert_eq!(a, "7");
    assert_eq!(b, "true");
}

#[test]
fn adapter_receiver_inputs_carry_no_argument() {
    let def = FnDef {
        name: String::from("method_like"),
        generics: vec![],
        inputs: vec![
            FnInput::Receiver,
            FnInput::Param(FnParam {
                pattern: String::from("x"),
                ty: String::from("u8"),
            }),
            FnInput::Param(FnParam {
                pattern: String::from("y"),
                ty: String::from("String"),
            }),
        ],
        output: Some(String::from("u8")),
        body: String::from("x"),
    };
    let adapter = hkt(&def);
    assert_eq!(
        adapter.arg_patterns,
        vec![String::from("x"), String::from("y")]
    );
    assert_eq!(
        adapter.arg_types,
        vec![String::from("u8"), String::from("String")]
    );
    assert_eq!(adapter.output, Some(String::from("u8")));
    assert_eq!(adapter.impls[2].body, "x");
}
