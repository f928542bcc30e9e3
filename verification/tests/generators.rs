use tlist::expand_nat;
use tlist::eval;
use tlist::expr;
use tlist::NatExpr;

fn depth(e: &NatExpr) -> u64 {
    match e {
        NatExpr::Succ(inner) => 1 + depth(inner),
        _ => 0,
    }
}

fn env() -> Vec<(Vec<u8>, u64)> {
    vec![
        (b"One".to_vec(), 1),
        (b"Two".to_vec(), 2),
        (b"Three".to_vec(), 3),
    ]
}

#[test]
fn expr_test() {
    let env = env();
    let one = expr(b"One").unwrap();
    let two = expr(b"Two").unwrap();
    let three = expr(b"+ One, Two").unwrap();
    let four = expr(b"* Two, Two").unwrap();
    let five = expr(b"+ Two, Three").unwrap();
    let six = expr(b"+ One, Two, Three").unwrap();
    let seven = expr(b"+ One, (* Two, Three)").unwrap();

    assert_eq!(eval(&one, &env), Some(1));
    assert_eq!(eval(&two, &env), Some(2));
    assert_eq!(eval(&three, &env), Some(3));
    assert_eq!(eval(&four, &env), Some(4));
    assert_eq!(eval(&five, &env), Some(5));
    assert_eq!(eval(&six, &env), Some(6));
    assert_eq!(eval(&seven, &env), Some(7));
}

#[test]
fn nat_test() {
    let _z = expand_nat(b"0").unwrap();
    let _one = expand_nat(b"1").unwrap();
    let _two = expand_nat(b"2").unwrap();
    let _three = expand_nat(b"3").unwrap();
    let _four = expand_nat(b"4").unwrap();
}

#[test]
fn nat_expansion_shape() {
    let z = expand_nat(b"0").unwrap();
    assert!(matches!(z, NatExpr::Zero));

    let three = expand_nat(b"3").unwrap();
    assert_eq!(depth(&three), 3);
    let mut inner = &three;
    while let NatExpr::Succ(next) = inner {
        inner = next;
    }
    assert!(matches!(inner, NatExpr::Zero));
}

#[test]
fn nat_rejects_malformed() {
    assert!(expand_nat(b"").is_err());
    assert!(expand_nat(b"abc").is_err());
    assert!(expand_nat(b"12x").is_err());
    assert!(expand_nat(b"-3").is_err());
    // one past the largest value the generator can hold
    assert!(expand_nat(b"18446744073709551616").is_err());
}

#[test]
fn expr_rejects_malformed() {
    assert!(expr(b"").is_err());
    assert!(expr(b"+ One, ?").is_err());
    assert!(expr(b"( One").is_err());
    assert!(expr(b"One Two").is_err());
    assert!(expr(b", One").is_err());
    assert!(expr(b"One )").is_err());
}

#[test]
fn expr_empty_forms_and_trailing_comma() {
    let env = env();
    // an additive form with no operands is the zero numeral
    assert_eq!(eval(&expr(b"+").unwrap(), &env), Some(0));
    // a multiplicative form with no operands is the numeral one
    assert_eq!(eval(&expr(b"*").unwrap(), &env), Some(1));
    assert_eq!(eval(&expr(b"+ One, Two,").unwrap(), &env), Some(3));
    assert_eq!(eval(&expr(b"(((One)))").unwrap(), &env), Some(1));
}

#[test]
fn eval_reports_unbound_and_overflow() {
    let mut env = env();
    env.push((b"Max".to_vec(), u64::MAX));
    assert_eq!(eval(&expr(b"Missing").unwrap(), &env), None);
    assert_eq!(eval(&expr(b"+ Max, One").unwrap(), &env), None);
    assert_eq!(eval(&expr(b"* Max, Two").unwrap(), &env), None);
    assert_eq!(eval(&expr(b"+ Max, (* Two, Zip)").unwrap(), &env), None);
    assert_eq!(eval(&expr(b"Max").unwrap(), &env), Some(u64::MAX));
}
