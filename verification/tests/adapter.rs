use nat2arr::num2opt;
use nat2arr::val2opt;

use serde_json::Number;
use serde_json::Value;

#[test]
fn test_num2opt_positive() {
    assert_eq!(num2opt(&Number::from(42i64)), Some(42));
    assert_eq!(num2opt(&Number::from(0i64)), Some(0));
    assert_eq!(num2opt(&Number::from(i64::MAX)), Some(i64::MAX));
}

#[test]
fn test_num2opt_negative() {
    assert_eq!(num2opt(&Number::from(-5i64)), None);
    assert_eq!(num2opt(&Number::from(i64::MIN)), None);
}

#[test]
fn test_num2opt_out_of_range() {
    assert_eq!(num2opt(&Number::from(u64::MAX)), None);
    let f = Number::from_f64(1.5).unwrap();
    assert_eq!(num2opt(&f), None);
}

#[test]
fn test_val2opt_numeric() {
    assert_eq!(val2opt(&Value::Number(Number::from(42i64))), Some(42));
    assert_eq!(val2opt(&Value::Number(Number::from(-5i64))), None);
    assert_eq!(val2opt(&Value::Number(Number::from(u64::MAX))), None);
}

#[test]
fn test_val2opt_non_numeric() {
    assert_eq!(val2opt(&Value::Null), None);
    assert_eq!(val2opt(&Value::Bool(true)), None);
    assert_eq!(val2opt(&Value::String(String::from("42"))), None);
    assert_eq!(val2opt(&Value::Array(vec![])), None);
}
