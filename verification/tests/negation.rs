use o1js_convert::errors::ConvertError;
use o1js_convert::field::negate_field_element;
use o1js_convert::points::negate_g1_point;

const PRIME: &str = "21888242871839275222246405745257275088548364400416034343698204186575808495617";

fn g1(x: &str, y: &str) -> Vec<String> {
    vec![x.to_string(), y.to_string()]
}

#[test]
fn negate_example_value() {
    let r = negate_field_element(
        "21888242871839275222246405745257275088548364400416034343698204186575808495612",
    );
    assert_eq!(r.unwrap(), "5");
}

#[test]
fn negate_small_value() {
    let r = negate_field_element("5");
    assert_eq!(
        r.unwrap(),
        "21888242871839275222246405745257275088548364400416034343698204186575808495612",
    );
}

#[test]
fn negate_zero_is_zero() {
    assert_eq!(negate_field_element("0").unwrap(), "0");
    assert_eq!(negate_field_element("000").unwrap(), "0");
}

#[test]
fn negate_twice_returns_original() {
    let once = negate_field_element("123").unwrap();
    let twice = negate_field_element(&once).unwrap();
    assert_eq!(twice, "123");
}

#[test]
fn negate_accepts_leading_zeros() {
    let r = negate_field_element("0005");
    assert_eq!(
        r.unwrap(),
        "21888242871839275222246405745257275088548364400416034343698204186575808495612",
    );
}

#[test]
fn negate_rejects_empty() {
    assert_eq!(negate_field_element(""), Err(ConvertError::InvalidFieldElement));
}

#[test]
fn negate_rejects_non_decimal() {
    assert_eq!(negate_field_element("12a"), Err(ConvertError::InvalidFieldElement));
    assert_eq!(negate_field_element("-5"), Err(ConvertError::InvalidFieldElement));
    assert_eq!(negate_field_element(" 5"), Err(ConvertError::InvalidFieldElement));
}

#[test]
fn negate_rejects_prime_and_above() {
    assert_eq!(negate_field_element(PRIME), Err(ConvertError::InvalidFieldElement));
    // one more than the prime
    assert_eq!(
        negate_field_element(
            "21888242871839275222246405745257275088548364400416034343698204186575808495618",
        ),
        Err(ConvertError::InvalidFieldElement),
    );
    // a 78-digit value
    let mut big = String::from("1");
    big.push_str(PRIME);
    assert_eq!(negate_field_element(&big), Err(ConvertError::InvalidFieldElement));
}

#[test]
fn negate_one_below_prime() {
    let r = negate_field_element(
        "21888242871839275222246405745257275088548364400416034343698204186575808495616",
    );
    assert_eq!(r.unwrap(), "1");
}

#[test]
fn negate_g1_point_keeps_x() {
    let p = g1("42", "5");
    let r = negate_g1_point(&p).unwrap();
    assert_eq!(r.x, "42");
    assert_eq!(
        r.y,
        "21888242871839275222246405745257275088548364400416034343698204186575808495612",
    );
}

#[test]
fn negate_g1_point_rejects_bad_y() {
    let p = g1("42", "nope");
    assert_eq!(negate_g1_point(&p).unwrap_err(), ConvertError::InvalidFieldElement);
}
