use serde_json::Value;
use sodexo_webhook::peanut_check;

fn json(text: &str) -> Value {
    serde_json::from_str(text).unwrap()
}

#[test]
fn return_true_on_peanut() {
    let peanuts = json(r#"{"allergens": "pähkinä"}"#);
    assert!(peanut_check(&peanuts));
}

#[test]
fn return_false_on_no_peanut() {
    let no_peanuts = json(r#"{"allergens": "kala"}"#);
    assert!(!peanut_check(&no_peanuts));
}

#[test]
fn return_false_on_null() {
    assert!(!peanut_check(&Value::Null));
}

#[test]
fn return_false_on_allergens_of_wrong_type() {
    assert!(!peanut_check(&json(r#"{"allergens": 123}"#)));
    assert!(!peanut_check(&json(r#"{"allergens": null}"#)));
    assert!(!peanut_check(&json(r#"{"allergens": ["pähkinä"]}"#)));
    assert!(!peanut_check(&json(r#"{"allergens": {"allergens": "pähkinä"}}"#)));
}

#[test]
fn return_true_on_upper_case_peanut() {
    assert!(peanut_check(&json(r#"{"allergens": "PÄHKINÄ SISÄLTÖ"}"#)));
    assert!(peanut_check(&json(r#"{"allergens": "Pähkinä"}"#)));
}

#[test]
fn return_true_on_peanut_inside_a_longer_text() {
    assert!(peanut_check(&json(r#"{"allergens": "kala, maapähkinä, soija"}"#)));
    assert!(peanut_check(&json(r#"{"allergens": "sisältää pähkinää"}"#)));
}

#[test]
fn return_false_on_a_part_of_the_word() {
    assert!(!peanut_check(&json(r#"{"allergens": "pähkin"}"#)));
    assert!(!peanut_check(&json(r#"{"allergens": "pahkina"}"#)));
    assert!(!peanut_check(&json(r#"{"allergens": ""}"#)));
}

#[test]
fn return_false_on_missing_allergens() {
    assert!(!peanut_check(&json(r#"{}"#)));
    assert!(!peanut_check(&json(r#"{"other": "pähkinä"}"#)));
}

#[test]
fn return_false_on_values_that_are_no_object() {
    assert!(!peanut_check(&json(r#""pähkinä""#)));
    assert!(!peanut_check(&json(r#"["pähkinä"]"#)));
    assert!(!peanut_check(&json("true")));
    assert!(!peanut_check(&json("7")));
}
