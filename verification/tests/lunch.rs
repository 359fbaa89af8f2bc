use serde_json::Value;
use sodexo_webhook::format_message;
use sodexo_webhook::lunch::{empty_lunch, lunch_from_response, lunch_or_empty, lunch_url, FetchFailure};

#[test]
fn url_is_the_address_followed_by_the_date() {
    assert_eq!(
        lunch_url("https://example.org/api/v1/json/daily_json/70/", "2023-03-14"),
        "https://example.org/api/v1/json/daily_json/70/2023-03-14"
    );
    assert_eq!(lunch_url("", "2023-03-14"), "2023-03-14");
    assert_eq!(lunch_url("base", ""), "base");
}

#[test]
fn empty_lunch_has_null_meta_and_courses() {
    let lunch = empty_lunch();
    assert_eq!(lunch.get("meta"), Some(&Value::Null));
    assert_eq!(lunch.get("courses"), Some(&Value::Null));
    assert_eq!(lunch.as_object().unwrap().len(), 2);
    let expected: Value = serde_json::from_str(r#"{"meta": null, "courses": null}"#).unwrap();
    assert_eq!(lunch, expected);
}

#[test]
fn transport_failure_gives_the_empty_lunch() {
    let (lunch, failure) = lunch_from_response(None);
    assert_eq!(failure, Some(FetchFailure::Transport));
    assert_eq!(lunch.get("meta"), Some(&Value::Null));
    assert_eq!(lunch.get("courses"), Some(&Value::Null));
    assert_eq!(format_message(&lunch, "2023-03-14"), "Nothing for today");
}

#[test]
fn body_that_is_no_json_gives_the_empty_lunch() {
    for body in ["", "<html>", "{\"courses\": ", "{} trailing", "{'courses': {}}"] {
        let (lunch, failure) = lunch_from_response(Some(body.as_bytes()));
        assert_eq!(failure, Some(FetchFailure::Decode));
        assert_eq!(lunch, empty_lunch());
        assert_eq!(format_message(&lunch, "2023-03-14"), "Nothing for today");
    }
    let (lunch, failure) = lunch_from_response(Some(&[0xff, 0xfe]));
    assert_eq!(failure, Some(FetchFailure::Decode));
    assert_eq!(lunch, empty_lunch());
}

#[test]
fn decoded_body_is_handed_on() {
    let body = r#"{"meta": {"ref_title": "R"}, "courses": {"1": {"title_fi": "Kala", "price": "8 €", "dietcodes": "L"}}, "extra": [1, 2.5, true]}"#;
    let (lunch, failure) = lunch_from_response(Some(body.as_bytes()));
    assert_eq!(failure, None);
    let expected: Value = serde_json::from_str(body).unwrap();
    assert_eq!(lunch, expected);
    assert_eq!(format_message(&lunch, "2023-03-14"), "**R Lounas 2023-03-14**```\nKala: 8 € L \n\n```");
}

#[test]
fn decoded_body_need_not_be_a_menu() {
    let (lunch, failure) = lunch_from_response(Some(b"[1, 2]"));
    assert_eq!(failure, None);
    assert_eq!(lunch, serde_json::from_str::<Value>("[1, 2]").unwrap());
    assert_eq!(format_message(&lunch, "d"), "Nothing for today");
}

#[test]
fn lunch_or_empty_follows_the_decoder() {
    let parsed = serde_json::from_slice::<Value>(br#"{"courses": {}}"#);
    let (lunch, failure) = lunch_or_empty(Some(parsed));
    assert_eq!(failure, None);
    assert_eq!(lunch, serde_json::from_str::<Value>(r#"{"courses": {}}"#).unwrap());

    let refused = serde_json::from_slice::<Value>(b"nope");
    let (lunch, failure) = lunch_or_empty(Some(refused));
    assert_eq!(failure, Some(FetchFailure::Decode));
    assert_eq!(lunch, empty_lunch());

    let (lunch, failure) = lunch_or_empty(None);
    assert_eq!(failure, Some(FetchFailure::Transport));
    assert_eq!(lunch, empty_lunch());
}
