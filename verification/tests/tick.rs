use serde_json::Value;
use sodexo_webhook::lunch::FetchFailure;
use sodexo_webhook::tick::Tick;

fn on(today: &str) -> Tick {
    Tick { today: today.to_string() }
}

fn content(payload: &Value) -> &str {
    assert_eq!(payload.as_object().unwrap().len(), 1);
    payload.get("content").unwrap().as_str().unwrap()
}

#[test]
fn request_ends_with_the_date_of_the_tick() {
    assert_eq!(
        on("2023-03-14").request("https://example.org/daily_json/70/"),
        "https://example.org/daily_json/70/2023-03-14"
    );
}

#[test]
fn tick_that_falls_now_has_the_local_date() {
    let before = chrono::Local::now().date_naive().to_string();
    let tick = Tick::now();
    let after = chrono::Local::now().date_naive().to_string();
    assert!(tick.today == before || tick.today == after);
    assert_eq!(tick.today.len(), 10);
    assert_eq!(tick.request("base/"), format!("base/{}", tick.today));
}

#[test]
fn tick_that_falls_now_is_dated_year_month_day() {
    let today: Vec<char> = Tick::now().today.chars().collect();
    assert!(today.len() >= 10);
    let (year, rest) = today.split_at(today.len() - 6);
    let digits = match year[0] {
        '+' | '-' => &year[1..],
        _ => year,
    };
    assert!(digits.len() >= 4 && digits.iter().all(char::is_ascii_digit));
    assert_eq!(rest[0], '-');
    assert_eq!(rest[3], '-');
    let month: u32 = rest[1..3].iter().collect::<String>().parse().unwrap();
    let day: u32 = rest[4..6].iter().collect::<String>().parse().unwrap();
    assert!((1..=12).contains(&month));
    assert!((1..=31).contains(&day));
}

#[test]
fn post_holds_the_message_of_the_decoded_menu() {
    let body = r#"{"meta": {"ref_title": "R"}, "courses": {"1": {"title_fi": "Kala", "price": "8 €", "dietcodes": "L"}}}"#;
    let (payload, failure) = on("2023-03-14").payload(Some(body.as_bytes()));
    assert_eq!(failure, None);
    assert_eq!(content(&payload), "**R Lounas 2023-03-14**```\nKala: 8 € L \n\n```");
}

#[test]
fn post_after_a_transport_failure_is_nothing_for_today() {
    let (payload, failure) = on("2023-03-14").payload(None);
    assert_eq!(failure, Some(FetchFailure::Transport));
    assert_eq!(content(&payload), "Nothing for today");
}

#[test]
fn post_after_a_decode_failure_is_nothing_for_today() {
    let (payload, failure) = on("2023-03-14").payload(Some(b"<html>503</html>"));
    assert_eq!(failure, Some(FetchFailure::Decode));
    assert_eq!(content(&payload), "Nothing for today");
}

#[test]
fn post_of_a_document_without_courses_is_nothing_for_today() {
    let (payload, failure) = on("2023-03-14").payload(Some(b"{\"meta\": {\"ref_title\": \"R\"}}"));
    assert_eq!(failure, None);
    assert_eq!(content(&payload), "Nothing for today");
}
