use menu_cli::api::{amount_of, menu_amount, Endpoint, MenuAPI, ResponseParseFailure};

#[test]
fn api_address_gets_a_slash() {
    assert_eq!(MenuAPI::new("https://api.example.com".to_string()).base(), "https://api.example.com/");
    assert_eq!(MenuAPI::new("https://api.example.com/".to_string()).base(), "https://api.example.com/");
    assert_eq!(MenuAPI::new(String::new()).base(), "/");
}

#[test]
fn address_appends_the_sub_url_as_it_is() {
    let api = MenuAPI::new("https://api.example.com".to_string());
    assert_eq!(api.address(""), "https://api.example.com/");
    assert_eq!(api.address("/menu/upcoming"), "https://api.example.com//menu/upcoming");
    assert_eq!(api.address("stats"), "https://api.example.com/stats");
}

#[test]
fn each_endpoint_has_its_path() {
    assert_eq!(Endpoint::Upcoming.path(), "/menu/upcoming");
    assert_eq!(Endpoint::Today.path(), "/menu/date");
    assert_eq!(Endpoint::Dated { millis: 1_705_276_800_000 }.path(), "/menu/date?date=1705276800000");
    assert_eq!(Endpoint::Dated { millis: -86_400_000 }.path(), "/menu/date?date=-86400000");
    assert_eq!(Endpoint::Info.path(), "");
    assert_eq!(Endpoint::Search { query: "pasta al forno".to_string() }.path(), "/menu/search?query=pasta al forno");
    assert_eq!(Endpoint::Stats.path(), "/stats/menu");
}

#[test]
fn request_url_is_base_then_path() {
    let api = MenuAPI::new("http://localhost:8080/".to_string());
    assert_eq!(api.request_url(&Endpoint::Info), "http://localhost:8080/");
    assert_eq!(api.request_url(&Endpoint::Today), "http://localhost:8080//menu/date");
    assert_eq!(
        api.request_url(&Endpoint::Dated { millis: 0 }),
        "http://localhost:8080//menu/date?date=0"
    );
    assert_eq!(
        api.request_url(&Endpoint::Search { query: "soup".to_string() }),
        "http://localhost:8080//menu/search?query=soup"
    );
}

#[test]
fn menu_amount_reads_the_amount() {
    assert_eq!(menu_amount("{\"amount\": 5}"), Ok(5));
    assert_eq!(menu_amount("{\"other\": true, \"amount\": 4294967295}"), Ok(u32::MAX));
    assert_eq!(menu_amount(" {\"amount\":0} "), Ok(0));
}

#[test]
fn menu_amount_keeps_the_low_32_bits() {
    assert_eq!(menu_amount("{\"amount\": 4294967296}"), Ok(0));
    assert_eq!(menu_amount("{\"amount\": 4294967301}"), Ok(5));
}

#[test]
fn menu_amount_without_amount_fails() {
    assert_eq!(menu_amount("{}"), Err(ResponseParseFailure::MissingAmount));
    assert_eq!(menu_amount("{\"amount\": -1}"), Err(ResponseParseFailure::MissingAmount));
    assert_eq!(menu_amount("{\"amount\": 1.5}"), Err(ResponseParseFailure::MissingAmount));
    assert_eq!(menu_amount("{\"amount\": \"5\"}"), Err(ResponseParseFailure::MissingAmount));
    assert_eq!(menu_amount("[5]"), Err(ResponseParseFailure::MissingAmount));
    assert_eq!(menu_amount("5"), Err(ResponseParseFailure::MissingAmount));
}

#[test]
fn menu_amount_of_no_json_fails() {
    assert_eq!(menu_amount(""), Err(ResponseParseFailure::Malformed));
    assert_eq!(menu_amount("amount"), Err(ResponseParseFailure::Malformed));
    assert_eq!(menu_amount("{\"amount\": 5"), Err(ResponseParseFailure::Malformed));
}

#[test]
fn amount_of_tells_the_three_cases_apart() {
    assert_eq!(amount_of(None), Err(ResponseParseFailure::Malformed));
    assert_eq!(amount_of(Some(None)), Err(ResponseParseFailure::MissingAmount));
    assert_eq!(amount_of(Some(Some(7))), Ok(7));
    assert_eq!(amount_of(Some(Some(u64::MAX))), Ok(u32::MAX));
    assert_eq!(amount_of(Some(Some(1 << 32))), Ok(0));
}

#[test]
fn parse_failures_have_their_messages() {
    assert_eq!(ResponseParseFailure::Malformed.message(), "Failed to parse json from menu stats");
    assert_eq!(
        ResponseParseFailure::MissingAmount.message(),
        "Couldn't find property 'amount' on menu stats endpoint."
    );
}
