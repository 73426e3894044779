use menu_cli::api::Endpoint;
use menu_cli::command::{dated_endpoint, day_after, select, Commands, InputValidationFailure};

const NOON: i64 = 1_705_320_000;

#[test]
fn commands_without_a_day_need_no_clock() {
    for now in [0, NOON, -1, i64::MIN, i64::MAX] {
        assert_eq!(select(&Commands::Today, now), Ok(Endpoint::Today));
        assert_eq!(select(&Commands::Upcoming, now), Ok(Endpoint::Upcoming));
        assert_eq!(
            select(&Commands::Search { query: "pasta".to_string() }, now),
            Ok(Endpoint::Search { query: "pasta".to_string() })
        );
    }
}

#[test]
fn tomorrow_is_the_day_after_today() {
    assert_eq!(
        select(&Commands::Tomorrow, NOON),
        Ok(Endpoint::Dated { millis: 1_705_363_200_000 })
    );
    assert_eq!(
        select(&Commands::Tomorrow, 1_705_276_800),
        Ok(Endpoint::Dated { millis: 1_705_363_200_000 })
    );
    assert_eq!(
        select(&Commands::Tomorrow, 1_705_363_199),
        Ok(Endpoint::Dated { millis: 1_705_363_200_000 })
    );
}

#[test]
fn next_counts_days_from_today() {
    assert_eq!(
        select(&Commands::Next { offset: 0 }, NOON),
        Ok(Endpoint::Dated { millis: 1_705_276_800_000 })
    );
    assert_eq!(
        select(&Commands::Next { offset: 1 }, NOON),
        select(&Commands::Tomorrow, NOON)
    );
    assert_eq!(
        select(&Commands::Next { offset: 7 }, NOON),
        Ok(Endpoint::Dated { millis: 1_705_881_600_000 })
    );
}

#[test]
fn days_before_1970_begin_at_their_midnight() {
    assert_eq!(day_after(-1, 0), Endpoint::Dated { millis: -86_400_000 });
    assert_eq!(day_after(-86_400, 0), Endpoint::Dated { millis: -86_400_000 });
    assert_eq!(day_after(-86_401, 0), Endpoint::Dated { millis: -172_800_000 });
    assert_eq!(day_after(-1, 1), Endpoint::Dated { millis: 0 });
    assert_eq!(day_after(0, 0), Endpoint::Dated { millis: 0 });
}

#[test]
fn no_clock_and_no_offset_is_too_large() {
    assert_eq!(
        day_after(i64::MAX, u32::MAX),
        Endpoint::Dated { millis: (106_751_991_167_300i128 + 4_294_967_295) * 86_400_000 }
    );
    assert_eq!(
        day_after(i64::MIN, 0),
        Endpoint::Dated { millis: -106_751_991_167_301i128 * 86_400_000 }
    );
}

#[test]
fn a_typed_day_is_read_as_day_month_year() {
    assert_eq!(
        select(&Commands::Date { date: "15.01.24".to_string() }, NOON),
        Ok(Endpoint::Dated { millis: 1_705_276_800_000 })
    );
    assert_eq!(
        select(&Commands::Date { date: "29.02.24".to_string() }, 0),
        Ok(Endpoint::Dated { millis: 1_709_164_800_000 })
    );
    assert_eq!(
        select(&Commands::Date { date: "01.01.70".to_string() }, NOON),
        Ok(Endpoint::Dated { millis: 0 })
    );
}

#[test]
fn a_day_that_the_calendar_lacks_is_refused() {
    assert_eq!(
        select(&Commands::Date { date: "31.02.24".to_string() }, NOON),
        Err(InputValidationFailure::InvalidDate)
    );
    assert_eq!(
        select(&Commands::Date { date: "29.02.23".to_string() }, NOON),
        Err(InputValidationFailure::InvalidDate)
    );
}

#[test]
fn a_text_that_is_no_day_is_refused() {
    for text in ["", "tomorrow", "2024-01-15", "15.01", "15.13.24", "15.01.24 and more", "15/01/24"] {
        assert_eq!(
            select(&Commands::Date { date: text.to_string() }, NOON),
            Err(InputValidationFailure::InvalidDate),
            "{}",
            text
        );
    }
}

#[test]
fn dated_endpoint_turns_seconds_into_milliseconds() {
    assert_eq!(
        dated_endpoint(Some(1_705_276_800)),
        Ok(Endpoint::Dated { millis: 1_705_276_800_000 })
    );
    assert_eq!(dated_endpoint(Some(-86_400)), Ok(Endpoint::Dated { millis: -86_400_000 }));
    assert_eq!(
        dated_endpoint(Some(i64::MAX)),
        Ok(Endpoint::Dated { millis: 9_223_372_036_854_775_807_000 })
    );
    assert_eq!(dated_endpoint(None), Err(InputValidationFailure::InvalidDate));
}

#[test]
fn an_invalid_date_has_its_message() {
    assert_eq!(InputValidationFailure::InvalidDate.message(), "Please provide a valid date!");
}
