//! What the user asks for, and the question to the service that answers it.

use crate::api::{Endpoint, EndpointView};
use crate::calendar::{day_start, parse_day};
use vstd::prelude::*;

verus! {

/// Which menus to show.
#[derive(Debug, PartialEq, Eq)]
pub enum Commands {
    /// Today's menus.
    Today,
    /// Tomorrow's menus.
    Tomorrow,
    /// The menus in `offset` days.
    Next { offset: u32 },
    /// The menus on the day `date`, written `dd.mm.yy`.
    Date { date: String },
    /// The menus that match `query`.
    Search { query: String },
    /// All menus that are yet to come.
    Upcoming,
}

/// What a `Commands` holds.
pub enum CommandsView {
    Today,
    Tomorrow,
    Next { offset: u32 },
    Date { date: Seq<char> },
    Search { query: Seq<char> },
    Upcoming,
}

impl View for Commands {
    type V = CommandsView;

    open spec fn view(&self) -> CommandsView {
        match self {
            Commands::Today => CommandsView::Today,
            Commands::Tomorrow => CommandsView::Tomorrow,
            Commands::Next { offset } => CommandsView::Next { offset: *offset },
            Commands::Date { date } => CommandsView::Date { date: date@ },
            Commands::Search { query } => CommandsView::Search { query: query@ },
            Commands::Upcoming => CommandsView::Upcoming,
        }
    }
}

/// Why what the user typed cannot be used.
#[derive(Debug, Clone, Copy, PartialEq, Eq)]
pub enum InputValidationFailure {
    /// The text names no day.
    InvalidDate,
}

impl InputValidationFailure {
    /// The failure in words.
    pub fn message(&self) -> (r: &'static str)
        ensures
            r@ == "Please provide a valid date!"@,
    {
        "Please provide a valid date!"
    }
}

/// What an outcome of `select` holds.
pub open spec fn selection_view(r: Result<Endpoint, InputValidationFailure>) -> Result<
    EndpointView,
    InputValidationFailure,
> {
    match r {
        Ok(endpoint) => Ok(endpoint@),
        Err(failure) => Err(failure),
    }
}

/// The pattern after which a day is typed: day, month and year of two digits each,
/// with dots between them.
pub open spec fn date_pattern() -> Seq<char> {
    "%d.%m.%y"@
}

/// The millisecond at which the day begins that lies `offset` days after the day of
/// the second `now`. Both are counted from 1970-01-01 00:00 UTC, where a day begins
/// every 86,400 seconds: the day of `now` is `now / 86,400`, rounded down.
pub open spec fn day_in(now: i64, offset: u32) -> int {
    ((now as int) / 86_400 + offset) * 86_400_000
}

/// The question that answers a day typed by the user, given the second at which that
/// day begins, if the text named one.
pub open spec fn dated(start: Option<i64>) -> Result<EndpointView, InputValidationFailure> {
    match start {
        Some(second) => Ok(EndpointView::Dated { millis: (second * 1000) as i128 }),
        None => Err(InputValidationFailure::InvalidDate),
    }
}

/// The question that answers `command` at the second `now`, given `start`: what the
/// date of a `Commands::Date` was read as.
pub open spec fn selected(command: CommandsView, now: i64, start: Option<i64>) -> Result<
    EndpointView,
    InputValidationFailure,
> {
    match command {
        CommandsView::Today => Ok(EndpointView::Today),
        CommandsView::Tomorrow => Ok(EndpointView::Dated { millis: day_in(now, 1) as i128 }),
        CommandsView::Next { offset } => Ok(
            EndpointView::Dated { millis: day_in(now, offset) as i128 },
        ),
        CommandsView::Date { date } => dated(start),
        CommandsView::Search { query } => Ok(EndpointView::Search { query }),
        CommandsView::Upcoming => Ok(EndpointView::Upcoming),
    }
}

/// The question for the day that lies `offset` days after the day of the second `now`.
pub fn day_after(now: i64, offset: u32) -> (r: Endpoint)
    ensures
        r@ == (EndpointView::Dated { millis: day_in(now, offset) as i128 }),
{
    let now_wide: i128 = now as i128;
    let remainder: i128 = now_wide % 86_400;
    let today: i128 = if remainder < 0 {
        (now_wide - remainder) / 86_400 - 1
    } else {
        now_wide / 86_400
    };
    assert(today == (now as int) / 86_400) by {
        assert(now_wide == 86_400 * ((now as int) / 86_400) + (now as int) % 86_400);
    }
    Endpoint::Dated { millis: (today + offset as i128) * 86_400_000 }
}

/// The question for a day typed by the user, given the second at which that day
/// begins, if the text named one.
pub fn dated_endpoint(start: Option<i64>) -> (r: Result<Endpoint, InputValidationFailure>)
    ensures
        selection_view(r) == dated(start),
{
    match start {
        Some(second) => Ok(Endpoint::Dated { millis: second as i128 * 1000 }),
        None => Err(InputValidationFailure::InvalidDate),
    }
}

/// What the date of `command` is read as: the second at which the day begins, where
/// the command has a date and the date names a day.
pub open spec fn typed_day(command: CommandsView) -> Option<i64> {
    match command {
        CommandsView::Date { date } => day_start(date, date_pattern()),
        _ => None,
    }
}

/// The question to the service that answers `command`, asked at the second `now`
/// (counted from 1970-01-01 00:00 UTC). Only a date that names no day fails, and it
/// fails here, before anything is asked of the service.
pub fn select(command: &Commands, now: i64) -> (r: Result<Endpoint, InputValidationFailure>)
    ensures
        selection_view(r) == selected(command@, now, typed_day(command@)),
        r is Err <==> command@ is Date && typed_day(command@) is None,
        r is Err ==> r == Err::<Endpoint, InputValidationFailure>(
            InputValidationFailure::InvalidDate,
        ),
{
    match command {
        Commands::Today => Ok(Endpoint::Today),
        Commands::Tomorrow => Ok(day_after(now, 1)),
        Commands::Next { offset } => Ok(day_after(now, *offset)),
        Commands::Date { date } => dated_endpoint(parse_day(date.as_str(), "%d.%m.%y")),
        Commands::Search { query } => Ok(Endpoint::Search { query: query.clone() }),
        Commands::Upcoming => Ok(Endpoint::Upcoming),
    }
}

} // verus!
