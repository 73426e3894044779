//! The menu service: the records it sends, and the addresses under which it is asked.

use crate::text::{decimal, ends_in, ensure_slash, to_decimal, with_slash};
use vstd::prelude::*;
use vstd::string::*;

verus! {

/// One price of a menu.
#[derive(Debug, PartialEq, Eq)]
pub struct Price {
    /// The group of guests that pays it, such as `student`.
    pub tag: String,
    /// The amount as it is shown, written with two decimal places, such as `3.50`.
    pub amount: String,
}

/// What a `Price` holds.
pub struct PriceView {
    pub tag: Seq<char>,
    pub amount: Seq<char>,
}

impl View for Price {
    type V = PriceView;

    open spec fn view(&self) -> PriceView {
        PriceView { tag: self.tag@, amount: self.amount@ }
    }
}

/// One meal on offer.
#[derive(Debug, PartialEq, Eq)]
pub struct Menu {
    pub id: String,
    pub title: String,
    pub description: String,
    /// The day it is served, in milliseconds since 1970-01-01 00:00 UTC.
    pub date: i64,
    pub channel: u8,
    /// The dietary category, counted from 1; 0 where the menu has none.
    pub label: u8,
    /// The prices, in the order in which the service sent them.
    pub prices: Vec<Price>,
    pub votes: i32,
}

/// What a `Menu` holds.
pub struct MenuView {
    pub id: Seq<char>,
    pub title: Seq<char>,
    pub description: Seq<char>,
    pub date: i64,
    pub channel: u8,
    pub label: u8,
    pub prices: Seq<PriceView>,
    pub votes: i32,
}

/// The prices of `v`, each by what it holds.
pub open spec fn price_views(v: Seq<Price>) -> Seq<PriceView> {
    Seq::new(v.len(), |i: int| v[i]@)
}

impl View for Menu {
    type V = MenuView;

    open spec fn view(&self) -> MenuView {
        MenuView {
            id: self.id@,
            title: self.title@,
            description: self.description@,
            date: self.date,
            channel: self.channel,
            label: self.label,
            prices: price_views(self.prices@),
            votes: self.votes,
        }
    }
}

/// The menus of `v`, each by what it holds.
pub open spec fn menu_views(v: Seq<Menu>) -> Seq<MenuView> {
    Seq::new(v.len(), |i: int| v[i]@)
}

/// What the service says of itself.
#[derive(Debug, PartialEq, Eq)]
pub struct ApiInformation {
    pub version: String,
    /// When it was started, in milliseconds since 1970-01-01 00:00 UTC.
    pub started: i64,
}

/// A question that the service answers.
#[derive(Debug, PartialEq, Eq)]
pub enum Endpoint {
    /// All menus that are yet to come.
    Upcoming,
    /// The menus of today.
    Today,
    /// The menus of the day that begins at `millis`, in milliseconds since
    /// 1970-01-01 00:00 UTC.
    Dated { millis: i128 },
    /// What the service says of itself.
    Info,
    /// The menus that match `query`.
    Search { query: String },
    /// How many menus the service knows.
    Stats,
}

/// What an `Endpoint` holds.
pub enum EndpointView {
    Upcoming,
    Today,
    Dated { millis: i128 },
    Info,
    Search { query: Seq<char> },
    Stats,
}

impl View for Endpoint {
    type V = EndpointView;

    open spec fn view(&self) -> EndpointView {
        match self {
            Endpoint::Upcoming => EndpointView::Upcoming,
            Endpoint::Today => EndpointView::Today,
            Endpoint::Dated { millis } => EndpointView::Dated { millis: *millis },
            Endpoint::Info => EndpointView::Info,
            Endpoint::Search { query } => EndpointView::Search { query: query@ },
            Endpoint::Stats => EndpointView::Stats,
        }
    }
}

/// What follows the base address in the address of `endpoint`. A query is taken as it
/// is: nothing in it is escaped.
pub open spec fn sub_url(endpoint: EndpointView) -> Seq<char> {
    match endpoint {
        EndpointView::Upcoming => "/menu/upcoming"@,
        EndpointView::Today => "/menu/date"@,
        EndpointView::Dated { millis } => "/menu/date?date="@ + decimal(millis as int),
        EndpointView::Info => Seq::empty(),
        EndpointView::Search { query } => "/menu/search?query="@ + query,
        EndpointView::Stats => "/stats/menu"@,
    }
}

impl Endpoint {
    /// What follows the base address in the address of this endpoint.
    pub fn path(&self) -> (r: String)
        ensures
            r@ == sub_url(self@),
    {
        match self {
            Endpoint::Upcoming => "/menu/upcoming".to_owned(),
            Endpoint::Today => "/menu/date".to_owned(),
            Endpoint::Dated { millis } => {
                let mut r = "/menu/date?date=".to_owned();
                r.append(to_decimal(*millis).as_str());
                r
            },
            Endpoint::Info => String::new(),
            Endpoint::Search { query } => {
                let mut r = "/menu/search?query=".to_owned();
                r.append(query.as_str());
                r
            },
            Endpoint::Stats => "/stats/menu".to_owned(),
        }
    }
}

/// The menu service at one base address. The address always ends with a slash.
pub struct MenuAPI {
    url: String,
}

impl View for MenuAPI {
    type V = Seq<char>;

    /// The base address.
    closed spec fn view(&self) -> Seq<char> {
        self.url@
    }
}

impl MenuAPI {
    #[verifier::type_invariant]
    spec fn closed_by_slash(self) -> bool {
        ends_in(self.url@, '/')
    }

    /// The service at `url`, to which a slash is added unless it ends with one.
    pub fn new(url: String) -> (api: Self)
        ensures
            api@ == with_slash(url@),
    {
        MenuAPI { url: ensure_slash(url) }
    }

    /// The base address.
    pub fn base(&self) -> (r: &str)
        ensures
            r@ == self@,
            ends_in(r@, '/'),
    {
        proof {
            use_type_invariant(self);
        }
        self.url.as_str()
    }

    /// The address that is read for `sub_url`: the base address, then `sub_url` as it
    /// is. A `sub_url` that starts with a slash follows the slash of the base address.
    pub fn address(&self, sub_url: &str) -> (r: String)
        ensures
            r@ == self@ + sub_url@,
    {
        let mut base = self.url.clone();
        base.append(sub_url);
        base
    }

    /// The address that is read for `endpoint`.
    pub fn request_url(&self, endpoint: &Endpoint) -> (r: String)
        ensures
            r@ == self@ + sub_url(endpoint@),
    {
        let path = endpoint.path();
        self.address(path.as_str())
    }
}

/// Why an answer of the service could not be read.
#[derive(Debug, Clone, Copy, PartialEq, Eq)]
pub enum ResponseParseFailure {
    /// The answer is no JSON.
    Malformed,
    /// The answer has no property `amount` that holds a number without sign or
    /// fraction.
    MissingAmount,
}

impl ResponseParseFailure {
    /// The failure in words.
    pub fn message(&self) -> (r: &'static str)
        ensures
            r@ == match *self {
                ResponseParseFailure::Malformed => "Failed to parse json from menu stats"@,
                ResponseParseFailure::MissingAmount =>
                    "Couldn't find property 'amount' on menu stats endpoint."@,
            },
    {
        match self {
            ResponseParseFailure::Malformed => "Failed to parse json from menu stats",
            ResponseParseFailure::MissingAmount =>
                "Couldn't find property 'amount' on menu stats endpoint.",
        }
    }
}

/// What `serde_json` reads from `body` under the key `key`: `None` where `body` is no
/// JSON, `Some(None)` where it is JSON without a number of type `u64` there, else the
/// number.
pub uninterp spec fn json_number(body: Seq<char>, key: Seq<char>) -> Option<Option<u64>>;

/// `serde_json::from_str` to a `Value`, then the value's index by `key` and `as_u64`.
/// Trusted: the result is named, nothing more is claimed of it.
#[verifier::external_body]
fn read_number(body: &str, key: &str) -> (r: Option<Option<u64>>)
    ensures
        r == json_number(body@, key@),
{
    let value: serde_json::Value = serde_json::from_str(body).ok()?;
    Some(value[key].as_u64())
}

/// The number of menus in what was read from an answer: its low 32 bits.
pub open spec fn amount(number: Option<Option<u64>>) -> Result<u32, ResponseParseFailure> {
    match number {
        None => Err(ResponseParseFailure::Malformed),
        Some(None) => Err(ResponseParseFailure::MissingAmount),
        Some(Some(n)) => Ok((n % 0x1_0000_0000) as u32),
    }
}

/// The number of menus, from what was read under `amount` in the answer of
/// `Endpoint::Stats`.
pub fn amount_of(number: Option<Option<u64>>) -> (r: Result<u32, ResponseParseFailure>)
    ensures
        r == amount(number),
{
    match number {
        None => Err(ResponseParseFailure::Malformed),
        Some(None) => Err(ResponseParseFailure::MissingAmount),
        Some(Some(n)) => Ok((n % 0x1_0000_0000) as u32),
    }
}

/// The number of menus that the answer `body` of `Endpoint::Stats` gives.
pub fn menu_amount(body: &str) -> (r: Result<u32, ResponseParseFailure>)
    ensures
        r == amount(json_number(body@, "amount"@)),
{
    amount_of(read_number(body, "amount"))
}

} // verus!
