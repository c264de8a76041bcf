//! The data model: time buckets, paged requests, candle records, and the
//! page envelope the server answers with.
//!
//! Times are Unix millisecond timestamps. Prices are carried as exact
//! base-ten text, never as binary floating point, so that traded prices
//! keep their precision through rendering.

use vstd::prelude::*;
use vstd::string::*;

use crate::error::ValidationError;

verus! {

/// The width of one candle's time bucket.
#[derive(Clone, Copy, PartialEq, Eq, Structural, Debug)]
pub enum Timespan {
    Second,
    Minute,
    Hour,
    Day,
    Week,
    Month,
    Quarter,
    Year,
}

/// The lowercase name of a timespan: its textual form in fetch targets
/// and output paths.
pub open spec fn timespan_name(t: Timespan) -> Seq<char> {
    match t {
        Timespan::Second => "second"@,
        Timespan::Minute => "minute"@,
        Timespan::Hour => "hour"@,
        Timespan::Day => "day"@,
        Timespan::Week => "week"@,
        Timespan::Month => "month"@,
        Timespan::Quarter => "quarter"@,
        Timespan::Year => "year"@,
    }
}

impl Timespan {
    /// The lowercase name of this timespan.
    pub fn as_str(&self) -> (s: &'static str)
        ensures
            s@ == timespan_name(*self),
    {
        match self {
            Timespan::Second => "second",
            Timespan::Minute => "minute",
            Timespan::Hour => "hour",
            Timespan::Day => "day",
            Timespan::Week => "week",
            Timespan::Month => "month",
            Timespan::Quarter => "quarter",
            Timespan::Year => "year",
        }
    }
}

impl Default for Timespan {
    /// Minute buckets unless asked otherwise.
    fn default() -> (t: Self)
        ensures
            t == Timespan::Minute,
    {
        Timespan::Minute
    }
}

/// Reads a timespan back from its lowercase name.
pub fn parse_timespan(s: &str) -> (r: Option<Timespan>)
    ensures
        r matches Some(t) ==> s@ == timespan_name(t),
        r is None ==> forall|t: Timespan| s@ != timespan_name(t),
{
    let o = s.to_owned();
    let r = if o == String::from_str("second") {
        Some(Timespan::Second)
    } else if o == String::from_str("minute") {
        Some(Timespan::Minute)
    } else if o == String::from_str("hour") {
        Some(Timespan::Hour)
    } else if o == String::from_str("day") {
        Some(Timespan::Day)
    } else if o == String::from_str("week") {
        Some(Timespan::Week)
    } else if o == String::from_str("month") {
        Some(Timespan::Month)
    } else if o == String::from_str("quarter") {
        Some(Timespan::Quarter)
    } else if o == String::from_str("year") {
        Some(Timespan::Year)
    } else {
        None
    };
    proof {
        if r is None {
            assert forall|t: Timespan| s@ != timespan_name(t) by {
                match t {
                    Timespan::Second => assert(s@ != timespan_name(t)),
                    Timespan::Minute => assert(s@ != timespan_name(t)),
                    Timespan::Hour => assert(s@ != timespan_name(t)),
                    Timespan::Day => assert(s@ != timespan_name(t)),
                    Timespan::Week => assert(s@ != timespan_name(t)),
                    Timespan::Month => assert(s@ != timespan_name(t)),
                    Timespan::Quarter => assert(s@ != timespan_name(t)),
                    Timespan::Year => assert(s@ != timespan_name(t)),
                }
            }
        }
    }
    r
}

/// One immutable description of a paged fetch. Built once per symbol per
/// run; only the continuation cursor is swapped between pages.
#[derive(Clone, PartialEq, Eq, Debug)]
pub struct AggregateRequest<'a> {
    /// The instrument symbol; never empty once built.
    pub ticker: &'a str,
    /// The bucket width for each candle.
    pub timespan: Timespan,
    /// Start of the range, Unix milliseconds.
    pub from_millis: i64,
    /// End of the range, Unix milliseconds; never before the start.
    pub to_millis: i64,
    /// The server-supplied continuation URL for pages after the first.
    pub next_url: Option<String>,
    /// How many records one page may hold; never zero.
    pub limit: u32,
}

impl<'a> AggregateRequest<'a> {
    /// A request's parameters are acceptable: non-empty symbol, ordered
    /// range, positive page limit.
    pub open spec fn params_ok(
        ticker: Seq<char>,
        from_millis: i64,
        to_millis: i64,
        limit: u32,
    ) -> bool {
        ticker.len() > 0 && from_millis <= to_millis && limit > 0
    }

    /// Validates the parameters and builds a first-page request, with no
    /// continuation. Succeeds exactly when the symbol is non-empty, the
    /// range is ordered, and the limit is positive; otherwise reports the
    /// first failing rule.
    pub fn build(
        ticker: &'a str,
        timespan: Timespan,
        from_millis: i64,
        to_millis: i64,
        limit: u32,
    ) -> (r: Result<Self, ValidationError>)
        ensures
            r is Ok <==> Self::params_ok(ticker@, from_millis, to_millis, limit),
            r matches Ok(q) ==> q == (AggregateRequest {
                ticker,
                timespan,
                from_millis,
                to_millis,
                next_url: None::<String>,
                limit,
            }),
            ticker@.len() == 0 ==> r == Err::<Self, ValidationError>(ValidationError::EmptyTicker),
            ticker@.len() > 0 && to_millis < from_millis ==> r == Err::<Self, ValidationError>(
                ValidationError::InvertedRange,
            ),
            ticker@.len() > 0 && from_millis <= to_millis && limit == 0 ==> r == Err::<
                Self,
                ValidationError,
            >(ValidationError::ZeroLimit),
    {
        if ticker.is_empty() {
            Err(ValidationError::EmptyTicker)
        } else if to_millis < from_millis {
            Err(ValidationError::InvertedRange)
        } else if limit == 0 {
            Err(ValidationError::ZeroLimit)
        } else {
            Ok(AggregateRequest { ticker, timespan, from_millis, to_millis, next_url: None, limit })
        }
    }

    /// The same request with the continuation cursor swapped: how the next
    /// page of a symbol is asked for.
    pub fn with_cursor(&self, cursor: String) -> (r: Self)
        ensures
            r == (AggregateRequest {
                ticker: self.ticker,
                timespan: self.timespan,
                from_millis: self.from_millis,
                to_millis: self.to_millis,
                next_url: Some(cursor),
                limit: self.limit,
            }),
    {
        AggregateRequest {
            ticker: self.ticker,
            timespan: self.timespan,
            from_millis: self.from_millis,
            to_millis: self.to_millis,
            next_url: Some(cursor),
            limit: self.limit,
        }
    }
}

/// One candle. Prices are exact base-ten text; optional fields are absent
/// from rendered rows when unset.
#[derive(Clone, PartialEq, Eq, Debug)]
pub struct AggregateRecord {
    /// The Unix millisecond timestamp for the start of the window.
    pub timestamp: i64,
    /// The open price in the window.
    pub open: String,
    /// The highest price in the window.
    pub high: String,
    /// The lowest price in the window.
    pub low: String,
    /// The close price in the window.
    pub close: String,
    /// The trading volume in the window.
    pub volume: String,
    /// The number of transactions in the window, when reported.
    pub transactions: Option<usize>,
    /// Whether the aggregate is for an over-the-counter symbol, when reported.
    pub otc: Option<bool>,
    /// The volume-weighted average price, when reported.
    pub vwap: Option<String>,
}

/// One page of the server's answer: the envelope around a batch of records
/// and the continuation cursor, absent on the last page.
#[derive(Clone, PartialEq, Eq, Debug)]
pub struct AggregateResponse {
    /// The symbol the page is for.
    pub ticker: String,
    /// Whether the results are adjusted for splits.
    pub adjusted: bool,
    /// How many aggregates were queried server-side.
    pub query_count: i64,
    /// The server's identifier for this request.
    pub request_id: String,
    /// How many records this page holds.
    pub results_count: usize,
    /// The server's status word for the page.
    pub status: String,
    /// The records of this page, in server order.
    pub results: Vec<AggregateRecord>,
    /// Where the next page is; absent on the final page.
    pub next_url: Option<String>,
}

} // verus!
