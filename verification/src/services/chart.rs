//! Activity charts of the instance and its users.
use vstd::prelude::*;
use crate::db::{DragonflyClient, SurrealClient};
use crate::text::{decimal, push_decimal};
use crate::time::{add_seconds, Timestamp, MIN_SECS};

verus! {

/// Chart operations.
#[derive(Clone, Debug)]
pub struct ChartService {
    pub surreal: SurrealClient,
    pub dragonfly: DragonflyClient,
}

impl ChartService {
    /// A service over the given stores.
    pub fn new(surreal: SurrealClient, dragonfly: DragonflyClient) -> (s: Self)
        ensures
            s.surreal == surreal,
            s.dragonfly == dragonfly,
    {
        ChartService { surreal, dragonfly }
    }
}

/// What a chart counts.
#[derive(Clone, Copy, Debug, PartialEq, Eq, Structural)]
pub enum ChartType {
    Users,
    Notes,
}

/// The period one chart entry covers.
#[derive(Clone, Copy, Debug, PartialEq, Eq, Structural)]
pub enum ChartSpan {
    Day,
    Hour,
}

/// The stored names of chart types and spans (their variant names in lower
/// case).
pub open spec fn chart_type_name(t: ChartType) -> Seq<char> {
    match t {
        ChartType::Users => "users"@,
        ChartType::Notes => "notes"@,
    }
}

/// The stored name of a chart type.
pub fn chart_type_text(t: ChartType) -> (r: String)
    ensures
        r@ == chart_type_name(t),
{
    match t {
        ChartType::Users => String::from_str("users"),
        ChartType::Notes => String::from_str("notes"),
    }
}

/// The stored name of a span.
pub open spec fn span_name(s: ChartSpan) -> Seq<char> {
    match s {
        ChartSpan::Day => "day"@,
        ChartSpan::Hour => "hour"@,
    }
}

/// The stored name of a span.
pub fn span_text(s: ChartSpan) -> (r: String)
    ensures
        r@ == span_name(s),
{
    match s {
        ChartSpan::Day => String::from_str("day"),
        ChartSpan::Hour => String::from_str("hour"),
    }
}

/// One point of a chart: the total, and what was added and removed in its
/// period. The date is a day number counted from 1 January of year 1 (day
/// 1), as `chrono` numbers days.
#[derive(Clone, Copy, Debug, PartialEq, Eq, Structural)]
pub struct ChartEntry {
    pub id: u128,
    pub chart_type: ChartType,
    pub span: ChartSpan,
    pub date: Option<i32>,
    pub hour: Option<u32>,
    pub total: i64,
    pub inc: i64,
    pub dec: i64,
}

/// A daily point of a chart.
pub fn daily_entry(id: u128, chart_type: ChartType, date: i32, total: i64, inc: i64, dec: i64) -> (e: ChartEntry)
    ensures
        e == (ChartEntry {
            id,
            chart_type,
            span: ChartSpan::Day,
            date: Some(date),
            hour: None,
            total,
            inc,
            dec,
        }),
{
    ChartEntry { id, chart_type, span: ChartSpan::Day, date: Some(date), hour: None, total, inc, dec }
}

/// The ISO 8601 date text (`YYYY-MM-DD`, with a sign outside the years 0 to
/// 9999) `chrono` gives a day number, or
/// `None` for a day it cannot represent.
pub uninterp spec fn iso_date(days_from_ce: i32) -> Option<Seq<char>>;

/// `chrono::NaiveDate::from_num_days_from_ce_opt` followed by `to_string`.
/// The calendar arithmetic is not restated here.
#[verifier::external_body]
fn date_text(days_from_ce: i32) -> (r: Option<String>)
    ensures
        match r {
            Some(t) => iso_date(days_from_ce) == Some(t@),
            None => iso_date(days_from_ce) is None,
        },
{
    match chrono::NaiveDate::from_num_days_from_ce_opt(days_from_ce) {
        Some(d) => Some(d.to_string()),
        None => None,
    }
}

/// The date part of a label: the entry's date, or empty.
pub open spec fn label_date(date: Option<i32>) -> Seq<char> {
    match date {
        Some(d) => match iso_date(d) {
            Some(t) => t,
            None => Seq::empty(),
        },
        None => Seq::empty(),
    }
}

/// A number below 100 with at least two digits.
pub open spec fn two_digits(n: nat) -> Seq<char> {
    if n < 10 {
        seq!['0'] + decimal(n)
    } else {
        decimal(n)
    }
}

/// The label of an entry: its date for a daily chart, `{date} {hh}:00` for
/// an hourly one (hour 0 when missing).
pub open spec fn entry_label(e: ChartEntry, span: ChartSpan) -> Seq<char> {
    match span {
        ChartSpan::Day => label_date(e.date),
        ChartSpan::Hour => label_date(e.date) + " "@ + two_digits(
            match e.hour {
                Some(h) => h as nat,
                None => 0,
            },
        ) + ":00"@,
    }
}

fn make_label(e: &ChartEntry, span: ChartSpan) -> (r: String)
    ensures
        r@ == entry_label(*e, span),
{
    let mut r = match e.date {
        Some(d) => match date_text(d) {
            Some(t) => t,
            None => String::new(),
        },
        None => String::new(),
    };
    match span {
        ChartSpan::Day => {},
        ChartSpan::Hour => {
            let h: u32 = match e.hour {
                Some(h) => h,
                None => 0,
            };
            r.append(" ");
            if h < 10 {
                r.append("0");
            }
            push_decimal(&mut r, h as u64);
            r.append(":00");
            proof {
                reveal_strlit("0");
            }
            assert(r@ =~= entry_label(*e, span));
        },
    }
    r
}

/// A chart as the client draws it: labels and the three series, oldest
/// first.
#[derive(Clone, Debug)]
pub struct ChartDataResponse {
    pub labels: Vec<String>,
    pub total: Vec<i64>,
    pub inc: Vec<i64>,
    pub dec: Vec<i64>,
}

/// The chart of the entries the store returned newest first: their labels
/// and values in reverse, oldest first.
pub fn chart_data(entries: &Vec<ChartEntry>, span: ChartSpan) -> (r: ChartDataResponse)
    ensures
        r.labels@.len() == entries@.len(),
        r.total@.len() == entries@.len(),
        r.inc@.len() == entries@.len(),
        r.dec@.len() == entries@.len(),
        forall|k: int|
            0 <= k < entries@.len() ==> {
                let e = #[trigger] entries@[entries@.len() - 1 - k];
                &&& r.labels@[k]@ == entry_label(e, span)
                &&& r.total@[k] == e.total
                &&& r.inc@[k] == e.inc
                &&& r.dec@[k] == e.dec
            },
{
    let n = entries.len();
    let mut labels: Vec<String> = Vec::new();
    let mut total: Vec<i64> = Vec::new();
    let mut inc: Vec<i64> = Vec::new();
    let mut dec: Vec<i64> = Vec::new();
    let mut k: usize = 0;
    while k < n
        invariant
            n == entries@.len(),
            k <= n,
            labels@.len() == k && total@.len() == k && inc@.len() == k && dec@.len() == k,
            forall|m: int|
                0 <= m < k ==> {
                    let e = #[trigger] entries@[n - 1 - m];
                    &&& labels@[m]@ == entry_label(e, span)
                    &&& total@[m] == e.total
                    &&& inc@[m] == e.inc
                    &&& dec@[m] == e.dec
                },
        decreases n - k,
    {
        let e = &entries[n - 1 - k];
        labels.push(make_label(e, span));
        total.push(e.total);
        inc.push(e.inc);
        dec.push(e.dec);
        k = k + 1;
    }
    ChartDataResponse { labels, total, inc, dec }
}

/// How far back a user counts as active: 30 days.
pub const ACTIVE_WINDOW_SECS: i64 = 2592000;

/// The instant from which users count as active: 30 days before `now`.
pub fn active_since(now: Timestamp) -> (r: Timestamp)
    requires
        now.wf(),
        now.secs - ACTIVE_WINDOW_SECS >= MIN_SECS,
    ensures
        r == (Timestamp { secs: (now.secs - ACTIVE_WINDOW_SECS) as i64, nanos: now.nanos }),
        r.wf(),
{
    add_seconds(now, -ACTIVE_WINDOW_SECS).unwrap()
}

} // verus!
