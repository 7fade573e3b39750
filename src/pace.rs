//! The budget pace of the month: targets, deltas and the pace status.
use vstd::prelude::*;
use chrono::{Datelike, Timelike};
use crate::balance::{
    BalanceData, KeyResponse, KeyUsage, PaceStatus, MAX_API_AMOUNT, MAX_BALANCE_AMOUNT,
    MAX_DELTA, amount_within, delta_within,
};
use crate::fixed::{clamp, floor_div, lemma_div_magnitude, BASIS_POINTS, MICROS};
use crate::settings::{
    AppSettings, DEFAULT_PACE_OVER_THRESHOLD, DEFAULT_PACE_WARN_THRESHOLD, MIN_THRESHOLD_GAP,
};

verus! {

pub const SECONDS_PER_DAY: i64 = 86_400;

/// Years of the calendar of dates and times: from January of the first to
/// December of the last.
pub const MIN_YEAR: i32 = -262_143;

pub const MAX_YEAR: i32 = 262_142;

/// A local calendar date and wall-clock time.
#[derive(Debug, Clone, Copy, PartialEq, Eq, Structural)]
pub struct LocalMoment {
    pub year: i32,
    /// 1 to 12.
    pub month: u32,
    /// 1 to the length of the month.
    pub day: u32,
    pub hour: u32,
    pub minute: u32,
    pub second: u32,
    /// Days since the last Monday, 0 to 6.
    pub weekday: u32,
}

pub open spec fn is_leap_year(year: int) -> bool {
    (year % 4 == 0 && year % 100 != 0) || year % 400 == 0
}

/// The length of a month of the Gregorian calendar.
pub open spec fn days_in_month_spec(year: int, month: int) -> int {
    if month == 2 {
        if is_leap_year(year) {
            29
        } else {
            28
        }
    } else if month == 4 || month == 6 || month == 9 || month == 11 {
        30
    } else {
        31
    }
}

impl LocalMoment {
    pub open spec fn wf(&self) -> bool {
        &&& MIN_YEAR <= self.year <= MAX_YEAR
        &&& 1 <= self.month <= 12
        &&& 1 <= self.day <= days_in_month_spec(self.year as int, self.month as int)
        &&& self.hour < 24
        &&& self.minute < 60
        &&& self.second < 60
        &&& self.weekday < 7
    }

    /// Seconds elapsed in the day.
    pub open spec fn day_seconds(&self) -> int {
        self.hour * 3600 + self.minute * 60 + self.second
    }

    /// Seconds elapsed in the month.
    pub open spec fn month_elapsed(&self) -> int {
        (self.day - 1) * SECONDS_PER_DAY + self.day_seconds()
    }

    /// Seconds elapsed in the week (weeks start on Monday), at most a week.
    pub open spec fn week_elapsed(&self) -> int {
        clamp(self.weekday * SECONDS_PER_DAY + self.day_seconds(), 0, 7 * SECONDS_PER_DAY)
    }

    /// Seconds in the whole month.
    pub open spec fn month_length(&self) -> int {
        days_in_month_spec(self.year as int, self.month as int) * SECONDS_PER_DAY
    }
}

/// Relies on chrono's `NaiveDate::from_ymd_opt` and `Datelike::num_days_in_month`:
/// the number of days of a month of the proleptic Gregorian calendar.
#[verifier::external_body]
fn days_in_month(year: i32, month: u32) -> (r: u32)
    requires
        MIN_YEAR <= year <= MAX_YEAR,
        1 <= month <= 12,
    ensures
        r == days_in_month_spec(year as int, month as int),
{
    let first = chrono::NaiveDate::from_ymd_opt(year, month, 1).unwrap();
    first.num_days_in_month() as u32
}

/// Relies on chrono's `Local::now`: the current date and time in the local
/// time zone, which is a valid calendar date with a time of day.
#[verifier::external_body]
fn local_now() -> (r: LocalMoment)
    ensures
        r.wf(),
{
    let now = chrono::Local::now();
    LocalMoment {
        year: now.year(),
        month: now.month(),
        day: now.day(),
        hour: now.hour(),
        minute: now.minute(),
        second: now.second(),
        weekday: now.weekday().num_days_from_monday(),
    }
}

/// `limit * elapsed / total`, rounded down and kept within `[0, limit]`.
pub open spec fn target_spec(limit: int, elapsed: int, total: int) -> int {
    clamp(limit * elapsed / total, 0, limit)
}

/// How far `usage` is above `target`, relative to the target, in hundredths
/// of a percent rounded down; `None` where the target is not positive.
pub open spec fn delta_spec(usage: int, target: int) -> Option<int> {
    if target > 0 {
        Some((usage - target) * BASIS_POINTS / target)
    } else {
        None
    }
}

pub open spec fn option_delta_spec(usage: Option<i64>, target: int) -> Option<int> {
    match usage {
        Some(u) => delta_spec(u as int, target),
        None => None,
    }
}

pub open spec fn as_int(x: Option<i128>) -> Option<int> {
    match x {
        Some(v) => Some(v as int),
        None => None,
    }
}

fn target_of(limit: i64, elapsed: i64, total: i64) -> (r: i64)
    requires
        0 < limit <= MAX_BALANCE_AMOUNT,
        0 <= elapsed <= 7 * 31 * SECONDS_PER_DAY,
        0 < total <= 31 * SECONDS_PER_DAY,
    ensures
        r == target_spec(limit as int, elapsed as int, total as int),
{
    assert(0 <= limit * elapsed <= MAX_BALANCE_AMOUNT * (7 * 31 * SECONDS_PER_DAY)) by (nonlinear_arith)
        requires
            0 < limit <= MAX_BALANCE_AMOUNT,
            0 <= elapsed <= 7 * 31 * SECONDS_PER_DAY,
    ;
    let t = (limit as i128 * elapsed as i128) / total as i128;
    if t < 0 {
        0
    } else if t > limit as i128 {
        limit
    } else {
        t as i64
    }
}

/// Relative distance of a usage from its pace target.
pub fn percent_from_target(usage: i64, target: i64) -> (r: Option<i128>)
    requires
        -MAX_BALANCE_AMOUNT <= usage <= MAX_BALANCE_AMOUNT,
        -MAX_BALANCE_AMOUNT <= target <= MAX_BALANCE_AMOUNT,
    ensures
        as_int(r) == delta_spec(usage as int, target as int),
        delta_within(r),
{
    if target > 0 {
        let diff = usage as i128 - target as i128;
        assert(-MAX_DELTA <= diff * BASIS_POINTS <= MAX_DELTA) by (nonlinear_arith)
            requires
                -2 * MAX_BALANCE_AMOUNT <= diff <= 2 * MAX_BALANCE_AMOUNT,
        ;
        let n = diff * BASIS_POINTS as i128;
        let d = floor_div(n, target as i128);
        proof {
            lemma_div_magnitude(n as int, target as int);
            assert(-MAX_DELTA <= n <= MAX_DELTA);
        }
        Some(d)
    } else {
        None
    }
}

/// The thresholds in force: the warn threshold is at least zero and the over
/// threshold at least one percent above it.
pub open spec fn normalized_spec(warn: int, over: int) -> (int, int) {
    let w = if warn < 0 { 0 } else { warn };
    let o = if over < w + MIN_THRESHOLD_GAP { w + MIN_THRESHOLD_GAP } else { over };
    (w, o)
}

pub fn normalized_pace_thresholds(settings: &AppSettings) -> (r: (i64, i64))
    requires
        settings.wf(),
    ensures
        (r.0 as int, r.1 as int) == normalized_spec(
            settings.pace_warn_threshold as int,
            settings.pace_over_threshold as int,
        ),
{
    let warn = if settings.pace_warn_threshold < 0 {
        0
    } else {
        settings.pace_warn_threshold
    };
    let over = if settings.pace_over_threshold < warn + MIN_THRESHOLD_GAP {
        warn + MIN_THRESHOLD_GAP
    } else {
        settings.pace_over_threshold
    };
    (warn, over)
}

pub open spec fn status_spec(delta: int, warn: int, over: int) -> PaceStatus {
    if delta > over {
        PaceStatus::Ahead
    } else if delta > warn {
        PaceStatus::Behind
    } else {
        PaceStatus::OnTrack
    }
}

pub fn pace_status_from_delta(delta_percent: i128, warn: i64, over: i64) -> (r: PaceStatus)
    ensures
        r == status_spec(delta_percent as int, warn as int, over as int),
{
    if delta_percent > over as i128 {
        PaceStatus::Ahead
    } else if delta_percent > warn as i128 {
        PaceStatus::Behind
    } else {
        PaceStatus::OnTrack
    }
}

/// Position of a status on the way from on track to ahead.
pub open spec fn status_rank(s: PaceStatus) -> int {
    match s {
        PaceStatus::OnTrack => 0,
        PaceStatus::Behind => 1,
        PaceStatus::Ahead => 2,
    }
}

/// Normalized thresholds always leave room between them: the over threshold
/// is at least one percent above the warn threshold, which is not negative,
/// whatever the two thresholds were.
pub proof fn lemma_normalized_thresholds_ordered(warn: int, over: int)
    ensures
        normalized_spec(warn, over).0 >= 0,
        normalized_spec(warn, over).1 >= normalized_spec(warn, over).0 + MIN_THRESHOLD_GAP,
        normalized_spec(warn, over).1 >= warn + MIN_THRESHOLD_GAP,
        warn >= 0 ==> normalized_spec(warn, over).0 == warn,
        over >= normalized_spec(warn, over).0 + MIN_THRESHOLD_GAP ==> normalized_spec(warn, over).1 == over,
{
}

/// For fixed thresholds, a larger delta never gives a status nearer to on
/// track; with normalized thresholds every status is reached, the "behind"
/// band lying between the two others.
pub proof fn lemma_status_monotonic(d1: int, d2: int, warn: int, over: int)
    requires
        d1 <= d2,
    ensures
        status_rank(status_spec(d1, warn, over)) <= status_rank(status_spec(d2, warn, over)),
        ({
            let (w, o) = normalized_spec(warn, over);
            &&& status_spec(w, w, o) == PaceStatus::OnTrack
            &&& status_spec(w + 1, w, o) == PaceStatus::Behind
            &&& status_spec(o, w, o) == PaceStatus::Behind
            &&& status_spec(o + 1, w, o) == PaceStatus::Ahead
        }),
{
}

pub open spec fn opt(x: Option<i64>) -> Option<int> {
    match x {
        Some(v) => Some(v as int),
        None => None,
    }
}

/// `limit - usage` where both are known.
pub open spec fn remaining_spec(d: KeyUsage) -> Option<int> {
    match (d.limit, d.usage) {
        (Some(l), Some(u)) => Some(l - u),
        _ => None,
    }
}

/// Usage of the month: `limit - limit_remaining` where both are known, else
/// what the API reported.
pub open spec fn usage_monthly_spec(d: KeyUsage) -> Option<int> {
    match (d.limit, d.limit_remaining) {
        (Some(l), Some(r)) => Some(l - r),
        _ => opt(d.usage_monthly),
    }
}

pub open spec fn remaining_monthly_spec(d: KeyUsage) -> Option<int> {
    match (d.limit, usage_monthly_spec(d)) {
        (Some(l), Some(u)) => Some(l - u),
        _ => opt(d.limit_remaining),
    }
}

/// Fraction of the month elapsed, in parts per million.
pub open spec fn pace_ratio_spec(now: LocalMoment) -> int {
    clamp(now.month_elapsed() * MICROS / now.month_length(), 0, MICROS as int)
}

/// The pace targets are known where the limit is positive and the usage of
/// the month is known.
pub open spec fn pace_known(d: KeyUsage) -> bool {
    &&& d.limit matches Some(l) && l > 0
    &&& usage_monthly_spec(d) is Some
}

pub open spec fn month_target_spec(d: KeyUsage, now: LocalMoment) -> int {
    target_spec(d.limit.unwrap() as int, now.month_elapsed(), now.month_length())
}

pub open spec fn week_target_spec(d: KeyUsage, now: LocalMoment) -> int {
    target_spec(d.limit.unwrap() as int, now.week_elapsed(), now.month_length())
}

pub open spec fn day_target_spec(d: KeyUsage, now: LocalMoment) -> int {
    target_spec(d.limit.unwrap() as int, now.day_seconds(), now.month_length())
}

pub open spec fn known_target(known: bool, t: int) -> Option<int> {
    if known {
        Some(t)
    } else {
        None
    }
}

pub open spec fn month_delta_spec(d: KeyUsage, now: LocalMoment) -> Option<int> {
    if pace_known(d) {
        delta_spec(usage_monthly_spec(d).unwrap(), month_target_spec(d, now))
    } else {
        None
    }
}

pub open spec fn week_delta_spec(d: KeyUsage, now: LocalMoment) -> Option<int> {
    if pace_known(d) {
        option_delta_spec(d.usage_weekly, week_target_spec(d, now))
    } else {
        None
    }
}

pub open spec fn day_delta_spec(d: KeyUsage, now: LocalMoment) -> Option<int> {
    if pace_known(d) {
        option_delta_spec(d.usage_daily, day_target_spec(d, now))
    } else {
        None
    }
}

/// The balance and budget pace of a key at a moment: the reported amounts
/// with the remaining amounts and the pace fields derived from them.
pub open spec fn balance_matches(r: BalanceData, d: KeyUsage, now: LocalMoment) -> bool {
    let known = pace_known(d);
    &&& r.limit == d.limit
    &&& r.usage == d.usage
    &&& r.usage_daily == d.usage_daily
    &&& r.usage_weekly == d.usage_weekly
    &&& opt(r.usage_monthly) == usage_monthly_spec(d)
    &&& opt(r.remaining) == remaining_spec(d)
    &&& opt(r.remaining_monthly) == remaining_monthly_spec(d)
    &&& opt(r.pace_ratio) == Some(pace_ratio_spec(now))
    &&& opt(r.pace_month_target) == known_target(known, month_target_spec(d, now))
    &&& opt(r.pace_week_target) == known_target(known, week_target_spec(d, now))
    &&& opt(r.pace_day_target) == known_target(known, day_target_spec(d, now))
    &&& as_int(r.pace_month_delta_percent) == month_delta_spec(d, now)
    &&& as_int(r.pace_week_delta_percent) == week_delta_spec(d, now)
    &&& as_int(r.pace_day_delta_percent) == day_delta_spec(d, now)
    &&& r.pace_status == match month_delta_spec(d, now) {
        Some(delta) => Some(
            status_spec(delta, DEFAULT_PACE_WARN_THRESHOLD as int, DEFAULT_PACE_OVER_THRESHOLD as int),
        ),
        None => None,
    }
    &&& r.label == d.label
}

fn difference(a: Option<i64>, b: Option<i64>) -> (r: Option<i64>)
    requires
        amount_within(a, 2 * MAX_API_AMOUNT as int),
        amount_within(b, 2 * MAX_API_AMOUNT as int),
    ensures
        opt(r) == match (a, b) {
            (Some(x), Some(y)) => Some(x - y),
            _ => None::<int>,
        },
{
    match (a, b) {
        (Some(x), Some(y)) => Some(x - y),
        _ => None,
    }
}

/// Derives the remaining amounts and the budget pace of the month from what
/// the API reported, at the moment `now`.
pub fn balance_from_usage(data: KeyUsage, now: &LocalMoment) -> (r: BalanceData)
    requires
        data.wf(),
        now.wf(),
    ensures
        balance_matches(r, data, *now),
        r.wf(),
{
    let remaining = difference(data.limit, data.usage);
    let usage_monthly = match difference(data.limit, data.limit_remaining) {
        Some(u) => Some(u),
        None => data.usage_monthly,
    };
    let remaining_monthly = match difference(data.limit, usage_monthly) {
        Some(r) => Some(r),
        None => data.limit_remaining,
    };
    let dim = days_in_month(now.year, now.month);
    let day_seconds = now.hour as i64 * 3600 + now.minute as i64 * 60 + now.second as i64;
    let month_elapsed = (now.day as i64 - 1) * SECONDS_PER_DAY + day_seconds;
    let month_length = dim as i64 * SECONDS_PER_DAY;
    let week_raw = now.weekday as i64 * SECONDS_PER_DAY + day_seconds;
    let week_elapsed = if week_raw > 7 * SECONDS_PER_DAY {
        7 * SECONDS_PER_DAY
    } else {
        week_raw
    };
    assert(0 <= month_elapsed < month_length <= 31 * SECONDS_PER_DAY);
    assert(0 <= month_elapsed * MICROS <= 31 * SECONDS_PER_DAY * MICROS) by (nonlinear_arith)
        requires
            0 <= month_elapsed <= 31 * SECONDS_PER_DAY,
    ;
    let scaled: i128 = month_elapsed as i128 * MICROS as i128;
    let ratio: i128 = scaled / month_length as i128;
    let pace_ratio = if ratio < 0 {
        0
    } else if ratio > MICROS as i128 {
        MICROS
    } else {
        ratio as i64
    };
    let mut month_target: Option<i64> = None;
    let mut week_target: Option<i64> = None;
    let mut day_target: Option<i64> = None;
    let mut month_delta: Option<i128> = None;
    let mut week_delta: Option<i128> = None;
    let mut day_delta: Option<i128> = None;
    match (data.limit, usage_monthly) {
        (Some(limit), Some(used)) => {
            if limit > 0 {
                let mt = target_of(limit, month_elapsed, month_length);
                let wt = target_of(limit, week_elapsed, month_length);
                let dt = target_of(limit, day_seconds, month_length);
                month_target = Some(mt);
                week_target = Some(wt);
                day_target = Some(dt);
                month_delta = percent_from_target(used, mt);
                week_delta = match data.usage_weekly {
                    Some(u) => percent_from_target(u, wt),
                    None => None,
                };
                day_delta = match data.usage_daily {
                    Some(u) => percent_from_target(u, dt),
                    None => None,
                };
            }
        },
        _ => {},
    }
    let pace_status = match month_delta {
        Some(delta) => Some(
            pace_status_from_delta(delta, DEFAULT_PACE_WARN_THRESHOLD, DEFAULT_PACE_OVER_THRESHOLD),
        ),
        None => None,
    };
    BalanceData {
        limit: data.limit,
        usage: data.usage,
        usage_daily: data.usage_daily,
        usage_weekly: data.usage_weekly,
        usage_monthly,
        remaining,
        remaining_monthly,
        pace_ratio: Some(pace_ratio),
        pace_month_target: month_target,
        pace_week_target: week_target,
        pace_day_target: day_target,
        pace_month_delta_percent: month_delta,
        pace_week_delta_percent: week_delta,
        pace_day_delta_percent: day_delta,
        pace_status,
        label: data.label,
    }
}

pub open spec fn response_error_message(e: Seq<char>) -> Seq<char> {
    "API error: "@ + e
}

pub open spec fn missing_data_message() -> Seq<char> {
    "API response missing data. Please try again."@
}

/// Turns an answer of the key endpoint into a balance at the moment `now`:
/// an error that the API reports, or an answer without data, is an error.
pub fn balance_from_response(response: KeyResponse, now: &LocalMoment) -> (r: Result<BalanceData, String>)
    requires
        response.data matches Some(d) ==> d.wf(),
        now.wf(),
    ensures
        response.error matches Some(e) ==> (r matches Err(m) && m@ == response_error_message(e@)),
        (response.error is None && response.data is None) ==> (r matches Err(m) && m@ == missing_data_message()),
        response.error is None ==> (response.data matches Some(d) ==> (r matches Ok(b) && balance_matches(b, d, *now) && b.wf())),
{
    match response.error {
        Some(e) => {
            proof {
                reveal_strlit("API error: ");
            }
            Err(String::from_str("API error: ").concat(e.as_str()))
        },
        None => match response.data {
            Some(d) => Ok(balance_from_usage(d, now)),
            None => {
                proof {
                    reveal_strlit("API response missing data. Please try again.");
                }
                Err(String::from_str("API response missing data. Please try again."))
            },
        },
    }
}

/// `balance_from_response` at the current local time.
pub fn balance_from_response_now(response: KeyResponse) -> (r: Result<BalanceData, String>)
    requires
        response.data matches Some(d) ==> d.wf(),
    ensures
        response.error matches Some(e) ==> (r matches Err(m) && m@ == response_error_message(e@)),
        (response.error is None && response.data is None) ==> (r matches Err(m) && m@ == missing_data_message()),
        response.error is None ==> (response.data matches Some(d) ==> (r matches Ok(b) && b.wf() && exists|now: LocalMoment|
            now.wf() && balance_matches(b, d, now))),
{
    let now = local_now();
    balance_from_response(response, &now)
}

/// The usage that the display and the status rely on: that of the month
/// where known, else the total one.
pub open spec fn usage_of(b: BalanceData) -> Option<i64> {
    match b.usage_monthly {
        Some(u) => Some(u),
        None => b.usage,
    }
}

pub open spec fn remaining_of(b: BalanceData) -> Option<i64> {
    match b.remaining_monthly {
        Some(r) => Some(r),
        None => b.remaining,
    }
}

/// The pace status under the thresholds of `s`: from the delta of the month
/// where known, else from the share of the limit used against the share of
/// the month elapsed, both in hundredths of a percent.
pub open spec fn pace_status_spec(b: BalanceData, s: AppSettings) -> Option<PaceStatus> {
    let (w, o) = normalized_spec(s.pace_warn_threshold as int, s.pace_over_threshold as int);
    match b.pace_month_delta_percent {
        Some(d) => Some(status_spec(d as int, w, o)),
        None => match (b.pace_ratio, b.limit, usage_of(b)) {
            (Some(p), Some(l), Some(u)) => if l > 0 {
                Some(
                    status_spec(
                        u * BASIS_POINTS / (l as int) - clamp(p / 100, 0, BASIS_POINTS as int),
                        w,
                        o,
                    ),
                )
            } else {
                None
            },
            _ => None,
        },
    }
}

pub fn compute_pace_status(balance: &BalanceData, settings: &AppSettings) -> (r: Option<PaceStatus>)
    requires
        balance.wf(),
        settings.wf(),
    ensures
        r == pace_status_spec(*balance, *settings),
{
    let (warn, over) = normalized_pace_thresholds(settings);
    if let Some(delta) = balance.pace_month_delta_percent {
        return Some(pace_status_from_delta(delta, warn, over));
    }
    let pace_ratio = match balance.pace_ratio {
        Some(p) => p,
        None => return None,
    };
    let limit = match balance.limit {
        Some(l) => l,
        None => return None,
    };
    if limit <= 0 {
        return None;
    }
    let usage = match balance.usage_monthly {
        Some(u) => u,
        None => match balance.usage {
            Some(u) => u,
            None => return None,
        },
    };
    assert(-MAX_DELTA <= usage * BASIS_POINTS <= MAX_DELTA) by (nonlinear_arith)
        requires
            -MAX_BALANCE_AMOUNT <= usage <= MAX_BALANCE_AMOUNT,
    ;
    let usage_ratio = floor_div(usage as i128 * BASIS_POINTS as i128, limit as i128);
    let pace_raw = floor_div(pace_ratio as i128, 100);
    let pace_percent = if pace_raw < 0 {
        0
    } else if pace_raw > BASIS_POINTS as i128 {
        BASIS_POINTS as i128
    } else {
        pace_raw
    };
    proof {
        lemma_div_magnitude(usage * BASIS_POINTS, limit as int);
    }
    Some(pace_status_from_delta(usage_ratio - pace_percent, warn, over))
}

} // verus!
