//! What the API reports about a key and the balance derived from it.
use vstd::prelude::*;

verus! {

/// Largest magnitude, in millionths, of an amount received from the API:
/// one billion currency units.
pub const MAX_API_AMOUNT: i64 = 1_000_000_000_000_000;

/// Budget consumption status of the month. "Ahead" means spending faster
/// than the budget allows.
#[derive(Debug, Clone, Copy, PartialEq, Eq, Structural)]
pub enum PaceStatus {
    Ahead,
    Behind,
    OnTrack,
}

impl PaceStatus {
    pub open spec fn name(self) -> Seq<char> {
        match self {
            PaceStatus::Ahead => seq!['a', 'h', 'e', 'a', 'd'],
            PaceStatus::Behind => seq!['b', 'e', 'h', 'i', 'n', 'd'],
            PaceStatus::OnTrack => seq!['o', 'n', '_', 't', 'r', 'a', 'c', 'k'],
        }
    }

    pub fn as_str(&self) -> (r: &'static str)
        ensures
            r@ == self.name(),
    {
        match self {
            PaceStatus::Ahead => {
                proof {
                    reveal_strlit("ahead");
                }
                "ahead"
            },
            PaceStatus::Behind => {
                proof {
                    reveal_strlit("behind");
                }
                "behind"
            },
            PaceStatus::OnTrack => {
                proof {
                    reveal_strlit("on_track");
                }
                "on_track"
            },
        }
    }
}

/// What the key endpoint of the API reports, amounts in millionths.
#[derive(Debug, Clone)]
pub struct KeyUsage {
    pub limit: Option<i64>,
    pub usage: Option<i64>,
    pub usage_daily: Option<i64>,
    pub usage_weekly: Option<i64>,
    pub usage_monthly: Option<i64>,
    pub limit_remaining: Option<i64>,
    pub label: Option<String>,
}

/// The body of an answer of the key endpoint.
#[derive(Debug, Clone)]
pub struct KeyResponse {
    pub data: Option<KeyUsage>,
    pub error: Option<String>,
}

pub open spec fn amount_within(x: Option<i64>, bound: int) -> bool {
    x matches Some(v) ==> -bound <= v <= bound
}

impl KeyUsage {
    pub open spec fn wf(&self) -> bool {
        &&& amount_within(self.limit, MAX_API_AMOUNT as int)
        &&& amount_within(self.usage, MAX_API_AMOUNT as int)
        &&& amount_within(self.usage_daily, MAX_API_AMOUNT as int)
        &&& amount_within(self.usage_weekly, MAX_API_AMOUNT as int)
        &&& amount_within(self.usage_monthly, MAX_API_AMOUNT as int)
        &&& amount_within(self.limit_remaining, MAX_API_AMOUNT as int)
    }
}

/// Balance of an API key with its budget pace. Amounts are in millionths,
/// `pace_ratio` in parts per million, the deltas in hundredths of a percent.
/// A field that cannot be computed from the answer of the API is `None`.
#[derive(Debug, Clone)]
pub struct BalanceData {
    pub limit: Option<i64>,
    pub usage: Option<i64>,
    pub usage_daily: Option<i64>,
    pub usage_weekly: Option<i64>,
    pub usage_monthly: Option<i64>,
    pub remaining: Option<i64>,
    pub remaining_monthly: Option<i64>,
    pub pace_ratio: Option<i64>,
    pub pace_month_target: Option<i64>,
    pub pace_week_target: Option<i64>,
    pub pace_day_target: Option<i64>,
    pub pace_month_delta_percent: Option<i128>,
    pub pace_week_delta_percent: Option<i128>,
    pub pace_day_delta_percent: Option<i128>,
    pub pace_status: Option<PaceStatus>,
    pub label: Option<String>,
}

/// Largest magnitude of an amount of a balance: sums of a few API amounts.
pub const MAX_BALANCE_AMOUNT: i64 = 4_000_000_000_000_000;

/// Largest magnitude of a pace delta in hundredths of a percent.
pub const MAX_DELTA: i128 = 100_000_000_000_000_000_000_000;

pub open spec fn delta_within(x: Option<i128>) -> bool {
    x matches Some(v) ==> -MAX_DELTA <= v <= MAX_DELTA
}

impl BalanceData {
    /// A balance with every field `None`: nothing was fetched yet.
    pub fn empty() -> (r: BalanceData)
        ensures
            r.is_empty(),
            r.wf(),
    {
        BalanceData {
            limit: None,
            usage: None,
            usage_daily: None,
            usage_weekly: None,
            usage_monthly: None,
            remaining: None,
            remaining_monthly: None,
            pace_ratio: None,
            pace_month_target: None,
            pace_week_target: None,
            pace_day_target: None,
            pace_month_delta_percent: None,
            pace_week_delta_percent: None,
            pace_day_delta_percent: None,
            pace_status: None,
            label: None,
        }
    }

    pub open spec fn is_empty(&self) -> bool {
        &&& self.limit is None
        &&& self.usage is None
        &&& self.usage_daily is None
        &&& self.usage_weekly is None
        &&& self.usage_monthly is None
        &&& self.remaining is None
        &&& self.remaining_monthly is None
        &&& self.pace_ratio is None
        &&& self.pace_month_target is None
        &&& self.pace_week_target is None
        &&& self.pace_day_target is None
        &&& self.pace_month_delta_percent is None
        &&& self.pace_week_delta_percent is None
        &&& self.pace_day_delta_percent is None
        &&& self.pace_status is None
        &&& self.label is None
    }

    /// Amounts within the bounds that the arithmetic of the icon needs.
    pub open spec fn wf(&self) -> bool {
        &&& amount_within(self.limit, MAX_BALANCE_AMOUNT as int)
        &&& amount_within(self.usage, MAX_BALANCE_AMOUNT as int)
        &&& amount_within(self.usage_daily, MAX_BALANCE_AMOUNT as int)
        &&& amount_within(self.usage_weekly, MAX_BALANCE_AMOUNT as int)
        &&& amount_within(self.usage_monthly, MAX_BALANCE_AMOUNT as int)
        &&& amount_within(self.remaining, MAX_BALANCE_AMOUNT as int)
        &&& amount_within(self.remaining_monthly, MAX_BALANCE_AMOUNT as int)
        &&& amount_within(self.pace_ratio, MAX_BALANCE_AMOUNT as int)
        &&& delta_within(self.pace_month_delta_percent)
    }
}

} // verus!
