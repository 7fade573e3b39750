//! The value shown in the menubar and its text.
use vstd::prelude::*;
use crate::balance::{BalanceData, MAX_BALANCE_AMOUNT};
use crate::fixed::{floor_div, lemma_div_magnitude, round_div, round_half_away, MICROS};
use crate::pace::{remaining_of, usage_of};
use crate::settings::AppSettings;
use crate::text::{dec_digits, int_text, padded_digits, push_dec_digits, push_padded_digits, push_zeros, zeros};

verus! {

/// Decimal places held by a fixed-point value in millionths.
pub const FIXED_PLACES: u32 = 6;

pub open spec fn pow10(n: nat) -> int
    decreases n,
{
    if n == 0 {
        1
    } else {
        10 * pow10((n - 1) as nat)
    }
}

fn pow10_small(n: u32) -> (r: i128)
    requires
        n <= FIXED_PLACES,
    ensures
        r == pow10(n as nat),
        1 <= r <= MICROS,
{
    proof {
        reveal_with_fuel(pow10, 7);
    }
    if n == 0 {
        1
    } else if n == 1 {
        10
    } else if n == 2 {
        100
    } else if n == 3 {
        1000
    } else if n == 4 {
        10_000
    } else if n == 5 {
        100_000
    } else {
        1_000_000
    }
}

pub open spec fn unwrap_or_zero(x: Option<i64>) -> int {
    match x {
        Some(v) => v as int,
        None => 0,
    }
}

/// The amount that the menubar shows, in millionths: what remains, or what
/// was used, in the month where known.
pub open spec fn shown_amount(b: BalanceData, s: AppSettings) -> int {
    if s.show_remaining {
        unwrap_or_zero(remaining_of(b))
    } else {
        unwrap_or_zero(usage_of(b))
    }
}

/// The value that the menubar shows, in millionths: a percentage of the
/// limit (0 where no positive limit is known), or the amount itself.
pub open spec fn display_value_spec(b: BalanceData, s: AppSettings) -> int {
    if s.show_percentage {
        match b.limit {
            Some(l) => if l > 0 {
                shown_amount(b, s) * 100 * MICROS / (l as int)
            } else {
                0
            },
            None => 0,
        }
    } else {
        shown_amount(b, s)
    }
}

/// The value rounded as shown: down to an integer without decimal places,
/// else to the nearest value with that many places, halves away from zero.
pub open spec fn final_value_spec(v: int, places: nat) -> int {
    if places == 0 {
        (v / MICROS as int) * MICROS
    } else if places >= FIXED_PLACES {
        v
    } else {
        round_half_away(v, pow10((FIXED_PLACES - places) as nat)) * pow10(
            (FIXED_PLACES - places) as nat,
        )
    }
}

/// Largest magnitude of a displayed value in millionths.
pub const MAX_DISPLAY_VALUE: i128 = 10_000_000_000_000_000_000_000_000_000_000;

/// Largest magnitude of a displayed value in millionths before rounding.
pub const MAX_RAW_VALUE: i128 = 1_000_000_000_000_000_000_000_000;

/// The value of the menubar, in millionths, rounded as the settings ask.
pub fn menubar_display_value(balance: &BalanceData, settings: &AppSettings) -> (r: i128)
    requires
        balance.wf(),
    ensures
        r == final_value_spec(
            display_value_spec(*balance, *settings),
            settings.decimal_places as nat,
        ),
        -MAX_DISPLAY_VALUE <= r <= MAX_DISPLAY_VALUE,
{
    broadcast use vstd::arithmetic::div_mod::group_div_basics;

    let shown: i64 = if settings.show_remaining {
        match balance.remaining_monthly {
            Some(r) => r,
            None => match balance.remaining {
                Some(r) => r,
                None => 0,
            },
        }
    } else {
        match balance.usage_monthly {
            Some(u) => u,
            None => match balance.usage {
                Some(u) => u,
                None => 0,
            },
        }
    };
    let value: i128 = if settings.show_percentage {
        match balance.limit {
            Some(l) => if l > 0 {
                assert(-MAX_RAW_VALUE <= shown * 100 * MICROS <= MAX_RAW_VALUE)
                    by (nonlinear_arith)
                    requires
                        -MAX_BALANCE_AMOUNT <= shown <= MAX_BALANCE_AMOUNT,
                ;
                let n: i128 = shown as i128 * 100 * MICROS as i128;
                let q = floor_div(n, l as i128);
                proof {
                    lemma_div_magnitude(n as int, l as int);
                }
                q
            } else {
                0
            },
            None => 0,
        }
    } else {
        shown as i128
    };
    let places = settings.decimal_places;
    if places == 0 {
        let q = floor_div(value, MICROS as i128);
        proof {
            lemma_div_magnitude(value as int, MICROS as int);
        }
        q * MICROS as i128
    } else if places >= FIXED_PLACES {
        value
    } else {
        let unit = pow10_small(FIXED_PLACES - places);
        let q = round_div(value, unit);
        proof {
            lemma_round_magnitude(value as int, unit as int);
        }
        assert(-MAX_DISPLAY_VALUE <= q * unit <= MAX_DISPLAY_VALUE) by (nonlinear_arith)
            requires
                -MAX_RAW_VALUE <= q <= MAX_RAW_VALUE,
                1 <= unit <= MICROS,
        ;
        q * unit
    }
}

proof fn lemma_round_magnitude(v: int, unit: int)
    requires
        1 <= unit,
    ensures
        v >= 0 ==> 0 <= round_half_away(v, unit) <= v,
        v < 0 ==> v <= round_half_away(v, unit) <= 0,
{
    if v >= 0 {
        lemma_div_magnitude(2 * v + unit, 2 * unit);
        assert((2 * v + unit) / (2 * unit) <= v) by {
            vstd::arithmetic::div_mod::lemma_fundamental_div_mod(2 * v + unit, 2 * unit);
            vstd::arithmetic::div_mod::lemma_mod_bound(2 * v + unit, 2 * unit);
            let q = (2 * v + unit) / (2 * unit);
            let r = (2 * v + unit) % (2 * unit);
            assert(q <= v) by (nonlinear_arith)
                requires
                    2 * v + unit == 2 * unit * q + r,
                    0 <= r,
                    unit >= 1,
                    v >= 0,
            ;
        }
    } else {
        assert((2 * -v + unit) / (2 * unit) <= -v) by {
            vstd::arithmetic::div_mod::lemma_fundamental_div_mod(2 * -v + unit, 2 * unit);
            vstd::arithmetic::div_mod::lemma_mod_bound(2 * -v + unit, 2 * unit);
            let q = (2 * -v + unit) / (2 * unit);
            let r = (2 * -v + unit) % (2 * unit);
            assert(q <= -v) by (nonlinear_arith)
                requires
                    2 * -v + unit == 2 * unit * q + r,
                    0 <= r,
                    unit >= 1,
                    v < 0,
            ;
        }
        lemma_div_magnitude(2 * -v + unit, 2 * unit);
    }
}

/// Places of a value in millionths that rounding keeps.
pub open spec fn kept_places(places: nat) -> nat {
    if places < FIXED_PLACES {
        places
    } else {
        FIXED_PLACES as nat
    }
}

/// The text of a value in millionths with `places` decimal places: rounded
/// to the nearest value with that many places, halves away from zero, in
/// decimal with a point where `places` is positive.
pub open spec fn value_text_spec(v: int, places: nat) -> Seq<char> {
    let p = kept_places(places);
    let q = round_half_away(v, pow10((FIXED_PLACES - p) as nat));
    let a = if q < 0 { -q } else { q };
    let sign = if q < 0 { seq!['-'] } else { Seq::<char>::empty() };
    let whole = sign + dec_digits((a / pow10(p)) as nat);
    if places == 0 {
        whole
    } else {
        whole + seq!['.'] + padded_digits((a % pow10(p)) as nat, p) + zeros((places - p) as nat)
    }
}

/// The text of the value in the menubar.
pub fn format_value(value: i128, decimal_places: u32) -> (r: String)
    requires
        -MAX_DISPLAY_VALUE <= value <= MAX_DISPLAY_VALUE,
    ensures
        r@ == value_text_spec(value as int, decimal_places as nat),
        decimal_places == 0 ==> r@ == int_text(round_half_away(value as int, MICROS as int)),
{
    let p: u32 = if decimal_places < FIXED_PLACES {
        decimal_places
    } else {
        FIXED_PLACES
    };
    let unit = pow10_small(FIXED_PLACES - p);
    let q = round_div(value, unit);
    proof {
        lemma_round_magnitude(value as int, unit as int);
    }
    let a: u128 = if q < 0 {
        (-q) as u128
    } else {
        q as u128
    };
    let scale = pow10_small(p) as u128;
    let mut s = String::new();
    if q < 0 {
        proof {
            reveal_strlit("-");
        }
        s.append("-");
    }
    push_dec_digits(&mut s, a / scale);
    if decimal_places > 0 {
        proof {
            reveal_strlit(".");
        }
        s.append(".");
        push_padded_digits(&mut s, a % scale, p);
        push_zeros(&mut s, decimal_places - p);
    }
    proof {
        assert(s@ =~= value_text_spec(value as int, decimal_places as nat));
        if decimal_places == 0 {
            reveal_with_fuel(pow10, 7);
            assert(s@ =~= int_text(round_half_away(value as int, MICROS as int)));
        }
    }
    s
}

} // verus!
