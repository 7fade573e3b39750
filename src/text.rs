//! Decimal text of integers.
use vstd::prelude::*;

verus! {

pub open spec fn digit_char(d: int) -> char {
    if d == 0 {
        '0'
    } else if d == 1 {
        '1'
    } else if d == 2 {
        '2'
    } else if d == 3 {
        '3'
    } else if d == 4 {
        '4'
    } else if d == 5 {
        '5'
    } else if d == 6 {
        '6'
    } else if d == 7 {
        '7'
    } else if d == 8 {
        '8'
    } else {
        '9'
    }
}

/// Decimal digits of `n`, most significant first, without leading zeros.
pub open spec fn dec_digits(n: nat) -> Seq<char>
    decreases n,
{
    if n < 10 {
        seq![digit_char(n as int)]
    } else {
        dec_digits(n / 10).push(digit_char((n % 10) as int))
    }
}

/// The last `width` decimal digits of `n`, padded with leading zeros.
pub open spec fn padded_digits(n: nat, width: nat) -> Seq<char>
    decreases width,
{
    if width == 0 {
        seq![]
    } else {
        padded_digits(n / 10, (width - 1) as nat).push(digit_char((n % 10) as int))
    }
}

pub open spec fn zeros(k: nat) -> Seq<char> {
    Seq::new(k, |i: int| '0')
}

/// An integer in decimal, with a minus sign where it is negative.
pub open spec fn int_text(i: int) -> Seq<char> {
    if i < 0 {
        seq!['-'] + dec_digits((-i) as nat)
    } else {
        dec_digits(i as nat)
    }
}

fn digit_str(d: u128) -> (r: &'static str)
    requires
        d < 10,
    ensures
        r@ == seq![digit_char(d as int)],
{
    proof {
        reveal_strlit("0");
        reveal_strlit("1");
        reveal_strlit("2");
        reveal_strlit("3");
        reveal_strlit("4");
        reveal_strlit("5");
        reveal_strlit("6");
        reveal_strlit("7");
        reveal_strlit("8");
        reveal_strlit("9");
    }
    if d == 0 {
        "0"
    } else if d == 1 {
        "1"
    } else if d == 2 {
        "2"
    } else if d == 3 {
        "3"
    } else if d == 4 {
        "4"
    } else if d == 5 {
        "5"
    } else if d == 6 {
        "6"
    } else if d == 7 {
        "7"
    } else if d == 8 {
        "8"
    } else {
        "9"
    }
}

pub fn push_dec_digits(s: &mut String, n: u128)
    ensures
        final(s)@ == old(s)@ + dec_digits(n as nat),
    decreases n,
{
    if n >= 10 {
        push_dec_digits(s, n / 10);
    }
    s.append(digit_str(n % 10));
    proof {
        if n >= 10 {
            assert(final(s)@ =~= old(s)@ + dec_digits(n as nat));
        } else {
            assert(final(s)@ =~= old(s)@ + dec_digits(n as nat));
        }
    }
}

pub fn push_padded_digits(s: &mut String, n: u128, width: u32)
    ensures
        final(s)@ == old(s)@ + padded_digits(n as nat, width as nat),
    decreases width,
{
    if width > 0 {
        push_padded_digits(s, n / 10, width - 1);
        s.append(digit_str(n % 10));
        assert(final(s)@ =~= old(s)@ + padded_digits(n as nat, width as nat));
    } else {
        assert(final(s)@ =~= old(s)@ + padded_digits(n as nat, width as nat));
    }
}

pub fn push_zeros(s: &mut String, k: u32)
    ensures
        final(s)@ == old(s)@ + zeros(k as nat),
{
    let ghost start = s@;
    let mut i: u32 = 0;
    while i < k
        invariant
            i <= k,
            s@ == start + zeros(i as nat),
        decreases k - i,
    {
        proof {
            reveal_strlit("0");
        }
        s.append("0");
        i = i + 1;
        assert(s@ =~= start + zeros(i as nat));
    }
}

/// An integer in decimal.
pub fn int_to_text(i: i128) -> (r: String)
    ensures
        r@ == int_text(i as int),
{
    let mut s = String::new();
    if i < 0 {
        proof {
            reveal_strlit("-");
        }
        s.append("-");
        let m: u128 = if i == i128::MIN {
            (i128::MAX as u128) + 1
        } else {
            (-i) as u128
        };
        push_dec_digits(&mut s, m);
        assert(s@ =~= int_text(i as int));
    } else {
        push_dec_digits(&mut s, i as u128);
        assert(s@ =~= int_text(i as int));
    }
    s
}

} // verus!
