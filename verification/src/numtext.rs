//! Canonical decimal text for the numeric fields of a version record.

use vstd::prelude::*;

verus! {

/// The decimal digit character for a value below ten.
pub open spec fn dec_digit(d: nat) -> char {
    if d == 0 {
        '0'
    } else if d == 1 {
        '1'
    } else if d == 2 {
        '2'
    } else if d == 3 {
        '3'
    } else if d == 4 {
        '4'
    } else if d == 5 {
        '5'
    } else if d == 6 {
        '6'
    } else if d == 7 {
        '7'
    } else if d == 8 {
        '8'
    } else {
        '9'
    }
}

/// The canonical decimal text of a natural number: no sign, no leading
/// zeros, and a single `'0'` for zero itself.
pub open spec fn dec_text(n: nat) -> Seq<char>
    decreases n,
{
    if n < 10 {
        seq![dec_digit(n)]
    } else {
        dec_text(n / 10) + seq![dec_digit(n % 10)]
    }
}

/// The canonical decimal text of an integer: a leading `'-'` before the
/// magnitude when the value is negative.
pub open spec fn signed_dec_text(n: int) -> Seq<char> {
    if n < 0 {
        seq!['-'] + dec_text((-n) as nat)
    } else {
        dec_text(n as nat)
    }
}

fn digit_str(d: u64) -> (s: &'static str)
    requires
        d < 10,
    ensures
        s@ == seq![dec_digit(d as nat)],
{
    let s: &'static str = if d == 0 {
        "0"
    } else if d == 1 {
        "1"
    } else if d == 2 {
        "2"
    } else if d == 3 {
        "3"
    } else if d == 4 {
        "4"
    } else if d == 5 {
        "5"
    } else if d == 6 {
        "6"
    } else if d == 7 {
        "7"
    } else if d == 8 {
        "8"
    } else {
        "9"
    };
    proof {
        reveal_strlit("0");
        reveal_strlit("1");
        reveal_strlit("2");
        reveal_strlit("3");
        reveal_strlit("4");
        reveal_strlit("5");
        reveal_strlit("6");
        reveal_strlit("7");
        reveal_strlit("8");
        reveal_strlit("9");
        assert(s@ =~= seq![dec_digit(d as nat)]);
    }
    s
}

/// Renders an unsigned number as its canonical decimal text.
pub fn u64_dec_string(n: u64) -> (s: String)
    ensures
        s@ == dec_text(n as nat),
    decreases n,
{
    if n < 10 {
        digit_str(n).to_owned()
    } else {
        proof {
            assert(n / 10 < n) by (nonlinear_arith)
                requires
                    n >= 10,
            ;
        }
        let front = u64_dec_string(n / 10);
        let back = digit_str(n % 10);
        let out = front.concat(back);
        proof {
            assert(out@ =~= dec_text(n as nat));
        }
        out
    }
}

/// Renders a signed number as its canonical decimal text.
pub fn i64_dec_string(n: i64) -> (s: String)
    ensures
        s@ == signed_dec_text(n as int),
{
    if n >= 0 {
        u64_dec_string(n as u64)
    } else {
        let wide: i128 = -(n as i128);
        assert(0 < wide <= 0x8000_0000_0000_0000);
        let mag: u64 = wide as u64;
        let head = "-".to_owned();
        let tail = u64_dec_string(mag);
        let out = head.concat(tail.as_str());
        proof {
            reveal_strlit("-");
            assert(out@ =~= signed_dec_text(n as int));
        }
        out
    }
}

} // verus!
