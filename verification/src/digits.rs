//! Base-ten text of integers, used for fetch targets and CSV rows.

use vstd::prelude::*;
use vstd::string::*;

verus! {

/// The decimal digit character for `d` in `0..10`.
pub open spec fn digit_char(d: int) -> char {
    if d == 0 {
        '0'
    } else if d == 1 {
        '1'
    } else if d == 2 {
        '2'
    } else if d == 3 {
        '3'
    } else if d == 4 {
        '4'
    } else if d == 5 {
        '5'
    } else if d == 6 {
        '6'
    } else if d == 7 {
        '7'
    } else if d == 8 {
        '8'
    } else {
        '9'
    }
}

/// Base-ten text of a natural number, most significant digit first,
/// with no leading zeros except for zero itself.
pub open spec fn u64_dec_str(n: nat) -> Seq<char>
    decreases n,
{
    if n < 10 {
        seq![digit_char(n as int)]
    } else {
        u64_dec_str(n / 10) + seq![digit_char((n % 10) as int)]
    }
}

/// Base-ten text of an integer: a leading '-' for negative values.
pub open spec fn i64_dec_str(n: int) -> Seq<char> {
    if n >= 0 {
        u64_dec_str(n as nat)
    } else {
        seq!['-'] + u64_dec_str((-n) as nat)
    }
}

fn digit_str(d: u64) -> (s: &'static str)
    requires
        d < 10,
    ensures
        s@ == seq![digit_char(d as int)],
{
    proof {
        reveal_strlit("0");
        reveal_strlit("1");
        reveal_strlit("2");
        reveal_strlit("3");
        reveal_strlit("4");
        reveal_strlit("5");
        reveal_strlit("6");
        reveal_strlit("7");
        reveal_strlit("8");
        reveal_strlit("9");
        assert(("0")@ =~= seq![digit_char(0)]);
        assert(("1")@ =~= seq![digit_char(1)]);
        assert(("2")@ =~= seq![digit_char(2)]);
        assert(("3")@ =~= seq![digit_char(3)]);
        assert(("4")@ =~= seq![digit_char(4)]);
        assert(("5")@ =~= seq![digit_char(5)]);
        assert(("6")@ =~= seq![digit_char(6)]);
        assert(("7")@ =~= seq![digit_char(7)]);
        assert(("8")@ =~= seq![digit_char(8)]);
        assert(("9")@ =~= seq![digit_char(9)]);
    }
    match d {
        0 => "0",
        1 => "1",
        2 => "2",
        3 => "3",
        4 => "4",
        5 => "5",
        6 => "6",
        7 => "7",
        8 => "8",
        _ => "9",
    }
}

/// Appends the decimal digits of `n` to `out`.
pub fn append_u64(out: &mut String, n: u64)
    ensures
        final(out)@ == old(out)@ + u64_dec_str(n as nat),
    decreases n,
{
    if n >= 10 {
        append_u64(out, n / 10);
        let s = digit_str(n % 10);
        out.append(s);
        proof {
            assert(out@ =~= old(out)@ + u64_dec_str(n as nat));
        }
    } else {
        let s = digit_str(n);
        out.append(s);
    }
}

/// Appends the decimal text of `n`, with a leading '-' when negative.
pub fn append_i64(out: &mut String, n: i64)
    ensures
        final(out)@ == old(out)@ + i64_dec_str(n as int),
{
    if n >= 0 {
        append_u64(out, n as u64);
    } else {
        proof {
            reveal_strlit("-");
            assert(("-")@ =~= seq!['-']);
        }
        out.append("-");
        let mag: u64 = ((-(n + 1)) as u64) + 1;
        assert(mag as int == -(n as int));
        append_u64(out, mag);
        proof {
            assert(out@ =~= old(out)@ + i64_dec_str(n as int));
        }
    }
}

/// The decimal text of an unsigned number.
pub fn u64_to_dec(n: u64) -> (s: String)
    ensures
        s@ == u64_dec_str(n as nat),
{
    let mut s = String::new();
    append_u64(&mut s, n);
    proof {
        assert(s@ =~= u64_dec_str(n as nat));
    }
    s
}

/// The decimal text of a signed number.
pub fn i64_to_dec(n: i64) -> (s: String)
    ensures
        s@ == i64_dec_str(n as int),
{
    let mut s = String::new();
    append_i64(&mut s, n);
    proof {
        assert(s@ =~= i64_dec_str(n as int));
    }
    s
}

} // verus!
