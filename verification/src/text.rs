//! Text building blocks for the script grammar: decimal rendering of
//! integers and runs of indentation spaces, with exact character-level
//! specifications.

use vstd::prelude::*;
use vstd::string::*;

verus! {

/// The decimal digit character for `d`, for `0 <= d < 10`.
pub open spec fn spec_digit(d: int) -> char {
    if d == 0 {
        '0'
    } else if d == 1 {
        '1'
    } else if d == 2 {
        '2'
    } else if d == 3 {
        '3'
    } else if d == 4 {
        '4'
    } else if d == 5 {
        '5'
    } else if d == 6 {
        '6'
    } else if d == 7 {
        '7'
    } else if d == 8 {
        '8'
    } else {
        '9'
    }
}

/// The decimal digit string of a non-negative integer, most significant
/// digit first, with no sign and no leading zeros (except for `0` itself).
pub open spec fn spec_nat_str(n: nat) -> Seq<char>
    decreases n,
{
    if n < 10 {
        seq![spec_digit(n as int)]
    } else {
        spec_nat_str(n / 10).push(spec_digit((n % 10) as int))
    }
}

/// The decimal string of an integer: a leading `-` for negative values,
/// then the digits of the magnitude.
pub open spec fn spec_int_str(n: int) -> Seq<char> {
    if n < 0 {
        seq!['-'] + spec_nat_str((-n) as nat)
    } else {
        spec_nat_str(n as nat)
    }
}

/// A run of `n` space characters.
pub open spec fn spaces(n: nat) -> Seq<char>
    decreases n,
{
    if n == 0 {
        Seq::empty()
    } else {
        spaces((n - 1) as nat).push(' ')
    }
}

/// A run of spaces has exactly the requested length and holds nothing but
/// space characters.
pub proof fn lemma_spaces(n: nat)
    ensures
        spaces(n).len() == n,
        forall|i: int| 0 <= i < n ==> spaces(n)[i] == ' ',
    decreases n,
{
    if n > 0 {
        lemma_spaces((n - 1) as nat);
    }
}

/// The one-character string for a decimal digit.
fn digit_str(d: u64) -> (r: &'static str)
    requires
        d < 10,
    ensures
        r@ == seq![spec_digit(d as int)],
{
    proof {
        reveal_strlit("0");
        reveal_strlit("1");
        reveal_strlit("2");
        reveal_strlit("3");
        reveal_strlit("4");
        reveal_strlit("5");
        reveal_strlit("6");
        reveal_strlit("7");
        reveal_strlit("8");
        reveal_strlit("9");
    }
    if d == 0 {
        proof {
            assert(("0")@ =~= seq![spec_digit(0)]);
        }
        "0"
    } else if d == 1 {
        proof {
            assert(("1")@ =~= seq![spec_digit(1)]);
        }
        "1"
    } else if d == 2 {
        proof {
            assert(("2")@ =~= seq![spec_digit(2)]);
        }
        "2"
    } else if d == 3 {
        proof {
            assert(("3")@ =~= seq![spec_digit(3)]);
        }
        "3"
    } else if d == 4 {
        proof {
            assert(("4")@ =~= seq![spec_digit(4)]);
        }
        "4"
    } else if d == 5 {
        proof {
            assert(("5")@ =~= seq![spec_digit(5)]);
        }
        "5"
    } else if d == 6 {
        proof {
            assert(("6")@ =~= seq![spec_digit(6)]);
        }
        "6"
    } else if d == 7 {
        proof {
            assert(("7")@ =~= seq![spec_digit(7)]);
        }
        "7"
    } else if d == 8 {
        proof {
            assert(("8")@ =~= seq![spec_digit(8)]);
        }
        "8"
    } else {
        proof {
            assert(("9")@ =~= seq![spec_digit(9)]);
        }
        "9"
    }
}

/// Appends the decimal digits of `n` to `s`.
pub fn push_u64(s: &mut String, n: u64)
    ensures
        final(s)@ == old(s)@ + spec_nat_str(n as nat),
    decreases n,
{
    if n >= 10 {
        push_u64(s, n / 10);
        let d: u64 = n % 10;
        s.append(digit_str(d));
        proof {
            assert(final(s)@ =~= old(s)@ + spec_nat_str(n as nat));
        }
    } else {
        s.append(digit_str(n));
        proof {
            assert(final(s)@ =~= old(s)@ + spec_nat_str(n as nat));
        }
    }
}

/// Appends the decimal form of `n` to `s`, with a leading `-` when `n`
/// is negative.
pub fn push_i32(s: &mut String, n: i32)
    ensures
        final(s)@ == old(s)@ + spec_int_str(n as int),
{
    let wide: i64 = n as i64;
    if wide < 0 {
        proof {
            reveal_strlit("-");
            assert(("-")@ =~= seq!['-']);
        }
        s.append("-");
        push_u64(s, (-wide) as u64);
        proof {
            assert(final(s)@ =~= old(s)@ + spec_int_str(n as int));
        }
    } else {
        push_u64(s, wide as u64);
    }
}

/// Appends the decimal digits of `n` to `s`.
pub fn push_usize(s: &mut String, n: usize)
    ensures
        final(s)@ == old(s)@ + spec_nat_str(n as nat),
{
    push_u64(s, n as u64);
}

/// Appends `n` space characters to `s`.
pub fn push_spaces(s: &mut String, n: usize)
    ensures
        final(s)@ == old(s)@ + spaces(n as nat),
{
    let mut i: usize = 0;
    proof {
        assert(s@ =~= old(s)@ + spaces(0));
    }
    while i < n
        invariant
            i <= n,
            s@ == old(s)@ + spaces(i as nat),
        decreases n - i,
    {
        proof {
            reveal_strlit(" ");
            assert((" ")@ =~= seq![' ']);
        }
        s.append(" ");
        i = i + 1;
        proof {
            assert(s@ =~= old(s)@ + spaces(i as nat));
        }
    }
}

} // verus!
