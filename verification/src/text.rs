//! Decimal rendering of counts inside error messages.

use vstd::prelude::*;
use vstd::string::StringExecFns;

verus! {

/// The character of the decimal digit `d` (`d < 10`).
pub open spec fn digit_char(d: nat) -> char
    recommends
        d < 10,
{
    ((d + 48) as u32) as char
}

/// Base-10 digits of `n`, most significant first, without leading zeros.
pub open spec fn decimal_text(n: nat) -> Seq<char>
    decreases n,
{
    if n < 10 {
        seq![digit_char(n)]
    } else {
        decimal_text(n / 10).push(digit_char(n % 10))
    }
}

/// The one-character string of the decimal digit `d`.
fn digit_str(d: usize) -> (s: &'static str)
    requires
        d < 10,
    ensures
        s@ == seq![digit_char(d as nat)],
{
    proof {
        reveal_strlit("0");
        reveal_strlit("1");
        reveal_strlit("2");
        reveal_strlit("3");
        reveal_strlit("4");
        reveal_strlit("5");
        reveal_strlit("6");
        reveal_strlit("7");
        reveal_strlit("8");
        reveal_strlit("9");
    }
    match d {
        0 => "0",
        1 => "1",
        2 => "2",
        3 => "3",
        4 => "4",
        5 => "5",
        6 => "6",
        7 => "7",
        8 => "8",
        _ => "9",
    }
}

/// `n` written in base 10, most significant digit first, without leading
/// zeros.
pub(crate) fn decimal(n: usize) -> (s: String)
    ensures
        s@ == decimal_text(n as nat),
    decreases n,
{
    if n < 10 {
        digit_str(n).to_owned()
    } else {
        let mut s = decimal(n / 10);
        s.append(digit_str(n % 10));
        s
    }
}

/// The number that a string of decimal digits denotes, most significant
/// digit first (`0` for the empty string).
pub open spec fn digits_value(s: Seq<char>) -> int
    decreases s.len(),
{
    if s.len() == 0 {
        0
    } else {
        digits_value(s.drop_last()) * 10 + (s.last() as int - '0' as int)
    }
}

/// Rendering a count in base 10 can be read back: the text is a non-empty
/// run of the digits `0`–`9` that denotes `n`, and it starts with `0` only
/// when it is the single digit of zero.
pub proof fn law_decimal_text_reads_back(n: nat)
    ensures
        decimal_text(n).len() >= 1,
        forall|i: int|
            0 <= i < decimal_text(n).len() ==> '0' <= #[trigger] decimal_text(n)[i] <= '9',
        digits_value(decimal_text(n)) == n,
        decimal_text(n)[0] == '0' ==> decimal_text(n) == seq!['0'],
    decreases n,
{
    assert(digits_value(Seq::<char>::empty()) == 0);
    if n < 10 {
        assert(digit_char(n) as int == n + 48);
        assert(decimal_text(n).drop_last() =~= Seq::<char>::empty());
        if decimal_text(n)[0] == '0' {
            assert(decimal_text(n) =~= seq!['0']);
        }
    } else {
        let q = n / 10;
        let d = n % 10;
        law_decimal_text_reads_back(q);
        let t = decimal_text(n);
        assert(digit_char(d) as int == d + 48);
        assert(t.drop_last() =~= decimal_text(q));
        assert(t.last() == digit_char(d));
        assert(q * 10 + d == n);
        assert(t[0] == decimal_text(q)[0]);
        assert(q != 0);
        if t[0] == '0' {
            assert(decimal_text(q) == seq!['0']);
            assert(digits_value(seq!['0']) == 0) by {
                assert(seq!['0'].drop_last() =~= Seq::<char>::empty());
            }
        }
        assert forall|i: int| 0 <= i < t.len() implies '0' <= #[trigger] t[i] <= '9' by {
            if i < t.len() - 1 {
                assert(t[i] == decimal_text(q)[i]);
            }
        }
    }
}

} // verus!
