//! Decimal notation of numbers, as it appears in messages.

use vstd::prelude::*;
use vstd::string::*;

verus! {

/// The character that stands for the digit `d`.
pub open spec fn digit(d: nat) -> char
    recommends
        d < 10,
{
    (48 + d) as char
}

/// `n` in decimal notation, without leading zeros.
pub open spec fn decimal(n: nat) -> Seq<char>
    decreases n,
{
    if n < 10 {
        seq![digit(n)]
    } else {
        decimal(n / 10).push(digit(n % 10))
    }
}

/// The number that a string of decimal digits denotes.
pub open spec fn decimal_value(s: Seq<char>) -> int
    decreases s.len(),
{
    if s.len() == 0 {
        0
    } else {
        10 * decimal_value(s.drop_last()) + (s.last() as int - 48)
    }
}

/// Reading a number's decimal notation gives the number back.
pub proof fn law_decimal_reads_back(n: nat)
    ensures
        decimal_value(decimal(n)) == n,
        decimal(n).len() > 0,
    decreases n,
{
    if n < 10 {
        assert(decimal(n).drop_last() =~= Seq::<char>::empty());
        assert(decimal_value(decimal(n).drop_last()) == 0);
    } else {
        law_decimal_reads_back(n / 10);
        assert(decimal(n).drop_last() =~= decimal(n / 10));
    }
}

/// The digit `d` as a string of one character.
fn digit_str(d: u32) -> (s: &'static str)
    requires
        d < 10,
    ensures
        s@ == seq![digit(d as nat)],
{
    proof {
        reveal_strlit("0");
        reveal_strlit("1");
        reveal_strlit("2");
        reveal_strlit("3");
        reveal_strlit("4");
        reveal_strlit("5");
        reveal_strlit("6");
        reveal_strlit("7");
        reveal_strlit("8");
        reveal_strlit("9");
    }
    match d {
        0 => "0",
        1 => "1",
        2 => "2",
        3 => "3",
        4 => "4",
        5 => "5",
        6 => "6",
        7 => "7",
        8 => "8",
        _ => "9",
    }
}

/// Appends `n` in decimal notation to `text`.
pub fn push_decimal(text: &mut String, n: u32)
    ensures
        final(text)@ == old(text)@ + decimal(n as nat),
    decreases n,
{
    if n >= 10 {
        push_decimal(text, n / 10);
    }
    text.append(digit_str(n % 10));
}

/// Decimal notation consists of digits.
pub proof fn law_decimal_is_digits(n: nat)
    ensures
        forall|i: int| 0 <= i < decimal(n).len() ==> '0' <= #[trigger] decimal(n)[i] <= '9',
    decreases n,
{
    if n >= 10 {
        law_decimal_is_digits(n / 10);
        assert forall|i: int| 0 <= i < decimal(n).len() implies '0' <= #[trigger] decimal(n)[i]
            <= '9' by {
            if i < decimal(n).len() - 1 {
                assert(decimal(n)[i] == decimal(n / 10)[i]);
            }
        }
    }
}

/// Different numbers differ in decimal notation, even when other text follows that
/// does not begin with a digit.
pub proof fn law_decimal_is_unique(n: nat, m: nat, after_n: Seq<char>, after_m: Seq<char>)
    requires
        decimal(n) + after_n == decimal(m) + after_m,
        after_n.len() > 0 ==> !('0' <= after_n[0] <= '9'),
        after_m.len() > 0 ==> !('0' <= after_m[0] <= '9'),
    ensures
        n == m,
        after_n == after_m,
{
    let text = decimal(n) + after_n;
    law_decimal_is_digits(n);
    law_decimal_is_digits(m);
    if decimal(n).len() < decimal(m).len() {
        assert(text[decimal(n).len() as int] == after_n[0]);
        assert(text[decimal(n).len() as int] == decimal(m)[decimal(n).len() as int]);
    }
    if decimal(m).len() < decimal(n).len() {
        assert((decimal(m) + after_m)[decimal(m).len() as int] == after_m[0]);
        assert(text[decimal(m).len() as int] == decimal(n)[decimal(m).len() as int]);
    }
    let digits = decimal(n).len() as int;
    assert(text.take(digits) =~= decimal(n));
    assert(text.take(digits) =~= decimal(m));
    assert(text.skip(digits) =~= after_n);
    assert(text.skip(digits) =~= after_m);
    law_decimal_reads_back(n);
    law_decimal_reads_back(m);
}

/// Whether `s` is a number as people write it: digits only, none of them a zero that
/// could be left out, that denote `n`.
pub open spec fn denotes(s: Seq<char>, n: int) -> bool {
    &&& s.len() > 0
    &&& forall|i: int| 0 <= i < s.len() ==> '0' <= #[trigger] s[i] <= '9'
    &&& s.len() > 1 ==> s[0] != '0'
    &&& decimal_value(s) == n
}

/// Decimal notation is the number as people write it.
pub proof fn law_decimal_denotes(n: nat)
    ensures
        denotes(decimal(n), n as int),
    decreases n,
{
    law_decimal_reads_back(n);
    law_decimal_is_digits(n);
    if n >= 10 {
        law_decimal_denotes(n / 10);
        assert(decimal(n)[0] == decimal(n / 10)[0]);
        if decimal(n / 10).len() == 1 {
            assert(decimal(n / 10).drop_last() =~= Seq::<char>::empty());
            assert(decimal_value(decimal(n / 10).drop_last()) == 0);
        }
    }
}

} // verus!
