//! Small verified string helpers.

use vstd::prelude::*;
use vstd::string::*;

verus! {

/// Whether two string slices hold the same characters.
pub fn str_equals(a: &str, b: &str) -> (res: bool)
    ensures
        res == (a@ == b@),
{
    let x = a.to_owned();
    let y = b.to_owned();
    x == y
}

/// The character of the decimal digit `d`.
pub open spec fn digit_char(d: int) -> char {
    (d + 48) as char
}

/// The decimal representation of `n`, without leading zeros.
pub open spec fn decimal(n: nat) -> Seq<char>
    decreases n,
{
    if n < 10 {
        seq![digit_char(n as int)]
    } else {
        decimal(n / 10).push(digit_char((n % 10) as int))
    }
}

/// Whether `c` is one of the characters `0` to `9`.
pub open spec fn is_digit(c: char) -> bool {
    '0' <= c <= '9'
}

/// The number that a string of decimal digits denotes.
pub open spec fn digits_value(s: Seq<char>) -> int
    decreases s.len(),
{
    if s.len() == 0 {
        0
    } else {
        digits_value(s.drop_last()) * 10 + (s.last() as int - '0' as int)
    }
}

/// `decimal(n)` is the usual decimal numeral of `n`: it is made of digits
/// only, it denotes `n`, and it has no leading zero.
pub proof fn decimal_denotes(n: nat)
    ensures
        decimal(n).len() > 0,
        forall|i: int| 0 <= i < decimal(n).len() ==> is_digit(#[trigger] decimal(n)[i]),
        digits_value(decimal(n)) == n,
        decimal(n).len() > 1 ==> decimal(n)[0] != '0',
        n >= 10 ==> decimal(n).len() > 1,
    decreases n,
{
    if n < 10 {
        assert(digit_char(n as int) as int == n + 48);
        assert(decimal(n).drop_last() =~= Seq::<char>::empty());
        assert(decimal(n).last() == digit_char(n as int));
        assert(digits_value(Seq::<char>::empty()) == 0);
        assert(decimal(n).len() == 1);
    } else {
        decimal_denotes(n / 10);
        let d = decimal(n);
        assert(digit_char((n % 10) as int) as int == n % 10 + 48);
        assert(d.drop_last() =~= decimal(n / 10));
        assert(d[0] == decimal(n / 10)[0]);
        assert forall|i: int| 0 <= i < d.len() implies is_digit(#[trigger] d[i]) by {
            if i < d.len() - 1 {
                assert(d[i] == decimal(n / 10)[i]);
            }
        }
        if n / 10 < 10 {
            assert(decimal(n / 10)[0] == digit_char((n / 10) as int));
            assert(digit_char((n / 10) as int) as int == n / 10 + 48);
        }
        assert(d.last() == digit_char((n % 10) as int));
        assert(digits_value(d) == digits_value(decimal(n / 10)) * 10 + (n % 10));
        assert((n / 10) * 10 + n % 10 == n);
    }
}

/// The digits of `ds`, least significant first, read back into characters
/// most significant first.
spec fn reversed_digits(ds: Seq<u8>) -> Seq<char>
    decreases ds.len(),
{
    if ds.len() == 0 {
        Seq::empty()
    } else {
        seq![digit_char(ds.last() as int)] + reversed_digits(ds.drop_last())
    }
}

fn digit_str(d: u8) -> (res: &'static str)
    requires
        d < 10,
    ensures
        res@ == seq![digit_char(d as int)],
{
    let s = if d == 0 {
        "0"
    } else if d == 1 {
        "1"
    } else if d == 2 {
        "2"
    } else if d == 3 {
        "3"
    } else if d == 4 {
        "4"
    } else if d == 5 {
        "5"
    } else if d == 6 {
        "6"
    } else if d == 7 {
        "7"
    } else if d == 8 {
        "8"
    } else {
        "9"
    };
    proof {
        reveal_strlit("0");
        reveal_strlit("1");
        reveal_strlit("2");
        reveal_strlit("3");
        reveal_strlit("4");
        reveal_strlit("5");
        reveal_strlit("6");
        reveal_strlit("7");
        reveal_strlit("8");
        reveal_strlit("9");
    }
    assert(s@ =~= seq![digit_char(d as int)]);
    s
}

/// The decimal representation of `n`, as `format!("{}", n)` writes it.
pub fn decimal_string(n: u64) -> (res: String)
    ensures
        res@ == decimal(n as nat),
{
    let mut digits: Vec<u8> = Vec::new();
    let mut m: u64 = n;
    loop
        invariant_except_break
            decimal(n as nat) == decimal(m as nat) + reversed_digits(digits@),
        invariant
            forall|k: int| 0 <= k < digits@.len() ==> digits@[k] < 10,
        ensures
            decimal(n as nat) == reversed_digits(digits@),
        decreases m,
    {
        let d: u8 = (m % 10) as u8;
        let ghost old_digits = digits@;
        digits.push(d);
        assert(digits@.drop_last() =~= old_digits);
        if m < 10 {
            assert(decimal(n as nat) =~= reversed_digits(digits@));
            break;
        }
        assert(decimal(m as nat) == decimal((m / 10) as nat).push(digit_char((m % 10) as int)));
        assert(decimal(n as nat) =~= decimal((m / 10) as nat) + reversed_digits(digits@));
        m = m / 10;
    }
    let mut res = String::new();
    let mut j: usize = digits.len();
    assert(digits@.subrange(0, j as int) =~= digits@);
    while j > 0
        invariant
            j <= digits@.len(),
            forall|k: int| 0 <= k < digits@.len() ==> digits@[k] < 10,
            res@ + reversed_digits(digits@.subrange(0, j as int)) == decimal(n as nat),
        decreases j,
    {
        let ghost before = digits@.subrange(0, j as int);
        assert(before.drop_last() =~= digits@.subrange(0, j - 1));
        res.append(digit_str(digits[j - 1]));
        j = j - 1;
    }
    assert(reversed_digits(digits@.subrange(0, 0)) =~= Seq::<char>::empty());
    assert(res@ =~= res@ + Seq::<char>::empty());
    res
}

} // verus!
