//! Decimal numbers as text.
use vstd::prelude::*;
use vstd::string::StringExecFns;

verus! {

/// The character of one decimal digit.
pub open spec fn digit_char(d: int) -> char {
    ('0' as int + d) as char
}

/// `n` in decimal, without leading zeros.
pub open spec fn decimal(n: nat) -> Seq<char>
    decreases n,
{
    if n < 10 {
        seq![digit_char(n as int)]
    } else {
        decimal(n / 10) + seq![digit_char((n % 10) as int)]
    }
}

fn digit(d: u32) -> (s: &'static str)
    requires
        d < 10,
    ensures
        s@ == seq![digit_char(d as int)],
{
    proof {
        reveal_strlit("0");
        reveal_strlit("1");
        reveal_strlit("2");
        reveal_strlit("3");
        reveal_strlit("4");
        reveal_strlit("5");
        reveal_strlit("6");
        reveal_strlit("7");
        reveal_strlit("8");
        reveal_strlit("9");
    }
    let s: &'static str = match d {
        0 => "0",
        1 => "1",
        2 => "2",
        3 => "3",
        4 => "4",
        5 => "5",
        6 => "6",
        7 => "7",
        8 => "8",
        _ => "9",
    };
    assert(s@ =~= seq![digit_char(d as int)]);
    s
}

/// Appends `n` in decimal.
pub fn push_decimal(out: &mut String, n: u32)
    ensures
        final(out)@ == old(out)@ + decimal(n as nat),
    decreases n,
{
    if n >= 10 {
        push_decimal(out, n / 10);
        let ghost mid = out@;
        out.append(digit(n % 10));
        assert(out@ =~= old(out)@ + decimal(n as nat));
    } else {
        out.append(digit(n));
    }
}

/// A text made of `prefix` and a number.
pub fn numbered(prefix: &str, n: u32) -> (out: String)
    ensures
        out@ == prefix@ + decimal(n as nat),
{
    let mut out: String = String::new();
    out.append(prefix);
    assert(out@ =~= prefix@);
    push_decimal(&mut out, n);
    out
}

/// The number that some digits stand for, if they are digits and there are any.
pub open spec fn value(text: Seq<char>) -> Option<nat>
    decreases text.len(),
{
    if text.len() == 0 {
        None
    } else {
        let c = text.last();
        if !('0' <= c <= '9') {
            None
        } else if text.len() == 1 {
            Some((c as nat - '0' as nat) as nat)
        } else {
            match value(text.drop_last()) {
                Some(n) => Some((10 * n + (c as nat - '0' as nat)) as nat),
                None => None,
            }
        }
    }
}

/// A number that is written in decimal is read back, and begins with a zero only if it is zero.
pub proof fn law_decimals_are_read_back(n: nat)
    ensures
        value(decimal(n)) == Some(n),
        decimal(n).len() > 0,
        n > 0 ==> decimal(n)[0] != '0',
    decreases n,
{
    if n < 10 {
        reveal_with_fuel(value, 2);
    } else {
        law_decimals_are_read_back(n / 10);
        let last = digit_char((n % 10) as int);
        assert(decimal(n).drop_last() =~= decimal(n / 10));
        assert(decimal(n).last() == last);
        assert(last as nat - '0' as nat == n % 10);
        assert(10 * (n / 10) + n % 10 == n);
    }
}

} // verus!
