use vstd::prelude::*;

use vstd::string::*;

verus! {

/// The character of decimal digit `d`, for `0 <= d < 10`.
pub open spec fn digit_char(d: int) -> char {
    "0123456789"@[d]
}

/// Decimal digits of `n`, most significant first, with no leading zero.
pub open spec fn decimal(n: nat) -> Seq<char>
    decreases n,
{
    if n < 10 {
        seq![digit_char(n as int)]
    } else {
        decimal(n / 10).push(digit_char((n % 10) as int))
    }
}

/// The score line: the left score, a spaced hyphen, the right score.
pub open spec fn score_line(local: nat, remote: nat) -> Seq<char> {
    decimal(local) + " - "@ + decimal(remote)
}

/// `n` written in decimal.
pub fn decimal_string(n: u16) -> (r: String)
    ensures
        r@ == decimal(n as nat),
    decreases n,
{
    let digits = "0123456789";
    proof {
        reveal_strlit("0123456789");
    }
    let d: usize = (n % 10) as usize;
    let digit = digits.substring_ascii(d, d + 1);
    assert(digit@ =~= seq![digit_char(d as int)]);
    if n < 10 {
        String::from_str(digit)
    } else {
        let mut s = decimal_string(n / 10);
        s.append(digit);
        s
    }
}

/// The score line for the two given scores.
pub fn score_text(local: u16, remote: u16) -> (r: String)
    ensures
        r@ == score_line(local as nat, remote as nat),
{
    let mut s = decimal_string(local);
    s.append(" - ");
    let right = decimal_string(remote);
    s.append(right.as_str());
    s
}

} // verus!
