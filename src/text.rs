//! The human-readable line that a host logs for a response.
use vstd::prelude::*;
use vstd::string::StringExecFns;
use crate::message::Response;

verus! {

/// The character of decimal digit `d`.
pub open spec fn digit_char(d: nat) -> char {
    if d == 0 {
        '0'
    } else if d == 1 {
        '1'
    } else if d == 2 {
        '2'
    } else if d == 3 {
        '3'
    } else if d == 4 {
        '4'
    } else if d == 5 {
        '5'
    } else if d == 6 {
        '6'
    } else if d == 7 {
        '7'
    } else if d == 8 {
        '8'
    } else {
        '9'
    }
}

/// `n` written in decimal, without leading zeros.
pub open spec fn decimal(n: nat) -> Seq<char>
    decreases n,
{
    if n < 10 {
        seq![digit_char(n)]
    } else {
        decimal(n / 10).push(digit_char(n % 10))
    }
}

/// The line `"{a} x {b} = {result}"`.
pub open spec fn log_text(resp: Response) -> Seq<char> {
    decimal(resp.a as nat) + seq![' ', 'x', ' '] + decimal(resp.b as nat) + seq![' ', '=', ' ']
        + decimal(resp.result as nat)
}

fn digit_str(d: u32) -> (r: &'static str)
    requires
        d < 10,
    ensures
        r@ == seq![digit_char(d as nat)],
{
    proof {
        reveal_strlit("0");
        reveal_strlit("1");
        reveal_strlit("2");
        reveal_strlit("3");
        reveal_strlit("4");
        reveal_strlit("5");
        reveal_strlit("6");
        reveal_strlit("7");
        reveal_strlit("8");
        reveal_strlit("9");
    }
    if d == 0 {
        "0"
    } else if d == 1 {
        "1"
    } else if d == 2 {
        "2"
    } else if d == 3 {
        "3"
    } else if d == 4 {
        "4"
    } else if d == 5 {
        "5"
    } else if d == 6 {
        "6"
    } else if d == 7 {
        "7"
    } else if d == 8 {
        "8"
    } else {
        "9"
    }
}

/// Appends `n` in decimal to `s`.
pub fn append_decimal(s: &mut String, n: u32)
    ensures
        final(s)@ == old(s)@ + decimal(n as nat),
    decreases n,
{
    if n >= 10 {
        append_decimal(s, n / 10);
    }
    s.append(digit_str(n % 10));
    assert(decimal(n as nat) =~= if n < 10 {
        seq![digit_char(n as nat)]
    } else {
        decimal((n / 10) as nat).push(digit_char((n % 10) as nat))
    });
}

impl Response {
    /// The line a host logs for this response, such as `2 x 5 = 10`.
    pub fn log_line(&self) -> (r: String)
        ensures
            r@ == log_text(*self),
    {
        proof {
            reveal_strlit(" x ");
            reveal_strlit(" = ");
        }
        let mut s = String::new();
        append_decimal(&mut s, self.a);
        s.append(" x ");
        append_decimal(&mut s, self.b);
        s.append(" = ");
        append_decimal(&mut s, self.result);
        assert(s@ =~= log_text(*self));
        s
    }
}

} // verus!
