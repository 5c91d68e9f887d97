//! Where a service listens.

use vstd::prelude::*;

verus! {

/// The port a service listens on when the caller names none.
pub const DEFAULT_PORT: u16 = 3000;

/// The character of a decimal digit.
pub open spec fn digit_char(d: nat) -> char {
    if d == 0 {
        '0'
    } else if d == 1 {
        '1'
    } else if d == 2 {
        '2'
    } else if d == 3 {
        '3'
    } else if d == 4 {
        '4'
    } else if d == 5 {
        '5'
    } else if d == 6 {
        '6'
    } else if d == 7 {
        '7'
    } else if d == 8 {
        '8'
    } else {
        '9'
    }
}

/// A number in decimal, without sign or leading zeros.
pub open spec fn decimal(n: nat) -> Seq<char>
    decreases n,
{
    if n < 10 {
        seq![digit_char(n)]
    } else {
        decimal(n / 10).push(digit_char(n % 10))
    }
}

/// The address a service on `port` binds: every interface, then a colon,
/// then the port in decimal.
pub open spec fn bind_address_text(port: u16) -> Seq<char> {
    "0.0.0.0:"@ + decimal(port as nat)
}

fn digit_str(d: u16) -> (text: &'static str)
    requires
        d < 10,
    ensures
        text@ == seq![digit_char(d as nat)],
{
    proof {
        reveal_strlit("0");
        reveal_strlit("1");
        reveal_strlit("2");
        reveal_strlit("3");
        reveal_strlit("4");
        reveal_strlit("5");
        reveal_strlit("6");
        reveal_strlit("7");
        reveal_strlit("8");
        reveal_strlit("9");
    }
    let text = if d == 0 {
        "0"
    } else if d == 1 {
        "1"
    } else if d == 2 {
        "2"
    } else if d == 3 {
        "3"
    } else if d == 4 {
        "4"
    } else if d == 5 {
        "5"
    } else if d == 6 {
        "6"
    } else if d == 7 {
        "7"
    } else if d == 8 {
        "8"
    } else {
        "9"
    };
    assert(text@ =~= seq![digit_char(d as nat)]);
    text
}

fn append_decimal(text: &mut String, n: u16)
    ensures
        final(text)@ == old(text)@ + decimal(n as nat),
    decreases n,
{
    if n < 10 {
        text.append(digit_str(n));
    } else {
        append_decimal(text, n / 10);
        text.append(digit_str(n % 10));
        assert(text@ =~= old(text)@ + decimal(n as nat));
    }
}

/// The address to bind for a service on `port`, such as `0.0.0.0:3000`.
pub fn bind_address(port: u16) -> (addr: String)
    ensures
        addr@ == bind_address_text(port),
{
    let mut addr = "0.0.0.0:".to_owned();
    append_decimal(&mut addr, port);
    addr
}

} // verus!
