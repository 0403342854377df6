//! Dotted-decimal notation of IPv4 addresses.

use vstd::prelude::*;
use vstd::string::StringExecFns;

verus! {

/// The character of one decimal digit.
pub open spec fn digit_char(d: nat) -> char {
    if d == 0 {
        '0'
    } else if d == 1 {
        '1'
    } else if d == 2 {
        '2'
    } else if d == 3 {
        '3'
    } else if d == 4 {
        '4'
    } else if d == 5 {
        '5'
    } else if d == 6 {
        '6'
    } else if d == 7 {
        '7'
    } else if d == 8 {
        '8'
    } else {
        '9'
    }
}

/// Decimal notation of a number, without leading zeros.
pub open spec fn decimal(n: nat) -> Seq<char>
    decreases n,
{
    if n < 10 {
        seq![digit_char(n)]
    } else {
        decimal(n / 10).push(digit_char(n % 10))
    }
}

/// Dotted-decimal notation of an IPv4 address: its four octets, the most
/// significant first, each in decimal, with a `.` between them.
pub open spec fn ipv4_text(addr: u32) -> Seq<char> {
    decimal((addr / 0x100_0000) as nat) + seq!['.'] + decimal((addr / 0x1_0000 % 0x100) as nat)
        + seq!['.'] + decimal((addr / 0x100 % 0x100) as nat) + seq!['.'] + decimal(
        (addr % 0x100) as nat,
    )
}

/// The text of one decimal digit.
pub fn digit_str(d: u8) -> (s: &'static str)
    requires
        d < 10,
    ensures
        s@ == seq![digit_char(d as nat)],
{
    proof {
        reveal_strlit("0");
        reveal_strlit("1");
        reveal_strlit("2");
        reveal_strlit("3");
        reveal_strlit("4");
        reveal_strlit("5");
        reveal_strlit("6");
        reveal_strlit("7");
        reveal_strlit("8");
        reveal_strlit("9");
    }
    let s: &'static str = if d == 0 {
        "0"
    } else if d == 1 {
        "1"
    } else if d == 2 {
        "2"
    } else if d == 3 {
        "3"
    } else if d == 4 {
        "4"
    } else if d == 5 {
        "5"
    } else if d == 6 {
        "6"
    } else if d == 7 {
        "7"
    } else if d == 8 {
        "8"
    } else {
        "9"
    };
    assert(s@ =~= seq![digit_char(d as nat)]);
    s
}

/// Appends an octet in decimal, without leading zeros.
pub fn append_octet(out: &mut String, n: u8)
    ensures
        final(out)@ == old(out)@ + decimal(n as nat),
{
    let ghost before = out@;
    reveal_with_fuel(decimal, 3);
    if n >= 100 {
        out.append(digit_str(n / 100));
    }
    if n >= 10 {
        out.append(digit_str(n / 10 % 10));
    }
    out.append(digit_str(n % 10));
    assert(out@ =~= before + decimal(n as nat));
}

/// An IPv4 address in dotted-decimal notation.
pub fn format_ipv4(addr: u32) -> (text: String)
    ensures
        text@ == ipv4_text(addr),
{
    let mut text = String::new();
    proof {
        reveal_strlit(".");
    }
    append_octet(&mut text, (addr / 0x100_0000) as u8);
    text.append(".");
    append_octet(&mut text, (addr / 0x1_0000 % 0x100) as u8);
    text.append(".");
    append_octet(&mut text, (addr / 0x100 % 0x100) as u8);
    text.append(".");
    append_octet(&mut text, (addr % 0x100) as u8);
    assert("."@ =~= seq!['.']);
    assert(text@ =~= ipv4_text(addr));
    text
}

} // verus!
