//! Decimal and dotted text for numbers and addresses.

use vstd::prelude::*;
use crate::addr::{Ipv4Address, Ipv6Address};

verus! {

/// `String::push` appends one character to the end of the string.
pub assume_specification[ String::push ](s: &mut String, ch: char)
    ensures
        final(s)@ == old(s)@.push(ch),
;

/// `String::push_str` appends a string slice to the end of the string.
pub assume_specification[ String::push_str ](s: &mut String, string: &str)
    ensures
        final(s)@ == old(s)@ + string@,
;

/// The character of the decimal digit `d`.
pub open spec fn digit_char(d: nat) -> char
    recommends
        d < 10,
{
    (48 + d) as char
}

/// The decimal numeral of `n`, without leading zeros.
pub open spec fn decimal(n: nat) -> Seq<char>
    decreases n,
{
    if n < 10 {
        seq![digit_char(n)]
    } else {
        decimal(n / 10).push(digit_char(n % 10))
    }
}

/// The dotted-decimal text of an IPv4 address.
pub open spec fn ipv4_text(ip: Ipv4Address) -> Seq<char> {
    decimal(ip.a as nat).push('.') + decimal(ip.b as nat).push('.') + decimal(ip.c as nat).push(
        '.',
    ) + decimal(ip.d as nat)
}

/// The text that the standard library prints for the IPv6 address whose
/// sixteen octets spell `bits`.
pub uninterp spec fn ipv6_text(bits: u128) -> Seq<char>;

/// `ip:port` as text, given the text of the address.
pub open spec fn identity_text(ip_text: Seq<char>, port: u16) -> Seq<char> {
    ip_text.push(':') + decimal(port as nat)
}

/// The character of a decimal digit.
pub fn digit(d: u8) -> (c: char)
    requires
        d < 10,
    ensures
        c == digit_char(d as nat),
{
    match d {
        0 => '0',
        1 => '1',
        2 => '2',
        3 => '3',
        4 => '4',
        5 => '5',
        6 => '6',
        7 => '7',
        8 => '8',
        _ => '9',
    }
}

/// The decimal numeral of an integer: a minus sign before that of its
/// magnitude where it is negative.
pub open spec fn signed_decimal(n: int) -> Seq<char> {
    if n < 0 {
        seq!['-'] + decimal((-n) as nat)
    } else {
        decimal(n as nat)
    }
}

/// Appends the decimal numeral of `n` to `s`.
pub fn push_decimal(s: &mut String, n: u32)
    ensures
        final(s)@ == old(s)@ + decimal(n as nat),
    decreases n,
{
    if n >= 10 {
        push_decimal(s, n / 10);
    }
    s.push(digit((n % 10) as u8));
    proof {
        if n >= 10 {
            assert(final(s)@ =~= old(s)@ + decimal(n as nat));
        } else {
            assert(final(s)@ =~= old(s)@ + decimal(n as nat));
        }
    }
}

/// Appends the decimal numeral of `n`, with its sign, to `s`.
pub fn push_signed_decimal(s: &mut String, n: i32)
    ensures
        final(s)@ == old(s)@ + signed_decimal(n as int),
{
    if n < 0 {
        s.push('-');
        let magnitude: u32 = if n == i32::MIN {
            2147483648
        } else {
            (-n) as u32
        };
        push_decimal(s, magnitude);
        assert(final(s)@ =~= old(s)@ + signed_decimal(n as int));
    } else {
        push_decimal(s, n as u32);
    }
}

/// Appends the dotted-decimal text of `ip` to `s`.
pub fn push_ipv4(s: &mut String, ip: Ipv4Address)
    ensures
        final(s)@ == old(s)@ + ipv4_text(ip),
{
    push_decimal(s, ip.a as u32);
    s.push('.');
    push_decimal(s, ip.b as u32);
    s.push('.');
    push_decimal(s, ip.c as u32);
    s.push('.');
    push_decimal(s, ip.d as u32);
    assert(final(s)@ =~= old(s)@ + ipv4_text(ip));
}

/// `Ipv6Addr::from(u128)`, then `to_string`: the text that the standard
/// library's `Display` prints for the address. The text depends on the
/// address alone; `ipv6_text` names it.
#[verifier::external_body]
pub(crate) fn ipv6_to_string(ip: Ipv6Address) -> (s: String)
    ensures
        s@ == ipv6_text(ip.bits),
{
    pnet::util::core_net::Ipv6Addr::from(ip.bits).to_string()
}

} // verus!
