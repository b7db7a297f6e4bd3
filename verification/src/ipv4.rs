//! IPv4 addresses in dotted decimal notation.

use vstd::prelude::*;
use crate::number::decimal;
use crate::number::decimal_is_canonical;
use crate::number::parse_number;
use crate::number::push_number;
use crate::text::all_digits;
use crate::text::digits_value;
use crate::text::other_than;
use crate::text::prefix_len_unique;
use crate::text::split_at_first;
use crate::text::split_once;
use crate::text::to_text;

verus! {

/// The four bytes of an address, the first one first.
pub open spec fn octets(bits: u32) -> (nat, nat, nat, nat) {
    (
        (bits / 0x100_0000) as nat,
        ((bits / 0x1_0000) % 0x100) as nat,
        ((bits / 0x100) % 0x100) as nat,
        (bits % 0x100) as nat,
    )
}

/// The address whose four bytes are these.
pub open spec fn from_octets(a: nat, b: nat, c: nat, d: nat) -> nat {
    a * 0x100_0000 + b * 0x1_0000 + c * 0x100 + d
}

/// The address in dotted decimal notation: its four bytes in decimal, with a
/// dot between them.
pub open spec fn ipv4_text(bits: u32) -> Seq<char> {
    let (a, b, c, d) = octets(bits);
    decimal(a) + seq!['.'] + decimal(b) + seq!['.'] + decimal(c) + seq!['.'] + decimal(d)
}

/// The byte that `s` is the notation of: one to three digits, no leading
/// zero before another digit, at most 255.
pub open spec fn parse_octet(s: Seq<char>) -> Option<nat> {
    if 1 <= s.len() <= 3 && all_digits(s) && (s.len() > 1 ==> s[0] != '0') && digits_value(s)
        <= 255 {
        Some(digits_value(s))
    } else {
        None
    }
}

/// The address that `s` is the dotted decimal notation of: four bytes with
/// three dots between them and nothing else.
pub open spec fn parse_ipv4_text(s: Seq<char>) -> Option<u32> {
    match split_once(s, '.') {
        Some((first, rest)) => match split_once(rest, '.') {
            Some((second, rest)) => match split_once(rest, '.') {
                Some((third, fourth)) => if parse_octet(first) is Some && parse_octet(second)
                    is Some && parse_octet(third) is Some && parse_octet(fourth) is Some {
                    Some(
                        from_octets(
                            parse_octet(first)->0,
                            parse_octet(second)->0,
                            parse_octet(third)->0,
                            parse_octet(fourth)->0,
                        ) as u32,
                    )
                } else {
                    None
                },
                None => None,
            },
            None => None,
        },
        None => None,
    }
}

/// Writes an address in dotted decimal notation.
pub fn format_ipv4(bits: u32) -> (text: String)
    ensures
        text@ == ipv4_text(bits),
{
    let mut chars: Vec<char> = Vec::new();
    push_number(&mut chars, (bits / 0x100_0000) as u64);
    chars.push('.');
    push_number(&mut chars, ((bits / 0x1_0000) % 0x100) as u64);
    chars.push('.');
    push_number(&mut chars, ((bits / 0x100) % 0x100) as u64);
    chars.push('.');
    push_number(&mut chars, (bits % 0x100) as u64);
    assert(chars@ =~= ipv4_text(bits));
    to_text(&chars)
}

fn read_octet(chars: &Vec<char>) -> (octet: Option<u32>)
    ensures
        match octet {
            Some(value) => parse_octet(chars@) == Some(value as nat),
            None => parse_octet(chars@) is None,
        },
{
    if chars.len() < 1 || chars.len() > 3 {
        return None;
    }
    if chars[0] == '+' {
        assert(!all_digits(chars@));
        return None;
    }
    if chars.len() > 1 && chars[0] == '0' {
        return None;
    }
    match parse_number(chars, 255) {
        Some(value) => Some(value as u32),
        None => None,
    }
}

/// Reads an address in dotted decimal notation.
pub fn parse_ipv4(chars: &Vec<char>) -> (bits: Option<u32>)
    ensures
        bits == parse_ipv4_text(chars@),
{
    let (first, rest) = match split_at_first(chars, '.') {
        Some(parts) => parts,
        None => {
            return None;
        },
    };
    let (second, rest) = match split_at_first(&rest, '.') {
        Some(parts) => parts,
        None => {
            return None;
        },
    };
    let (third, fourth) = match split_at_first(&rest, '.') {
        Some(parts) => parts,
        None => {
            return None;
        },
    };
    let a = read_octet(&first);
    let b = read_octet(&second);
    let c = read_octet(&third);
    let d = read_octet(&fourth);
    match (a, b, c, d) {
        (Some(a), Some(b), Some(c), Some(d)) => Some(a * 0x100_0000 + b * 0x1_0000 + c * 0x100 + d),
        _ => None,
    }
}

proof fn decimal_of_octet(n: nat)
    requires
        n <= 255,
    ensures
        parse_octet(decimal(n)) == Some(n),
        forall|i: int| 0 <= i < decimal(n).len() ==> #[trigger] decimal(n)[i] != '.',
{
    decimal_is_canonical(n);
    if n >= 10 {
        decimal_is_canonical(n / 10);
        if n >= 100 {
            decimal_is_canonical(n / 10 / 10);
            assert(decimal(n / 10 / 10).len() == 1);
        }
    }
    assert(decimal(n).len() <= 3);
}

proof fn split_at_dot(head: Seq<char>, tail: Seq<char>)
    requires
        forall|i: int| 0 <= i < head.len() ==> #[trigger] head[i] != '.',
    ensures
        split_once(head + seq!['.'] + tail, '.') == Some((head, tail)),
{
    let whole = head + seq!['.'] + tail;
    assert forall|i: int| 0 <= i < head.len() implies other_than('.')(#[trigger] whole[i]) by {
        assert(whole[i] == head[i]);
    }
    assert(whole[head.len() as int] == '.');
    prefix_len_unique(whole, other_than('.'), head.len() as int);
    assert(whole.take(head.len() as int) =~= head);
    assert(whole.skip(head.len() as int + 1) =~= tail);
}

proof fn octets_make_the_address(bits: u32)
    ensures
        octets(bits).0 <= 255,
        octets(bits).1 <= 255,
        octets(bits).2 <= 255,
        octets(bits).3 <= 255,
        from_octets(octets(bits).0, octets(bits).1, octets(bits).2, octets(bits).3) == bits,
{
    let n = bits as int;
    assert(n == (n / 0x100) * 0x100 + n % 0x100);
    assert(n / 0x100 == (n / 0x1_0000) * 0x100 + (n / 0x100) % 0x100) by {
        assert(n / 0x1_0000 == (n / 0x100) / 0x100);
    }
    assert(n / 0x1_0000 == (n / 0x100_0000) * 0x100 + (n / 0x1_0000) % 0x100) by {
        assert(n / 0x100_0000 == (n / 0x1_0000) / 0x100);
    }
}

proof fn parse_of_dotted(a: nat, b: nat, c: nat, d: nat)
    requires
        a <= 255,
        b <= 255,
        c <= 255,
        d <= 255,
    ensures
        parse_ipv4_text(
            decimal(a) + seq!['.'] + decimal(b) + seq!['.'] + decimal(c) + seq!['.'] + decimal(d),
        ) == Some(from_octets(a, b, c, d) as u32),
{
    decimal_of_octet(a);
    decimal_of_octet(b);
    decimal_of_octet(c);
    decimal_of_octet(d);
    let dot = seq!['.'];
    let rest3 = decimal(d);
    let rest2 = decimal(c) + dot + rest3;
    let rest1 = decimal(b) + dot + rest2;
    let text = decimal(a) + dot + rest1;
    assert(text =~= decimal(a) + dot + decimal(b) + dot + decimal(c) + dot + decimal(d));
    split_at_dot(decimal(a), rest1);
    split_at_dot(decimal(b), rest2);
    split_at_dot(decimal(c), rest3);
}

/// Reading an address that was written gives the address back.
pub proof fn parse_of_ipv4_text(bits: u32)
    ensures
        parse_ipv4_text(ipv4_text(bits)) == Some(bits),
{
    octets_make_the_address(bits);
    parse_of_dotted(octets(bits).0, octets(bits).1, octets(bits).2, octets(bits).3);
}

} // verus!
