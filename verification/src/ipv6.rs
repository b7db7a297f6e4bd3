//! IPv6 addresses as text: eight groups of hexadecimal digits, with the
//! longest run of zero groups left out.

use vstd::prelude::*;
use crate::ipv4::ipv4_text;
use crate::number::push_number;
use crate::text::to_text;

verus! {

/// The character that stands for a hexadecimal digit, in lower case.
pub open spec fn hex_digit_char(d: nat) -> char {
    if d < 10 {
        (('0' as u8) + (d as u8)) as char
    } else {
        (('a' as u8) + ((d - 10) as u8)) as char
    }
}

/// The hexadecimal notation of a number, without leading zeros.
pub open spec fn hexadecimal(n: nat) -> Seq<char>
    decreases n,
{
    if n < 16 {
        seq![hex_digit_char(n)]
    } else {
        hexadecimal(n / 16).push(hex_digit_char(n % 16))
    }
}

/// What the lowest bit of a group is worth: 2 to the power of 16 for each
/// group that follows it.
pub open spec fn group_weight(index: int) -> nat {
    if index == 0 {
        0x1_0000_0000_0000_0000_0000_0000_0000
    } else if index == 1 {
        0x1_0000_0000_0000_0000_0000_0000
    } else if index == 2 {
        0x1_0000_0000_0000_0000_0000
    } else if index == 3 {
        0x1_0000_0000_0000_0000
    } else if index == 4 {
        0x1_0000_0000_0000
    } else if index == 5 {
        0x1_0000_0000
    } else if index == 6 {
        0x1_0000
    } else {
        1
    }
}

/// The eight groups of 16 bits of an address, the highest first.
pub open spec fn groups(bits: u128) -> Seq<u16> {
    Seq::new(8, |index: int| ((bits as nat / group_weight(index)) % 0x1_0000) as u16)
}

/// How many groups from `at` on are zero, up to the first that is not.
pub open spec fn zero_run(groups: Seq<u16>, at: int) -> nat
    decreases groups.len() - at,
{
    if at < 0 || at >= groups.len() || groups[at] != 0 {
        0
    } else {
        1 + zero_run(groups, at + 1)
    }
}

/// The longest run of zero groups among those that begin before `bound`, as
/// its start and its length; of runs of the same length, the first. Where no
/// group before `bound` is zero, the run is empty and begins at 0.
pub open spec fn longest_zero_run(groups: Seq<u16>, bound: nat) -> (nat, nat)
    decreases bound,
{
    if bound == 0 {
        (0, 0)
    } else {
        let earlier = longest_zero_run(groups, (bound - 1) as nat);
        if zero_run(groups, bound - 1) > earlier.1 {
            ((bound - 1) as nat, zero_run(groups, bound - 1))
        } else {
            earlier
        }
    }
}

/// Groups in hexadecimal with a colon between them.
pub open spec fn joined(groups: Seq<u16>) -> Seq<char>
    decreases groups.len(),
{
    if groups.len() == 0 {
        Seq::empty()
    } else if groups.len() == 1 {
        hexadecimal(groups[0] as nat)
    } else {
        joined(groups.drop_last()) + seq![':'] + hexadecimal(groups.last() as nat)
    }
}

/// Whether an address stands for an IPv4 address: its first five groups are
/// zero and its sixth is `ffff`.
pub open spec fn is_ipv4_mapped(groups: Seq<u16>) -> bool
    recommends
        groups.len() == 8,
{
    groups[0] == 0 && groups[1] == 0 && groups[2] == 0 && groups[3] == 0 && groups[4] == 0
        && groups[5] == 0xffff
}

/// The address as text. An address that stands for an IPv4 address is
/// written as `::ffff:` and that address in dotted decimal. Any other is
/// written as its eight groups, where the longest run of two or more zero
/// groups, the first of the longest, is replaced by `::`.
pub open spec fn ipv6_text(bits: u128) -> Seq<char> {
    let all = groups(bits);
    let (start, len) = longest_zero_run(all, 8);
    if is_ipv4_mapped(all) {
        seq![':', ':', 'f', 'f', 'f', 'f', ':'] + ipv4_text((bits % 0x1_0000_0000) as u32)
    } else if len > 1 {
        joined(all.take(start as int)) + seq![':', ':'] + joined(all.skip((start + len) as int))
    } else {
        joined(all)
    }
}

fn push_hex(out: &mut Vec<char>, n: u16)
    ensures
        final(out)@ == old(out)@ + hexadecimal(n as nat),
    decreases n,
{
    if n >= 16 {
        push_hex(out, n / 16);
    }
    let d: u8 = (n % 16) as u8;
    let c = if d < 10 {
        (('0' as u8) + d) as char
    } else {
        (('a' as u8) + (d - 10)) as char
    };
    out.push(c);
    assert(out@ =~= old(out)@ + hexadecimal(n as nat));
}

fn split_groups(bits: u128) -> (all: Vec<u16>)
    ensures
        all@ == groups(bits),
        all@.len() == 8,
{
    let mut all: Vec<u16> = Vec::new();
    all.push(((bits / 0x1_0000_0000_0000_0000_0000_0000_0000) % 0x1_0000) as u16);
    all.push(((bits / 0x1_0000_0000_0000_0000_0000_0000) % 0x1_0000) as u16);
    all.push(((bits / 0x1_0000_0000_0000_0000_0000) % 0x1_0000) as u16);
    all.push(((bits / 0x1_0000_0000_0000_0000) % 0x1_0000) as u16);
    all.push(((bits / 0x1_0000_0000_0000) % 0x1_0000) as u16);
    all.push(((bits / 0x1_0000_0000) % 0x1_0000) as u16);
    all.push(((bits / 0x1_0000) % 0x1_0000) as u16);
    all.push((bits % 0x1_0000) as u16);
    assert(all@ =~= groups(bits));
    all
}

fn count_zero_run(all: &Vec<u16>, at: usize) -> (len: usize)
    requires
        at <= all@.len(),
    ensures
        len == zero_run(all@, at as int),
        at + len <= all@.len(),
    decreases all@.len() - at,
{
    if at >= all.len() || all[at] != 0 {
        0
    } else {
        1 + count_zero_run(all, at + 1)
    }
}

fn find_longest_zero_run(all: &Vec<u16>) -> (run: (usize, usize))
    ensures
        (run.0 as nat, run.1 as nat) == longest_zero_run(all@, all@.len()),
        run.0 + run.1 <= all@.len(),
{
    let mut start: usize = 0;
    let mut len: usize = 0;
    let mut i: usize = 0;
    while i < all.len()
        invariant
            i <= all@.len(),
            (start as nat, len as nat) == longest_zero_run(all@, i as nat),
            start + len <= all@.len(),
        decreases all@.len() - i,
    {
        let here = count_zero_run(all, i);
        if here > len {
            start = i;
            len = here;
        }
        i += 1;
    }
    (start, len)
}

fn push_joined(out: &mut Vec<char>, all: &Vec<u16>, from: usize, to: usize)
    requires
        from <= to <= all@.len(),
    ensures
        final(out)@ == old(out)@ + joined(all@.subrange(from as int, to as int)),
{
    let mut i: usize = from;
    assert(joined(all@.subrange(from as int, from as int)) =~= Seq::<char>::empty());
    assert(out@ =~= old(out)@ + joined(all@.subrange(from as int, i as int)));
    while i < to
        invariant
            from <= i <= to <= all@.len(),
            out@ == old(out)@ + joined(all@.subrange(from as int, i as int)),
        decreases to - i,
    {
        let ghost before = out@;
        let ghost part = all@.subrange(from as int, i as int);
        let ghost next = all@.subrange(from as int, i + 1);
        if i > from {
            out.push(':');
        }
        push_hex(out, all[i]);
        proof {
            assert(next.drop_last() =~= part);
            assert(next.last() == all@[i as int]);
            if i == from {
                assert(part =~= Seq::<u16>::empty());
                assert(next.len() == 1);
                assert(joined(part) =~= Seq::<char>::empty());
                assert(joined(next) == hexadecimal(all@[i as int] as nat));
                assert(out@ =~= old(out)@ + joined(next));
            } else {
                assert(next.len() > 1);
                assert(joined(next) == joined(part) + seq![':'] + hexadecimal(
                    all@[i as int] as nat,
                ));
                assert(out@ =~= old(out)@ + joined(next));
            }
        }
        i += 1;
    }
}

/// Writes an address as text.
pub fn format_ipv6(bits: u128) -> (text: String)
    ensures
        text@ == ipv6_text(bits),
{
    let all = split_groups(bits);
    let mut out: Vec<char> = Vec::new();
    if all[0] == 0 && all[1] == 0 && all[2] == 0 && all[3] == 0 && all[4] == 0 && all[5]
        == 0xffff {
        out.push(':');
        out.push(':');
        out.push('f');
        out.push('f');
        out.push('f');
        out.push('f');
        out.push(':');
        let low: u32 = (bits % 0x1_0000_0000) as u32;
        push_number(&mut out, (low / 0x100_0000) as u64);
        out.push('.');
        push_number(&mut out, ((low / 0x1_0000) % 0x100) as u64);
        out.push('.');
        push_number(&mut out, ((low / 0x100) % 0x100) as u64);
        out.push('.');
        push_number(&mut out, (low % 0x100) as u64);
        assert(out@ =~= ipv6_text(bits));
        return to_text(&out);
    }
    let (start, len) = find_longest_zero_run(&all);
    if len > 1 {
        push_joined(&mut out, &all, 0, start);
        out.push(':');
        out.push(':');
        push_joined(&mut out, &all, start + len, all.len());
        proof {
            assert(all@.subrange(0, start as int) =~= all@.take(start as int));
            assert(all@.subrange(start + len, all@.len() as int) =~= all@.skip((start + len) as int));
            assert(out@ =~= ipv6_text(bits));
        }
    } else {
        push_joined(&mut out, &all, 0, all.len());
        proof {
            assert(all@.subrange(0, all@.len() as int) =~= all@);
            assert(out@ =~= ipv6_text(bits));
        }
    }
    to_text(&out)
}

} // verus!
