//! Text as sequences of characters: lines, words, prefixes and decimal
//! numbers, each with the exact meaning that the parsers of this crate rely on.

use vstd::prelude::*;

verus! {

/// `String::push` appends one character and changes nothing else.
pub assume_specification[ String::push ](text: &mut String, c: char)
    ensures
        final(text)@ == old(text)@.push(c),
;

/// The characters that separate words: those with the Unicode property
/// `White_Space`.
pub open spec fn is_whitespace(c: char) -> bool {
    ||| c == ' '
    ||| '\u{9}' <= c <= '\u{d}'
    ||| c == '\u{85}'
    ||| c == '\u{a0}'
    ||| c == '\u{1680}'
    ||| '\u{2000}' <= c <= '\u{200a}'
    ||| c == '\u{2028}'
    ||| c == '\u{2029}'
    ||| c == '\u{202f}'
    ||| c == '\u{205f}'
    ||| c == '\u{3000}'
}

/// The characters that are no whitespace.
pub open spec fn not_whitespace() -> spec_fn(char) -> bool {
    |c: char| !is_whitespace(c)
}

/// The characters that are whitespace.
pub open spec fn whitespace() -> spec_fn(char) -> bool {
    |c: char| is_whitespace(c)
}

/// The characters other than `stop`.
pub open spec fn other_than(stop: char) -> spec_fn(char) -> bool {
    |c: char| c != stop
}

/// How many characters at the front of `s` satisfy `keep`, up to the first
/// that does not.
pub open spec fn prefix_len(s: Seq<char>, keep: spec_fn(char) -> bool) -> nat
    decreases s.len(),
{
    if s.len() == 0 || !keep(s[0]) {
        0
    } else {
        1 + prefix_len(s.drop_first(), keep)
    }
}

/// `prefix_len` is the one number with these three properties.
pub proof fn prefix_len_spec(s: Seq<char>, keep: spec_fn(char) -> bool)
    ensures
        prefix_len(s, keep) <= s.len(),
        forall|i: int| 0 <= i < prefix_len(s, keep) ==> keep(#[trigger] s[i]),
        prefix_len(s, keep) < s.len() ==> !keep(s[prefix_len(s, keep) as int]),
    decreases s.len(),
{
    if s.len() != 0 && keep(s[0]) {
        let rest = s.drop_first();
        prefix_len_spec(rest, keep);
        assert forall|i: int| 0 <= i < prefix_len(s, keep) implies keep(#[trigger] s[i]) by {
            if i > 0 {
                assert(s[i] == rest[i - 1]);
            }
        }
        if prefix_len(s, keep) < s.len() {
            assert(s[prefix_len(s, keep) as int] == rest[prefix_len(rest, keep) as int]);
        }
    }
}

/// A number with the three properties of `prefix_len` is `prefix_len`.
pub proof fn prefix_len_unique(s: Seq<char>, keep: spec_fn(char) -> bool, n: int)
    requires
        0 <= n <= s.len(),
        forall|i: int| 0 <= i < n ==> keep(#[trigger] s[i]),
        n < s.len() ==> !keep(s[n]),
    ensures
        prefix_len(s, keep) == n,
    decreases s.len(),
{
    if n > 0 {
        assert(keep(s[0]));
        let rest = s.drop_first();
        assert forall|i: int| 0 <= i < n - 1 implies keep(#[trigger] rest[i]) by {
            assert(rest[i] == s[i + 1]);
        }
        if n - 1 < rest.len() {
            assert(rest[n - 1] == s[n]);
        }
        prefix_len_unique(rest, keep, n - 1);
    }
}

/// Whether `s` begins with `prefix`.
pub open spec fn starts_with(s: Seq<char>, prefix: Seq<char>) -> bool {
    prefix.len() <= s.len() && s.take(prefix.len() as int) == prefix
}

/// What follows `prefix` in `s`, where `s` begins with it.
pub open spec fn strip_prefix(s: Seq<char>, prefix: Seq<char>) -> Option<Seq<char>> {
    if starts_with(s, prefix) {
        Some(s.skip(prefix.len() as int))
    } else {
        None
    }
}

/// The parts of `s` before and after the first `delimiter`, where there is one.
pub open spec fn split_once(s: Seq<char>, delimiter: char) -> Option<(Seq<char>, Seq<char>)> {
    let cut = prefix_len(s, other_than(delimiter));
    if cut < s.len() {
        Some((s.take(cut as int), s.skip(cut as int + 1)))
    } else {
        None
    }
}

/// A line without the carriage return that may end it.
pub open spec fn strip_carriage_return(line: Seq<char>) -> Seq<char> {
    if line.len() > 0 && line.last() == '\r' {
        line.drop_last()
    } else {
        line
    }
}

/// The lines of a text. A line ends at a line feed, or at a carriage return
/// directly followed by one; the ending is no part of the line. What follows
/// the last line feed is a line too, unless it is empty, and is taken as it
/// stands.
pub open spec fn lines(s: Seq<char>) -> Seq<Seq<char>>
    decreases s.len(),
{
    let cut = prefix_len(s, other_than('\n'));
    if s.len() == 0 {
        Seq::empty()
    } else if cut < s.len() {
        seq![strip_carriage_return(s.take(cut as int))] + lines(s.skip(cut as int + 1))
    } else {
        seq![s]
    }
}

/// The words of a text: its longest runs of characters that are no
/// whitespace, in order. No word is empty.
pub open spec fn words(s: Seq<char>) -> Seq<Seq<char>>
    decreases s.len(),
    via words_decreases
{
    let start = prefix_len(s, whitespace());
    let rest = s.skip(start as int);
    let len = prefix_len(rest, not_whitespace());
    if start >= s.len() || len == 0 {
        Seq::empty()
    } else {
        seq![rest.take(len as int)] + words(rest.skip(len as int))
    }
}

#[via_fn]
proof fn words_decreases(s: Seq<char>) {
    prefix_len_spec(s, whitespace());
    prefix_len_spec(s.skip(prefix_len(s, whitespace()) as int), not_whitespace());
}

/// No word is empty, and no word holds whitespace.
pub proof fn words_hold_no_whitespace(s: Seq<char>, i: int, k: int)
    requires
        0 <= i < words(s).len(),
        0 <= k < words(s)[i].len(),
    ensures
        words(s)[i].len() > 0,
        !is_whitespace(words(s)[i][k]),
    decreases s.len(),
{
    let start = prefix_len(s, whitespace());
    let rest = s.skip(start as int);
    let len = prefix_len(rest, not_whitespace());
    prefix_len_spec(s, whitespace());
    prefix_len_spec(rest, not_whitespace());
    if i == 0 {
        assert(words(s)[0] == rest.take(len as int));
        assert(not_whitespace()(rest[k]));
    } else {
        let tail = rest.skip(len as int);
        assert(words(s)[i] == words(tail)[i - 1]);
        words_hold_no_whitespace(tail, i - 1, k);
    }
}

/// No line holds a line feed.
pub proof fn lines_hold_no_line_feed(s: Seq<char>, i: int, k: int)
    requires
        0 <= i < lines(s).len(),
        0 <= k < lines(s)[i].len(),
    ensures
        lines(s)[i][k] != '\n',
    decreases s.len(),
{
    let cut = prefix_len(s, other_than('\n'));
    prefix_len_spec(s, other_than('\n'));
    if cut < s.len() {
        if i == 0 {
            let raw = s.take(cut as int);
            assert(lines(s)[0] == strip_carriage_return(raw));
            assert(strip_carriage_return(raw)[k] == raw[k]);
            assert(other_than('\n')(s[k]));
        } else {
            let tail = s.skip(cut as int + 1);
            assert(lines(s)[i] == lines(tail)[i - 1]);
            lines_hold_no_line_feed(tail, i - 1, k);
        }
    } else {
        assert(lines(s)[i] == s);
        assert(other_than('\n')(s[k]));
    }
}

/// Whether a character is a decimal digit.
pub open spec fn is_digit(c: char) -> bool {
    '0' <= c <= '9'
}

/// The number that a decimal digit stands for.
pub open spec fn digit_value(c: char) -> nat {
    (c as int - '0' as int) as nat
}

/// The number that a run of decimal digits stands for; the empty run is 0.
pub open spec fn digits_value(s: Seq<char>) -> nat
    decreases s.len(),
{
    if s.len() == 0 {
        0
    } else {
        digits_value(s.drop_last()) * 10 + digit_value(s.last())
    }
}

/// Whether every character is a decimal digit.
pub open spec fn all_digits(s: Seq<char>) -> bool {
    forall|i: int| 0 <= i < s.len() ==> is_digit(#[trigger] s[i])
}

/// The number that `s` is the decimal notation of, where it is one and the
/// number is at most `max`: an optional plus sign, then one digit or more.
pub open spec fn parse_decimal(s: Seq<char>, max: nat) -> Option<nat> {
    let digits = if s.len() > 0 && s[0] == '+' {
        s.drop_first()
    } else {
        s
    };
    if digits.len() > 0 && all_digits(digits) && digits_value(digits) <= max {
        Some(digits_value(digits))
    } else {
        None
    }
}

/// The view of each element.
pub open spec fn views(parts: Seq<Vec<char>>) -> Seq<Seq<char>> {
    parts.map_values(|part: Vec<char>| part@)
}

/// The view of each element.
pub open spec fn text_views(parts: Seq<String>) -> Seq<Seq<char>> {
    parts.map_values(|part: String| part@)
}

/// Whether a character separates words.
pub fn char_is_whitespace(c: char) -> (yes: bool)
    ensures
        yes == is_whitespace(c),
{
    c == ' ' || ('\u{9}' <= c && c <= '\u{d}') || c == '\u{85}' || c == '\u{a0}' || c
        == '\u{1680}' || ('\u{2000}' <= c && c <= '\u{200a}') || c == '\u{2028}' || c
        == '\u{2029}' || c == '\u{202f}' || c == '\u{205f}' || c == '\u{3000}'
}

/// The characters of a string.
pub fn to_chars(text: &str) -> (chars: Vec<char>)
    ensures
        chars@ == text@,
{
    let mut chars: Vec<char> = Vec::new();
    for c in it: text.chars()
        invariant
            chars@ == it.seq().take(it.index@),
    {
        chars.push(c);
    }
    chars
}

/// The string made of the characters of `chars`.
pub fn to_text(chars: &Vec<char>) -> (text: String)
    ensures
        text@ == chars@,
{
    let mut text = String::new();
    let mut i: usize = 0;
    while i < chars.len()
        invariant
            i <= chars@.len(),
            text@ == chars@.take(i as int),
        decreases chars@.len() - i,
    {
        text.push(chars[i]);
        i += 1;
        assert(text@ =~= chars@.take(i as int));
    }
    assert(chars@.take(i as int) =~= chars@);
    text
}

/// Appends the characters of `text`.
pub fn push_text(out: &mut Vec<char>, text: &str)
    ensures
        final(out)@ == old(out)@ + text@,
{
    let chars = to_chars(text);
    let mut i: usize = 0;
    while i < chars.len()
        invariant
            i <= chars@.len(),
            chars@ == text@,
            out@ == old(out)@ + chars@.take(i as int),
        decreases chars@.len() - i,
    {
        out.push(chars[i]);
        i += 1;
        assert(out@ =~= old(out)@ + chars@.take(i as int));
    }
    assert(chars@.take(i as int) =~= chars@);
}

/// The characters `chars[from..to]`.
pub fn slice(chars: &Vec<char>, from: usize, to: usize) -> (part: Vec<char>)
    requires
        from <= to <= chars@.len(),
    ensures
        part@ == chars@.subrange(from as int, to as int),
{
    let mut part: Vec<char> = Vec::new();
    let mut i: usize = from;
    while i < to
        invariant
            from <= i <= to <= chars@.len(),
            part@ == chars@.subrange(from as int, i as int),
        decreases to - i,
    {
        part.push(chars[i]);
        i += 1;
        assert(part@ =~= chars@.subrange(from as int, i as int));
    }
    part
}

/// Whether the two hold the same characters.
pub fn same_text(chars: &Vec<char>, text: &str) -> (same: bool)
    ensures
        same == (chars@ == text@),
{
    let other = to_chars(text);
    if chars.len() != other.len() {
        return false;
    }
    let mut i: usize = 0;
    while i < chars.len()
        invariant
            i <= chars@.len(),
            chars@.len() == other@.len(),
            other@ == text@,
            forall|k: int| 0 <= k < i ==> chars@[k] == other@[k],
        decreases chars@.len() - i,
    {
        if chars[i] != other[i] {
            assert(chars@[i as int] != text@[i as int]);
            return false;
        }
        i += 1;
    }
    assert(chars@ =~= other@);
    true
}

/// Whether `chars` begins with `prefix`.
pub fn has_prefix(chars: &Vec<char>, prefix: &str) -> (yes: bool)
    ensures
        yes == starts_with(chars@, prefix@),
{
    let wanted = to_chars(prefix);
    if chars.len() < wanted.len() {
        return false;
    }
    let mut i: usize = 0;
    while i < wanted.len()
        invariant
            i <= wanted@.len() <= chars@.len(),
            wanted@ == prefix@,
            forall|k: int| 0 <= k < i ==> chars@[k] == wanted@[k],
        decreases wanted@.len() - i,
    {
        if chars[i] != wanted[i] {
            assert(chars@.take(prefix@.len() as int)[i as int] != prefix@[i as int]);
            return false;
        }
        i += 1;
    }
    assert(chars@.take(wanted@.len() as int) =~= wanted@);
    true
}

/// What follows `prefix` in `chars`, where `chars` begins with it.
pub fn without_prefix(chars: &Vec<char>, prefix: &str) -> (rest: Option<Vec<char>>)
    ensures
        match rest {
            Some(rest) => strip_prefix(chars@, prefix@) == Some(rest@),
            None => strip_prefix(chars@, prefix@) is None,
        },
{
    if has_prefix(chars, prefix) {
        let n = prefix.unicode_len();
        let rest = slice(chars, n, chars.len());
        Some(rest)
    } else {
        None
    }
}

/// The index of the first `stop` at or after `from`, or the length of `chars`
/// where there is none.
pub fn find_char(chars: &Vec<char>, from: usize, stop: char) -> (at: usize)
    requires
        from <= chars@.len(),
    ensures
        at == from + prefix_len(chars@.skip(from as int), other_than(stop)),
        from <= at <= chars@.len(),
{
    let mut at: usize = from;
    while at < chars.len() && chars[at] != stop
        invariant
            from <= at <= chars@.len(),
            forall|k: int| from <= k < at ==> chars@[k] != stop,
        decreases chars@.len() - at,
    {
        at += 1;
    }
    proof {
        let rest = chars@.skip(from as int);
        assert forall|i: int| 0 <= i < at - from implies other_than(stop)(#[trigger] rest[i]) by {
            assert(rest[i] == chars@[from + i]);
        }
        prefix_len_unique(rest, other_than(stop), at - from);
    }
    at
}

/// The index of the first character at or after `from` that is no
/// whitespace, or the length of `chars` where there is none.
pub fn skip_whitespace(chars: &Vec<char>, from: usize) -> (at: usize)
    requires
        from <= chars@.len(),
    ensures
        at == from + prefix_len(chars@.skip(from as int), whitespace()),
        from <= at <= chars@.len(),
{
    let mut at: usize = from;
    while at < chars.len() && char_is_whitespace(chars[at])
        invariant
            from <= at <= chars@.len(),
            forall|k: int| from <= k < at ==> is_whitespace(chars@[k]),
        decreases chars@.len() - at,
    {
        at += 1;
    }
    proof {
        let rest = chars@.skip(from as int);
        assert forall|i: int| 0 <= i < at - from implies whitespace()(#[trigger] rest[i]) by {
            assert(rest[i] == chars@[from + i]);
        }
        prefix_len_unique(rest, whitespace(), at - from);
    }
    at
}

/// The index of the first whitespace at or after `from`, or the length of
/// `chars` where there is none.
pub fn skip_word(chars: &Vec<char>, from: usize) -> (at: usize)
    requires
        from <= chars@.len(),
    ensures
        at == from + prefix_len(chars@.skip(from as int), not_whitespace()),
        from <= at <= chars@.len(),
{
    let mut at: usize = from;
    while at < chars.len() && !char_is_whitespace(chars[at])
        invariant
            from <= at <= chars@.len(),
            forall|k: int| from <= k < at ==> !is_whitespace(chars@[k]),
        decreases chars@.len() - at,
    {
        at += 1;
    }
    proof {
        let rest = chars@.skip(from as int);
        assert forall|i: int| 0 <= i < at - from implies not_whitespace()(#[trigger] rest[i]) by {
            assert(rest[i] == chars@[from + i]);
        }
        prefix_len_unique(rest, not_whitespace(), at - from);
    }
    at
}

/// Splits at the first `delimiter`.
pub fn split_at_first(chars: &Vec<char>, delimiter: char) -> (parts: Option<(Vec<char>, Vec<char>)>)
    ensures
        match parts {
            Some((before, after)) => split_once(chars@, delimiter) == Some((before@, after@)),
            None => split_once(chars@, delimiter) is None,
        },
{
    let cut = find_char(chars, 0, delimiter);
    assert(chars@.skip(0) =~= chars@);
    if cut < chars.len() {
        let before = slice(chars, 0, cut);
        let after = slice(chars, cut + 1, chars.len());
        Some((before, after))
    } else {
        None
    }
}

/// Splits a text into its lines.
pub fn split_lines(chars: &Vec<char>) -> (found: Vec<Vec<char>>)
    ensures
        views(found@) == lines(chars@),
{
    let mut found: Vec<Vec<char>> = Vec::new();
    let mut from: usize = 0;
    assert(chars@.skip(0) =~= chars@);
    while from < chars.len()
        invariant
            from <= chars@.len(),
            lines(chars@) == views(found@) + lines(chars@.skip(from as int)),
        decreases chars@.len() - from,
    {
        let ghost rest = chars@.skip(from as int);
        let ghost before = views(found@);
        let cut = find_char(chars, from, '\n');
        if cut < chars.len() {
            let end = if cut > from && chars[cut - 1] == '\r' {
                cut - 1
            } else {
                cut
            };
            let line = slice(chars, from, end);
            proof {
                let raw = rest.take(cut - from);
                assert(raw =~= chars@.subrange(from as int, cut as int));
                assert(line@ =~= strip_carriage_return(raw));
                assert(rest.skip(cut - from + 1) =~= chars@.skip(cut + 1));
            }
            found.push(line);
            assert(views(found@) =~= before.push(line@));
            from = cut + 1;
            assert(lines(chars@) =~= views(found@) + lines(chars@.skip(from as int)));
        } else {
            let line = slice(chars, from, chars.len());
            assert(line@ =~= rest);
            found.push(line);
            assert(views(found@) =~= before.push(line@));
            from = chars.len();
            assert(lines(chars@.skip(from as int)) =~= Seq::<Seq<char>>::empty());
            assert(lines(chars@) =~= views(found@) + lines(chars@.skip(from as int)));
        }
    }
    assert(lines(chars@.skip(from as int)) =~= Seq::<Seq<char>>::empty());
    assert(lines(chars@) =~= views(found@));
    found
}

/// Splits a text into its words.
pub fn split_words(chars: &Vec<char>) -> (found: Vec<Vec<char>>)
    ensures
        views(found@) == words(chars@),
{
    let mut found: Vec<Vec<char>> = Vec::new();
    let mut from: usize = 0;
    assert(chars@.skip(0) =~= chars@);
    loop
        invariant
            from <= chars@.len(),
            words(chars@) == views(found@) + words(chars@.skip(from as int)),
        ensures
            views(found@) == words(chars@),
        decreases chars@.len() - from,
    {
        let ghost rest = chars@.skip(from as int);
        let ghost before = views(found@);
        let start = skip_whitespace(chars, from);
        if start >= chars.len() {
            assert(words(rest) =~= Seq::<Seq<char>>::empty());
            assert(words(chars@) =~= views(found@));
            break;
        }
        let end = skip_word(chars, start);
        proof {
            assert(rest.skip(start - from) =~= chars@.skip(start as int));
            prefix_len_spec(rest, whitespace());
            assert(!is_whitespace(chars@[start as int])) by {
                assert(rest[start - from] == chars@[start as int]);
            }
            let tail = chars@.skip(start as int);
            assert(not_whitespace()(tail[0]));
            assert(end > start);
        }
        let word = slice(chars, start, end);
        proof {
            let tail = chars@.skip(start as int);
            assert(word@ =~= tail.take(end - start));
            assert(tail.skip(end - start) =~= chars@.skip(end as int));
        }
        found.push(word);
        assert(views(found@) =~= before.push(word@));
        from = end;
        assert(words(chars@) =~= views(found@) + words(chars@.skip(from as int)));
    }
    found
}

} // verus!
