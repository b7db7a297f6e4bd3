//! What the server writes to its log: the start-up banner and the form of a
//! log line. The time on a log line is read from the system clock with the
//! `time` crate.

use vstd::prelude::*;
use crate::number::decimal;
use crate::number::push_number;
use crate::text::lines;
use crate::text::push_text;
use crate::text::split_lines;
use crate::text::text_views;
use crate::text::to_chars;
use crate::text::to_text;
use crate::text::views;

verus! {

/// `time::OffsetDateTime`: a moment in time with its offset from UTC. What
/// is inside a moment is not visible to proofs.
#[verifier::external_type_specification]
#[verifier::external_body]
pub struct ExOffsetDateTime(time::OffsetDateTime);

/// `OffsetDateTime::now_utc` reads the system clock. Nothing is claimed of the
/// moment it returns: two calls give two moments.
pub assume_specification[ time::OffsetDateTime::now_utc ]() -> (now: time::OffsetDateTime)
;

/// `OffsetDateTime::unix_timestamp` gives the whole seconds from the Unix
/// epoch to the moment, negative before the epoch. Nothing is claimed of the
/// number, because nothing is known of the moment.
pub assume_specification[ time::OffsetDateTime::unix_timestamp ](
    moment: time::OffsetDateTime,
) -> (seconds: i64)
;

/// A span that an event happened in: its name and its fields, formatted.
#[derive(Clone, Debug, PartialEq, Eq)]
pub struct SpanText {
    pub name: String,
    pub fields: String,
}

/// The decimal notation of an integer, with a minus sign where it is negative.
pub open spec fn signed_decimal(n: int) -> Seq<char> {
    if n < 0 {
        seq!['-'] + decimal((-n) as nat)
    } else {
        decimal(n as nat)
    }
}

/// A line of the banner: a space, then the line of the logo.
pub open spec fn indented(line: Seq<char>) -> Seq<char> {
    seq![' '] + line
}

/// The banner: an empty line, each line of the logo behind a space, and an
/// empty line.
pub open spec fn banner_lines(logo: Seq<char>) -> Seq<Seq<char>> {
    seq![Seq::<char>::empty()] + lines(logo).map_values(|line: Seq<char>| indented(line))
        + seq![Seq::<char>::empty()]
}

/// The part of a log line that names the source line, where it is known.
pub open spec fn line_part(line: Option<u32>) -> Seq<char> {
    match line {
        Some(number) => seq![':'] + decimal(number as nat),
        None => Seq::empty(),
    }
}

/// The part of a log line that one span makes up: a colon and its name, then
/// its fields in braces unless it has none.
pub open spec fn span_part(name: Seq<char>, fields: Seq<char>) -> Seq<char> {
    if fields.len() == 0 {
        seq![':'] + name
    } else {
        seq![':'] + name + seq!['{'] + fields + seq!['}']
    }
}

/// The parts of all spans, from the root inwards.
pub open spec fn spans_part(spans: Seq<SpanText>) -> Seq<char>
    decreases spans.len(),
{
    if spans.len() == 0 {
        Seq::empty()
    } else {
        spans_part(spans.drop_last()) + span_part(spans.last().name@, spans.last().fields@)
    }
}

/// A log line: the time in seconds since the epoch, the level and the
/// target, separated by colons; the source line where it is known; the span
/// the event happened in, from the root inwards; a colon, the fields of the
/// event, and a line feed.
pub open spec fn event_line(
    now_secs: i64,
    level: Seq<char>,
    target: Seq<char>,
    line: Option<u32>,
    spans: Seq<SpanText>,
    fields: Seq<char>,
) -> Seq<char> {
    signed_decimal(now_secs as int) + seq![':'] + level + seq![':'] + target + line_part(line)
        + spans_part(spans) + seq![':'] + fields + seq!['\n']
}

/// The lines of the start-up banner around `logo`.
pub fn banner(logo: &str) -> (banner: Vec<String>)
    ensures
        text_views(banner@) == banner_lines(logo@),
{
    let chars = to_chars(logo);
    let found = split_lines(&chars);
    let mut banner: Vec<String> = Vec::new();
    banner.push(String::new());
    let ghost body = lines(logo@).map_values(|line: Seq<char>| indented(line));
    assert(text_views(banner@) =~= seq![Seq::<char>::empty()] + body.take(0));
    let mut i: usize = 0;
    while i < found.len()
        invariant
            i <= found@.len(),
            views(found@) == lines(logo@),
            body == lines(logo@).map_values(|line: Seq<char>| indented(line)),
            text_views(banner@) == seq![Seq::<char>::empty()] + body.take(i as int),
        decreases found@.len() - i,
    {
        let ghost before = text_views(banner@);
        let mut line: Vec<char> = Vec::new();
        line.push(' ');
        let mut k: usize = 0;
        while k < found[i as usize].len()
            invariant
                i < found@.len(),
                k <= found@[i as int]@.len(),
                line@ == seq![' '] + found@[i as int]@.take(k as int),
            decreases found@[i as int]@.len() - k,
        {
            line.push(found[i][k]);
            k += 1;
            assert(line@ =~= seq![' '] + found@[i as int]@.take(k as int));
        }
        assert(found@[i as int]@.take(k as int) =~= found@[i as int]@);
        let text = to_text(&line);
        assert(text@ == indented(views(found@)[i as int]));
        banner.push(text);
        i += 1;
        assert(text_views(banner@) =~= before.push(text@));
        assert(text_views(banner@) =~= seq![Seq::<char>::empty()] + body.take(i as int));
    }
    assert(body.take(i as int) =~= body);
    let ghost before = text_views(banner@);
    banner.push(String::new());
    assert(text_views(banner@) =~= before.push(Seq::<char>::empty()));
    assert(text_views(banner@) =~= banner_lines(logo@));
    banner
}

fn push_signed(out: &mut Vec<char>, n: i64)
    ensures
        final(out)@ == old(out)@ + signed_decimal(n as int),
{
    if n < 0 {
        out.push('-');
        let magnitude: u64 = ((-(n + 1)) as u64) + 1;
        push_number(out, magnitude);
        assert(out@ =~= old(out)@ + signed_decimal(n as int));
    } else {
        push_number(out, n as u64);
    }
}

/// Formats the log line of an event that happened at `now_secs` seconds
/// after the Unix epoch.
pub fn format_event_at(
    now_secs: i64,
    level: &str,
    target: &str,
    line: Option<u32>,
    spans: &Vec<SpanText>,
    fields: &str,
) -> (text: String)
    ensures
        text@ == event_line(now_secs, level@, target@, line, spans@, fields@),
{
    let mut out: Vec<char> = Vec::new();
    push_signed(&mut out, now_secs);
    out.push(':');
    push_text(&mut out, level);
    out.push(':');
    push_text(&mut out, target);
    if let Some(number) = line {
        out.push(':');
        push_number(&mut out, number as u64);
    }
    let ghost head = signed_decimal(now_secs as int) + seq![':'] + level@ + seq![':'] + target@
        + line_part(line);
    assert(out@ =~= head);
    let mut i: usize = 0;
    assert(spans@.take(0) =~= Seq::<SpanText>::empty());
    assert(out@ =~= head + spans_part(spans@.take(0)));
    while i < spans.len()
        invariant
            i <= spans@.len(),
            out@ == head + spans_part(spans@.take(i as int)),
        decreases spans@.len() - i,
    {
        let ghost before = out@;
        let span = &spans[i];
        out.push(':');
        push_text(&mut out, span.name.as_str());
        if span.fields.unicode_len() != 0 {
            out.push('{');
            push_text(&mut out, span.fields.as_str());
            out.push('}');
        }
        assert(out@ =~= before + span_part(span.name@, span.fields@));
        i += 1;
        proof {
            let taken = spans@.take(i as int);
            assert(taken.drop_last() =~= spans@.take(i - 1));
            assert(taken.last() == spans@[i - 1]);
            assert(out@ =~= head + spans_part(taken));
        }
    }
    assert(spans@.take(i as int) =~= spans@);
    out.push(':');
    push_text(&mut out, fields);
    out.push('\n');
    assert(out@ =~= event_line(now_secs, level@, target@, line, spans@, fields@));
    to_text(&out)
}

/// Formats the log line of an event that happens now. The line is that of
/// `format_event_at` for the second that the system clock shows.
pub fn format_event(
    level: &str,
    target: &str,
    line: Option<u32>,
    spans: &Vec<SpanText>,
    fields: &str,
) -> (text: String)
    ensures
        exists|now_secs: i64|
            text@ == #[trigger] event_line(now_secs, level@, target@, line, spans@, fields@),
{
    let now = time::OffsetDateTime::now_utc();
    let now_secs = now.unix_timestamp();
    let text = format_event_at(now_secs, level, target, line, spans, fields);
    assert(text@ == event_line(now_secs, level@, target@, line, spans@, fields@));
    text
}

} // verus!
