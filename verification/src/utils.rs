//! Small formatting helpers.

use crate::number::{decimal, push_decimal};
use crate::text::{extend_str, string_of, texts};
use vstd::prelude::*;

verus! {

/// The lines joined into one text, with a line break between each two.
pub open spec fn join_lines(lines: Seq<Seq<char>>) -> Seq<char>
    decreases lines.len(),
{
    if lines.len() == 0 {
        Seq::empty()
    } else if lines.len() == 1 {
        lines[0]
    } else {
        join_lines(lines.drop_last()) + seq!['\n'] + lines.last()
    }
}

/// Joins messages into one text, one message per line.
pub fn concat_message(messages: Vec<String>) -> (text: String)
    ensures
        text@ == join_lines(texts(messages@)),
{
    let ghost lines = texts(messages@);
    let mut out: Vec<char> = Vec::new();
    let mut i: usize = 0;
    while i < messages.len()
        invariant
            i <= messages.len(),
            lines == texts(messages@),
            out@ == join_lines(lines.take(i as int)),
        decreases messages.len() - i,
    {
        let ghost before = lines.take(i as int);
        let ghost now = lines.take(i + 1);
        assert(now.drop_last() =~= before);
        if i > 0 {
            out.push('\n');
        }
        extend_str(&mut out, messages[i].as_str());
        i += 1;
    }
    assert(lines.take(messages.len() as int) =~= lines);
    string_of(&out)
}

/// How often `c` occurs in `s`.
pub open spec fn count_char(s: Seq<char>, c: char) -> nat
    decreases s.len(),
{
    if s.len() == 0 {
        0
    } else {
        count_char(s.drop_last(), c) + if s.last() == c {
            1nat
        } else {
            0nat
        }
    }
}

/// The number of lines of a text: one more than it has line breaks.
pub open spec fn line_count(s: Seq<char>) -> nat {
    count_char(s, '\n') + 1
}

/// The occurrences in two texts add up in their concatenation.
pub proof fn lemma_count_char_concat(a: Seq<char>, b: Seq<char>, c: char)
    ensures
        count_char(a + b, c) == count_char(a, c) + count_char(b, c),
    decreases b.len(),
{
    if b.len() > 0 {
        assert((a + b).drop_last() =~= a + b.drop_last());
        lemma_count_char_concat(a, b.drop_last(), c);
    }
}

/// A text in which `c` does not occur.
pub proof fn lemma_count_char_none(s: Seq<char>, c: char)
    requires
        forall|i: int| 0 <= i < s.len() ==> #[trigger] s[i] != c,
    ensures
        count_char(s, c) == 0,
    decreases s.len(),
{
    if s.len() > 0 {
        assert forall|i: int| 0 <= i < s.drop_last().len() implies #[trigger] s.drop_last()[i]
            != c by {}
        lemma_count_char_none(s.drop_last(), c);
    }
}

/// Joined messages that are single lines make as many lines as there are
/// messages.
pub proof fn lemma_join_lines_count(lines: Seq<Seq<char>>)
    requires
        lines.len() > 0,
        forall|k: int, i: int|
            0 <= k < lines.len() && 0 <= i < lines[k].len() ==> #[trigger] lines[k][i] != '\n',
    ensures
        line_count(join_lines(lines)) == lines.len(),
    decreases lines.len(),
{
    if lines.len() == 1 {
        lemma_count_char_none(lines[0], '\n');
    } else {
        let head = lines.drop_last();
        assert forall|k: int, i: int|
            0 <= k < head.len() && 0 <= i < head[k].len() implies #[trigger] head[k][i]
            != '\n' by {}
        lemma_join_lines_count(head);
        lemma_count_char_none(lines.last(), '\n');
        lemma_count_char_concat(join_lines(head) + seq!['\n'], lines.last(), '\n');
        lemma_count_char_concat(join_lines(head), seq!['\n'], '\n');
        let br = seq!['\n'];
        assert(count_char(br.drop_last(), '\n') == 0);
    }
}

/// A duration as days, hours, minutes and seconds. The seconds are always
/// shown; a larger unit is shown where it or the next larger one is not
/// zero.
pub open spec fn spec_format_duration(secs: nat) -> Seq<char> {
    let days = secs / 86400;
    let hours = (secs % 86400) / 3600;
    let minutes = (secs % 3600) / 60;
    let seconds = secs % 60;
    (if days > 0 {
        decimal(days) + "d, "@
    } else {
        Seq::empty()
    }) + (if hours > 0 || days > 0 {
        decimal(hours) + "h, "@
    } else {
        Seq::empty()
    }) + (if minutes > 0 || hours > 0 {
        decimal(minutes) + "m, "@
    } else {
        Seq::empty()
    }) + decimal(seconds) + "s"@
}

/// Writes a number of seconds as days, hours, minutes and seconds.
pub fn format_duration(secs: u64) -> (text: String)
    ensures
        text@ == spec_format_duration(secs as nat),
{
    let days = secs / 86400;
    let hours = (secs % 86400) / 3600;
    let minutes = (secs % 3600) / 60;
    let seconds = secs % 60;
    let mut out: Vec<char> = Vec::new();
    if days > 0 {
        push_decimal(&mut out, days);
        extend_str(&mut out, "d, ");
    }
    if hours > 0 || days > 0 {
        push_decimal(&mut out, hours);
        extend_str(&mut out, "h, ");
    }
    if minutes > 0 || hours > 0 {
        push_decimal(&mut out, minutes);
        extend_str(&mut out, "m, ");
    }
    push_decimal(&mut out, seconds);
    extend_str(&mut out, "s");
    string_of(&out)
}

/// The complaint about a timer that did not start.
pub fn timer_failed(name: &str) -> (text: String)
    ensures
        text@ == "Failed to start timer for "@ + name@,
{
    crate::text::concat2("Failed to start timer for ", name)
}

} // verus!
