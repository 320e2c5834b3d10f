//! Names and dates of the Redfish interface of a server's management
//! controller.

use crate::text::{chars_of, extend_chars, find_char, slice_chars, spec_find_char, string_of};
use vstd::prelude::*;

verus! {

/// The parts of the interface that are read.
#[derive(Clone, Copy, Debug, PartialEq, Eq, Structural)]
pub enum RedfishEndpoint {
    Thermal,
    Power,
    System,
    EventService,
    LogServices,
}

impl RedfishEndpoint {
    /// The path of the part below the root of the interface.
    pub open spec fn spec_url(self) -> Seq<char> {
        match self {
            RedfishEndpoint::Thermal => "Chassis/1/Thermal"@,
            RedfishEndpoint::Power => "Chassis/1/Power"@,
            RedfishEndpoint::System => "Systems/1"@,
            RedfishEndpoint::EventService => "EventService"@,
            RedfishEndpoint::LogServices => "Systems/1/LogServices/IML/Entries"@,
        }
    }

    /// The path of the part below the root of the interface.
    pub fn url(&self) -> (path: String)
        ensures
            path@ == self.spec_url(),
    {
        match self {
            RedfishEndpoint::Thermal => "Chassis/1/Thermal".to_owned(),
            RedfishEndpoint::Power => "Chassis/1/Power".to_owned(),
            RedfishEndpoint::System => "Systems/1".to_owned(),
            RedfishEndpoint::EventService => "EventService".to_owned(),
            RedfishEndpoint::LogServices => "Systems/1/LogServices/IML/Entries".to_owned(),
        }
    }
}

/// The end of `s` once every `c` at its end is dropped, looking at the
/// first `j` characters.
pub open spec fn trim_end_of(s: Seq<char>, j: int, c: char) -> int
    decreases j,
{
    if 0 < j <= s.len() && s[j - 1] == c {
        trim_end_of(s, j - 1, c)
    } else {
        j
    }
}

/// The date and time `yyyy-mm-ddThh:mm:ssZ` as `dd/mm/yyyy hh:mm:ss`.
///
/// The input must hold exactly one `T`, and exactly two `-` before it.
/// The three parts of the date change places, whatever they hold, and
/// every `Z` at the end of the time is dropped.
pub open spec fn spec_fmt_dt(s: Seq<char>) -> Option<Seq<char>> {
    let t = spec_find_char(s, 0, 'T');
    if t < s.len() && spec_find_char(s, t + 1, 'T') == s.len() {
        let date = s.subrange(0, t);
        let a = spec_find_char(date, 0, '-');
        let b = spec_find_char(date, a + 1, '-');
        if a < date.len() && b < date.len() && spec_find_char(date, b + 1, '-') == date.len() {
            let end = trim_end_of(s, s.len() as int, 'Z');
            Some(
                date.subrange(b + 1, t) + seq!['/'] + date.subrange(a + 1, b) + seq!['/']
                    + date.subrange(0, a) + seq![' '] + if t + 1 < end {
                    s.subrange(t + 1, end)
                } else {
                    Seq::empty()
                },
            )
        } else {
            None
        }
    } else {
        None
    }
}

/// Rewrites a date and time for reading: day, month and year, then the
/// time without its zone letter.
pub fn fmt_dt(input: &str) -> (out: Option<String>)
    ensures
        crate::text::opt_text(out) == spec_fmt_dt(input@),
{
    let s = chars_of(input);
    let t = find_char(&s, 0, 'T');
    if t >= s.len() || find_char(&s, t + 1, 'T') != s.len() {
        return None;
    }
    let date = slice_chars(&s, 0, t);
    let a = find_char(&date, 0, '-');
    if a >= date.len() {
        return None;
    }
    let b = find_char(&date, a + 1, '-');
    if b >= date.len() || find_char(&date, b + 1, '-') != date.len() {
        return None;
    }
    let mut end: usize = s.len();
    while end > 0 && s[end - 1] == 'Z'
        invariant
            end <= s.len(),
            trim_end_of(s@, s.len() as int, 'Z') == trim_end_of(s@, end as int, 'Z'),
        decreases end,
    {
        end -= 1;
    }
    let mut out: Vec<char> = Vec::new();
    extend_chars(&mut out, &slice_chars(&date, b + 1, t));
    out.push('/');
    extend_chars(&mut out, &slice_chars(&date, a + 1, b));
    out.push('/');
    extend_chars(&mut out, &slice_chars(&date, 0, a));
    out.push(' ');
    if t + 1 < end {
        extend_chars(&mut out, &slice_chars(&s, t + 1, end));
    }
    Some(string_of(&out))
}

} // verus!
