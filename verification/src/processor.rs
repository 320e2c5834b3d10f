//! The registered sources and the report of one tick.
//!
//! In a tick every registered source is polled, its output delivered, and
//! what failed collected. Polling and delivering are driven from outside;
//! the outcome of each source comes back here and is made into one report
//! for the operators.

use crate::error::{lemma_message_single_line, message, single_line, FeedError};
use crate::source::FeedSource;
use crate::text::{extend_str, string_of, texts};
use crate::utils::{concat_message, join_lines, lemma_join_lines_count, line_count};
use vstd::prelude::*;

verus! {

/// The name of the task, which heads every line of a report.
pub const TASK_NAME: &'static str = "RSS";

/// The line that reports the failure of a source.
pub open spec fn spec_error_line(source: Seq<char>, error: FeedError) -> Seq<char> {
    "**["@ + TASK_NAME@ + ":"@ + source + ":Error]:** Feed failed with the following error: `"@
        + message(error) + "`"@
}

/// Writes the line that reports the failure of a source.
pub fn error_line(source: &str, error: &FeedError) -> (line: String)
    ensures
        line@ == spec_error_line(source@, *error),
{
    let mut out: Vec<char> = Vec::new();
    extend_str(&mut out, "**[");
    extend_str(&mut out, TASK_NAME);
    extend_str(&mut out, ":");
    extend_str(&mut out, source);
    extend_str(&mut out, ":Error]:** Feed failed with the following error: `");
    extend_str(&mut out, error.describe().as_str());
    extend_str(&mut out, "`");
    string_of(&out)
}

/// The lines of a report for the first `n` sources: one line for each
/// source whose outcome is a failure, in the order of the sources.
pub open spec fn report_lines(
    names: Seq<Seq<char>>,
    outcomes: Seq<Result<(), FeedError>>,
    n: int,
) -> Seq<Seq<char>>
    decreases n,
{
    if n <= 0 {
        Seq::empty()
    } else {
        let head = report_lines(names, outcomes, n - 1);
        if n <= names.len() && n <= outcomes.len() && outcomes[n - 1] is Err {
            head.push(spec_error_line(names[n - 1], outcomes[n - 1]->Err_0))
        } else {
            head
        }
    }
}

/// The number of failures among the first `n` outcomes.
pub open spec fn failure_count(outcomes: Seq<Result<(), FeedError>>, n: int) -> nat
    decreases n,
{
    if n <= 0 {
        0
    } else {
        failure_count(outcomes, n - 1) + if n <= outcomes.len() && outcomes[n - 1] is Err {
            1nat
        } else {
            0nat
        }
    }
}

/// The report of a tick: nothing where no source failed, else the lines
/// of the failures joined into one message. A source without an outcome
/// was not polled and is not reported.
pub open spec fn spec_report(names: Seq<Seq<char>>, outcomes: Seq<Result<(), FeedError>>) -> Option<
    Seq<char>,
> {
    let n = if names.len() <= outcomes.len() {
        names.len() as int
    } else {
        outcomes.len() as int
    };
    let lines = report_lines(names, outcomes, n);
    if lines.len() == 0 {
        None
    } else {
        Some(join_lines(lines))
    }
}

/// A report has one line for each failure, where no name of a source
/// holds a line break.
pub proof fn lemma_report_lines(names: Seq<Seq<char>>, outcomes: Seq<Result<(), FeedError>>, n: int)
    requires
        0 <= n <= names.len(),
        n <= outcomes.len(),
        forall|k: int| 0 <= k < names.len() ==> single_line(#[trigger] names[k]),
    ensures
        report_lines(names, outcomes, n).len() == failure_count(outcomes, n),
        forall|k: int|
            0 <= k < report_lines(names, outcomes, n).len() ==> single_line(
                #[trigger] report_lines(names, outcomes, n)[k],
            ),
    decreases n,
{
    if n > 0 {
        lemma_report_lines(names, outcomes, n - 1);
        if outcomes[n - 1] is Err {
            let error = outcomes[n - 1]->Err_0;
            lemma_message_single_line(error);
            reveal_strlit("**[");
            reveal_strlit("RSS");
            reveal_strlit(":");
            reveal_strlit(":Error]:** Feed failed with the following error: `");
            reveal_strlit("`");
        }
    }
}

/// The sources that are polled in every tick.
pub struct RSSProcessor {
    pub feeds: Vec<FeedSource>,
}

impl RSSProcessor {
    /// The names of the registered sources, in order.
    pub open spec fn names(&self) -> Seq<Seq<char>> {
        self.feeds@.map_values(|feed: FeedSource| feed.spec_name())
    }

    /// A processor without sources.
    pub fn new() -> (processor: Self)
        ensures
            processor.feeds@.len() == 0,
    {
        Self { feeds: Vec::new() }
    }

    /// Registers a source behind those that are registered.
    pub fn add_feed(&mut self, feed: FeedSource)
        ensures
            final(self).feeds@ == old(self).feeds@.push(feed),
    {
        self.feeds.push(feed);
    }

    /// Makes the report of a tick from the outcome of each source, given
    /// in the order in which the sources were registered.
    pub fn process_all(&self, outcomes: &Vec<Result<(), FeedError>>) -> (report: Option<String>)
        ensures
            crate::text::opt_text(report) == spec_report(self.names(), outcomes@),
    {
        let n: usize = if self.feeds.len() <= outcomes.len() {
            self.feeds.len()
        } else {
            outcomes.len()
        };
        let mut lines: Vec<String> = Vec::new();
        let mut i: usize = 0;
        while i < n
            invariant
                i <= n,
                n <= self.feeds.len(),
                n <= outcomes.len(),
                texts(lines@) == report_lines(self.names(), outcomes@, i as int),
            decreases n - i,
        {
            match &outcomes[i] {
                Err(error) => {
                    let line = error_line(self.feeds[i].name(), error);
                    lines.push(line);
                },
                Ok(_) => {},
            }
            i += 1;
        }
        if lines.len() == 0 {
            None
        } else {
            Some(concat_message(lines))
        }
    }

    /// One report a tick: there is a report exactly where a source failed,
    /// and it has one line for each failure.
    pub proof fn lemma_one_report(&self, outcomes: Seq<Result<(), FeedError>>)
        requires
            outcomes.len() == self.feeds@.len(),
        ensures
            spec_report(self.names(), outcomes) is Some <==> failure_count(
                outcomes,
                outcomes.len() as int,
            ) > 0,
            spec_report(self.names(), outcomes) matches Some(text) ==> line_count(text)
                == failure_count(outcomes, outcomes.len() as int),
    {
        reveal_strlit("ESXi");
        reveal_strlit("GitHub");
        reveal_strlit("GPortal");
        reveal_strlit("RustBlog");
        let names = self.names();
        assert forall|k: int| 0 <= k < names.len() implies single_line(#[trigger] names[k]) by {}
        lemma_report_lines(names, outcomes, outcomes.len() as int);
        let lines = report_lines(names, outcomes, outcomes.len() as int);
        if lines.len() > 0 {
            assert forall|k: int, i: int|
                0 <= k < lines.len() && 0 <= i < lines[k].len() implies #[trigger] lines[k][i]
                != '\n' by {}
            lemma_join_lines_count(lines);
        }
    }
}

} // verus!
