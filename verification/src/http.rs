//! The rules of fetching a feed: how the client names itself, how long it
//! waits, and which answers count as failures. The request itself is made
//! outside this crate.

use crate::error::FetchError;
use crate::feed::{ParsedFeed, ParsedFeedView};
use crate::text::{extend_str, string_of};
use vstd::prelude::*;

verus! {

/// Seconds after which a request is given up.
pub const REQUEST_TIMEOUT_SECS: u64 = 30;

/// The name under which feeds are fetched.
pub const FEED_CLIENT: &'static str = "RSS-Monitor";

/// The `User-Agent` of a request: the bot with its version and commit, and
/// the name of the part that asks.
pub open spec fn spec_user_agent(version: Seq<char>, commit: Seq<char>, client: Seq<char>) -> Seq<
    char,
> {
    "Kon ("@ + version + "-"@ + commit + ") - "@ + client + "/reqwest"@
}

/// Writes the `User-Agent` of a request.
pub fn user_agent(version: &str, commit: &str, client: &str) -> (agent: String)
    ensures
        agent@ == spec_user_agent(version@, commit@, client@),
{
    let mut out: Vec<char> = Vec::new();
    extend_str(&mut out, "Kon (");
    extend_str(&mut out, version);
    extend_str(&mut out, "-");
    extend_str(&mut out, commit);
    extend_str(&mut out, ") - ");
    extend_str(&mut out, client);
    extend_str(&mut out, "/reqwest");
    string_of(&out)
}

/// An answer once its body went through the parser: the status, and the
/// feed that the body holds, if it is a well-formed feed.
#[derive(Clone, Debug, PartialEq, Eq)]
pub struct FetchedFeed {
    pub status: u16,
    pub feed: Option<ParsedFeed>,
}

/// A `FetchedFeed`, with texts as sequences of characters.
pub struct FetchedFeedView {
    pub status: u16,
    pub feed: Option<ParsedFeedView>,
}

impl View for FetchedFeed {
    type V = FetchedFeedView;

    open spec fn view(&self) -> FetchedFeedView {
        FetchedFeedView {
            status: self.status,
            feed: match self.feed {
                Some(feed) => Some(feed@),
                None => None,
            },
        }
    }
}

/// Whether a status is one of success: 200 to 299.
pub open spec fn is_success(status: u16) -> bool {
    200 <= status < 300
}

/// Accepts an answer by its status: any status outside 200 to 299 is a
/// failure that carries the status.
pub fn check_status(status: u16) -> (r: Result<(), FetchError>)
    ensures
        r == if is_success(status) {
            Ok::<(), FetchError>(())
        } else {
            Err::<(), FetchError>(FetchError::Status(status))
        },
{
    if 200 <= status && status < 300 {
        Ok(())
    } else {
        Err(FetchError::Status(status))
    }
}

/// Names the failure of a request that got no answer: a timeout comes
/// before a failed connection, and that before anything else.
pub fn classify_failure(timed_out: bool, connect_failed: bool) -> (error: FetchError)
    ensures
        error == if timed_out {
            FetchError::Timeout
        } else if connect_failed {
            FetchError::Connect
        } else {
            FetchError::Other
        },
{
    if timed_out {
        FetchError::Timeout
    } else if connect_failed {
        FetchError::Connect
    } else {
        FetchError::Other
    }
}

} // verus!
