//! The adapter for the G-Portal status page.

use crate::adapter::{step_view, FeedStep, FeedStepView};
use crate::error::{ExtractionError, FeedError, Field};
use crate::feed::{ParsedFeed, ParsedFeedView};
use crate::incident::{incident_step, spec_incident_step};
use crate::text::opt_text;
use vstd::prelude::*;

verus! {

/// The G-Portal status page, a source of incidents.
pub struct GPortal {
    url: String,
}

impl GPortal {
    /// The address that the feed is fetched from.
    pub closed spec fn spec_url(&self) -> Seq<char> {
        self.url@
    }

    /// The source, with the address that its feed is fetched from.
    pub fn new(url: String) -> (source: Self)
        ensures
            source.spec_url() == url@,
    {
        Self { url }
    }

    /// The name of the source, which also names its cache keys.
    pub fn name(&self) -> (name: &'static str)
        ensures
            name@ == "GPortal"@,
    {
        "GPortal"
    }

    /// The address that the feed is fetched from.
    pub fn url(&self) -> (url: &str)
        ensures
            url@ == self.spec_url(),
    {
        self.url.as_str()
    }

    /// The step for a parsed feed: the newest entry is an incident, shown
    /// at the address that the feed's own first link gives. The feed
    /// needs that link only where the incident is shown.
    pub open spec fn spec_process(
        feed: ParsedFeedView,
        cached_id: Option<Seq<char>>,
        cached_content: Option<Seq<char>>,
    ) -> Result<FeedStepView, FeedError> {
        if feed.entries.len() == 0 {
            Err(FeedError::Extraction(ExtractionError::NoEntries))
        } else {
            spec_incident_step(
                "GPortal"@,
                if feed.links.len() > 0 {
                    Some(feed.links[0].href)
                } else {
                    None
                },
                Field::FeedLink,
                feed.entries[0],
                cached_id,
                cached_content,
            )
        }
    }

    /// Decides what to do with a parsed feed, given what the cache holds
    /// under the source's identifier and content keys.
    pub fn process(
        &self,
        feed: &ParsedFeed,
        cached_id: &Option<String>,
        cached_content: &Option<String>,
    ) -> (r: Result<FeedStep, FeedError>)
        ensures
            step_view(r) == Self::spec_process(
                feed@,
                opt_text(*cached_id),
                opt_text(*cached_content),
            ),
    {
        if feed.entries.len() == 0 {
            return Err(FeedError::Extraction(ExtractionError::NoEntries));
        }
        let entry = &feed.entries[0];
        let page = if feed.links.len() > 0 {
            Some(feed.links[0].href.clone())
        } else {
            None
        };
        incident_step(self.name(), &page, Field::FeedLink, entry, cached_id, cached_content)
    }
}

} // verus!
