//! The adapter for the Rust blog.

use crate::adapter::{
    classify, is_absent, silent_step, spec_classify, step_effect, step_view, Classification, FeedStep,
    FeedStepView,
};
use crate::cache::{
    cache_get, identifier_key, lemma_apply_save, op_views, push_save, spec_content_key,
    spec_identifier_key, spec_save, CacheOp, CacheState, IDENTIFIER_TTL,
};
use crate::error::{ExtractionError, FeedError, Field};
use crate::feed::{ParsedFeed, ParsedFeedView};
use crate::output::{RSSFeedOutput, RSSFeedOutputView};
use crate::pattern::{capture, regex_capture};
use crate::text::{extend_str, opt_text, string_of};
use vstd::prelude::*;

verus! {

/// The address of an article: the blog's address, then the date as year,
/// month and day, and the article's name.
pub const BLOG_PATTERN: &'static str = r"https://blog\.rust-lang\.org/(\d{4}/\d{2}/\d{2}/[^/]+)";

/// The identifier of an article, given the date and name that were found
/// in its address: what was found, unless it is empty.
pub open spec fn spec_blog_title_of(found: Option<Seq<char>>) -> Option<Seq<char>> {
    match found {
        Some(title) => if title.len() > 0 {
            Some(title)
        } else {
            None
        },
        None => None,
    }
}

/// Makes the identifier of an article of what was found in its address.
pub fn blog_title_of(found: Option<String>) -> (title: Option<String>)
    ensures
        opt_text(title) == spec_blog_title_of(opt_text(found)),
{
    match found {
        Some(title) => if title.as_str().is_empty() {
            None
        } else {
            Some(title)
        },
        None => None,
    }
}

/// The date and name of the article at the address `id`, if it shows them.
pub open spec fn spec_blog_title(id: Seq<char>) -> Option<Seq<char>> {
    spec_blog_title_of(regex_capture(BLOG_PATTERN@, id, 1))
}

/// Reads the date and name of an article from its address.
pub fn get_blog_title(input: &str) -> (title: Option<String>)
    ensures
        opt_text(title) == spec_blog_title(input@),
{
    blog_title_of(capture(BLOG_PATTERN, input, 1))
}

/// The announcement of an article.
pub open spec fn article_message(title: Seq<char>, href: Seq<char>) -> Seq<char> {
    "Rust Team has put out a new article!\n**["@ + title + "](<"@ + href + ">)**"@
}

fn announce_article(title: &str, href: &str) -> (text: String)
    ensures
        text@ == article_message(title@, href@),
{
    let mut out: Vec<char> = Vec::new();
    extend_str(&mut out, "Rust Team has put out a new article!\n**[");
    extend_str(&mut out, title);
    extend_str(&mut out, "](<");
    extend_str(&mut out, href);
    extend_str(&mut out, ">)**");
    string_of(&out)
}

/// The Rust blog, a source of announcements.
pub struct RustBlog {
    url: String,
}

impl RustBlog {
    /// The address that the feed is fetched from.
    pub closed spec fn spec_url(&self) -> Seq<char> {
        self.url@
    }

    /// The source, with the address that its feed is fetched from.
    pub fn new(url: String) -> (source: Self)
        ensures
            source.spec_url() == url@,
    {
        Self { url }
    }

    /// The name of the source, which also names its cache key.
    pub fn name(&self) -> (name: &'static str)
        ensures
            name@ == "RustBlog"@,
    {
        "RustBlog"
    }

    /// The address that the feed is fetched from.
    pub fn url(&self) -> (url: &str)
        ensures
            url@ == self.spec_url(),
    {
        self.url.as_str()
    }

    /// The step for a parsed feed. The date and name in the identifier of
    /// the newest entry identify it. An entry that is new also needs a
    /// link with a title.
    pub open spec fn spec_process(feed: ParsedFeedView, cached_id: Option<Seq<char>>) -> Result<
        FeedStepView,
        FeedError,
    > {
        if feed.entries.len() == 0 {
            Err(FeedError::Extraction(ExtractionError::NoEntries))
        } else if spec_blog_title(feed.entries[0].id) is None {
            Err(FeedError::Extraction(ExtractionError::NoIdentifier))
        } else {
            let entry = feed.entries[0];
            let title = spec_blog_title(entry.id)->0;
            let writes = spec_save(spec_identifier_key("RustBlog"@), title, IDENTIFIER_TTL as int);
            match spec_classify(cached_id, title) {
                Classification::FirstSeen => Ok(
                    FeedStepView { classification: Classification::FirstSeen, output: None, writes },
                ),
                Classification::Unchanged => Ok(silent_step()),
                _ => {
                    if entry.links.len() == 0 {
                        Err(FeedError::Extraction(ExtractionError::Missing(Field::Link)))
                    } else if entry.links[0].title is None {
                        Err(FeedError::Extraction(ExtractionError::Missing(Field::LinkTitle)))
                    } else {
                        Ok(
                            FeedStepView {
                                classification: Classification::NewItem,
                                output: Some(
                                    RSSFeedOutputView::Content(
                                        article_message(
                                            entry.links[0].title->0,
                                            entry.links[0].href,
                                        ),
                                    ),
                                ),
                                writes,
                            },
                        )
                    }
                },
            }
        }
    }

    /// Decides what to do with a parsed feed, given what the cache holds
    /// under the source's identifier key.
    pub fn process(&self, feed: &ParsedFeed, cached_id: &Option<String>) -> (r: Result<
        FeedStep,
        FeedError,
    >)
        ensures
            step_view(r) == Self::spec_process(feed@, opt_text(*cached_id)),
    {
        if feed.entries.len() == 0 {
            return Err(FeedError::Extraction(ExtractionError::NoEntries));
        }
        let entry = &feed.entries[0];
        let title = match get_blog_title(entry.id.as_str()) {
            Some(title) => title,
            None => {
                return Err(FeedError::Extraction(ExtractionError::NoIdentifier));
            },
        };
        let key = identifier_key(self.name());
        let classification = classify(cached_id, title.as_str());
        let mut writes: Vec<CacheOp> = Vec::new();
        assert(op_views(writes@) =~= Seq::empty());
        match classification {
            Classification::FirstSeen => {
                push_save(&mut writes, key.as_str(), title.as_str(), IDENTIFIER_TTL);
                Ok(FeedStep { classification, output: None, writes })
            },
            Classification::Unchanged => Ok(FeedStep { classification, output: None, writes }),
            _ => {
                if entry.links.len() == 0 {
                    return Err(FeedError::Extraction(ExtractionError::Missing(Field::Link)));
                }
                let link = &entry.links[0];
                let link_title = match &link.title {
                    Some(link_title) => link_title,
                    None => {
                        return Err(
                            FeedError::Extraction(ExtractionError::Missing(Field::LinkTitle)),
                        );
                    },
                };
                let text = announce_article(link_title.as_str(), link.href.as_str());
                push_save(&mut writes, key.as_str(), title.as_str(), IDENTIFIER_TTL);
                Ok(
                    FeedStep {
                        classification: Classification::NewItem,
                        output: Some(RSSFeedOutput::Content(text)),
                        writes,
                    },
                )
            },
        }
    }
}

/// What a step of this source does to the cache. A feed that shows an
/// identifier always has a step, where the cache holds nothing of the
/// source.
pub proof fn lemma_rust_step_effect(feed: ParsedFeedView, cache: CacheState)
    ensures
        feed.entries.len() > 0 && spec_blog_title(feed.entries[0].id) is Some && is_absent(
            cache_get(cache, spec_identifier_key("RustBlog"@)),
        ) ==> RustBlog::spec_process(feed, cache_get(cache, spec_identifier_key("RustBlog"@)))
            is Ok,
        RustBlog::spec_process(feed, cache_get(cache, spec_identifier_key("RustBlog"@))) matches Ok(
            step,
        ) ==> {
            &&& feed.entries.len() > 0
            &&& spec_blog_title(feed.entries[0].id) is Some
            &&& step_effect(
                step,
                cache,
                spec_identifier_key("RustBlog"@),
                spec_content_key("RustBlog"@),
                false,
                spec_blog_title(feed.entries[0].id)->0,
                Seq::empty(),
            )
        },
{
    let key = spec_identifier_key("RustBlog"@);
    let r = RustBlog::spec_process(feed, cache_get(cache, key));
    if r is Ok {
        let title = spec_blog_title(feed.entries[0].id)->0;
        lemma_apply_save(cache, key, title, IDENTIFIER_TTL as int);
    }
}

} // verus!
