//! The adapter for the list of ESXi patches.

use crate::adapter::{
    classify, is_absent, or_empty, silent_step, spec_classify, step_effect, step_view, Classification,
    FeedStep, FeedStepView,
};
use crate::cache::{
    cache_get, identifier_key, lemma_apply_save, op_views, push_save, spec_content_key,
    spec_identifier_key, spec_save, CacheOp, CacheState, IDENTIFIER_TTL,
};
use crate::error::{ExtractionError, FeedError, Field};
use crate::feed::{ParsedFeed, ParsedFeedView, Timestamp};
use crate::html::{href_to_discord, link_anchors};
use crate::output::{
    Embed, EmbedAuthor, EmbedAuthorView, EmbedView, RSSFeedOutput, RSSFeedOutputView,
};
use crate::pattern::{capture, regex_capture};
use crate::text::{chars_of, concat3, extend_chars, extend_str, opt_text, string_of};
use vstd::prelude::*;

verus! {

/// The colour of a patch announcement.
pub const PATCH_COLOR: u32 = 0x4EFBCB;

/// A patch level: the word `Update` in any case, white space, a number,
/// and at most one letter.
pub const PATCH_PATTERN: &'static str = r"(?i)Update\s+([0-9]+)([a-z]?)";

/// The patch level made of the number and the letter that were found in
/// a category term: `Update`, a space, the number and the letter. Without
/// a number there is no patch level; without a letter the number stands
/// alone.
pub open spec fn spec_patch_of(number: Option<Seq<char>>, letter: Option<Seq<char>>) -> Option<
    Seq<char>,
> {
    match number {
        Some(number) => Some("Update "@ + number + or_empty(letter)),
        None => None,
    }
}

/// Makes the patch level of the number and the letter that were found.
pub fn patch_of(number: &Option<String>, letter: &Option<String>) -> (patch: Option<String>)
    ensures
        opt_text(patch) == spec_patch_of(opt_text(*number), opt_text(*letter)),
{
    match number {
        Some(number) => {
            let patch = match letter {
                Some(letter) => concat3("Update ", number.as_str(), letter.as_str()),
                None => concat3("Update ", number.as_str(), ""),
            };
            proof {
                reveal_strlit("");
            }
            assert(patch@ =~= "Update "@ + number@ + or_empty(opt_text(*letter)));
            Some(patch)
        },
        None => None,
    }
}

/// The patch level that a category term names.
pub open spec fn spec_patch_version(term: Seq<char>) -> Option<Seq<char>> {
    spec_patch_of(regex_capture(PATCH_PATTERN@, term, 1), regex_capture(PATCH_PATTERN@, term, 2))
}

/// Reads the patch level from a category term.
pub fn get_patch_version(input: &str) -> (patch: Option<String>)
    ensures
        opt_text(patch) == spec_patch_version(input@),
{
    let number = capture(PATCH_PATTERN, input, 1);
    let letter = capture(PATCH_PATTERN, input, 2);
    patch_of(&number, &letter)
}

/// The text of a patch announcement, from the four category terms of the
/// entry and its summary.
pub open spec fn patch_description(categories: Seq<Seq<char>>, summary: Seq<char>) -> Seq<char>
    recommends
        categories.len() >= 4,
{
    categories[2] + " "@ + categories[3] + " for "@ + categories[0] + " "@ + categories[1]
        + " has been rolled out!\n"@ + href_to_discord(summary)
}

fn describe_patch(categories: &Vec<String>, summary: &str) -> (text: String)
    requires
        categories.len() >= 4,
    ensures
        text@ == patch_description(crate::text::texts(categories@), summary@),
{
    let mut out: Vec<char> = Vec::new();
    extend_str(&mut out, categories[2].as_str());
    extend_str(&mut out, " ");
    extend_str(&mut out, categories[3].as_str());
    extend_str(&mut out, " for ");
    extend_str(&mut out, categories[0].as_str());
    extend_str(&mut out, " ");
    extend_str(&mut out, categories[1].as_str());
    extend_str(&mut out, " has been rolled out!\n");
    let linked = link_anchors(&chars_of(summary));
    extend_chars(&mut out, &linked);
    string_of(&out)
}

/// The list of ESXi patches, a source of announcements.
pub struct Esxi {
    url: String,
}

impl Esxi {
    /// The address that the feed is fetched from.
    pub closed spec fn spec_url(&self) -> Seq<char> {
        self.url@
    }

    /// The source, with the address that its feed is fetched from.
    pub fn new(url: String) -> (source: Self)
        ensures
            source.spec_url() == url@,
    {
        Self { url }
    }

    /// The name of the source, which also names its cache key.
    pub fn name(&self) -> (name: &'static str)
        ensures
            name@ == "ESXi"@,
    {
        "ESXi"
    }

    /// The address that the feed is fetched from.
    pub fn url(&self) -> (url: &str)
        ensures
            url@ == self.spec_url(),
    {
        self.url.as_str()
    }

    /// The step for a parsed feed. The patch level, read from the fourth
    /// category of the newest entry, identifies the entry, which needs
    /// four categories; an entry that is new also needs the feed's link,
    /// title and logo, a summary and a time.
    pub open spec fn spec_process(feed: ParsedFeedView, cached_id: Option<Seq<char>>) -> Result<
        FeedStepView,
        FeedError,
    > {
        if feed.entries.len() == 0 {
            Err(FeedError::Extraction(ExtractionError::NoEntries))
        } else if feed.entries[0].categories.len() < 4 {
            Err(FeedError::Extraction(ExtractionError::Missing(Field::Categories)))
        } else if spec_patch_version(feed.entries[0].categories[3]) is None {
            Err(FeedError::Extraction(ExtractionError::NoIdentifier))
        } else {
            let entry = feed.entries[0];
            let patch = spec_patch_version(entry.categories[3])->0;
            let writes = spec_save(spec_identifier_key("ESXi"@), patch, IDENTIFIER_TTL as int);
            match spec_classify(cached_id, patch) {
                Classification::FirstSeen => Ok(
                    FeedStepView { classification: Classification::FirstSeen, output: None, writes },
                ),
                Classification::Unchanged => Ok(silent_step()),
                _ => {
                    if feed.links.len() == 0 {
                        Err(FeedError::Extraction(ExtractionError::Missing(Field::FeedLink)))
                    } else if feed.title is None {
                        Err(FeedError::Extraction(ExtractionError::Missing(Field::FeedTitle)))
                    } else if feed.logo is None {
                        Err(FeedError::Extraction(ExtractionError::Missing(Field::FeedLogo)))
                    } else if entry.summary is None {
                        Err(FeedError::Extraction(ExtractionError::Missing(Field::Summary)))
                    } else if entry.updated is None {
                        Err(FeedError::Extraction(ExtractionError::Missing(Field::Updated)))
                    } else {
                        Ok(
                            FeedStepView {
                                classification: Classification::NewItem,
                                output: Some(
                                    RSSFeedOutputView::RegularEmbed(
                                        EmbedView {
                                            color: PATCH_COLOR,
                                            title: None,
                                            url: None,
                                            author: Some(
                                                EmbedAuthorView {
                                                    name: feed.title->0,
                                                    url: feed.links[0].href,
                                                },
                                            ),
                                            thumbnail: Some(feed.logo->0),
                                            description: patch_description(
                                                entry.categories,
                                                entry.summary->0,
                                            ),
                                            timestamp: entry.updated->0,
                                        },
                                    ),
                                ),
                                writes,
                            },
                        )
                    }
                },
            }
        }
    }

    /// Decides what to do with a parsed feed, given what the cache holds
    /// under the source's identifier key.
    pub fn process(&self, feed: &ParsedFeed, cached_id: &Option<String>) -> (r: Result<
        FeedStep,
        FeedError,
    >)
        ensures
            step_view(r) == Self::spec_process(feed@, opt_text(*cached_id)),
    {
        if feed.entries.len() == 0 {
            return Err(FeedError::Extraction(ExtractionError::NoEntries));
        }
        let entry = &feed.entries[0];
        if entry.categories.len() < 4 {
            return Err(FeedError::Extraction(ExtractionError::Missing(Field::Categories)));
        }
        let patch = match get_patch_version(entry.categories[3].as_str()) {
            Some(patch) => patch,
            None => {
                return Err(FeedError::Extraction(ExtractionError::NoIdentifier));
            },
        };
        let key = identifier_key(self.name());
        let classification = classify(cached_id, patch.as_str());
        let mut writes: Vec<CacheOp> = Vec::new();
        assert(op_views(writes@) =~= Seq::empty());
        match classification {
            Classification::FirstSeen => {
                push_save(&mut writes, key.as_str(), patch.as_str(), IDENTIFIER_TTL);
                Ok(FeedStep { classification, output: None, writes })
            },
            Classification::Unchanged => Ok(FeedStep { classification, output: None, writes }),
            _ => {
                if feed.links.len() == 0 {
                    return Err(FeedError::Extraction(ExtractionError::Missing(Field::FeedLink)));
                }
                let title = match &feed.title {
                    Some(title) => title,
                    None => {
                        return Err(
                            FeedError::Extraction(ExtractionError::Missing(Field::FeedTitle)),
                        );
                    },
                };
                let logo = match &feed.logo {
                    Some(logo) => logo,
                    None => {
                        return Err(
                            FeedError::Extraction(ExtractionError::Missing(Field::FeedLogo)),
                        );
                    },
                };
                let summary = match &entry.summary {
                    Some(summary) => summary,
                    None => {
                        return Err(FeedError::Extraction(ExtractionError::Missing(Field::Summary)));
                    },
                };
                let updated: Timestamp = match entry.updated {
                    Some(updated) => updated,
                    None => {
                        return Err(FeedError::Extraction(ExtractionError::Missing(Field::Updated)));
                    },
                };
                let shown = Embed {
                    color: PATCH_COLOR,
                    title: None,
                    url: None,
                    author: Some(
                        EmbedAuthor { name: title.clone(), url: feed.links[0].href.clone() },
                    ),
                    thumbnail: Some(logo.clone()),
                    description: describe_patch(&entry.categories, summary.as_str()),
                    timestamp: updated,
                };
                push_save(&mut writes, key.as_str(), patch.as_str(), IDENTIFIER_TTL);
                Ok(
                    FeedStep {
                        classification: Classification::NewItem,
                        output: Some(RSSFeedOutput::RegularEmbed(shown)),
                        writes,
                    },
                )
            },
        }
    }
}

/// What a step of this source does to the cache. A feed that shows a
/// patch level always has a step, where the cache holds nothing of the
/// source.
pub proof fn lemma_esxi_step_effect(feed: ParsedFeedView, cache: CacheState)
    ensures
        feed.entries.len() > 0 && feed.entries[0].categories.len() >= 4 && spec_patch_version(
            feed.entries[0].categories[3],
        ) is Some && is_absent(cache_get(cache, spec_identifier_key("ESXi"@)))
            ==> Esxi::spec_process(feed, cache_get(cache, spec_identifier_key("ESXi"@))) is Ok,
        Esxi::spec_process(feed, cache_get(cache, spec_identifier_key("ESXi"@))) matches Ok(step)
            ==> {
            &&& feed.entries.len() > 0
            &&& feed.entries[0].categories.len() >= 4
            &&& spec_patch_version(feed.entries[0].categories[3]) is Some
            &&& step_effect(
                step,
                cache,
                spec_identifier_key("ESXi"@),
                spec_content_key("ESXi"@),
                false,
                spec_patch_version(feed.entries[0].categories[3])->0,
                Seq::empty(),
            )
        },
{
    let key = spec_identifier_key("ESXi"@);
    let r = Esxi::spec_process(feed, cache_get(cache, key));
    if r is Ok {
        let patch = spec_patch_version(feed.entries[0].categories[3])->0;
        reveal_strlit("Update ");
        lemma_apply_save(cache, key, patch, IDENTIFIER_TTL as int);
    }
}

} // verus!
