//! A parsed feed, held as plain values.
//!
//! Parsing itself happens outside this crate; what it yields is handed in
//! as the types of this module.

use crate::text::{opt_text, texts};
use vstd::prelude::*;

verus! {

/// A point in time: seconds since the Unix epoch and the nanoseconds
/// within that second.
#[derive(Clone, Copy, Debug, PartialEq, Eq, Structural)]
pub struct Timestamp {
    pub secs: i64,
    pub nanos: u32,
}

/// A link of a feed or of an entry.
#[derive(Clone, Debug, PartialEq, Eq)]
pub struct FeedLink {
    pub href: String,
    pub title: Option<String>,
}

/// A `FeedLink`, with texts as sequences of characters.
pub struct FeedLinkView {
    pub href: Seq<char>,
    pub title: Option<Seq<char>>,
}

impl View for FeedLink {
    type V = FeedLinkView;

    open spec fn view(&self) -> FeedLinkView {
        FeedLinkView { href: self.href@, title: opt_text(self.title) }
    }
}

/// One entry of a feed.
#[derive(Clone, Debug, PartialEq, Eq)]
pub struct FeedEntry {
    /// The entry's identifier, as the source gives it.
    pub id: String,
    pub title: Option<String>,
    /// The body of the entry's content, possibly HTML.
    pub content: Option<String>,
    pub summary: Option<String>,
    pub updated: Option<Timestamp>,
    /// The terms of the entry's categories, in document order.
    pub categories: Vec<String>,
    pub links: Vec<FeedLink>,
}

/// A `FeedEntry`, with texts as sequences of characters.
pub struct FeedEntryView {
    pub id: Seq<char>,
    pub title: Option<Seq<char>>,
    pub content: Option<Seq<char>>,
    pub summary: Option<Seq<char>>,
    pub updated: Option<Timestamp>,
    pub categories: Seq<Seq<char>>,
    pub links: Seq<FeedLinkView>,
}

impl View for FeedEntry {
    type V = FeedEntryView;

    open spec fn view(&self) -> FeedEntryView {
        FeedEntryView {
            id: self.id@,
            title: opt_text(self.title),
            content: opt_text(self.content),
            summary: opt_text(self.summary),
            updated: self.updated,
            categories: texts(self.categories@),
            links: self.links@.map_values(|l: FeedLink| l@),
        }
    }
}

/// A feed: its own title, logo and links, and its entries, newest first.
#[derive(Clone, Debug, PartialEq, Eq)]
pub struct ParsedFeed {
    pub title: Option<String>,
    /// The address of the feed's logo.
    pub logo: Option<String>,
    pub links: Vec<FeedLink>,
    pub entries: Vec<FeedEntry>,
}

/// A `ParsedFeed`, with texts as sequences of characters.
pub struct ParsedFeedView {
    pub title: Option<Seq<char>>,
    pub logo: Option<Seq<char>>,
    pub links: Seq<FeedLinkView>,
    pub entries: Seq<FeedEntryView>,
}

impl View for ParsedFeed {
    type V = ParsedFeedView;

    open spec fn view(&self) -> ParsedFeedView {
        ParsedFeedView {
            title: opt_text(self.title),
            logo: opt_text(self.logo),
            links: self.links@.map_values(|l: FeedLink| l@),
            entries: self.entries@.map_values(|e: FeedEntry| e@),
        }
    }
}

} // verus!
