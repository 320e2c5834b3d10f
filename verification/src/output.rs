//! What an adapter hands on for delivery.

use crate::feed::Timestamp;
use crate::text::opt_text;
use vstd::prelude::*;

verus! {

/// The author line of an embed.
#[derive(Clone, Debug, PartialEq, Eq)]
pub struct EmbedAuthor {
    pub name: String,
    pub url: String,
}

/// A `EmbedAuthor`, with texts as sequences of characters.
pub struct EmbedAuthorView {
    pub name: Seq<char>,
    pub url: Seq<char>,
}

impl View for EmbedAuthor {
    type V = EmbedAuthorView;

    open spec fn view(&self) -> EmbedAuthorView {
        EmbedAuthorView { name: self.name@, url: self.url@ }
    }
}

/// A rich message, as plain values.
#[derive(Clone, Debug, PartialEq, Eq)]
pub struct Embed {
    pub color: u32,
    pub title: Option<String>,
    pub url: Option<String>,
    pub author: Option<EmbedAuthor>,
    /// The address of a thumbnail image.
    pub thumbnail: Option<String>,
    pub description: String,
    pub timestamp: Timestamp,
}

/// A `Embed`, with texts as sequences of characters.
pub struct EmbedView {
    pub color: u32,
    pub title: Option<Seq<char>>,
    pub url: Option<Seq<char>>,
    pub author: Option<EmbedAuthorView>,
    pub thumbnail: Option<Seq<char>>,
    pub description: Seq<char>,
    pub timestamp: Timestamp,
}

impl View for Embed {
    type V = EmbedView;

    open spec fn view(&self) -> EmbedView {
        EmbedView {
            color: self.color,
            title: opt_text(self.title),
            url: opt_text(self.url),
            author: match self.author {
                Some(a) => Some(a@),
                None => None,
            },
            thumbnail: opt_text(self.thumbnail),
            description: self.description@,
            timestamp: self.timestamp,
        }
    }
}

/// The output of an adapter, by the way it is delivered.
#[derive(Clone, Debug, PartialEq, Eq)]
pub enum RSSFeedOutput {
    /// An embed that is posted and never touched again.
    RegularEmbed(Embed),
    /// An embed that is posted once and edited in place while its incident
    /// lasts.
    IncidentEmbed(Embed),
    /// A short text.
    Content(String),
}

/// A `RSSFeedOutput`, with texts as sequences of characters.
pub enum RSSFeedOutputView {
    RegularEmbed(EmbedView),
    IncidentEmbed(EmbedView),
    Content(Seq<char>),
}

impl View for RSSFeedOutput {
    type V = RSSFeedOutputView;

    open spec fn view(&self) -> RSSFeedOutputView {
        match self {
            RSSFeedOutput::RegularEmbed(e) => RSSFeedOutputView::RegularEmbed(e@),
            RSSFeedOutput::IncidentEmbed(e) => RSSFeedOutputView::IncidentEmbed(e@),
            RSSFeedOutput::Content(c) => RSSFeedOutputView::Content(c@),
        }
    }
}

/// The view of an optional output.
pub open spec fn opt_output(o: Option<RSSFeedOutput>) -> Option<RSSFeedOutputView> {
    match o {
        Some(out) => Some(out@),
        None => None,
    }
}

/// An embed with a title and an address, as the incident sources use it.
pub fn embed(color: u32, title: String, url: String, description: String, timestamp: Timestamp) -> (e:
    Embed)
    ensures
        e@ == (EmbedView {
            color,
            title: Some(title@),
            url: Some(url@),
            author: None,
            thumbnail: None,
            description: description@,
            timestamp,
        }),
{
    Embed {
        color,
        title: Some(title),
        url: Some(url),
        author: None,
        thumbnail: None,
        description,
        timestamp,
    }
}

} // verus!
