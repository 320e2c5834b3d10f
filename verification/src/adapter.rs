//! What the adapters share: how an entry compares with what the cache
//! remembers, and the step that an adapter answers with.

use crate::cache::{apply_ops, cache_get, op_views, CacheOp, CacheOpView, CacheState};
use crate::error::FeedError;
use crate::output::{opt_output, RSSFeedOutput, RSSFeedOutputView};
use crate::text::{opt_text, same_text};
use vstd::prelude::*;

verus! {

/// How the newest entry of a source compares with what the cache remembers.
#[derive(Clone, Copy, Debug, PartialEq, Eq, Structural)]
pub enum Classification {
    /// The cache remembers nothing of the source.
    FirstSeen,
    /// Identifier and content are the ones remembered.
    Unchanged,
    /// The identifier differs: the entry is a new item.
    NewItem,
    /// The identifier is the one remembered and the content differs: the
    /// item was updated.
    Updated,
}

/// Whether the cache remembers nothing under a key: no value, or an empty
/// one.
pub open spec fn is_absent(cached: Option<Seq<char>>) -> bool {
    match cached {
        Some(value) => value.len() == 0,
        None => true,
    }
}

/// A cached value, or the empty text where there is none.
pub open spec fn or_empty(cached: Option<Seq<char>>) -> Seq<char> {
    match cached {
        Some(value) => value,
        None => Seq::empty(),
    }
}

/// The classification by identifier alone.
pub open spec fn spec_classify(cached_id: Option<Seq<char>>, id: Seq<char>) -> Classification {
    if is_absent(cached_id) {
        Classification::FirstSeen
    } else if cached_id->0 == id {
        Classification::Unchanged
    } else {
        Classification::NewItem
    }
}

/// The classification by identifier and content.
pub open spec fn spec_classify_content(
    cached_id: Option<Seq<char>>,
    id: Seq<char>,
    cached_content: Option<Seq<char>>,
    content: Seq<char>,
) -> Classification {
    if is_absent(cached_id) {
        Classification::FirstSeen
    } else if cached_id->0 != id {
        Classification::NewItem
    } else if or_empty(cached_content) == content {
        Classification::Unchanged
    } else {
        Classification::Updated
    }
}

/// Classifies an entry of a source that tracks identifiers only.
pub fn classify(cached_id: &Option<String>, id: &str) -> (c: Classification)
    ensures
        c == spec_classify(opt_text(*cached_id), id@),
{
    match cached_id {
        None => Classification::FirstSeen,
        Some(cached) => {
            if cached.as_str().is_empty() {
                Classification::FirstSeen
            } else if same_text(cached.as_str(), id) {
                Classification::Unchanged
            } else {
                Classification::NewItem
            }
        },
    }
}

/// Classifies an entry of a source that tracks identifiers and content.
pub fn classify_content(
    cached_id: &Option<String>,
    id: &str,
    cached_content: &Option<String>,
    content: &str,
) -> (c: Classification)
    ensures
        c == spec_classify_content(
            opt_text(*cached_id),
            id@,
            opt_text(*cached_content),
            content@,
        ),
{
    match classify(cached_id, id) {
        Classification::Unchanged => {
            let same = match cached_content {
                Some(cached) => same_text(cached.as_str(), content),
                None => content.is_empty(),
            };
            assert(content@.len() == 0 <==> content@ =~= Seq::<char>::empty());
            if same {
                Classification::Unchanged
            } else {
                Classification::Updated
            }
        },
        other => other,
    }
}

/// The answer of an adapter: how the entry was classified, what to show,
/// and what to write to the cache.
#[derive(Clone, Debug, PartialEq, Eq)]
pub struct FeedStep {
    pub classification: Classification,
    pub output: Option<RSSFeedOutput>,
    pub writes: Vec<CacheOp>,
}

/// A `FeedStep`, with texts as sequences of characters.
pub struct FeedStepView {
    pub classification: Classification,
    pub output: Option<RSSFeedOutputView>,
    pub writes: Seq<CacheOpView>,
}

impl View for FeedStep {
    type V = FeedStepView;

    open spec fn view(&self) -> FeedStepView {
        FeedStepView {
            classification: self.classification,
            output: opt_output(self.output),
            writes: op_views(self.writes@),
        }
    }
}

/// The view of what an adapter returns.
pub open spec fn step_view(r: Result<FeedStep, FeedError>) -> Result<FeedStepView, FeedError> {
    match r {
        Ok(step) => Ok(step@),
        Err(e) => Err(e),
    }
}

/// The step that shows nothing and writes nothing.
pub open spec fn silent_step() -> FeedStepView {
    FeedStepView { classification: Classification::Unchanged, output: None, writes: Seq::empty() }
}

/// What a step does, for an entry with identifier `id` and content
/// `content`, to a cache that holds the source's identifier under `id_key`
/// and, where the source tracks content, its content under `content_key`:
///
/// - the entry is classified against what the cache holds;
/// - there is an output exactly where the entry is new or updated;
/// - an unchanged entry writes nothing;
/// - after the writes the cache holds the identifier and, where content is
///   tracked, the content, so that the same entry is unchanged from then on;
/// - no other key is touched.
pub open spec fn step_effect(
    step: FeedStepView,
    cache: CacheState,
    id_key: Seq<char>,
    content_key: Seq<char>,
    tracks_content: bool,
    id: Seq<char>,
    content: Seq<char>,
) -> bool {
    let after = apply_ops(cache, step.writes);
    let cached_id = cache_get(cache, id_key);
    &&& id.len() > 0
    &&& step.classification == if tracks_content {
        spec_classify_content(cached_id, id, cache_get(cache, content_key), content)
    } else {
        spec_classify(cached_id, id)
    }
    &&& step.output is None <==> step.classification is FirstSeen || step.classification is Unchanged
    &&& step.classification is Unchanged ==> step.writes == Seq::<CacheOpView>::empty()
    &&& cache_get(after, id_key) == Some(id)
    &&& step.classification is Updated || step.classification is Unchanged ==> after.contains_key(
        id_key,
    ) && cache.contains_key(id_key) && after[id_key] == cache[id_key]
    &&& tracks_content ==> or_empty(cache_get(after, content_key)) == content
    &&& forall|k: Seq<char>|
        k != id_key && k != content_key ==> after.contains_key(k) == cache.contains_key(k)
            && after[k] == cache[k]
}

} // verus!
