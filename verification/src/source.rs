//! The sources that are watched, each with its adapter, and what holds of
//! every one of them from one call to the next.

use crate::adapter::{
    is_absent, or_empty, silent_step, step_effect, step_view, FeedStep, FeedStepView,
};
use crate::cache::{
    apply_ops, cache_get, content_key, elapse, lemma_apply_concat, lemma_apply_one,
    lemma_apply_save, lemma_keys_differ, op_views, slot_key, spec_content_key,
    spec_identifier_key, spec_save, spec_slot_key, CacheOp, CacheOpView, CacheState,
    CONTENT_TTL, IDENTIFIER_TTL,
};
use crate::delivery::{Answers, Delivery, DeliveryActionView, DeliveryView};
use crate::error::{FeedError, FetchError, Field};
use crate::esxi::{lemma_esxi_step_effect, spec_patch_version, Esxi};
use crate::feed::{ParsedFeed, ParsedFeedView};
use crate::github::GitHub;
use crate::gportal::GPortal;
use crate::http::{check_status, is_success, FetchedFeed, FetchedFeedView};
use crate::incident::{lemma_incident_step_effect, spec_entry_content, spec_incident_id};
use crate::output::RSSFeedOutputView;
use crate::rust::{lemma_rust_step_effect, spec_blog_title, RustBlog};
use crate::text::opt_text;
use vstd::prelude::*;

verus! {

/// What is to be done with the step of an adapter.
pub enum StepPlan {
    /// Nothing is shown: the writes are made at once.
    Write { writes: Vec<CacheOp> },
    /// The output is delivered, and the writes are made with the delivery.
    Deliver { delivery: Delivery },
}

/// A `StepPlan`, with texts as sequences of characters.
pub enum StepPlanView {
    Write { writes: Seq<CacheOpView> },
    Deliver { delivery: DeliveryView },
}

impl View for StepPlan {
    type V = StepPlanView;

    open spec fn view(&self) -> StepPlanView {
        match self {
            StepPlan::Write { writes } => StepPlanView::Write { writes: op_views(writes@) },
            StepPlan::Deliver { delivery } => StepPlanView::Deliver { delivery: delivery@ },
        }
    }
}

/// A source with its adapter.
pub enum FeedSource {
    Esxi(Esxi),
    GitHub(GitHub),
    GPortal(GPortal),
    RustBlog(RustBlog),
}

impl FeedSource {
    /// The name of the source.
    pub open spec fn spec_name(&self) -> Seq<char> {
        match self {
            FeedSource::Esxi(_) => "ESXi"@,
            FeedSource::GitHub(_) => "GitHub"@,
            FeedSource::GPortal(_) => "GPortal"@,
            FeedSource::RustBlog(_) => "RustBlog"@,
        }
    }

    /// The address that the feed is fetched from.
    pub open spec fn spec_url(&self) -> Seq<char> {
        match self {
            FeedSource::Esxi(s) => s.spec_url(),
            FeedSource::GitHub(s) => s.spec_url(),
            FeedSource::GPortal(s) => s.spec_url(),
            FeedSource::RustBlog(s) => s.spec_url(),
        }
    }

    /// Whether the source reports incidents, whose content is tracked
    /// beside their identifier.
    pub open spec fn spec_tracks_content(&self) -> bool {
        self is GitHub || self is GPortal
    }

    /// The step of the source's adapter. A source that tracks identifiers
    /// only takes no account of `cached_content`.
    pub open spec fn spec_process(
        &self,
        feed: ParsedFeedView,
        cached_id: Option<Seq<char>>,
        cached_content: Option<Seq<char>>,
    ) -> Result<FeedStepView, FeedError> {
        match self {
            FeedSource::Esxi(_) => Esxi::spec_process(feed, cached_id),
            FeedSource::GitHub(_) => GitHub::spec_process(feed, cached_id, cached_content),
            FeedSource::GPortal(_) => GPortal::spec_process(feed, cached_id, cached_content),
            FeedSource::RustBlog(_) => RustBlog::spec_process(feed, cached_id),
        }
    }

    /// The name of the source, which also names its cache keys.
    pub fn name(&self) -> (name: &'static str)
        ensures
            name@ == self.spec_name(),
    {
        match self {
            FeedSource::Esxi(s) => s.name(),
            FeedSource::GitHub(s) => s.name(),
            FeedSource::GPortal(s) => s.name(),
            FeedSource::RustBlog(s) => s.name(),
        }
    }

    /// The address that the feed is fetched from.
    pub fn url(&self) -> (url: &str)
        ensures
            url@ == self.spec_url(),
    {
        match self {
            FeedSource::Esxi(s) => s.url(),
            FeedSource::GitHub(s) => s.url(),
            FeedSource::GPortal(s) => s.url(),
            FeedSource::RustBlog(s) => s.url(),
        }
    }

    /// Whether the adapter wants to know what the cache holds under the
    /// source's content key.
    pub fn tracks_content(&self) -> (tracks: bool)
        ensures
            tracks == self.spec_tracks_content(),
    {
        match self {
            FeedSource::GitHub(_) | FeedSource::GPortal(_) => true,
            _ => false,
        }
    }

    /// Decides what to do with a parsed feed, given what the cache holds
    /// under the source's identifier and content keys.
    pub fn process(
        &self,
        feed: &ParsedFeed,
        cached_id: &Option<String>,
        cached_content: &Option<String>,
    ) -> (r: Result<FeedStep, FeedError>)
        ensures
            step_view(r) == self.spec_process(
                feed@,
                opt_text(*cached_id),
                opt_text(*cached_content),
            ),
    {
        match self {
            FeedSource::Esxi(s) => s.process(feed, cached_id),
            FeedSource::GitHub(s) => s.process(feed, cached_id, cached_content),
            FeedSource::GPortal(s) => s.process(feed, cached_id, cached_content),
            FeedSource::RustBlog(s) => s.process(feed, cached_id),
        }
    }

    /// The step for what a request for the feed brought back: a request
    /// that failed and an answer with a status outside 200 to 299 are
    /// failures of the fetch; a body that is no well-formed feed is a
    /// failure of the parse; a feed is handled by the adapter.
    pub open spec fn spec_process_fetched(
        &self,
        fetched: Result<FetchedFeedView, FetchError>,
        cached_id: Option<Seq<char>>,
        cached_content: Option<Seq<char>>,
    ) -> Result<FeedStepView, FeedError> {
        match fetched {
            Err(e) => Err(FeedError::Fetch(e)),
            Ok(answer) => if !is_success(answer.status) {
                Err(FeedError::Fetch(FetchError::Status(answer.status)))
            } else {
                match answer.feed {
                    None => Err(FeedError::Parse),
                    Some(feed) => self.spec_process(feed, cached_id, cached_content),
                }
            },
        }
    }

    /// Handles what a request for the feed brought back.
    pub fn process_fetched(
        &self,
        fetched: &Result<FetchedFeed, FetchError>,
        cached_id: &Option<String>,
        cached_content: &Option<String>,
    ) -> (r: Result<FeedStep, FeedError>)
        ensures
            step_view(r) == self.spec_process_fetched(
                match *fetched {
                    Ok(answer) => Ok(answer@),
                    Err(e) => Err(e),
                },
                opt_text(*cached_id),
                opt_text(*cached_content),
            ),
    {
        match fetched {
            Err(e) => Err(FeedError::Fetch(*e)),
            Ok(answer) => match check_status(answer.status) {
                Err(e) => Err(FeedError::Fetch(e)),
                Ok(_) => match &answer.feed {
                    None => Err(FeedError::Parse),
                    Some(feed) => self.process(feed, cached_id, cached_content),
                },
            },
        }
    }

    /// What is to be done with a step of this source: a step without
    /// output has its writes made at once; a step with an output is
    /// delivered, with the keys of this source, and its writes wait for
    /// the delivery.
    pub open spec fn spec_plan(&self, step: FeedStepView) -> StepPlanView {
        match step.output {
            None => StepPlanView::Write { writes: step.writes },
            Some(output) => StepPlanView::Deliver {
                delivery: DeliveryView {
                    output,
                    slot_key: spec_slot_key(self.spec_name()),
                    content_key: spec_content_key(self.spec_name()),
                    pending: step.writes,
                },
            },
        }
    }

    /// Says what is to be done with a step of this source.
    pub fn plan(&self, step: FeedStep) -> (plan: StepPlan)
        ensures
            plan@ == self.spec_plan(step@),
    {
        match step.output {
            None => StepPlan::Write { writes: step.writes },
            Some(output) => StepPlan::Deliver {
                delivery: Delivery::new(
                    output,
                    slot_key(self.name()),
                    content_key(self.name()),
                    step.writes,
                ),
            },
        }
    }

    /// The identifier that the adapter reads from the newest entry of a
    /// feed, where the feed shows one.
    pub open spec fn spec_identifier(&self, feed: ParsedFeedView) -> Option<Seq<char>> {
        if feed.entries.len() == 0 {
            None
        } else {
            let entry = feed.entries[0];
            match self {
                FeedSource::Esxi(_) => if entry.categories.len() >= 4 {
                    spec_patch_version(entry.categories[3])
                } else {
                    None
                },
                FeedSource::GitHub(_) | FeedSource::GPortal(_) => if entry.links.len() > 0 {
                    spec_incident_id(entry.links[0].href)
                } else {
                    None
                },
                FeedSource::RustBlog(_) => spec_blog_title(entry.id),
            }
        }
    }

    /// The content that the adapter of a source of incidents reads from
    /// the newest entry of a feed.
    pub open spec fn spec_content(&self, feed: ParsedFeedView) -> Option<Seq<char>> {
        if self.spec_tracks_content() && feed.entries.len() > 0 {
            Some(spec_entry_content(feed.entries[0]))
        } else {
            None
        }
    }

    /// The step of the adapter when it reads its two keys from `cache`.
    pub open spec fn spec_run(&self, feed: ParsedFeedView, cache: CacheState) -> Result<
        FeedStepView,
        FeedError,
    > {
        self.spec_process(
            feed,
            cache_get(cache, spec_identifier_key(self.spec_name())),
            cache_get(cache, spec_content_key(self.spec_name())),
        )
    }

    /// The cache once the writes of that step are made; a step that fails
    /// writes nothing.
    pub open spec fn spec_cache_after(&self, feed: ParsedFeedView, cache: CacheState) -> CacheState {
        match self.spec_run(feed, cache) {
            Ok(step) => apply_ops(cache, step.writes),
            Err(_) => cache,
        }
    }
}

impl FeedSource {
    /// What a step that succeeds does to the cache: see `step_effect`.
    pub proof fn lemma_run_effect(&self, feed: ParsedFeedView, cache: CacheState)
        ensures
            self.spec_run(feed, cache) matches Ok(step) ==> {
                &&& self.spec_identifier(feed) is Some
                &&& self.spec_tracks_content() ==> self.spec_content(feed) is Some
                &&& step_effect(
                    step,
                    cache,
                    spec_identifier_key(self.spec_name()),
                    spec_content_key(self.spec_name()),
                    self.spec_tracks_content(),
                    self.spec_identifier(feed)->0,
                    or_empty(self.spec_content(feed)),
                )
            },
            self.spec_identifier(feed) is Some && is_absent(
                cache_get(cache, spec_identifier_key(self.spec_name())),
            ) ==> self.spec_run(feed, cache) is Ok,
    {
        match self {
            FeedSource::Esxi(_) => lemma_esxi_step_effect(feed, cache),
            FeedSource::GitHub(_) => {
                if feed.entries.len() > 0 && feed.entries[0].links.len() > 0 {
                    lemma_incident_step_effect(
                        "GitHub"@,
                        Some(feed.entries[0].links[0].href),
                        Field::Link,
                        feed.entries[0],
                        cache,
                    );
                }
            },
            FeedSource::GPortal(_) => {
                if feed.entries.len() > 0 {
                    lemma_incident_step_effect(
                        "GPortal"@,
                        if feed.links.len() > 0 {
                            Some(feed.links[0].href)
                        } else {
                            None
                        },
                        Field::FeedLink,
                        feed.entries[0],
                        cache,
                    );
                }
            },
            FeedSource::RustBlog(_) => lemma_rust_step_effect(feed, cache),
        }
    }

    /// A feed that was just handled is unchanged: handled again, with the
    /// cache as the first call left it, it gives no output and no write.
    /// A feed that failed fails again in the same way and writes nothing
    /// either.
    pub proof fn lemma_same_feed_is_silent(&self, feed: ParsedFeedView, cache: CacheState)
        ensures
            match self.spec_run(feed, cache) {
                Ok(_) => self.spec_run(feed, self.spec_cache_after(feed, cache)) == Ok::<
                    FeedStepView,
                    FeedError,
                >(silent_step()),
                Err(e) => self.spec_run(feed, self.spec_cache_after(feed, cache)) == Err::<
                    FeedStepView,
                    FeedError,
                >(e),
            },
            self.spec_cache_after(feed, self.spec_cache_after(feed, cache))
                == self.spec_cache_after(feed, cache),
    {
        self.lemma_run_effect(feed, cache);
    }

    /// A source of which the cache holds nothing gives no output, whatever
    /// the feed holds: where the newest entry shows an identifier, it is
    /// stored, with the content where content is tracked; where it shows
    /// none, the step fails and writes nothing.
    pub proof fn lemma_first_sight_is_silent(&self, feed: ParsedFeedView, cache: CacheState)
        requires
            is_absent(cache_get(cache, spec_identifier_key(self.spec_name()))),
        ensures
            match self.spec_run(feed, cache) {
                Ok(step) => {
                    let after = self.spec_cache_after(feed, cache);
                    let slot_key = spec_slot_key(self.spec_name());
                    &&& self.spec_identifier(feed) is Some
                    &&& step.classification is FirstSeen
                    &&& step.output is None
                    &&& cache_get(after, spec_identifier_key(self.spec_name()))
                        == self.spec_identifier(feed)
                    &&& !is_absent(cache_get(after, spec_identifier_key(self.spec_name())))
                    &&& self.spec_tracks_content() ==> or_empty(
                        cache_get(after, spec_content_key(self.spec_name())),
                    ) == self.spec_content(feed)->0
                    &&& cache_get(after, slot_key) == cache_get(cache, slot_key)
                },
                Err(_) => self.spec_identifier(feed) is None && self.spec_cache_after(feed, cache)
                    == cache,
            },
    {
        self.lemma_run_effect(feed, cache);
        lemma_keys_differ(self.spec_name());
    }

    /// An entry whose identifier differs from the one in the cache gives
    /// an output, and the cache then holds the new identifier; handled
    /// again, the same feed gives no second output.
    pub proof fn lemma_new_identifier_shows_once(&self, feed: ParsedFeedView, cache: CacheState)
        requires
            !is_absent(cache_get(cache, spec_identifier_key(self.spec_name()))),
            cache_get(cache, spec_identifier_key(self.spec_name())) != self.spec_identifier(feed),
        ensures
            self.spec_run(feed, cache) matches Ok(step) ==> {
                let after = self.spec_cache_after(feed, cache);
                &&& step.classification is NewItem
                &&& step.output is Some
                &&& cache_get(after, spec_identifier_key(self.spec_name())) == self.spec_identifier(
                    feed,
                )
                &&& self.spec_run(feed, after) == Ok::<FeedStepView, FeedError>(silent_step())
            },
    {
        self.lemma_run_effect(feed, cache);
        if self.spec_run(feed, cache) is Ok {
            self.lemma_same_feed_is_silent(feed, cache);
        }
    }

    /// For a source of incidents, an entry with the cached identifier and
    /// other content is an update: the output is an embed that is edited
    /// in place, the new content is stored, and neither the identifier
    /// nor the message slot is written.
    pub proof fn lemma_content_change_is_update(&self, feed: ParsedFeedView, cache: CacheState)
        requires
            self.spec_tracks_content(),
            !is_absent(cache_get(cache, spec_identifier_key(self.spec_name()))),
            cache_get(cache, spec_identifier_key(self.spec_name())) == self.spec_identifier(feed),
            self.spec_content(feed) is Some,
            or_empty(cache_get(cache, spec_content_key(self.spec_name()))) != self.spec_content(
                feed,
            )->0,
        ensures
            self.spec_run(feed, cache) matches Ok(step) ==> {
                let after = self.spec_cache_after(feed, cache);
                let id_key = spec_identifier_key(self.spec_name());
                let slot_key = spec_slot_key(self.spec_name());
                &&& step.classification is Updated
                &&& step.output matches Some(RSSFeedOutputView::IncidentEmbed(_))
                &&& cache_get(after, spec_content_key(self.spec_name())) == self.spec_content(feed)
                &&& after.contains_key(id_key) && after[id_key] == cache[id_key]
                &&& after.contains_key(slot_key) == cache.contains_key(slot_key)
                &&& after[slot_key] == cache[slot_key]
            },
    {
        self.lemma_run_effect(feed, cache);
        lemma_keys_differ(self.spec_name());
        if self.spec_run(feed, cache) is Ok {
            let content = self.spec_content(feed)->0;
            lemma_apply_save(
                cache,
                spec_content_key(self.spec_name()),
                content,
                CONTENT_TTL as int,
            );
        }
    }

    /// The cache after this source had its turn in a tick: a failure
    /// leaves it as it was; a step without output has its writes made; a
    /// step with an output is delivered, with the answers given, and the
    /// writes are the ones that the delivery ends with.
    pub open spec fn spec_cache_after_tick(
        &self,
        feed: ParsedFeedView,
        cache: CacheState,
        answers: Answers,
    ) -> CacheState {
        match self.spec_run(feed, cache) {
            Err(_) => cache,
            Ok(step) => match self.spec_plan(step) {
                StepPlanView::Write { writes } => apply_ops(cache, writes),
                StepPlanView::Deliver { delivery } => match delivery.actions(answers).last() {
                    DeliveryActionView::Finish { writes, .. } => apply_ops(cache, writes),
                    _ => cache,
                },
            },
        }
    }

    /// What the cache remembers of a source fades: once the time to live
    /// of an identifier has gone by since it was stored, the source counts
    /// as never seen, and its newest entry is stored without being shown.
    pub proof fn lemma_expired_source_is_first_seen(
        &self,
        feed: ParsedFeedView,
        next_feed: ParsedFeedView,
        cache: CacheState,
        elapsed: int,
    )
        requires
            self.spec_run(feed, cache) matches Ok(step) && (step.classification is FirstSeen
                || step.classification is NewItem),
            elapsed >= IDENTIFIER_TTL,
        ensures
            cache_get(
                elapse(self.spec_cache_after(feed, cache), elapsed),
                spec_identifier_key(self.spec_name()),
            ) is None,
            self.spec_run(next_feed, elapse(self.spec_cache_after(feed, cache), elapsed)) matches Ok(
                step,
            ) ==> step.classification is FirstSeen && step.output is None,
    {
        let key = spec_identifier_key(self.spec_name());
        let content = spec_content_key(self.spec_name());
        let id = self.spec_identifier(feed)->0;
        let step = self.spec_run(feed, cache)->Ok_0;
        self.lemma_run_effect(feed, cache);
        lemma_keys_differ(self.spec_name());
        let saved = spec_save(key, id, IDENTIFIER_TTL as int);
        lemma_apply_save(cache, key, id, IDENTIFIER_TTL as int);
        if self.spec_tracks_content() {
            let text = self.spec_content(feed)->0;
            if step.classification is FirstSeen {
                let more = spec_save(content, text, IDENTIFIER_TTL as int);
                lemma_apply_concat(cache, saved, more);
                lemma_apply_save(apply_ops(cache, saved), content, text, IDENTIFIER_TTL as int);
            } else {
                let put = CacheOpView::Put { key: content, value: text };
                assert(saved.push(put) =~= saved + seq![put]);
                lemma_apply_concat(cache, saved, seq![put]);
                lemma_apply_one(apply_ops(cache, saved), put);
            }
        }
        let after = elapse(self.spec_cache_after(feed, cache), elapsed);
        self.lemma_first_sight_is_silent(next_feed, after);
    }

    /// How the turn of this source in a tick ends: with the failure of the
    /// adapter or of the delivery, or well.
    pub open spec fn spec_turn_outcome(
        &self,
        feed: ParsedFeedView,
        cache: CacheState,
        answers: Answers,
    ) -> Result<(), FeedError> {
        match self.spec_run(feed, cache) {
            Err(e) => Err(e),
            Ok(step) => match self.spec_plan(step) {
                StepPlanView::Write { .. } => Ok(()),
                StepPlanView::Deliver { delivery } => match delivery.actions(answers).last() {
                    DeliveryActionView::Finish { result: Err(e), .. } => Err(
                        FeedError::Delivery(e),
                    ),
                    _ => Ok(()),
                },
            },
        }
    }

    /// A turn that ends well settles the feed: with the cache as the turn
    /// left it, the same feed gives no output and no write. A turn that
    /// fails leaves the cache as it was, so that the next tick takes the
    /// same step again.
    pub proof fn lemma_turn_settles(
        &self,
        feed: ParsedFeedView,
        cache: CacheState,
        answers: Answers,
    )
        ensures
            match self.spec_turn_outcome(feed, cache, answers) {
                Ok(_) => self.spec_run(feed, self.spec_cache_after_tick(feed, cache, answers))
                    == Ok::<FeedStepView, FeedError>(silent_step()),
                Err(_) => self.spec_cache_after_tick(feed, cache, answers) == cache,
            },
    {
        self.lemma_same_feed_is_silent(feed, cache);
        lemma_keys_differ(self.spec_name());
        if self.spec_run(feed, cache) is Ok {
            let step = self.spec_run(feed, cache)->Ok_0;
            if self.spec_plan(step) is Deliver {
                let delivery = self.spec_plan(step)->delivery;
                delivery.lemma_delivery_finishes(answers);
                delivery.lemma_delivery_keeps_pending(answers, cache);
            }
        }
    }

    /// The keys of two sources differ.
    pub proof fn lemma_source_keys_differ(&self, other: &FeedSource)
        requires
            self.spec_name() != other.spec_name(),
        ensures
            ({
                let mine = set![
                    spec_identifier_key(self.spec_name()),
                    spec_content_key(self.spec_name()),
                    spec_slot_key(self.spec_name()),
                ];
                let theirs = set![
                    spec_identifier_key(other.spec_name()),
                    spec_content_key(other.spec_name()),
                    spec_slot_key(other.spec_name()),
                ];
                forall|key: Seq<char>| !(mine.contains(key) && theirs.contains(key))
            }),
    {
        reveal_strlit("ESXi");
        reveal_strlit("GitHub");
        reveal_strlit("GPortal");
        reveal_strlit("RustBlog");
        let a = self.spec_name();
        let b = other.spec_name();
        assert(a.len() >= 4 && b.len() >= 4);
        assert(a[0] != b[0] || a[1] != b[1]);
        assert(spec_identifier_key(a)[4] == a[0] && spec_identifier_key(a)[5] == a[1]);
        assert(spec_content_key(a)[4] == a[0] && spec_content_key(a)[5] == a[1]);
        assert(spec_slot_key(a)[4] == a[0] && spec_slot_key(a)[5] == a[1]);
        assert(spec_identifier_key(b)[4] == b[0] && spec_identifier_key(b)[5] == b[1]);
        assert(spec_content_key(b)[4] == b[0] && spec_content_key(b)[5] == b[1]);
        assert(spec_slot_key(b)[4] == b[0] && spec_slot_key(b)[5] == b[1]);
    }

    /// The sources are independent: whatever happens in the turn of one
    /// source, the step of another is the one it would have taken anyway.
    pub proof fn lemma_sources_are_independent(
        &self,
        other: &FeedSource,
        feed: ParsedFeedView,
        other_feed: ParsedFeedView,
        cache: CacheState,
        answers: Answers,
    )
        requires
            self.spec_name() != other.spec_name(),
        ensures
            other.spec_run(other_feed, self.spec_cache_after_tick(feed, cache, answers))
                == other.spec_run(other_feed, cache),
    {
        self.lemma_source_keys_differ(other);
        self.lemma_run_effect(feed, cache);
        lemma_keys_differ(self.spec_name());
        let after = self.spec_cache_after_tick(feed, cache, answers);
        let id_key = spec_identifier_key(other.spec_name());
        let content_key = spec_content_key(other.spec_name());
        let mine = set![
            spec_identifier_key(self.spec_name()),
            spec_content_key(self.spec_name()),
            spec_slot_key(self.spec_name()),
        ];
        let theirs = set![id_key, content_key, spec_slot_key(other.spec_name())];
        assert(theirs.contains(id_key) && theirs.contains(content_key));
        assert(!mine.contains(id_key) && !mine.contains(content_key));
        if self.spec_run(feed, cache) is Ok {
            let step = self.spec_run(feed, cache)->Ok_0;
            if self.spec_plan(step) is Deliver {
                let delivery = self.spec_plan(step)->delivery;
                delivery.lemma_delivery_finishes(answers);
                delivery.lemma_delivery_keeps_pending(answers, cache);
            }
        }
        assert(cache_get(after, id_key) == cache_get(cache, id_key));
        assert(cache_get(after, content_key) == cache_get(cache, content_key));
    }
}

} // verus!
