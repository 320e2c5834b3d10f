//! Incidents: how far one has come, read from the newest part of its
//! content, and the colour that shows it.

use crate::adapter::{
    classify_content, is_absent, or_empty, silent_step, spec_classify_content, step_effect, step_view,
    Classification, FeedStep, FeedStepView,
};
use crate::cache::{
    apply_ops, cache_get, content_key, identifier_key, lemma_apply_concat, lemma_apply_one,
    lemma_apply_save, lemma_keys_differ, op_views, push_save, push_set, spec_content_key,
    spec_identifier_key, spec_save, CacheOp, CacheOpView, CacheState, CONTENT_TTL,
    IDENTIFIER_TTL,
};
use crate::error::{ExtractionError, FeedError, Field};
use crate::feed::{FeedEntry, FeedEntryView};
use crate::html::{format_html_to_discord, html_to_discord};
use crate::output::{embed, EmbedView, RSSFeedOutput, RSSFeedOutputView};
use crate::pattern::{is_match, regex_is_match, regex_split, split};
use crate::text::{
    chars_of, has_word, opt_text, slice_chars, spec_has_word, spec_trim, string_of, trim,
};
use vstd::prelude::*;

verus! {

/// The most characters of content that an embed shows.
pub const MAX_CONTENT_LENGTH: usize = 4000;

/// The word `update`, in any case, between word boundaries.
pub const UPDATE_PATTERN: &'static str = r"(?i)\bupdate\b";

/// The word `investigating`, in any case, between word boundaries.
pub const INVESTIGATING_PATTERN: &'static str = r"(?i)\binvestigating\b";

/// The word `monitoring`, in any case, between word boundaries.
pub const MONITORING_PATTERN: &'static str = r"(?i)\bmonitoring\b";

/// The word `resolved`, in any case, between word boundaries.
pub const RESOLVED_PATTERN: &'static str = r"(?i)\bresolved\b";

/// The time stamp that heads each part of an incident's content, such as
/// `Jan 02, 15:04 UTC`.
pub const DATE_PATTERN: &'static str = r"\b[A-Z][a-z]{2} \d{2}, \d{2}:\d{2} UTC\b";

/// `s` cut to its first `MAX_CONTENT_LENGTH` characters.
pub open spec fn spec_trim_old_content(s: Seq<char>) -> Seq<char> {
    if s.len() > MAX_CONTENT_LENGTH {
        s.take(MAX_CONTENT_LENGTH as int)
    } else {
        s
    }
}

/// Cuts content that is longer than an embed can show. The cut is by
/// characters and takes no account of words or markup.
pub fn trim_old_content(s: &str) -> (out: String)
    ensures
        out@ == spec_trim_old_content(s@),
        out@.len() <= MAX_CONTENT_LENGTH,
        s@.len() <= MAX_CONTENT_LENGTH ==> out@ == s@,
        s@.len() > MAX_CONTENT_LENGTH ==> out@.len() == MAX_CONTENT_LENGTH,
{
    let chars = chars_of(s);
    if chars.len() > MAX_CONTENT_LENGTH {
        let head = slice_chars(&chars, 0, MAX_CONTENT_LENGTH);
        string_of(&head)
    } else {
        s.to_owned()
    }
}

/// How far an incident has come.
#[derive(Clone, Copy, Debug, PartialEq, Eq, Structural)]
pub enum IncidentColorMap {
    Update,
    Investigating,
    Monitoring,
    Resolved,
    Default,
}

impl IncidentColorMap {
    /// The colour that shows this state.
    pub open spec fn spec_color(self) -> u32 {
        match self {
            IncidentColorMap::Update => 0xABDD9E,
            IncidentColorMap::Investigating => 0xA5CCE0,
            IncidentColorMap::Monitoring => 0x81CBAD,
            IncidentColorMap::Resolved => 0x57F287,
            IncidentColorMap::Default => 0x81CBAD,
        }
    }

    /// The colour that shows this state.
    pub fn color(&self) -> (c: u32)
        ensures
            c == self.spec_color(),
    {
        match self {
            IncidentColorMap::Update => 0xABDD9E,
            IncidentColorMap::Investigating => 0xA5CCE0,
            IncidentColorMap::Monitoring => 0x81CBAD,
            IncidentColorMap::Resolved => 0x57F287,
            IncidentColorMap::Default => 0x81CBAD,
        }
    }
}

/// Whether `pattern` is found in `text`. A pattern that cannot be used is
/// found nowhere.
pub open spec fn spec_has_keyword(pattern: Seq<char>, text: Seq<char>) -> bool {
    regex_is_match(pattern, text) == Some(true)
}

/// Whether `pattern` is found in `text`.
pub fn has_keyword(pattern: &str, text: &str) -> (found: bool)
    ensures
        found == spec_has_keyword(pattern@, text@),
{
    match is_match(pattern, text) {
        Some(found) => found,
        None => false,
    }
}

/// The state of an incident, given which of the four keywords the newest
/// part of its content holds. Where several occur, the first of update,
/// investigating, monitoring and resolved decides.
pub open spec fn spec_state_of(
    update: bool,
    investigating: bool,
    monitoring: bool,
    resolved: bool,
) -> IncidentColorMap {
    if update {
        IncidentColorMap::Update
    } else if investigating {
        IncidentColorMap::Investigating
    } else if monitoring {
        IncidentColorMap::Monitoring
    } else if resolved {
        IncidentColorMap::Resolved
    } else {
        IncidentColorMap::Default
    }
}

/// Decides the state of an incident from the keywords that were found.
pub fn state_of(update: bool, investigating: bool, monitoring: bool, resolved: bool) -> (state:
    IncidentColorMap)
    ensures
        state == spec_state_of(update, investigating, monitoring, resolved),
{
    if update {
        IncidentColorMap::Update
    } else if investigating {
        IncidentColorMap::Investigating
    } else if monitoring {
        IncidentColorMap::Monitoring
    } else if resolved {
        IncidentColorMap::Resolved
    } else {
        IncidentColorMap::Default
    }
}

/// The state that a part of an incident's content shows.
pub open spec fn spec_incident_state(segment: Seq<char>) -> IncidentColorMap {
    spec_state_of(
        spec_has_keyword(UPDATE_PATTERN@, segment),
        spec_has_keyword(INVESTIGATING_PATTERN@, segment),
        spec_has_keyword(MONITORING_PATTERN@, segment),
        spec_has_keyword(RESOLVED_PATTERN@, segment),
    )
}

/// Reads the state of an incident from a part of its content.
pub fn incident_state(segment: &str) -> (state: IncidentColorMap)
    ensures
        state == spec_incident_state(segment@),
{
    let update = has_keyword(UPDATE_PATTERN, segment);
    let investigating = has_keyword(INVESTIGATING_PATTERN, segment);
    let monitoring = has_keyword(MONITORING_PATTERN, segment);
    let resolved = has_keyword(RESOLVED_PATTERN, segment);
    state_of(update, investigating, monitoring, resolved)
}

/// The first of `parts`, from index `i` on, that is more than white space,
/// without the white space around it.
pub open spec fn first_text(parts: Seq<Seq<char>>, i: int) -> Option<Seq<char>>
    decreases parts.len() - i,
{
    if 0 <= i < parts.len() {
        if spec_trim(parts[i]).len() > 0 {
            Some(spec_trim(parts[i]))
        } else {
            first_text(parts, i + 1)
        }
    } else {
        None
    }
}

/// The newest part of an incident's content, given the parts that its time
/// stamps divide it into: the first part that is more than white space,
/// or the whole content where there is none.
pub open spec fn segment_of(content: Seq<char>, parts: Option<Seq<Seq<char>>>) -> Seq<char> {
    match parts {
        Some(parts) => match first_text(parts, 0) {
            Some(text) => text,
            None => content,
        },
        None => content,
    }
}

/// The newest part of an incident's content.
pub open spec fn spec_first_segment(content: Seq<char>) -> Seq<char> {
    segment_of(content, regex_split(DATE_PATTERN@, content))
}

/// Picks the newest part of `content` from the parts that its time stamps
/// divide it into.
pub fn pick_segment(content: &str, parts: &Option<Vec<String>>) -> (segment: String)
    ensures
        segment@ == segment_of(content@, parts.deep_view()),
{
    match parts {
        Some(list) => {
            let ghost views = list.deep_view();
            let mut i: usize = 0;
            while i < list.len()
                invariant
                    i <= list.len(),
                    views == list.deep_view(),
                    parts.deep_view() == Some(views),
                    first_text(views, 0) == first_text(views, i as int),
                decreases list.len() - i,
            {
                let chars = chars_of(list[i].as_str());
                let trimmed = trim(&chars);
                if trimmed.len() > 0 {
                    return string_of(&trimmed);
                }
                i += 1;
            }
            content.to_owned()
        },
        None => content.to_owned(),
    }
}

/// The newest part of an incident's content: the content is divided at its
/// time stamps, and the first part that is more than white space is taken.
pub fn first_segment(content: &str) -> (segment: String)
    ensures
        segment@ == spec_first_segment(content@),
{
    let parts = split(DATE_PATTERN, content);
    pick_segment(content, &parts)
}

/// The colour for an incident with the given content.
pub open spec fn spec_incident_color(content: Seq<char>) -> u32 {
    spec_incident_state(spec_first_segment(content)).spec_color()
}

/// The colour for an incident, read from the newest part of its content.
pub fn incident_color(content: &str) -> (c: u32)
    ensures
        c == spec_incident_color(content@),
{
    let segment = first_segment(content);
    incident_state(segment.as_str()).color()
}

/// Whether a character is an ASCII letter or digit.
pub open spec fn is_alnum(c: char) -> bool {
    ||| 'a' <= c <= 'z'
    ||| 'A' <= c <= 'Z'
    ||| '0' <= c <= '9'
}

/// Where the letters and digits that end the first `j` characters of `s`
/// start.
pub open spec fn alnum_tail(s: Seq<char>, j: int) -> int
    decreases j,
{
    if 0 < j <= s.len() && is_alnum(s[j - 1]) {
        alnum_tail(s, j - 1)
    } else {
        j
    }
}

/// The part of an address that stands before the name of an incident.
pub open spec fn incidents_path() -> Seq<char> {
    seq!['/', 'i', 'n', 'c', 'i', 'd', 'e', 'n', 't', 's', '/']
}

/// The identifier of the incident at the address `href`, if it shows one:
/// the address ends in `/incidents/` and a name of one or more ASCII
/// letters and digits, and the name is the identifier.
pub open spec fn spec_incident_id(href: Seq<char>) -> Option<Seq<char>> {
    let start = alnum_tail(href, href.len() as int);
    if start < href.len() && spec_has_word(href, start - incidents_path().len(), incidents_path()) {
        Some(href.subrange(start, href.len() as int))
    } else {
        None
    }
}

/// Reads the identifier of an incident from its address.
pub fn get_incident_id(input: &str) -> (id: Option<String>)
    ensures
        opt_text(id) == spec_incident_id(input@),
{
    proof {
        reveal_strlit("/incidents/");
    }
    let s = chars_of(input);
    let path = chars_of("/incidents/");
    assert(path@ =~= incidents_path());
    let mut start: usize = s.len();
    while start > 0 && alnum(s[start - 1])
        invariant
            start <= s.len(),
            alnum_tail(s@, s.len() as int) == alnum_tail(s@, start as int),
        decreases start,
    {
        start -= 1;
    }
    if start < s.len() && start >= path.len() && has_word(&s, start - path.len(), &path) {
        let name = slice_chars(&s, start, s.len());
        Some(string_of(&name))
    } else {
        None
    }
}

fn alnum(c: char) -> (b: bool)
    ensures
        b == is_alnum(c),
{
    ('a' <= c && c <= 'z') || ('A' <= c && c <= 'Z') || ('0' <= c && c <= '9')
}

/// The embed that shows an incident.
pub open spec fn incident_embed(
    page: Seq<char>,
    title: Seq<char>,
    content: Seq<char>,
    timestamp: crate::feed::Timestamp,
) -> RSSFeedOutputView {
    RSSFeedOutputView::IncidentEmbed(
        EmbedView {
            color: spec_incident_color(content),
            title: Some(title),
            url: Some(page),
            author: None,
            thumbnail: None,
            description: spec_trim_old_content(content),
            timestamp,
        },
    )
}

/// The content of an entry as chat markup; an entry without content has
/// the empty text for its content.
pub open spec fn spec_entry_content(entry: FeedEntryView) -> Seq<char> {
    html_to_discord(or_empty(entry.content))
}

/// The step of a source of incidents, named `source`, whose newest entry
/// is `entry` and whose incident is shown at `page`.
///
/// The entry needs a link, which holds the identifier. An entry that is
/// new or updated also needs a page to be shown at, `missing` being the
/// field that would have held it, a title and a time.
pub open spec fn spec_incident_step(
    source: Seq<char>,
    page: Option<Seq<char>>,
    missing: Field,
    entry: FeedEntryView,
    cached_id: Option<Seq<char>>,
    cached_content: Option<Seq<char>>,
) -> Result<FeedStepView, FeedError> {
    if entry.links.len() == 0 {
        Err(FeedError::Extraction(ExtractionError::Missing(Field::Link)))
    } else if spec_incident_id(entry.links[0].href) is None {
        Err(FeedError::Extraction(ExtractionError::NoIdentifier))
    } else {
        let id = spec_incident_id(entry.links[0].href)->0;
        let content = spec_entry_content(entry);
        let id_key = spec_identifier_key(source);
        let content_key = spec_content_key(source);
        let classification = spec_classify_content(cached_id, id, cached_content, content);
        match classification {
            Classification::FirstSeen => Ok(
                FeedStepView {
                    classification,
                    output: None,
                    writes: spec_save(id_key, id, IDENTIFIER_TTL as int) + spec_save(
                        content_key,
                        content,
                        IDENTIFIER_TTL as int,
                    ),
                },
            ),
            Classification::Unchanged => Ok(silent_step()),
            _ => {
                if page is None {
                    Err(FeedError::Extraction(ExtractionError::Missing(missing)))
                } else if entry.title is None {
                    Err(FeedError::Extraction(ExtractionError::Missing(Field::Title)))
                } else if entry.updated is None {
                    Err(FeedError::Extraction(ExtractionError::Missing(Field::Updated)))
                } else {
                    Ok(
                        FeedStepView {
                            classification,
                            output: Some(
                                incident_embed(page->0, entry.title->0, content, entry.updated->0),
                            ),
                            writes: if classification == Classification::Updated {
                                spec_save(content_key, content, CONTENT_TTL as int)
                            } else {
                                spec_save(id_key, id, IDENTIFIER_TTL as int).push(
                                    CacheOpView::Put { key: content_key, value: content },
                                )
                            },
                        },
                    )
                }
            },
        }
    }
}

/// Decides what to do with the newest entry of a source of incidents.
pub fn incident_step(
    source: &str,
    page: &Option<String>,
    missing: Field,
    entry: &FeedEntry,
    cached_id: &Option<String>,
    cached_content: &Option<String>,
) -> (r: Result<FeedStep, FeedError>)
    ensures
        step_view(r) == spec_incident_step(
            source@,
            opt_text(*page),
            missing,
            entry@,
            opt_text(*cached_id),
            opt_text(*cached_content),
        ),
{
    if entry.links.len() == 0 {
        return Err(FeedError::Extraction(ExtractionError::Missing(Field::Link)));
    }
    let id = match get_incident_id(entry.links[0].href.as_str()) {
        Some(id) => id,
        None => {
            return Err(FeedError::Extraction(ExtractionError::NoIdentifier));
        },
    };
    let content = match &entry.content {
        Some(body) => format_html_to_discord(body.clone()),
        None => format_html_to_discord(String::new()),
    };
    let id_key = identifier_key(source);
    let content_key = content_key(source);
    let classification = classify_content(cached_id, id.as_str(), cached_content, content.as_str());
    let mut writes: Vec<CacheOp> = Vec::new();
    assert(op_views(writes@) =~= Seq::empty());
    match classification {
        Classification::FirstSeen => {
            push_save(&mut writes, id_key.as_str(), id.as_str(), IDENTIFIER_TTL);
            push_save(&mut writes, content_key.as_str(), content.as_str(), IDENTIFIER_TTL);
            Ok(FeedStep { classification, output: None, writes })
        },
        Classification::Unchanged => Ok(FeedStep { classification, output: None, writes }),
        _ => {
            let page = match page {
                Some(page) => page,
                None => {
                    return Err(FeedError::Extraction(ExtractionError::Missing(missing)));
                },
            };
            let title = match &entry.title {
                Some(title) => title,
                None => {
                    return Err(FeedError::Extraction(ExtractionError::Missing(Field::Title)));
                },
            };
            let updated = match entry.updated {
                Some(updated) => updated,
                None => {
                    return Err(FeedError::Extraction(ExtractionError::Missing(Field::Updated)));
                },
            };
            let shown = embed(
                incident_color(content.as_str()),
                title.clone(),
                page.clone(),
                trim_old_content(content.as_str()),
                updated,
            );
            if classification == Classification::Updated {
                push_save(&mut writes, content_key.as_str(), content.as_str(), CONTENT_TTL);
            } else {
                push_save(&mut writes, id_key.as_str(), id.as_str(), IDENTIFIER_TTL);
                push_set(&mut writes, content_key.as_str(), content.as_str());
            }
            Ok(
                FeedStep {
                    classification,
                    output: Some(RSSFeedOutput::IncidentEmbed(shown)),
                    writes,
                },
            )
        },
    }
}

/// What a step of a source of incidents does to the cache. An entry that
/// shows an identifier always has a step, where the cache holds nothing of
/// the source.
pub proof fn lemma_incident_step_effect(
    source: Seq<char>,
    page: Option<Seq<char>>,
    missing: Field,
    entry: FeedEntryView,
    cache: CacheState,
)
    ensures
        spec_incident_step(
            source,
            page,
            missing,
            entry,
            cache_get(cache, spec_identifier_key(source)),
            cache_get(cache, spec_content_key(source)),
        ) matches Ok(step) ==> {
            &&& entry.links.len() > 0
            &&& spec_incident_id(entry.links[0].href) is Some
            &&& step_effect(
                step,
                cache,
                spec_identifier_key(source),
                spec_content_key(source),
                true,
                spec_incident_id(entry.links[0].href)->0,
                spec_entry_content(entry),
            )
        },
        entry.links.len() > 0 && spec_incident_id(entry.links[0].href) is Some && is_absent(
            cache_get(cache, spec_identifier_key(source)),
        ) ==> spec_incident_step(
            source,
            page,
            missing,
            entry,
            cache_get(cache, spec_identifier_key(source)),
            cache_get(cache, spec_content_key(source)),
        ) is Ok,
{
    let id_key = spec_identifier_key(source);
    let content_key = spec_content_key(source);
    let r = spec_incident_step(
        source,
        page,
        missing,
        entry,
        cache_get(cache, id_key),
        cache_get(cache, content_key),
    );
    if r is Ok {
        let step = r->Ok_0;
        let id = spec_incident_id(entry.links[0].href)->0;
        let content = spec_entry_content(entry);
        lemma_keys_differ(source);
        match step.classification {
            Classification::FirstSeen => {
                let first = spec_save(id_key, id, IDENTIFIER_TTL as int);
                let second = spec_save(content_key, content, IDENTIFIER_TTL as int);
                lemma_apply_concat(cache, first, second);
                lemma_apply_save(cache, id_key, id, IDENTIFIER_TTL as int);
                lemma_apply_save(apply_ops(cache, first), content_key, content, IDENTIFIER_TTL as int);
            },
            Classification::Unchanged => {},
            Classification::Updated => {
                lemma_apply_save(cache, content_key, content, CONTENT_TTL as int);
            },
            Classification::NewItem => {
                let first = spec_save(id_key, id, IDENTIFIER_TTL as int);
                let put = CacheOpView::Put { key: content_key, value: content };
                assert(first.push(put) =~= first + seq![put]);
                lemma_apply_concat(cache, first, seq![put]);
                lemma_apply_save(cache, id_key, id, IDENTIFIER_TTL as int);
                lemma_apply_one(apply_ops(cache, first), put);
            },
        }
    }
}

} // verus!
