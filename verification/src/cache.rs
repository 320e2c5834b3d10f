//! The key-value cache as this crate sees it: the keys of a source, the
//! writes that a step asks for, and what those writes do to the cache.
//!
//! The store itself lives outside. A step of this crate is given what the
//! store holds under the keys it needs and answers with the writes to make;
//! the meaning of a write is fixed here, over a map from keys to entries.

use crate::text::{concat2, concat3, opt_text, same_text};
use vstd::prelude::*;

verus! {

/// Seconds that a cached identifier lives.
pub const IDENTIFIER_TTL: i64 = 7200;

/// Seconds that a content snapshot lives once it is refreshed.
pub const CONTENT_TTL: i64 = 21600;

/// Seconds that a message slot lives.
pub const SLOT_TTL: i64 = 36000;

/// The key under which the last identifier of a source is kept.
pub open spec fn spec_identifier_key(source: Seq<char>) -> Seq<char> {
    seq!['R', 'S', 'S', '_'] + source
}

/// The key under which the last content of a source is kept.
pub open spec fn spec_content_key(source: Seq<char>) -> Seq<char> {
    seq!['R', 'S', 'S', '_'] + source + seq!['_', 'C', 'o', 'n', 't', 'e', 'n', 't']
}

/// The key under which the id of the message shown for a source is kept.
pub open spec fn spec_slot_key(source: Seq<char>) -> Seq<char> {
    seq!['R', 'S', 'S', '_'] + source + seq!['_', 'M', 's', 'g', 'I', 'd']
}

/// The key under which the last identifier of a source is kept.
pub fn identifier_key(source: &str) -> (key: String)
    ensures
        key@ == spec_identifier_key(source@),
{
    proof {
        reveal_strlit("RSS_");
    }
    let key = concat2("RSS_", source);
    key
}

/// The key under which the last content of a source is kept.
pub fn content_key(source: &str) -> (key: String)
    ensures
        key@ == spec_content_key(source@),
{
    proof {
        reveal_strlit("RSS_");
        reveal_strlit("_Content");
    }
    let key = concat3("RSS_", source, "_Content");
    key
}

/// The key under which the id of the message shown for a source is kept.
pub fn slot_key(source: &str) -> (key: String)
    ensures
        key@ == spec_slot_key(source@),
{
    proof {
        reveal_strlit("RSS_");
        reveal_strlit("_MsgId");
    }
    let key = concat3("RSS_", source, "_MsgId");
    key
}

/// The three keys of one source differ, so a write to one never touches
/// another.
pub proof fn lemma_keys_differ(source: Seq<char>)
    ensures
        spec_identifier_key(source) != spec_content_key(source),
        spec_identifier_key(source) != spec_slot_key(source),
        spec_content_key(source) != spec_slot_key(source),
{
    assert(spec_slot_key(source).len() == source.len() + 10);
}

/// A write to the cache.
#[derive(Clone, Debug, PartialEq, Eq)]
pub enum CacheOp {
    /// Store `value` under `key`; the entry then has no time to live.
    Put { key: String, value: String },
    /// Let the entry under `key` expire after `seconds`.
    Expire { key: String, seconds: i64 },
    /// Remove the entry under `key`.
    Remove { key: String },
}

/// A `CacheOp`, with texts as sequences of characters.
pub enum CacheOpView {
    Put { key: Seq<char>, value: Seq<char> },
    Expire { key: Seq<char>, seconds: int },
    Remove { key: Seq<char> },
}

impl View for CacheOp {
    type V = CacheOpView;

    open spec fn view(&self) -> CacheOpView {
        match self {
            CacheOp::Put { key, value } => CacheOpView::Put { key: key@, value: value@ },
            CacheOp::Expire { key, seconds } => CacheOpView::Expire {
                key: key@,
                seconds: *seconds as int,
            },
            CacheOp::Remove { key } => CacheOpView::Remove { key: key@ },
        }
    }
}

/// The views of a sequence of writes.
pub open spec fn op_views(ops: Seq<CacheOp>) -> Seq<CacheOpView> {
    ops.map_values(|op: CacheOp| op@)
}

/// What the cache holds under one key.
pub struct CacheEntry {
    pub value: Seq<char>,
    /// Seconds left to live, where the entry expires.
    pub ttl: Option<int>,
}

/// The cache: the entries by key. A key that is absent was never seen, or
/// has expired.
pub type CacheState = Map<Seq<char>, CacheEntry>;

/// The value under `key`, if there is one.
pub open spec fn cache_get(cache: CacheState, key: Seq<char>) -> Option<Seq<char>> {
    if cache.contains_key(key) {
        Some(cache[key].value)
    } else {
        None
    }
}

/// The cache after one write.
pub open spec fn apply_op(cache: CacheState, op: CacheOpView) -> CacheState {
    match op {
        CacheOpView::Put { key, value } => cache.insert(key, CacheEntry { value, ttl: None }),
        CacheOpView::Expire { key, seconds } => {
            if !cache.contains_key(key) {
                cache
            } else if seconds > 0 {
                cache.insert(key, CacheEntry { value: cache[key].value, ttl: Some(seconds) })
            } else {
                cache.remove(key)
            }
        },
        CacheOpView::Remove { key } => cache.remove(key),
    }
}

/// The cache after a sequence of writes, made in order.
pub open spec fn apply_ops(cache: CacheState, ops: Seq<CacheOpView>) -> CacheState
    decreases ops.len(),
{
    if ops.len() == 0 {
        cache
    } else {
        apply_ops(apply_op(cache, ops[0]), ops.drop_first())
    }
}

/// The writes that store `value` under `key` for `seconds`.
pub open spec fn spec_save(key: Seq<char>, value: Seq<char>, seconds: int) -> Seq<CacheOpView> {
    seq![CacheOpView::Put { key, value }, CacheOpView::Expire { key, seconds }]
}

/// Adds to `ops` the writes that store `value` under `key` for `seconds`.
pub fn push_save(ops: &mut Vec<CacheOp>, key: &str, value: &str, seconds: i64)
    ensures
        op_views(final(ops)@) == op_views(old(ops)@) + spec_save(key@, value@, seconds as int),
{
    let put = CacheOp::Put { key: key.to_owned(), value: value.to_owned() };
    let expire = CacheOp::Expire { key: key.to_owned(), seconds };
    ops.push(put);
    ops.push(expire);
}

/// Adds to `ops` the write that stores `value` under `key`.
pub fn push_set(ops: &mut Vec<CacheOp>, key: &str, value: &str)
    ensures
        op_views(final(ops)@) == op_views(old(ops)@).push(
            CacheOpView::Put { key: key@, value: value@ },
        ),
{
    let put = CacheOp::Put { key: key.to_owned(), value: value.to_owned() };
    ops.push(put);
}

/// Writes made one run after another are the writes of both runs.
pub proof fn lemma_apply_concat(cache: CacheState, a: Seq<CacheOpView>, b: Seq<CacheOpView>)
    ensures
        apply_ops(cache, a + b) == apply_ops(apply_ops(cache, a), b),
    decreases a.len(),
{
    if a.len() > 0 {
        assert((a + b).drop_first() =~= a.drop_first() + b);
        lemma_apply_concat(apply_op(cache, a[0]), a.drop_first(), b);
    }
}

/// One write alone.
pub proof fn lemma_apply_one(cache: CacheState, op: CacheOpView)
    ensures
        apply_ops(cache, seq![op]) == apply_op(cache, op),
{
    let ops = seq![op];
    assert(apply_ops(apply_op(cache, op), ops.drop_first()) == apply_op(cache, op));
}

/// Storing a value for a while leaves it under its key, with that time to
/// live, and touches no other key.
pub proof fn lemma_apply_save(cache: CacheState, key: Seq<char>, value: Seq<char>, seconds: int)
    requires
        seconds > 0,
    ensures
        apply_ops(cache, spec_save(key, value, seconds)) == cache.insert(
            key,
            CacheEntry { value, ttl: Some(seconds) },
        ),
{
    let put = CacheOpView::Put { key, value };
    let expire = CacheOpView::Expire { key, seconds };
    assert(spec_save(key, value, seconds) =~= seq![put] + seq![expire]);
    lemma_apply_concat(cache, seq![put], seq![expire]);
    lemma_apply_one(cache, put);
    lemma_apply_one(apply_op(cache, put), expire);
}

/// The cache once `seconds` have gone by: an entry whose time to live
/// has run out is gone, and the others have that much less to live.
pub open spec fn elapse(cache: CacheState, seconds: int) -> CacheState {
    Map::new(
        |key: Seq<char>|
            cache.contains_key(key) && match cache[key].ttl {
                Some(ttl) => seconds < ttl,
                None => true,
            },
        |key: Seq<char>|
            CacheEntry {
                value: cache[key].value,
                ttl: match cache[key].ttl {
                    Some(ttl) => Some(ttl - seconds),
                    None => None,
                },
            },
    )
}

/// What was stored for a while is there until the while is over, and
/// gone from then on.
pub proof fn lemma_saved_value_expires(
    cache: CacheState,
    key: Seq<char>,
    value: Seq<char>,
    seconds: int,
    elapsed: int,
)
    requires
        seconds > 0,
    ensures
        cache_get(elapse(apply_ops(cache, spec_save(key, value, seconds)), elapsed), key) == if elapsed
            < seconds {
            Some(value)
        } else {
            None
        },
{
    lemma_apply_save(cache, key, value, seconds);
}

/// Seconds to wait before the first new attempt to reach the store.
pub const INITIAL_BACKOFF_SECS: u64 = 1;

/// The longest wait between two attempts to reach the store.
pub const MAX_BACKOFF_SECS: u64 = 64;

/// The wait that follows a wait of `backoff` seconds: twice as long, but
/// never longer than the longest wait.
pub open spec fn spec_next_backoff(backoff: nat) -> nat {
    if backoff * 2 < MAX_BACKOFF_SECS {
        backoff * 2
    } else {
        MAX_BACKOFF_SECS as nat
    }
}

/// The wait before a new attempt, after a wait of `backoff` seconds.
pub fn next_backoff(backoff: u64) -> (next: u64)
    ensures
        next == spec_next_backoff(backoff as nat),
        next <= MAX_BACKOFF_SECS,
{
    if backoff < MAX_BACKOFF_SECS / 2 {
        backoff * 2
    } else {
        MAX_BACKOFF_SECS
    }
}

/// The wait after a number of failed attempts, from the initial wait on.
pub open spec fn backoff_after(failures: nat) -> nat
    decreases failures,
{
    if failures == 0 {
        INITIAL_BACKOFF_SECS as nat
    } else {
        spec_next_backoff(backoff_after((failures - 1) as nat))
    }
}

/// The waits double from one second up to 64 seconds and stay there.
pub proof fn lemma_backoff_after(failures: nat)
    ensures
        1 <= backoff_after(failures) <= MAX_BACKOFF_SECS,
        failures >= 6 ==> backoff_after(failures) == MAX_BACKOFF_SECS,
        failures < 6 ==> backoff_after(failures) == vstd::arithmetic::power2::pow2(failures),
    decreases failures,
{
    vstd::arithmetic::power2::lemma2_to64();
    if failures > 0 {
        lemma_backoff_after((failures - 1) as nat);
        if failures <= 6 {
            vstd::arithmetic::power2::lemma_pow2_unfold(failures);
        }
    }
}

/// What one write does to the value under `key`, which is `value` before.
pub open spec fn value_after_op(value: Option<Seq<char>>, key: Seq<char>, op: CacheOpView) -> Option<
    Seq<char>,
> {
    match op {
        CacheOpView::Put { key: k, value: v } => if k == key {
            Some(v)
        } else {
            value
        },
        CacheOpView::Expire { key: k, seconds } => if k == key && seconds <= 0 {
            None
        } else {
            value
        },
        CacheOpView::Remove { key: k } => if k == key {
            None
        } else {
            value
        },
    }
}

/// What a sequence of writes does to the value under `key`, which is
/// `value` before.
pub open spec fn spec_value_after(
    value: Option<Seq<char>>,
    key: Seq<char>,
    ops: Seq<CacheOpView>,
) -> Option<Seq<char>>
    decreases ops.len(),
{
    if ops.len() == 0 {
        value
    } else {
        spec_value_after(value_after_op(value, key, ops[0]), key, ops.drop_first())
    }
}

/// The value under a key after some writes is the value that the cache
/// then holds under it.
pub proof fn lemma_value_after(cache: CacheState, key: Seq<char>, ops: Seq<CacheOpView>)
    ensures
        spec_value_after(cache_get(cache, key), key, ops) == cache_get(apply_ops(cache, ops), key),
    decreases ops.len(),
{
    if ops.len() > 0 {
        lemma_value_after(apply_op(cache, ops[0]), key, ops.drop_first());
    }
}

/// The value that the cache will hold under `key` once `ops` are made,
/// where it holds `value` now.
pub fn value_after(value: &Option<String>, key: &str, ops: &Vec<CacheOp>) -> (after: Option<String>)
    ensures
        opt_text(after) == spec_value_after(opt_text(*value), key@, op_views(ops@)),
{
    let mut after: Option<String> = match value {
        Some(v) => Some(v.clone()),
        None => None,
    };
    let ghost views = op_views(ops@);
    assert(views.skip(0) =~= views);
    let mut i: usize = 0;
    while i < ops.len()
        invariant
            i <= ops.len(),
            views == op_views(ops@),
            spec_value_after(opt_text(after), key@, views.skip(i as int)) == spec_value_after(
                opt_text(*value),
                key@,
                views,
            ),
        decreases ops.len() - i,
    {
        let ghost rest = views.skip(i as int);
        assert(rest.drop_first() =~= views.skip(i + 1));
        match &ops[i] {
            CacheOp::Put { key: k, value: v } => {
                if same_text(k.as_str(), key) {
                    after = Some(v.clone());
                }
            },
            CacheOp::Expire { key: k, seconds } => {
                if same_text(k.as_str(), key) && *seconds <= 0 {
                    after = None;
                }
            },
            CacheOp::Remove { key: k } => {
                if same_text(k.as_str(), key) {
                    after = None;
                }
            },
        }
        i += 1;
    }
    after
}

/// A copy of some writes.
pub fn copy_ops(ops: &Vec<CacheOp>) -> (copy: Vec<CacheOp>)
    ensures
        op_views(copy@) == op_views(ops@),
{
    let mut copy: Vec<CacheOp> = Vec::new();
    let mut i: usize = 0;
    while i < ops.len()
        invariant
            i <= ops.len(),
            op_views(copy@) == op_views(ops@).take(i as int),
        decreases ops.len() - i,
    {
        let op = match &ops[i] {
            CacheOp::Put { key, value } => CacheOp::Put { key: key.clone(), value: value.clone() },
            CacheOp::Expire { key, seconds } => CacheOp::Expire {
                key: key.clone(),
                seconds: *seconds,
            },
            CacheOp::Remove { key } => CacheOp::Remove { key: key.clone() },
        };
        copy.push(op);
        assert(op_views(ops@).take(i + 1) =~= op_views(ops@).take(i as int).push(ops@[i as int]@));
        i += 1;
    }
    copy
}

} // verus!
