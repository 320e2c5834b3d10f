//! Delivery of an output: post a new message or edit the one that a slot
//! in the cache points to.
//!
//! Sending, editing, fetching, waiting and reading the cache happen
//! outside this crate. Delivery is therefore a machine: it is given what
//! happened and answers with what to do next, until it says that it has
//! finished, with the writes to make to the cache and the result.
//!
//! A delivery carries the writes that the adapter asked for. They are made
//! together with the delivery's own writes when it succeeds, and not at
//! all when it fails: the cache is then as it was, and the next tick finds
//! the same change and tries again.

use crate::cache::{
    apply_ops, cache_get, copy_ops, lemma_apply_concat, lemma_apply_one, lemma_apply_save,
    op_views, push_save, spec_save, spec_value_after, value_after, CacheOp, CacheOpView,
    CacheState, SLOT_TTL,
};
use crate::error::DeliveryError;
use crate::incident::{has_keyword, spec_has_keyword, RESOLVED_PATTERN};
use crate::number::{decimal, decimal_string, lemma_parse_u64_of_decimal, parse_u64, spec_parse_u64};
use crate::output::{RSSFeedOutput, RSSFeedOutputView};
use crate::text::{opt_text, same_opt_text};
use vstd::prelude::*;

verus! {

/// Seconds to wait after an incident's message was edited, or found up to
/// date, before its content is searched for a resolution.
pub const SETTLE_SECONDS: u64 = 15;

/// The reply that tells of the resolution of an incident.
pub const RESOLUTION_NOTICE: &'static str = "This incident has been marked as resolved!";

/// Where a delivery stands.
#[derive(Clone, Debug, PartialEq, Eq)]
pub enum DeliveryState {
    /// Nothing was done yet.
    Start,
    /// The cache was asked for the slot and the content snapshot.
    ReadingSlot,
    /// The message that the slot points to was asked for; `snapshot` is
    /// the content that the cache holds.
    FetchingMessage { id: u64, snapshot: Option<String> },
    /// A new message is being sent.
    Sending,
    /// The message that the slot points to is being edited.
    Editing { id: u64 },
    /// The wait after an edit, or after none was needed; `resolved` says
    /// whether the content that the message now shows speaks of a
    /// resolution.
    Settling { id: u64, resolved: bool },
    /// The notice of the resolution is being sent as a reply.
    Replying,
    /// The delivery has finished.
    Done,
}

/// A `DeliveryState`, with texts as sequences of characters.
pub enum DeliveryStateView {
    Start,
    ReadingSlot,
    FetchingMessage { id: u64, snapshot: Option<Seq<char>> },
    Sending,
    Editing { id: u64 },
    Settling { id: u64, resolved: bool },
    Replying,
    Done,
}

impl View for DeliveryState {
    type V = DeliveryStateView;

    open spec fn view(&self) -> DeliveryStateView {
        match self {
            DeliveryState::Start => DeliveryStateView::Start,
            DeliveryState::ReadingSlot => DeliveryStateView::ReadingSlot,
            DeliveryState::FetchingMessage { id, snapshot } => DeliveryStateView::FetchingMessage {
                id: *id,
                snapshot: opt_text(*snapshot),
            },
            DeliveryState::Sending => DeliveryStateView::Sending,
            DeliveryState::Editing { id } => DeliveryStateView::Editing { id: *id },
            DeliveryState::Settling { id, resolved } => DeliveryStateView::Settling {
                id: *id,
                resolved: *resolved,
            },
            DeliveryState::Replying => DeliveryStateView::Replying,
            DeliveryState::Done => DeliveryStateView::Done,
        }
    }
}

/// What happened outside.
#[derive(Clone, Debug, PartialEq, Eq)]
pub enum DeliveryEvent {
    /// The delivery is to begin.
    Begin,
    /// The cache answered: what it holds under the slot key and under the
    /// content key.
    SlotRead { slot: Option<String>, snapshot: Option<String> },
    /// The message exists; `description` is the description of its first
    /// embed, if it has one.
    MessageFetched { description: Option<String> },
    /// The message could not be fetched.
    MessageMissing,
    /// A new message was sent and has this id.
    Sent { id: u64 },
    /// The new message was refused.
    SendFailed,
    /// The message was edited.
    Edited,
    /// The edit was refused.
    EditFailed,
    /// The wait is over.
    Settled,
    /// The reply was sent.
    Replied,
    /// The reply was refused.
    ReplyFailed,
}

/// A `DeliveryEvent`, with texts as sequences of characters.
pub enum DeliveryEventView {
    Begin,
    SlotRead { slot: Option<Seq<char>>, snapshot: Option<Seq<char>> },
    MessageFetched { description: Option<Seq<char>> },
    MessageMissing,
    Sent { id: u64 },
    SendFailed,
    Edited,
    EditFailed,
    Settled,
    Replied,
    ReplyFailed,
}

impl View for DeliveryEvent {
    type V = DeliveryEventView;

    open spec fn view(&self) -> DeliveryEventView {
        match self {
            DeliveryEvent::Begin => DeliveryEventView::Begin,
            DeliveryEvent::SlotRead { slot, snapshot } => DeliveryEventView::SlotRead {
                slot: opt_text(*slot),
                snapshot: opt_text(*snapshot),
            },
            DeliveryEvent::MessageFetched { description } => DeliveryEventView::MessageFetched {
                description: opt_text(*description),
            },
            DeliveryEvent::MessageMissing => DeliveryEventView::MessageMissing,
            DeliveryEvent::Sent { id } => DeliveryEventView::Sent { id: *id },
            DeliveryEvent::SendFailed => DeliveryEventView::SendFailed,
            DeliveryEvent::Edited => DeliveryEventView::Edited,
            DeliveryEvent::EditFailed => DeliveryEventView::EditFailed,
            DeliveryEvent::Settled => DeliveryEventView::Settled,
            DeliveryEvent::Replied => DeliveryEventView::Replied,
            DeliveryEvent::ReplyFailed => DeliveryEventView::ReplyFailed,
        }
    }
}

/// What to do next.
#[derive(Debug, PartialEq, Eq)]
pub enum DeliveryAction {
    /// Read the slot key and the content key from the cache.
    ReadSlot,
    /// Fetch the message with this id.
    FetchMessage { id: u64 },
    /// Send the output as a new message.
    Send,
    /// Edit the message with this id so that it shows the output.
    Edit { id: u64 },
    /// Wait for this many seconds.
    Settle { seconds: u64 },
    /// Reply to the message with this id with `RESOLUTION_NOTICE`.
    Reply { id: u64 },
    /// Nothing more: make these writes to the cache; this is the result.
    Finish { writes: Vec<CacheOp>, result: Result<(), DeliveryError> },
}

/// A `DeliveryAction`, with texts as sequences of characters.
pub enum DeliveryActionView {
    ReadSlot,
    FetchMessage { id: u64 },
    Send,
    Edit { id: u64 },
    Settle { seconds: u64 },
    Reply { id: u64 },
    Finish { writes: Seq<CacheOpView>, result: Result<(), DeliveryError> },
}

impl View for DeliveryAction {
    type V = DeliveryActionView;

    open spec fn view(&self) -> DeliveryActionView {
        match self {
            DeliveryAction::ReadSlot => DeliveryActionView::ReadSlot,
            DeliveryAction::FetchMessage { id } => DeliveryActionView::FetchMessage { id: *id },
            DeliveryAction::Send => DeliveryActionView::Send,
            DeliveryAction::Edit { id } => DeliveryActionView::Edit { id: *id },
            DeliveryAction::Settle { seconds } => DeliveryActionView::Settle { seconds: *seconds },
            DeliveryAction::Reply { id } => DeliveryActionView::Reply { id: *id },
            DeliveryAction::Finish { writes, result } => DeliveryActionView::Finish {
                writes: op_views(writes@),
                result: *result,
            },
        }
    }
}

/// An output on its way to the channel, with the keys of its source and
/// the writes that wait for it.
pub struct Delivery {
    pub output: RSSFeedOutput,
    /// The key of the slot that holds the id of the message shown.
    pub slot_key: String,
    /// The key of the content snapshot.
    pub content_key: String,
    /// The writes that the adapter asked for.
    pub pending: Vec<CacheOp>,
}

/// A `Delivery`, with texts as sequences of characters.
pub struct DeliveryView {
    pub output: RSSFeedOutputView,
    pub slot_key: Seq<char>,
    pub content_key: Seq<char>,
    pub pending: Seq<CacheOpView>,
}

impl View for Delivery {
    type V = DeliveryView;

    open spec fn view(&self) -> DeliveryView {
        DeliveryView {
            output: self.output@,
            slot_key: self.slot_key@,
            content_key: self.content_key@,
            pending: op_views(self.pending@),
        }
    }
}

/// The action that ends a delivery in failure: nothing is written.
pub open spec fn fail(error: DeliveryError) -> DeliveryActionView {
    DeliveryActionView::Finish { writes: Seq::empty(), result: Err(error) }
}

/// The id of the message that a slot points to: the slot holds a decimal
/// number other than zero, which is the id of no message.
pub open spec fn slot_id(slot: Option<Seq<char>>) -> Option<u64> {
    match slot {
        Some(text) => match spec_parse_u64(text) {
            Some(id) => if id != 0 {
                Some(id)
            } else {
                None
            },
            None => None,
        },
        None => None,
    }
}

/// A slot that was filled with the id of a message points to that
/// message.
pub proof fn lemma_filled_slot_is_read_back(id: u64)
    requires
        id != 0,
    ensures
        slot_id(Some(decimal(id as nat))) == Some(id),
{
    lemma_parse_u64_of_decimal(id);
}

/// Whether a shown content speaks of a resolution.
pub open spec fn speaks_of_resolution(content: Option<Seq<char>>) -> bool {
    match content {
        Some(text) => spec_has_keyword(RESOLVED_PATTERN@, text),
        None => false,
    }
}

impl DeliveryView {
    /// The description of the embed to deliver, if the output is one.
    pub open spec fn description(self) -> Option<Seq<char>> {
        match self.output {
            RSSFeedOutputView::RegularEmbed(e) => Some(e.description),
            RSSFeedOutputView::IncidentEmbed(e) => Some(e.description),
            RSSFeedOutputView::Content(_) => None,
        }
    }

    /// The action that ends a delivery in success: the pending writes are
    /// made, and after them the delivery's `own`.
    pub open spec fn succeed(self, own: Seq<CacheOpView>) -> DeliveryActionView {
        DeliveryActionView::Finish { writes: self.pending + own, result: Ok(()) }
    }

    /// The action that ends a delivery after a new message with the id
    /// `id` was sent: the id is stored in the slot, unless the output is
    /// one that is never edited.
    pub open spec fn after_send(self, id: u64) -> DeliveryActionView {
        match self.output {
            RSSFeedOutputView::RegularEmbed(_) => self.succeed(Seq::empty()),
            _ => self.succeed(spec_save(self.slot_key, decimal(id as nat), SLOT_TTL as int)),
        }
    }

    /// The content snapshot that counts: what the cache will hold under
    /// the content key once the pending writes are made, where it holds
    /// `read` now.
    pub open spec fn snapshot(self, read: Option<Seq<char>>) -> Option<Seq<char>> {
        spec_value_after(read, self.content_key, self.pending)
    }

    /// The next state and the action, given the state and what happened.
    ///
    /// - An embed that is never edited is sent, and the slot is left
    ///   alone.
    /// - Any other output first reads the slot. Without a slot that holds
    ///   a message id, the output is sent and the id stored in the slot.
    /// - A text with a slot is edited into the message of the slot.
    /// - An incident with a slot has its message fetched. A message that
    ///   is gone is replaced by a new one. A message that shows what the
    ///   content snapshot holds is left as it is; any other is edited.
    ///   Then comes a wait, and if the content that the message now shows
    ///   speaks of a resolution, the message is replied to with a notice
    ///   and the slot is removed.
    /// - A refused send, edit or reply ends the delivery with an error and
    ///   no write. So does an event that answers nothing that was asked.
    pub open spec fn spec_step(self, state: DeliveryStateView, event: DeliveryEventView) -> (
        DeliveryStateView,
        DeliveryActionView,
    ) {
        match (state, event) {
            (DeliveryStateView::Start, DeliveryEventView::Begin) => match self.output {
                RSSFeedOutputView::RegularEmbed(_) => (
                    DeliveryStateView::Sending,
                    DeliveryActionView::Send,
                ),
                _ => (DeliveryStateView::ReadingSlot, DeliveryActionView::ReadSlot),
            },
            (
                DeliveryStateView::ReadingSlot,
                DeliveryEventView::SlotRead { slot, snapshot },
            ) => match slot_id(slot) {
                None => (DeliveryStateView::Sending, DeliveryActionView::Send),
                Some(id) => match self.output {
                    RSSFeedOutputView::IncidentEmbed(_) => (
                        DeliveryStateView::FetchingMessage { id, snapshot: self.snapshot(snapshot) },
                        DeliveryActionView::FetchMessage { id },
                    ),
                    _ => (DeliveryStateView::Editing { id }, DeliveryActionView::Edit { id }),
                },
            },
            (
                DeliveryStateView::FetchingMessage { id, snapshot },
                DeliveryEventView::MessageFetched { description },
            ) => if snapshot == description {
                (
                    DeliveryStateView::Settling { id, resolved: speaks_of_resolution(description) },
                    DeliveryActionView::Settle { seconds: SETTLE_SECONDS },
                )
            } else {
                (DeliveryStateView::Editing { id }, DeliveryActionView::Edit { id })
            },
            (DeliveryStateView::FetchingMessage { .. }, DeliveryEventView::MessageMissing) => (
                DeliveryStateView::Sending,
                DeliveryActionView::Send,
            ),
            (DeliveryStateView::Sending, DeliveryEventView::Sent { id }) => (
                DeliveryStateView::Done,
                self.after_send(id),
            ),
            (DeliveryStateView::Sending, DeliveryEventView::SendFailed) => (
                DeliveryStateView::Done,
                fail(DeliveryError::Send),
            ),
            (DeliveryStateView::Editing { id }, DeliveryEventView::Edited) => match self.output {
                RSSFeedOutputView::IncidentEmbed(_) => (
                    DeliveryStateView::Settling {
                        id,
                        resolved: speaks_of_resolution(self.description()),
                    },
                    DeliveryActionView::Settle { seconds: SETTLE_SECONDS },
                ),
                _ => (DeliveryStateView::Done, self.succeed(Seq::empty())),
            },
            (DeliveryStateView::Editing { .. }, DeliveryEventView::EditFailed) => (
                DeliveryStateView::Done,
                fail(DeliveryError::Edit),
            ),
            (DeliveryStateView::Settling { id, resolved }, DeliveryEventView::Settled) => if resolved {
                (DeliveryStateView::Replying, DeliveryActionView::Reply { id })
            } else {
                (DeliveryStateView::Done, self.succeed(Seq::empty()))
            },
            (DeliveryStateView::Replying, DeliveryEventView::Replied) => (
                DeliveryStateView::Done,
                self.succeed(seq![CacheOpView::Remove { key: self.slot_key }]),
            ),
            (DeliveryStateView::Replying, DeliveryEventView::ReplyFailed) => (
                DeliveryStateView::Done,
                fail(DeliveryError::Reply),
            ),
            _ => (DeliveryStateView::Done, fail(DeliveryError::Unexpected)),
        }
    }
}

fn fail_with(error: DeliveryError) -> (action: DeliveryAction)
    ensures
        action@ == fail(error),
{
    let writes: Vec<CacheOp> = Vec::new();
    assert(op_views(writes@) =~= Seq::empty());
    DeliveryAction::Finish { writes, result: Err(error) }
}

impl Delivery {
    /// The delivery of `output` for the source with these keys; `pending`
    /// are the writes that the adapter asked for.
    pub fn new(
        output: RSSFeedOutput,
        slot_key: String,
        content_key: String,
        pending: Vec<CacheOp>,
    ) -> (delivery: Self)
        ensures
            delivery@ == (DeliveryView {
                output: output@,
                slot_key: slot_key@,
                content_key: content_key@,
                pending: op_views(pending@),
            }),
    {
        Delivery { output, slot_key, content_key, pending }
    }

    /// The state in which every delivery starts. It is to be stepped with
    /// `DeliveryEvent::Begin`.
    pub fn start() -> (state: DeliveryState)
        ensures
            state@ == DeliveryStateView::Start,
    {
        DeliveryState::Start
    }

    fn succeed_with(&self, own: Vec<CacheOp>) -> (action: DeliveryAction)
        ensures
            action@ == self@.succeed(op_views(own@)),
    {
        let mut writes = copy_ops(&self.pending);
        let mut own = own;
        let ghost first = writes@;
        let ghost second = own@;
        writes.append(&mut own);
        assert(op_views(writes@) =~= op_views(first) + op_views(second));
        DeliveryAction::Finish { writes, result: Ok(()) }
    }

    fn after_send(&self, id: u64) -> (action: DeliveryAction)
        ensures
            action@ == self@.after_send(id),
    {
        let mut own: Vec<CacheOp> = Vec::new();
        match &self.output {
            RSSFeedOutput::RegularEmbed(_) => {},
            _ => {
                let number = decimal_string(id);
                push_save(&mut own, self.slot_key.as_str(), number.as_str(), SLOT_TTL);
            },
        }
        self.succeed_with(own)
    }

    fn succeed_plainly(&self) -> (action: DeliveryAction)
        ensures
            action@ == self@.succeed(Seq::empty()),
    {
        let own: Vec<CacheOp> = Vec::new();
        self.succeed_with(own)
    }

    fn resolved_in(content: &Option<String>) -> (found: bool)
        ensures
            found == speaks_of_resolution(opt_text(*content)),
    {
        match content {
            Some(text) => has_keyword(RESOLVED_PATTERN, text.as_str()),
            None => false,
        }
    }

    fn shown_resolved(&self) -> (found: bool)
        ensures
            found == speaks_of_resolution(self@.description()),
    {
        match &self.output {
            RSSFeedOutput::RegularEmbed(e) => has_keyword(RESOLVED_PATTERN, e.description.as_str()),
            RSSFeedOutput::IncidentEmbed(e) => has_keyword(
                RESOLVED_PATTERN,
                e.description.as_str(),
            ),
            RSSFeedOutput::Content(_) => false,
        }
    }

    /// Takes the delivery one step on: given where it stands and what
    /// happened, says where it stands now and what to do next.
    pub fn step(&self, state: DeliveryState, event: DeliveryEvent) -> (r: (
        DeliveryState,
        DeliveryAction,
    ))
        ensures
            (r.0@, r.1@) == self@.spec_step(state@, event@),
    {
        match (state, event) {
            (DeliveryState::Start, DeliveryEvent::Begin) => match &self.output {
                RSSFeedOutput::RegularEmbed(_) => (DeliveryState::Sending, DeliveryAction::Send),
                _ => (DeliveryState::ReadingSlot, DeliveryAction::ReadSlot),
            },
            (DeliveryState::ReadingSlot, DeliveryEvent::SlotRead { slot, snapshot }) => {
                let id = match &slot {
                    Some(text) => match parse_u64(text.as_str()) {
                        Some(id) => if id != 0 {
                            Some(id)
                        } else {
                            None
                        },
                        None => None,
                    },
                    None => None,
                };
                match id {
                    None => (DeliveryState::Sending, DeliveryAction::Send),
                    Some(id) => match &self.output {
                        RSSFeedOutput::IncidentEmbed(_) => {
                            let snapshot = value_after(
                                &snapshot,
                                self.content_key.as_str(),
                                &self.pending,
                            );
                            (
                                DeliveryState::FetchingMessage { id, snapshot },
                                DeliveryAction::FetchMessage { id },
                            )
                        },
                        _ => (DeliveryState::Editing { id }, DeliveryAction::Edit { id }),
                    },
                }
            },
            (
                DeliveryState::FetchingMessage { id, snapshot },
                DeliveryEvent::MessageFetched { description },
            ) => {
                if same_opt_text(&snapshot, &description) {
                    (
                        DeliveryState::Settling { id, resolved: Self::resolved_in(&description) },
                        DeliveryAction::Settle { seconds: SETTLE_SECONDS },
                    )
                } else {
                    (DeliveryState::Editing { id }, DeliveryAction::Edit { id })
                }
            },
            (DeliveryState::FetchingMessage { .. }, DeliveryEvent::MessageMissing) => (
                DeliveryState::Sending,
                DeliveryAction::Send,
            ),
            (DeliveryState::Sending, DeliveryEvent::Sent { id }) => (
                DeliveryState::Done,
                self.after_send(id),
            ),
            (DeliveryState::Sending, DeliveryEvent::SendFailed) => (
                DeliveryState::Done,
                fail_with(DeliveryError::Send),
            ),
            (DeliveryState::Editing { id }, DeliveryEvent::Edited) => match &self.output {
                RSSFeedOutput::IncidentEmbed(_) => (
                    DeliveryState::Settling { id, resolved: self.shown_resolved() },
                    DeliveryAction::Settle { seconds: SETTLE_SECONDS },
                ),
                _ => (DeliveryState::Done, self.succeed_plainly()),
            },
            (DeliveryState::Editing { .. }, DeliveryEvent::EditFailed) => (
                DeliveryState::Done,
                fail_with(DeliveryError::Edit),
            ),
            (DeliveryState::Settling { id, resolved }, DeliveryEvent::Settled) => {
                if resolved {
                    (DeliveryState::Replying, DeliveryAction::Reply { id })
                } else {
                    (DeliveryState::Done, self.succeed_plainly())
                }
            },
            (DeliveryState::Replying, DeliveryEvent::Replied) => {
                let mut own: Vec<CacheOp> = Vec::new();
                own.push(CacheOp::Remove { key: self.slot_key.clone() });
                assert(op_views(own@) =~= seq![CacheOpView::Remove { key: self.slot_key@ }]);
                (DeliveryState::Done, self.succeed_with(own))
            },
            (DeliveryState::Replying, DeliveryEvent::ReplyFailed) => (
                DeliveryState::Done,
                fail_with(DeliveryError::Reply),
            ),
            _ => (DeliveryState::Done, fail_with(DeliveryError::Unexpected)),
        }
    }
}

/// What the world outside answers in the course of one delivery.
pub struct Answers {
    /// What the cache holds under the slot key.
    pub slot: Option<Seq<char>>,
    /// What the cache holds under the content key.
    pub snapshot: Option<Seq<char>>,
    /// The message of the slot: `None` where it cannot be fetched, else
    /// the description that it shows, if any.
    pub message: Option<Option<Seq<char>>>,
    /// The id of a new message; `None` where sending is refused.
    pub sent: Option<u64>,
    /// Whether an edit is accepted.
    pub edited: bool,
    /// Whether a reply is accepted.
    pub replied: bool,
}

/// The event that answers an action.
pub open spec fn answer(action: DeliveryActionView, answers: Answers) -> DeliveryEventView {
    match action {
        DeliveryActionView::ReadSlot => DeliveryEventView::SlotRead {
            slot: answers.slot,
            snapshot: answers.snapshot,
        },
        DeliveryActionView::FetchMessage { .. } => match answers.message {
            Some(description) => DeliveryEventView::MessageFetched { description },
            None => DeliveryEventView::MessageMissing,
        },
        DeliveryActionView::Send => match answers.sent {
            Some(id) => DeliveryEventView::Sent { id },
            None => DeliveryEventView::SendFailed,
        },
        DeliveryActionView::Edit { .. } => if answers.edited {
            DeliveryEventView::Edited
        } else {
            DeliveryEventView::EditFailed
        },
        DeliveryActionView::Settle { .. } => DeliveryEventView::Settled,
        DeliveryActionView::Reply { .. } => if answers.replied {
            DeliveryEventView::Replied
        } else {
            DeliveryEventView::ReplyFailed
        },
        DeliveryActionView::Finish { .. } => DeliveryEventView::Begin,
    }
}

impl DeliveryView {
    /// The actions of a delivery from a state and an event on, each
    /// answered as `answers` says, up to the one that finishes it or until
    /// `steps` more were taken.
    pub open spec fn actions_from(
        self,
        state: DeliveryStateView,
        event: DeliveryEventView,
        answers: Answers,
        steps: nat,
    ) -> Seq<DeliveryActionView>
        decreases steps,
    {
        let (next, action) = self.spec_step(state, event);
        if steps == 0 || action is Finish {
            seq![action]
        } else {
            seq![action] + self.actions_from(
                next,
                answer(action, answers),
                answers,
                (steps - 1) as nat,
            )
        }
    }

    /// The actions of a whole delivery. No delivery takes more than six.
    pub open spec fn actions(self, answers: Answers) -> Seq<DeliveryActionView> {
        self.actions_from(DeliveryStateView::Start, DeliveryEventView::Begin, answers, 5)
    }

    /// Every delivery finishes, whatever the answers. Where it fails it
    /// writes nothing, so that the cache is as it was before the tick;
    /// where it succeeds its writes begin with the pending ones.
    pub proof fn lemma_delivery_finishes(self, answers: Answers)
        ensures
            self.actions(answers).len() <= 6,
            self.actions(answers).last() matches DeliveryActionView::Finish { writes, result }
                && match result {
                Ok(_) => writes.len() >= self.pending.len() && writes.take(
                    self.pending.len() as int,
                ) == self.pending,
                Err(_) => writes.len() == 0,
            },
    {
        reveal_with_fuel(DeliveryView::actions_from, 7);
        let last = self.actions(answers).last();
        if last is Finish && last->result is Ok {
            assert(last->writes.take(self.pending.len() as int) =~= self.pending);
        }
    }

    /// An embed that is never edited is sent as a new message, and the
    /// slot is neither read nor written.
    pub proof fn lemma_regular_embed_is_sent(self, answers: Answers)
        requires
            self.output is RegularEmbed,
        ensures
            self.actions(answers) == seq![
                DeliveryActionView::Send,
                if answers.sent is Some {
                    self.succeed(Seq::empty())
                } else {
                    fail(DeliveryError::Send)
                },
            ],
    {
        reveal_with_fuel(DeliveryView::actions_from, 7);
    }

    /// Without a slot, an incident or a text is sent as a new message and
    /// the id of that message is stored in the slot.
    pub proof fn lemma_first_delivery_fills_slot(self, answers: Answers, id: u64)
        requires
            !(self.output is RegularEmbed),
            slot_id(answers.slot) is None,
            answers.sent == Some(id),
        ensures
            self.actions(answers) == seq![
                DeliveryActionView::ReadSlot,
                DeliveryActionView::Send,
                self.succeed(spec_save(self.slot_key, decimal(id as nat), SLOT_TTL as int)),
            ],
    {
        reveal_with_fuel(DeliveryView::actions_from, 7);
    }

    /// An incident whose slot points to a message that exists is never
    /// sent anew: its message is edited, or left as it is where it shows
    /// what the content snapshot holds.
    pub proof fn lemma_incident_is_edited_in_place(self, answers: Answers, id: u64)
        requires
            self.output is IncidentEmbed,
            slot_id(answers.slot) == Some(id),
            answers.message is Some,
        ensures
            forall|i: int|
                0 <= i < self.actions(answers).len() ==> !(#[trigger] self.actions(answers)[i]
                    is Send),
            self.actions(answers)[2] == if self.snapshot(answers.snapshot) == answers.message->0 {
                DeliveryActionView::Settle { seconds: SETTLE_SECONDS }
            } else {
                DeliveryActionView::Edit { id }
            },
    {
        reveal_with_fuel(DeliveryView::actions_from, 7);
    }

    /// An incident whose message is gone is sent anew and its slot
    /// overwritten.
    pub proof fn lemma_missing_message_is_replaced(self, answers: Answers, old_id: u64, id: u64)
        requires
            self.output is IncidentEmbed,
            slot_id(answers.slot) == Some(old_id),
            answers.message is None,
            answers.sent == Some(id),
        ensures
            self.actions(answers) == seq![
                DeliveryActionView::ReadSlot,
                DeliveryActionView::FetchMessage { id: old_id },
                DeliveryActionView::Send,
                self.succeed(spec_save(self.slot_key, decimal(id as nat), SLOT_TTL as int)),
            ],
    {
        reveal_with_fuel(DeliveryView::actions_from, 7);
    }

    /// The content that the message of an incident shows once it was
    /// edited or found up to date.
    pub open spec fn shown_after_edit(self, answers: Answers) -> Option<Seq<char>>
        recommends
            answers.message is Some,
    {
        if self.snapshot(answers.snapshot) == answers.message->0 {
            answers.message->0
        } else {
            self.description()
        }
    }

    /// Resolution clears the slot: where the message of an incident, once
    /// edited or found up to date, speaks of a resolution, the delivery
    /// replies to the message and ends by removing the slot from the
    /// cache; where it does not, there is no reply and the slot stays.
    pub proof fn lemma_resolution_clears_slot(self, answers: Answers, id: u64)
        requires
            self.output is IncidentEmbed,
            slot_id(answers.slot) == Some(id),
            answers.message is Some,
            answers.edited,
            answers.replied,
        ensures
            self.actions(answers).last() == if speaks_of_resolution(self.shown_after_edit(answers)) {
                self.succeed(seq![CacheOpView::Remove { key: self.slot_key }])
            } else {
                self.succeed(Seq::empty())
            },
            speaks_of_resolution(self.shown_after_edit(answers)) <==> exists|i: int|
                0 <= i < self.actions(answers).len() && #[trigger] self.actions(answers)[i]
                    == (DeliveryActionView::Reply { id }),
    {
        reveal_with_fuel(DeliveryView::actions_from, 7);
        let actions = self.actions(answers);
        if speaks_of_resolution(self.shown_after_edit(answers)) {
            if self.snapshot(answers.snapshot) == answers.message->0 {
                assert(actions[3] == (DeliveryActionView::Reply { id }));
            } else {
                assert(actions[4] == (DeliveryActionView::Reply { id }));
            }
        }
    }

    /// A text whose slot points to a message is edited into that message,
    /// and the slot is not written.
    pub proof fn lemma_text_is_edited(self, answers: Answers, id: u64)
        requires
            self.output is Content,
            slot_id(answers.slot) == Some(id),
        ensures
            self.actions(answers) == seq![
                DeliveryActionView::ReadSlot,
                DeliveryActionView::Edit { id },
                if answers.edited {
                    self.succeed(Seq::empty())
                } else {
                    fail(DeliveryError::Edit)
                },
            ],
    {
        reveal_with_fuel(DeliveryView::actions_from, 7);
    }

    /// A delivery that succeeds leaves under every key but the slot what
    /// the pending writes alone would leave there.
    pub proof fn lemma_delivery_keeps_pending(self, answers: Answers, cache: CacheState)
        ensures
            self.actions(answers).last() matches DeliveryActionView::Finish {
                writes,
                result: Ok(_),
            } ==> forall|key: Seq<char>|
                key != self.slot_key ==> cache_get(apply_ops(cache, writes), key) == cache_get(
                    apply_ops(cache, self.pending),
                    key,
                ),
    {
        reveal_with_fuel(DeliveryView::actions_from, 7);
        let last = self.actions(answers).last();
        if last is Finish && last->result is Ok {
            let pended = apply_ops(cache, self.pending);
            let removal = CacheOpView::Remove { key: self.slot_key };
            lemma_apply_concat(cache, self.pending, Seq::empty());
            lemma_apply_concat(cache, self.pending, seq![removal]);
            lemma_apply_one(pended, removal);
            if answers.sent is Some {
                let save = spec_save(
                    self.slot_key,
                    decimal(answers.sent->0 as nat),
                    SLOT_TTL as int,
                );
                lemma_apply_concat(cache, self.pending, save);
                lemma_apply_save(
                    pended,
                    self.slot_key,
                    decimal(answers.sent->0 as nat),
                    SLOT_TTL as int,
                );
            }
        }
    }
}

} // verus!
