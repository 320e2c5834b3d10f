use kon::cache::CacheOp;
use kon::delivery::Delivery;
use kon::delivery::DeliveryAction;
use kon::delivery::DeliveryEvent;
use kon::delivery::DeliveryState;
use kon::delivery::RESOLUTION_NOTICE;
use kon::delivery::SETTLE_SECONDS;
use kon::error::DeliveryError;
use kon::feed::Timestamp;
use kon::output::embed;
use kon::output::RSSFeedOutput;

struct World {
    slot: Option<String>,
    snapshot: Option<String>,
    message: Option<Option<String>>,
    sent: Option<u64>,
    edited: bool,
    replied: bool,
}

fn world() -> World {
    World { slot: None, snapshot: None, message: None, sent: Some(1001), edited: true, replied: true }
}

fn answer(action: &DeliveryAction, world: &World) -> DeliveryEvent {
    match action {
        DeliveryAction::ReadSlot => DeliveryEvent::SlotRead { slot: world.slot.clone(), snapshot: world.snapshot.clone() },
        DeliveryAction::FetchMessage { .. } => match &world.message {
            Some(description) => DeliveryEvent::MessageFetched { description: description.clone() },
            None => DeliveryEvent::MessageMissing,
        },
        DeliveryAction::Send => match world.sent {
            Some(id) => DeliveryEvent::Sent { id },
            None => DeliveryEvent::SendFailed,
        },
        DeliveryAction::Edit { .. } => {
            if world.edited {
                DeliveryEvent::Edited
            } else {
                DeliveryEvent::EditFailed
            }
        }
        DeliveryAction::Settle { .. } => DeliveryEvent::Settled,
        DeliveryAction::Reply { .. } => {
            if world.replied {
                DeliveryEvent::Replied
            } else {
                DeliveryEvent::ReplyFailed
            }
        }
        DeliveryAction::Finish { .. } => unreachable!(),
    }
}

fn drive(delivery: &Delivery, world: &World) -> Vec<DeliveryAction> {
    let mut actions = Vec::new();
    let mut state = Delivery::start();
    let mut event = DeliveryEvent::Begin;
    loop {
        let (next, action) = delivery.step(state, event);
        if matches!(action, DeliveryAction::Finish { .. }) {
            assert_eq!(next, DeliveryState::Done);
            actions.push(action);
            return actions;
        }
        assert!(actions.len() < 6);
        event = answer(&action, world);
        actions.push(action);
        state = next;
    }
}

fn incident(description: &str) -> Delivery {
    Delivery::new(
        RSSFeedOutput::IncidentEmbed(embed(
            0x57F287,
            "Degraded performance".to_string(),
            "https://status.example.com".to_string(),
            description.to_string(),
            Timestamp { secs: 1736756157, nanos: 0 },
        )),
        "RSS_GitHub_MsgId".to_string(),
        "RSS_GitHub_Content".to_string(),
        vec![],
    )
}

fn incident_with(description: &str, pending: Vec<CacheOp>) -> Delivery {
    let mut delivery = incident(description);
    delivery.pending = pending;
    delivery
}

fn content_writes(content: &str) -> Vec<CacheOp> {
    vec![
        CacheOp::Put { key: "RSS_GitHub_Content".to_string(), value: content.to_string() },
        CacheOp::Expire { key: "RSS_GitHub_Content".to_string(), seconds: 21600 },
    ]
}

fn regular() -> Delivery {
    Delivery::new(
        RSSFeedOutput::RegularEmbed(embed(
            0x4EFBCB,
            "t".to_string(),
            "u".to_string(),
            "A patch was resolved".to_string(),
            Timestamp { secs: 0, nanos: 0 },
        )),
        "RSS_ESXi_MsgId".to_string(),
        "RSS_ESXi_Content".to_string(),
        vec![],
    )
}

fn text() -> Delivery {
    Delivery::new(
        RSSFeedOutput::Content("A new article".to_string()),
        "RSS_RustBlog_MsgId".to_string(),
        "RSS_RustBlog_Content".to_string(),
        vec![],
    )
}

fn finish(writes: Vec<CacheOp>, result: Result<(), DeliveryError>) -> DeliveryAction {
    DeliveryAction::Finish { writes, result }
}

fn save_slot(key: &str, id: &str) -> Vec<CacheOp> {
    vec![
        CacheOp::Put { key: key.to_string(), value: id.to_string() },
        CacheOp::Expire { key: key.to_string(), seconds: 36000 },
    ]
}

#[test]
fn regular_embed_is_always_sent() {
    let mut w = world();
    w.slot = Some("42".to_string());
    assert_eq!(drive(&regular(), &w), vec![DeliveryAction::Send, finish(vec![], Ok(()))]);
}

#[test]
fn regular_embed_that_is_refused_fails() {
    let mut w = world();
    w.sent = None;
    assert_eq!(drive(&regular(), &w), vec![DeliveryAction::Send, finish(vec![], Err(DeliveryError::Send))]);
}

#[test]
fn incident_without_slot_is_sent_and_the_slot_filled() {
    assert_eq!(
        drive(&incident("Investigating"), &world()),
        vec![DeliveryAction::ReadSlot, DeliveryAction::Send, finish(save_slot("RSS_GitHub_MsgId", "1001"), Ok(()))]
    );
}

#[test]
fn incident_with_a_slot_that_is_no_number_is_sent() {
    let mut w = world();
    w.slot = Some("not a number".to_string());
    assert_eq!(
        drive(&incident("Investigating"), &w),
        vec![DeliveryAction::ReadSlot, DeliveryAction::Send, finish(save_slot("RSS_GitHub_MsgId", "1001"), Ok(()))]
    );
}

#[test]
fn a_slot_of_zero_points_to_no_message() {
    let mut w = world();
    w.slot = Some("0".to_string());
    assert_eq!(
        drive(&incident("Investigating"), &w),
        vec![DeliveryAction::ReadSlot, DeliveryAction::Send, finish(save_slot("RSS_GitHub_MsgId", "1001"), Ok(()))]
    );
    assert_eq!(
        drive(&text(), &w),
        vec![DeliveryAction::ReadSlot, DeliveryAction::Send, finish(save_slot("RSS_RustBlog_MsgId", "1001"), Ok(()))]
    );
}

#[test]
fn incident_that_is_refused_fails_and_writes_nothing() {
    let mut w = world();
    w.sent = None;
    assert_eq!(
        drive(&incident("Investigating"), &w),
        vec![DeliveryAction::ReadSlot, DeliveryAction::Send, finish(vec![], Err(DeliveryError::Send))]
    );
}

#[test]
fn incident_with_slot_is_edited_in_place() {
    let mut w = world();
    w.slot = Some("42".to_string());
    w.snapshot = Some("Monitoring".to_string());
    w.message = Some(Some("Investigating".to_string()));
    assert_eq!(
        drive(&incident("Monitoring"), &w),
        vec![
            DeliveryAction::ReadSlot,
            DeliveryAction::FetchMessage { id: 42 },
            DeliveryAction::Edit { id: 42 },
            DeliveryAction::Settle { seconds: 15 },
            finish(vec![], Ok(())),
        ]
    );
    assert_eq!(SETTLE_SECONDS, 15);
}

#[test]
fn incident_that_shows_the_snapshot_is_not_edited() {
    let mut w = world();
    w.slot = Some("42".to_string());
    w.snapshot = Some("Monitoring".to_string());
    w.message = Some(Some("Monitoring".to_string()));
    assert_eq!(
        drive(&incident("Monitoring"), &w),
        vec![
            DeliveryAction::ReadSlot,
            DeliveryAction::FetchMessage { id: 42 },
            DeliveryAction::Settle { seconds: 15 },
            finish(vec![], Ok(())),
        ]
    );
}

#[test]
fn incident_whose_message_is_gone_is_sent_anew() {
    let mut w = world();
    w.slot = Some("42".to_string());
    w.message = None;
    assert_eq!(
        drive(&incident("Investigating"), &w),
        vec![
            DeliveryAction::ReadSlot,
            DeliveryAction::FetchMessage { id: 42 },
            DeliveryAction::Send,
            finish(save_slot("RSS_GitHub_MsgId", "1001"), Ok(())),
        ]
    );
}

#[test]
fn incident_whose_edit_is_refused_fails_and_keeps_the_slot() {
    let mut w = world();
    w.slot = Some("42".to_string());
    w.message = Some(Some("Investigating".to_string()));
    w.edited = false;
    assert_eq!(
        drive(&incident("**Resolved** - done"), &w),
        vec![
            DeliveryAction::ReadSlot,
            DeliveryAction::FetchMessage { id: 42 },
            DeliveryAction::Edit { id: 42 },
            finish(vec![], Err(DeliveryError::Edit)),
        ]
    );
}

#[test]
fn resolution_clears_the_slot_after_the_edit() {
    let mut w = world();
    w.slot = Some("42".to_string());
    w.snapshot = Some("\n**Resolved** - This incident has been resolved.\n".to_string());
    w.message = Some(Some("\n**Investigating** - looking\n".to_string()));
    assert_eq!(
        drive(&incident("\n**Resolved** - This incident has been resolved.\n"), &w),
        vec![
            DeliveryAction::ReadSlot,
            DeliveryAction::FetchMessage { id: 42 },
            DeliveryAction::Edit { id: 42 },
            DeliveryAction::Settle { seconds: 15 },
            DeliveryAction::Reply { id: 42 },
            finish(vec![CacheOp::Remove { key: "RSS_GitHub_MsgId".to_string() }], Ok(())),
        ]
    );
    assert_eq!(RESOLUTION_NOTICE, "This incident has been marked as resolved!");
}

#[test]
fn resolution_whose_notice_is_refused_keeps_the_slot() {
    let mut w = world();
    w.slot = Some("42".to_string());
    w.message = Some(Some("Investigating".to_string()));
    w.replied = false;
    assert_eq!(
        drive(&incident("Resolved"), &w),
        vec![
            DeliveryAction::ReadSlot,
            DeliveryAction::FetchMessage { id: 42 },
            DeliveryAction::Edit { id: 42 },
            DeliveryAction::Settle { seconds: 15 },
            DeliveryAction::Reply { id: 42 },
            finish(vec![], Err(DeliveryError::Reply)),
        ]
    );
}

#[test]
fn resolution_clears_the_slot_without_an_edit() {
    let mut w = world();
    w.slot = Some("42".to_string());
    w.snapshot = Some("This incident has been resolved.".to_string());
    w.message = Some(Some("This incident has been resolved.".to_string()));
    assert_eq!(
        drive(&incident("This incident has been resolved."), &w),
        vec![
            DeliveryAction::ReadSlot,
            DeliveryAction::FetchMessage { id: 42 },
            DeliveryAction::Settle { seconds: 15 },
            DeliveryAction::Reply { id: 42 },
            finish(vec![CacheOp::Remove { key: "RSS_GitHub_MsgId".to_string() }], Ok(())),
        ]
    );
}

#[test]
fn message_without_description_differs_from_a_snapshot() {
    let mut w = world();
    w.slot = Some("42".to_string());
    w.snapshot = Some("text".to_string());
    w.message = Some(None);
    let actions = drive(&incident("text"), &w);
    assert_eq!(actions[2], DeliveryAction::Edit { id: 42 });
    w.snapshot = None;
    let actions = drive(&incident("text"), &w);
    assert_eq!(actions[2], DeliveryAction::Settle { seconds: 15 });
    assert_eq!(actions[3], finish(vec![], Ok(())));
}

#[test]
fn text_without_slot_is_sent_and_the_slot_filled() {
    assert_eq!(
        drive(&text(), &world()),
        vec![DeliveryAction::ReadSlot, DeliveryAction::Send, finish(save_slot("RSS_RustBlog_MsgId", "1001"), Ok(()))]
    );
}

#[test]
fn text_with_slot_is_edited() {
    let mut w = world();
    w.slot = Some("18446744073709551615".to_string());
    assert_eq!(
        drive(&text(), &w),
        vec![DeliveryAction::ReadSlot, DeliveryAction::Edit { id: u64::MAX }, finish(vec![], Ok(()))]
    );
    w.edited = false;
    assert_eq!(
        drive(&text(), &w),
        vec![DeliveryAction::ReadSlot, DeliveryAction::Edit { id: u64::MAX }, finish(vec![], Err(DeliveryError::Edit))]
    );
}

#[test]
fn the_slot_that_was_filled_is_read_back() {
    let first = drive(&incident("Investigating"), &world());
    let id = match &first[2] {
        DeliveryAction::Finish { writes, .. } => match &writes[0] {
            CacheOp::Put { value, .. } => value.clone(),
            other => panic!("unexpected write {:?}", other),
        },
        other => panic!("unexpected action {:?}", other),
    };
    let mut w = world();
    w.slot = Some(id);
    w.message = Some(Some("Investigating".to_string()));
    let second = drive(&incident("Monitoring"), &w);
    assert_eq!(second[1], DeliveryAction::FetchMessage { id: 1001 });
}

#[test]
fn an_event_out_of_order_ends_the_delivery() {
    let d = incident("text");
    let cases = vec![
        (DeliveryState::Start, DeliveryEvent::Settled),
        (DeliveryState::Start, DeliveryEvent::Sent { id: 1 }),
        (DeliveryState::ReadingSlot, DeliveryEvent::Begin),
        (DeliveryState::Sending, DeliveryEvent::Edited),
        (DeliveryState::Editing { id: 1 }, DeliveryEvent::Sent { id: 1 }),
        (DeliveryState::Settling { id: 1, resolved: true }, DeliveryEvent::Edited),
        (DeliveryState::Replying, DeliveryEvent::Settled),
        (DeliveryState::FetchingMessage { id: 1, snapshot: None }, DeliveryEvent::Settled),
        (DeliveryState::Done, DeliveryEvent::Begin),
    ];
    for (state, event) in cases {
        assert_eq!(d.step(state, event), (DeliveryState::Done, finish(vec![], Err(DeliveryError::Unexpected))));
    }
}

#[test]
fn pending_writes_are_made_when_the_delivery_succeeds() {
    let pending = content_writes("Monitoring");
    let mut expected = pending.clone();
    expected.extend(save_slot("RSS_GitHub_MsgId", "1001"));
    assert_eq!(
        drive(&incident_with("Monitoring", pending.clone()), &world()),
        vec![DeliveryAction::ReadSlot, DeliveryAction::Send, finish(expected, Ok(()))]
    );

    let mut w = world();
    w.slot = Some("42".to_string());
    w.message = Some(Some("Investigating".to_string()));
    let actions = drive(&incident_with("Monitoring", pending.clone()), &w);
    assert_eq!(actions.last(), Some(&finish(pending.clone(), Ok(()))));

    let mut regular = regular();
    regular.pending = pending.clone();
    assert_eq!(drive(&regular, &world()), vec![DeliveryAction::Send, finish(pending.clone(), Ok(()))]);

    let mut resolved = pending.clone();
    resolved.push(CacheOp::Remove { key: "RSS_GitHub_MsgId".to_string() });
    let actions = drive(&incident_with("Resolved", pending), &w);
    assert_eq!(actions.last(), Some(&finish(resolved, Ok(()))));
}

#[test]
fn pending_writes_are_dropped_when_the_delivery_fails() {
    let pending = content_writes("Monitoring");
    let mut w = world();
    w.sent = None;
    assert_eq!(
        drive(&incident_with("Monitoring", pending.clone()), &w),
        vec![DeliveryAction::ReadSlot, DeliveryAction::Send, finish(vec![], Err(DeliveryError::Send))]
    );
    let mut w = world();
    w.slot = Some("42".to_string());
    w.message = Some(Some("Investigating".to_string()));
    w.edited = false;
    let actions = drive(&incident_with("Monitoring", pending.clone()), &w);
    assert_eq!(actions.last(), Some(&finish(vec![], Err(DeliveryError::Edit))));
    w.edited = true;
    w.replied = false;
    let actions = drive(&incident_with("Resolved", pending), &w);
    assert_eq!(actions.last(), Some(&finish(vec![], Err(DeliveryError::Reply))));
}

#[test]
fn the_pending_content_counts_as_the_snapshot() {
    let mut w = world();
    w.slot = Some("42".to_string());
    w.snapshot = Some("Investigating".to_string());
    w.message = Some(Some("Investigating".to_string()));
    // The cache still holds the old content, the adapter asks for the new.
    let actions = drive(&incident_with("Monitoring", content_writes("Monitoring")), &w);
    assert_eq!(actions[2], DeliveryAction::Edit { id: 42 });
    // The message shows the new content already: nothing to edit.
    w.message = Some(Some("Monitoring".to_string()));
    let actions = drive(&incident_with("Monitoring", content_writes("Monitoring")), &w);
    assert_eq!(actions[2], DeliveryAction::Settle { seconds: 15 });
    // Without a pending write the cache decides.
    let actions = drive(&incident("Monitoring"), &w);
    assert_eq!(actions[2], DeliveryAction::Edit { id: 42 });
}
