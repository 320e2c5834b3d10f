use kon::adapter::Classification;
use kon::adapter::FeedStep;
use kon::cache::CacheOp;
use kon::error::ExtractionError;
use kon::error::FeedError;
use kon::error::Field;
use kon::feed::FeedEntry;
use kon::feed::FeedLink;
use kon::feed::Timestamp;
use kon::incident::first_segment;
use kon::incident::get_incident_id;
use kon::incident::has_keyword;
use kon::incident::incident_color;
use kon::incident::incident_state;
use kon::incident::incident_step;
use kon::incident::state_of;
use kon::incident::pick_segment;
use kon::incident::trim_old_content;
use kon::incident::IncidentColorMap;
use kon::incident::MAX_CONTENT_LENGTH;
use kon::incident::RESOLVED_PATTERN;
use kon::output::Embed;
use kon::output::RSSFeedOutput;

const TWO_PARTS: &str = "\nJan 13, 08:15 UTC\n**Resolved** - This incident has been resolved.\n\nJan 13, 07:40 UTC\n**Investigating** - We are investigating reports of degraded performance.\n";

fn incident_entry(id: &str, body: &str) -> FeedEntry {
    FeedEntry {
        id: format!("tag:status.example.com,2005:Incident/{}", id),
        title: Some("Degraded performance".to_string()),
        content: Some(body.to_string()),
        summary: None,
        updated: Some(Timestamp { secs: 1736756157, nanos: 0 }),
        categories: vec![],
        links: vec![FeedLink {
            href: format!("https://status.example.com/incidents/{}", id),
            title: None,
        }],
    }
}

fn put(key: &str, value: &str) -> CacheOp {
    CacheOp::Put { key: key.to_string(), value: value.to_string() }
}

fn expire(key: &str, seconds: i64) -> CacheOp {
    CacheOp::Expire { key: key.to_string(), seconds }
}

#[test]
fn content_of_exactly_the_limit_is_untouched() {
    let content = "x".repeat(4000);
    assert_eq!(MAX_CONTENT_LENGTH, 4000);
    assert_eq!(trim_old_content(&content), content);
}

#[test]
fn content_over_the_limit_is_cut_to_the_limit() {
    let content = "x".repeat(3999) + "yz";
    let cut = trim_old_content(&content);
    assert_eq!(cut.chars().count(), 4000);
    assert_eq!(cut, "x".repeat(3999) + "y");
    let long = "ab".repeat(5000);
    assert_eq!(trim_old_content(&long), "ab".repeat(2000));
}

#[test]
fn short_content_is_untouched() {
    assert_eq!(trim_old_content(""), "");
    assert_eq!(trim_old_content("short"), "short");
}

#[test]
fn content_is_cut_by_characters() {
    let content = "é".repeat(4001);
    let cut = trim_old_content(&content);
    assert_eq!(cut, "é".repeat(4000));
}

#[test]
fn colors_of_the_states() {
    assert_eq!(IncidentColorMap::Update.color(), 0xABDD9E);
    assert_eq!(IncidentColorMap::Investigating.color(), 0xA5CCE0);
    assert_eq!(IncidentColorMap::Monitoring.color(), 0x81CBAD);
    assert_eq!(IncidentColorMap::Resolved.color(), 0x57F287);
    assert_eq!(IncidentColorMap::Default.color(), 0x81CBAD);
}

#[test]
fn keyword_needs_word_boundaries() {
    assert!(has_keyword(RESOLVED_PATTERN, "This incident has been resolved."));
    assert!(has_keyword(RESOLVED_PATTERN, "**Resolved** - done"));
    assert!(has_keyword(RESOLVED_PATTERN, "RESOLVED"));
    assert!(!has_keyword(RESOLVED_PATTERN, "unresolved"));
    assert!(!has_keyword(RESOLVED_PATTERN, "resolvedness"));
    assert!(!has_keyword(RESOLVED_PATTERN, ""));
}

#[test]
fn keyword_with_a_broken_pattern_is_not_found() {
    assert!(!has_keyword("(", "("));
    assert!(!has_keyword("[a-", "a"));
}

#[test]
fn state_follows_the_precedence() {
    assert_eq!(incident_state("Update - we are investigating, resolved soon"), IncidentColorMap::Update);
    assert_eq!(incident_state("Investigating - monitoring until resolved"), IncidentColorMap::Investigating);
    assert_eq!(incident_state("Monitoring - resolved soon"), IncidentColorMap::Monitoring);
    assert_eq!(incident_state("resolved"), IncidentColorMap::Resolved);
    assert_eq!(incident_state("Identified - a fix is on its way"), IncidentColorMap::Default);
    assert_eq!(incident_state("updates investigated monitored"), IncidentColorMap::Default);
    assert_eq!(incident_state(""), IncidentColorMap::Default);
}

#[test]
fn first_segment_is_the_newest_part() {
    assert_eq!(first_segment(TWO_PARTS), "**Resolved** - This incident has been resolved.");
}

#[test]
fn first_segment_without_time_stamp_is_the_trimmed_content() {
    assert_eq!(first_segment("  no time stamp here \n"), "no time stamp here");
}

#[test]
fn first_segment_of_nothing_but_time_stamps_is_the_content() {
    assert_eq!(first_segment("Jan 13, 08:15 UTC"), "Jan 13, 08:15 UTC");
    assert_eq!(first_segment(" Jan 13, 08:15 UTC \n Feb 01, 23:59 UTC "), " Jan 13, 08:15 UTC \n Feb 01, 23:59 UTC ");
    assert_eq!(first_segment(""), "");
    assert_eq!(first_segment("  "), "  ");
}

#[test]
fn first_segment_skips_leading_text_only_if_blank() {
    assert_eq!(first_segment("Intro Jan 13, 08:15 UTC later"), "Intro");
}

#[test]
fn pick_segment_takes_the_first_part_with_text() {
    let parts = Some(vec!["  ".to_string(), "\n".to_string(), " b ".to_string(), "c".to_string()]);
    assert_eq!(pick_segment("whole", &parts), "b");
    assert_eq!(pick_segment("whole", &Some(vec![" ".to_string()])), "whole");
    assert_eq!(pick_segment("whole", &Some(vec![])), "whole");
    assert_eq!(pick_segment("whole", &None), "whole");
}

#[test]
fn color_is_read_from_the_newest_part() {
    assert_eq!(incident_color(TWO_PARTS), 0x57F287);
    let investigating = "\nJan 13, 07:40 UTC\n**Investigating** - We are investigating.\n";
    assert_eq!(incident_color(investigating), 0xA5CCE0);
    let update_first = "\nJan 13, 09:00 UTC\n**Update** - Still investigating.\n\nJan 13, 07:40 UTC\n**Resolved** - x\n";
    assert_eq!(incident_color(update_first), 0xABDD9E);
    assert_eq!(incident_color("nothing to see"), 0x81CBAD);
}

#[test]
fn incident_id_is_the_end_of_the_address() {
    assert_eq!(get_incident_id("https://www.githubstatus.com/incidents/qd96yfgvmcf9"), Some("qd96yfgvmcf9".to_string()));
    assert_eq!(get_incident_id("/incidents/A1"), Some("A1".to_string()));
    assert_eq!(get_incident_id("/incidents/a/incidents/b"), Some("b".to_string()));
}

#[test]
fn incident_id_needs_the_expected_address() {
    assert_eq!(get_incident_id("https://www.githubstatus.com/incidents/"), None);
    assert_eq!(get_incident_id("https://www.githubstatus.com/incidents/abc/"), None);
    assert_eq!(get_incident_id("https://www.githubstatus.com/incidents/abc?x=1"), None);
    assert_eq!(get_incident_id("https://www.githubstatus.com/incidents/abc\n"), None);
    assert_eq!(get_incident_id("https://www.githubstatus.com/incident/abc"), None);
    assert_eq!(get_incident_id("https://www.githubstatus.com/incidents/ab_c"), None);
    assert_eq!(get_incident_id(""), None);
}

#[test]
fn incident_first_seen_seeds_identifier_and_content() {
    let entry = incident_entry("x1", "<p>Investigating</p>");
    let step = incident_step("Status", &Some("https://status.example.com".to_string()), Field::FeedLink, &entry, &None, &None).unwrap();
    assert_eq!(
        step,
        FeedStep {
            classification: Classification::FirstSeen,
            output: None,
            writes: vec![
                put("RSS_Status", "x1"),
                expire("RSS_Status", 7200),
                put("RSS_Status_Content", "\nInvestigating\n"),
                expire("RSS_Status_Content", 7200),
            ],
        }
    );
}

#[test]
fn incident_with_empty_cached_identifier_is_first_seen() {
    let entry = incident_entry("x1", "text");
    let step = incident_step("Status", &Some("page".to_string()), Field::FeedLink, &entry, &Some(String::new()), &Some("old".to_string())).unwrap();
    assert_eq!(step.classification, Classification::FirstSeen);
    assert_eq!(step.output, None);
}

#[test]
fn incident_unchanged_is_silent() {
    let entry = incident_entry("x1", "<p>Investigating</p>");
    let step = incident_step("Status", &Some("page".to_string()), Field::FeedLink,
        &entry,
        &Some("x1".to_string()),
        &Some("\nInvestigating\n".to_string()),
    )
    .unwrap();
    assert_eq!(step, FeedStep { classification: Classification::Unchanged, output: None, writes: vec![] });
}

#[test]
fn incident_with_empty_content_and_no_snapshot_is_unchanged() {
    let entry = incident_entry("x1", "");
    let step = incident_step("Status", &Some("page".to_string()), Field::FeedLink, &entry, &Some("x1".to_string()), &None).unwrap();
    assert_eq!(step, FeedStep { classification: Classification::Unchanged, output: None, writes: vec![] });
}

#[test]
fn incident_content_change_is_an_update() {
    let entry = incident_entry("x1", "<p><strong>Resolved</strong> - fixed</p>");
    let step = incident_step("Status", &Some("https://status.example.com".to_string()), Field::FeedLink,
        &entry,
        &Some("x1".to_string()),
        &Some("\nInvestigating\n".to_string()),
    )
    .unwrap();
    assert_eq!(
        step,
        FeedStep {
            classification: Classification::Updated,
            output: Some(RSSFeedOutput::IncidentEmbed(Embed {
                color: 0x57F287,
                title: Some("Degraded performance".to_string()),
                url: Some("https://status.example.com".to_string()),
                author: None,
                thumbnail: None,
                description: "\n**Resolved** - fixed\n".to_string(),
                timestamp: Timestamp { secs: 1736756157, nanos: 0 },
            })),
            writes: vec![
                put("RSS_Status_Content", "\n**Resolved** - fixed\n"),
                expire("RSS_Status_Content", 21600),
            ],
        }
    );
}

#[test]
fn incident_identifier_change_is_a_new_item() {
    let entry = incident_entry("x2", "<p>Investigating</p>");
    let step = incident_step("Status", &Some("https://status.example.com".to_string()), Field::FeedLink,
        &entry,
        &Some("x1".to_string()),
        &Some("\nInvestigating\n".to_string()),
    )
    .unwrap();
    assert_eq!(step.classification, Classification::NewItem);
    assert_eq!(
        step.writes,
        vec![
            put("RSS_Status", "x2"),
            expire("RSS_Status", 7200),
            put("RSS_Status_Content", "\nInvestigating\n"),
        ]
    );
    assert_eq!(
        step.output,
        Some(RSSFeedOutput::IncidentEmbed(Embed {
            color: 0xA5CCE0,
            title: Some("Degraded performance".to_string()),
            url: Some("https://status.example.com".to_string()),
            author: None,
            thumbnail: None,
            description: "\nInvestigating\n".to_string(),
            timestamp: Timestamp { secs: 1736756157, nanos: 0 },
        }))
    );
}

#[test]
fn incident_embed_shows_at_most_the_limit() {
    let body = "y".repeat(4500);
    let entry = incident_entry("x2", &body);
    let step = incident_step("Status", &Some("page".to_string()), Field::FeedLink, &entry, &Some("x1".to_string()), &None).unwrap();
    match step.output {
        Some(RSSFeedOutput::IncidentEmbed(embed)) => assert_eq!(embed.description, "y".repeat(4000)),
        other => panic!("unexpected output {:?}", other),
    }
    assert_eq!(step.writes[2], put("RSS_Status_Content", &body));
}

#[test]
fn incident_without_link_fails() {
    let mut entry = incident_entry("x1", "text");
    entry.links.clear();
    assert_eq!(
        incident_step("Status", &Some("page".to_string()), Field::FeedLink, &entry, &None, &None),
        Err(FeedError::Extraction(ExtractionError::Missing(Field::Link)))
    );
}

#[test]
fn incident_without_content_has_empty_content() {
    let mut entry = incident_entry("x1", "text");
    entry.content = None;
    let step = incident_step("Status", &None, Field::FeedLink, &entry, &None, &None).unwrap();
    assert_eq!(
        step,
        FeedStep {
            classification: Classification::FirstSeen,
            output: None,
            writes: vec![
                put("RSS_Status", "x1"),
                expire("RSS_Status", 7200),
                put("RSS_Status_Content", ""),
                expire("RSS_Status_Content", 7200),
            ],
        }
    );
    let again = incident_step("Status", &None, Field::FeedLink, &entry, &Some("x1".to_string()), &Some(String::new()));
    assert_eq!(again, Ok(FeedStep { classification: Classification::Unchanged, output: None, writes: vec![] }));
}

#[test]
fn incident_without_page_fails_only_when_shown() {
    let entry = incident_entry("x1", "text");
    assert!(incident_step("Status", &None, Field::FeedLink, &entry, &None, &None).is_ok());
    assert!(incident_step("Status", &None, Field::FeedLink, &entry, &Some("x1".to_string()), &Some("text".to_string())).is_ok());
    assert_eq!(
        incident_step("Status", &None, Field::FeedLink, &entry, &Some("x0".to_string()), &None),
        Err(FeedError::Extraction(ExtractionError::Missing(Field::FeedLink)))
    );
    assert_eq!(
        incident_step("Status", &None, Field::Link, &entry, &Some("x1".to_string()), &Some("old".to_string())),
        Err(FeedError::Extraction(ExtractionError::Missing(Field::Link)))
    );
}

#[test]
fn state_is_decided_by_the_first_keyword_found() {
    for bits in 0..16u8 {
        let (u, i, m, r) = (bits & 8 != 0, bits & 4 != 0, bits & 2 != 0, bits & 1 != 0);
        let expected = if u {
            IncidentColorMap::Update
        } else if i {
            IncidentColorMap::Investigating
        } else if m {
            IncidentColorMap::Monitoring
        } else if r {
            IncidentColorMap::Resolved
        } else {
            IncidentColorMap::Default
        };
        assert_eq!(state_of(u, i, m, r), expected);
    }
}

#[test]
fn incident_without_identifier_fails_even_at_first_sight() {
    let mut entry = incident_entry("x1", "text");
    entry.links[0].href = "https://status.example.com/".to_string();
    assert_eq!(
        incident_step("Status", &Some("page".to_string()), Field::FeedLink, &entry, &None, &None),
        Err(FeedError::Extraction(ExtractionError::NoIdentifier))
    );
    assert_eq!(
        incident_step("Status", &Some("page".to_string()), Field::FeedLink, &entry, &Some("x1".to_string()), &None),
        Err(FeedError::Extraction(ExtractionError::NoIdentifier))
    );
}

#[test]
fn incident_without_title_fails_only_when_shown() {
    let mut entry = incident_entry("x1", "text");
    entry.title = None;
    assert!(incident_step("Status", &Some("page".to_string()), Field::FeedLink, &entry, &None, &None).is_ok());
    assert!(incident_step("Status", &Some("page".to_string()), Field::FeedLink, &entry, &Some("x1".to_string()), &Some("text".to_string())).is_ok());
    assert_eq!(
        incident_step("Status", &Some("page".to_string()), Field::FeedLink, &entry, &Some("x0".to_string()), &None),
        Err(FeedError::Extraction(ExtractionError::Missing(Field::Title)))
    );
}

#[test]
fn incident_without_time_fails_only_when_shown() {
    let mut entry = incident_entry("x1", "text");
    entry.updated = None;
    assert!(incident_step("Status", &Some("page".to_string()), Field::FeedLink, &entry, &None, &None).is_ok());
    assert_eq!(
        incident_step("Status", &Some("page".to_string()), Field::FeedLink, &entry, &Some("x1".to_string()), &Some("old".to_string())),
        Err(FeedError::Extraction(ExtractionError::Missing(Field::Updated)))
    );
}

fn incident_id_by_regex(input: &str) -> Option<String> {
    let re = regex::Regex::new(r#"/incidents/([a-zA-Z0-9]+)$"#).unwrap();
    re.captures(input).map(|caps| caps[1].to_string())
}

#[test]
fn incident_id_agrees_with_regular_expressions() {
    let samples = [
        "",
        "/",
        "/incidents/",
        "/incidents/a",
        "incidents/a",
        "/incidents/a/",
        "/incidents/a\n",
        "/incidents/a b",
        "/incidents/é",
        "/incidents/aé",
        "/incidents/éa",
        "/incidents//incidents/x9",
        "/incidents/x/incidents/",
        "/Incidents/x",
        "/incidents/X0z",
        "x/incidents/7",
        "https://www.githubstatus.com/incidents/qd96yfgvmcf9",
        "https://status.g-portal.com/incidents/01JHGZ3V3HQ5PN8XEWBWDR1X0N",
        "/incidents/\u{ff11}",
        "/incidents/a\u{212a}",
        "abc",
        "/incidentsx",
    ];
    for sample in samples {
        assert_eq!(get_incident_id(sample), incident_id_by_regex(sample), "on {:?}", sample);
    }
    let pieces = ["/", "incidents", "/incidents/", "a", "Z", "0", "9", "-", "_", "\n", " ", "é", "x1"];
    let mut seed = 11u64;
    for round in 0..3000 {
        let mut sample = String::new();
        for _ in 0..(1 + round % 7) {
            seed = seed.wrapping_mul(6364136223846793005).wrapping_add(1442695040888963407);
            sample.push_str(pieces[((seed >> 33) % pieces.len() as u64) as usize]);
        }
        assert_eq!(get_incident_id(&sample), incident_id_by_regex(&sample), "on {:?}", sample);
    }
}
