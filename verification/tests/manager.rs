use nostr_relays::events::{classify, EventKind, NostrEvent, Tag};
use nostr_relays::relay_manager::{
    Action, CrawlState, Notification, RelayManager, IDLE_STOP_MIN_EOSE, IDLE_STOP_SECS,
    MAX_ACTIVE_RELAYS, PERIOD_START_PAST_SECS,
};

fn listening_manager(now: u64, bootstrap: Vec<String>) -> RelayManager {
    let mut m = RelayManager::new(now);
    let _activation = m.start(&bootstrap);
    let _window = m.subscribe(now);
    assert_eq!(m.state, CrawlState::Listening);
    m
}

fn eose(connection: &str) -> Notification {
    Notification::EndOfFeed {
        connection: connection.to_string(),
    }
}

fn message(kind: EventKind, tags: Vec<Tag>, content: &str) -> Notification {
    Notification::Message {
        connection: "wss://origin.example.com/".to_string(),
        event: NostrEvent {
            kind,
            tags,
            content: content.to_string(),
        },
    }
}

#[test]
fn default_configuration() {
    let m = RelayManager::new(7);
    assert_eq!(m.capacity, MAX_ACTIVE_RELAYS);
    assert_eq!(m.capacity, 50);
    assert_eq!(m.lookback_secs, PERIOD_START_PAST_SECS);
    assert_eq!(m.lookback_secs, 21600);
    assert_eq!(m.idle_threshold_secs, IDLE_STOP_SECS);
    assert_eq!(m.idle_threshold_secs, 20);
    assert_eq!(m.min_eose_for_idle_stop, IDLE_STOP_MIN_EOSE);
    assert_eq!(m.min_eose_for_idle_stop, 2);
    assert_eq!(m.state, CrawlState::Seeding);
    assert_eq!(m.time_last_event, 7);
}

#[test]
fn seeding_is_capped_at_capacity() {
    let mut m = RelayManager::new_with_config(2, 21600, 20, 2, 0);
    let bootstrap = vec![
        "wss://one.example.com".to_string(),
        "wss://two.example.com".to_string(),
        "wss://three.example.com".to_string(),
    ];
    let activation = m.start(&bootstrap);
    assert_eq!(m.relays.count(), 2);
    assert_eq!(activation.len(), 2);
    assert_eq!(m.state, CrawlState::Subscribing);
}

#[test]
fn subscription_window_looks_back_six_hours() {
    let mut m = RelayManager::new(100_000);
    let _ = m.start(&vec![]);
    let window = m.subscribe(100_000);
    assert_eq!(window, (78_400, 100_000));
    assert_eq!(m.state, CrawlState::Listening);

    let mut early = RelayManager::new(10);
    let _ = early.start(&vec![]);
    assert_eq!(early.subscribe(10), (0, 10));
}

#[test]
fn subscribed_kinds_are_the_discovery_relevant_kinds() {
    assert_eq!(
        RelayManager::subscribed_kinds(),
        vec![
            EventKind::ContactList,
            EventKind::RecommendRelay,
            EventKind::LongFormTextNote
        ]
    );
}

#[test]
fn quorum_stops_on_fifth_of_five() {
    let mut m = listening_manager(0, vec![]);
    for i in 1..=4 {
        let action = m.handle_notification(eose(&format!("wss://c{}.example.com/", i)), 5, 0);
        assert!(matches!(action, Action::KeepListening));
        assert_eq!(m.state, CrawlState::Listening);
    }
    let action = m.handle_notification(eose("wss://c5.example.com/"), 5, 0);
    assert!(matches!(action, Action::Drain));
    assert_eq!(m.state, CrawlState::Draining);
}

#[test]
fn repeated_end_of_feed_does_not_advance_quorum() {
    let mut m = listening_manager(0, vec![]);
    let a1 = m.handle_notification(eose("wss://c1.example.com/"), 2, 0);
    assert!(matches!(a1, Action::KeepListening));
    let a2 = m.handle_notification(eose("wss://c1.example.com/"), 2, 0);
    assert!(matches!(a2, Action::KeepListening));
    let a3 = m.handle_notification(eose("wss://c2.example.com/"), 2, 0);
    assert!(matches!(a3, Action::Drain));
}

#[test]
fn no_quorum_without_active_connections() {
    let mut m = listening_manager(0, vec![]);
    for i in 1..=6 {
        let action = m.handle_notification(eose(&format!("wss://c{}.example.com/", i)), 0, 0);
        assert!(matches!(action, Action::KeepListening));
        assert_eq!(m.state, CrawlState::Listening);
    }
}

#[test]
fn idle_timeout_stops_after_two_end_of_feeds() {
    let mut m = listening_manager(0, vec![]);
    assert!(matches!(
        m.handle_notification(eose("wss://c1.example.com/"), 5, 5),
        Action::KeepListening
    ));
    assert!(matches!(
        m.handle_notification(eose("wss://c2.example.com/"), 5, 5),
        Action::KeepListening
    ));
    // 21 seconds after the last discovery-relevant event, on the next
    // notification of any kind, the idle heuristic stops the crawl.
    let action = m.handle_notification(message(EventKind::Metadata, vec![], ""), 5, 21);
    assert!(matches!(action, Action::Drain));
    assert_eq!(m.state, CrawlState::Draining);
}

#[test]
fn idle_timeout_needs_minimum_end_of_feeds() {
    let mut m = listening_manager(0, vec![]);
    assert!(matches!(
        m.handle_notification(eose("wss://c1.example.com/"), 5, 0),
        Action::KeepListening
    ));
    // Only one end-of-feed so far: even a long quiet spell does not stop.
    let action = m.handle_notification(message(EventKind::Metadata, vec![], ""), 5, 120);
    assert!(matches!(action, Action::KeepListening));
}

#[test]
fn discovery_relevant_event_resets_idle_clock() {
    let mut m = listening_manager(0, vec![]);
    let _ = m.handle_notification(eose("wss://c1.example.com/"), 5, 0);
    let _ = m.handle_notification(eose("wss://c2.example.com/"), 5, 0);
    // A relay recommendation at t=19 refreshes the clock, so t=25 is not idle.
    let a = m.handle_notification(
        message(EventKind::RecommendRelay, vec![], "wss://fresh.example.com"),
        50,
        19,
    );
    assert!(matches!(a, Action::KeepListening));
    let b = m.handle_notification(message(EventKind::Metadata, vec![], ""), 5, 25);
    assert!(matches!(b, Action::KeepListening));
}

#[test]
fn reconnect_triggers_exactly_once_per_growth() {
    let bootstrap: Vec<String> = (0..10)
        .map(|i| format!("wss://boot{}.example.com", i))
        .collect();
    let mut m = listening_manager(0, bootstrap);
    assert_eq!(m.relays.count(), 10);

    // Growth to 11 known endpoints with 10 active connections: rebuild once.
    let action = m.handle_notification(
        message(EventKind::RecommendRelay, vec![], "wss://new.example.com"),
        10,
        0,
    );
    match action {
        Action::Rebuild(addresses) => assert_eq!(addresses.len(), 11),
        _ => panic!("expected a rebuild"),
    }

    // The same announcement again is no growth: no second rebuild.
    let again = m.handle_notification(
        message(EventKind::RecommendRelay, vec![], "wss://new.example.com"),
        11,
        0,
    );
    assert!(matches!(again, Action::KeepListening));
}

#[test]
fn reconnect_decision_respects_capacity() {
    let bootstrap: Vec<String> = (0..3)
        .map(|i| format!("wss://boot{}.example.com", i))
        .collect();
    let mut m = RelayManager::new_with_config(2, 21600, 20, 2, 0);
    let _ = m.start(&bootstrap);
    // Two of three bootstrap addresses were kept (capacity 2), both active:
    // the pool is full, so growth alone is no reason to rebuild.
    assert!(m.reconnect_if_beneficial(2).is_none());
    assert!(m.reconnect_if_beneficial(1).is_some());
    let sample = m.reconnect_if_beneficial(1).unwrap();
    assert_eq!(sample.len(), 2);
}

#[test]
fn contact_list_tags_feed_the_registry() {
    let mut m = listening_manager(0, vec![]);
    let tags = vec![
        Tag::PubKey {
            relay: Some("wss://hint1.example.com".to_string()),
        },
        Tag::PubKey { relay: None },
        Tag::Other,
        Tag::PubKey {
            relay: Some("not a url".to_string()),
        },
        Tag::PubKey {
            relay: Some("wss://hint2.example.com".to_string()),
        },
    ];
    let action = m.handle_notification(message(EventKind::ContactList, tags, ""), 50, 0);
    assert!(matches!(action, Action::KeepListening));
    assert_eq!(m.relays.count(), 2);
    assert_eq!(
        m.relays.get_some(10),
        vec![
            "wss://hint1.example.com/".to_string(),
            "wss://hint2.example.com/".to_string()
        ]
    );
}

#[test]
fn long_form_note_tags_feed_the_registry() {
    let mut m = listening_manager(0, vec![]);
    let tags = vec![Tag::PubKey {
        relay: Some("wss://long.example.com".to_string()),
    }];
    let _ = m.handle_notification(message(EventKind::LongFormTextNote, tags, ""), 50, 0);
    assert_eq!(m.relays.count(), 1);
}

#[test]
fn irrelevant_kinds_contribute_nothing() {
    let mut m = listening_manager(0, vec![]);
    let tags = vec![Tag::PubKey {
        relay: Some("wss://ignored.example.com".to_string()),
    }];
    let action = m.handle_notification(
        message(EventKind::TextNote, tags, "wss://also-ignored.example.com"),
        50,
        0,
    );
    assert!(matches!(action, Action::KeepListening));
    assert_eq!(m.relays.count(), 0);
}

#[test]
fn shutdown_drains_immediately() {
    let mut m = listening_manager(0, vec![]);
    let action = m.handle_notification(Notification::Shutdown, 5, 0);
    assert!(matches!(action, Action::Drain));
    assert_eq!(m.state, CrawlState::Draining);
    m.finish();
    assert_eq!(m.state, CrawlState::Stopped);
}

#[test]
fn full_crawl_produces_report_with_seed() {
    let mut m = RelayManager::new(0);
    let boot = vec!["wss://boot.example.com".to_string()];
    let activation = m.start(&boot);
    assert_eq!(activation, vec!["wss://boot.example.com/".to_string()]);
    assert_eq!(m.subscribe(0), (0, 0));
    let grow = m.handle_notification(
        message(EventKind::RecommendRelay, vec![], "wss://found.example.com"),
        1,
        1,
    );
    assert!(matches!(grow, Action::Rebuild(_)));
    let stop = m.handle_notification(eose("wss://boot.example.com/"), 1, 2);
    assert!(matches!(stop, Action::Drain));
    m.finish();
    assert_eq!(m.state, CrawlState::Stopped);
    assert_eq!(
        m.relays.dump(),
        "[\"RELAYS\",{\"0\":\"wss://boot.example.com/\"},{\"1\":\"wss://found.example.com/\"},{\"2\":\"wss://relay.gnostr.org\"}]"
    );
}

#[test]
fn classification_of_event_kinds() {
    let recommend = NostrEvent {
        kind: EventKind::RecommendRelay,
        tags: vec![],
        content: "wss://rec.example.com".to_string(),
    };
    let (relevant, candidates) = classify(&recommend);
    assert!(relevant);
    assert_eq!(candidates, vec!["wss://rec.example.com".to_string()]);

    let contacts = NostrEvent {
        kind: EventKind::ContactList,
        tags: vec![
            Tag::PubKey {
                relay: Some("wss://c.example.com".to_string()),
            },
            Tag::PubKey { relay: None },
        ],
        content: String::new(),
    };
    let (relevant, candidates) = classify(&contacts);
    assert!(relevant);
    assert_eq!(candidates, vec!["wss://c.example.com".to_string()]);

    let plain = NostrEvent {
        kind: EventKind::Custom(4242),
        tags: vec![],
        content: "wss://x.example.com".to_string(),
    };
    let (relevant, candidates) = classify(&plain);
    assert!(!relevant);
    assert!(candidates.is_empty());
}
