use smtc_monitor::session_manager::{
    listing_has, register_session, EventKind, InnerSession, ListedSession, SessionManager,
    SessionTokens,
};

fn listed(session: u64, id: &str) -> ListedSession {
    ListedSession { session, id: Some(id.to_string()) }
}

fn fresh(id: &str, session: u64) -> InnerSession {
    InnerSession {
        id: id.to_string(),
        session,
        media_props_token: None,
        playback_info_token: None,
        timeline_props_token: None,
    }
}

fn tokens(a: i64, b: i64, c: i64) -> SessionTokens {
    SessionTokens {
        media_props_token: Some(a),
        playback_info_token: Some(b),
        timeline_props_token: Some(c),
    }
}

fn ids(r: &SessionManager) -> Vec<String> {
    r.session_ids()
}

#[test]
fn new_registry_is_empty() {
    let r = SessionManager::new();
    assert_eq!(r.len(), 0);
    assert_eq!(ids(&r), Vec::<String>::new());
    for kind in [
        EventKind::SessionAdded,
        EventKind::SessionRemoved,
        EventKind::MediaPropertiesChanged,
        EventKind::PlaybackInfoChanged,
        EventKind::TimelinePropertiesChanged,
        EventKind::CurrentSessionChanged,
    ] {
        assert_eq!(r.fan_out(kind), Vec::<u64>::new());
    }
}

#[test]
fn reconcile_adds_listed_sessions_in_order() {
    let mut r = SessionManager::new();
    let change = r.reconcile(&vec![listed(10, "A"), listed(11, "B")]);
    assert_eq!(change.added, vec![fresh("A", 10), fresh("B", 11)]);
    assert_eq!(change.removed, Vec::<InnerSession>::new());
    assert_eq!(ids(&r), vec!["A".to_string(), "B".to_string()]);
}

#[test]
fn reconcile_removes_sessions_that_are_gone() {
    let mut r = SessionManager::new();
    r.reconcile(&vec![listed(10, "A"), listed(11, "B"), listed(12, "C")]);
    assert_eq!(r.subscribe(&"A".to_string(), tokens(1, 2, 3)), SessionTokens::empty());
    assert_eq!(r.subscribe(&"C".to_string(), tokens(7, 8, 9)), SessionTokens::empty());
    let change = r.reconcile(&vec![listed(21, "B")]);
    assert_eq!(change.added, Vec::<InnerSession>::new());
    assert_eq!(
        change.removed,
        vec![
            InnerSession {
                id: "A".to_string(),
                session: 10,
                media_props_token: Some(1),
                playback_info_token: Some(2),
                timeline_props_token: Some(3),
            },
            InnerSession {
                id: "C".to_string(),
                session: 12,
                media_props_token: Some(7),
                playback_info_token: Some(8),
                timeline_props_token: Some(9),
            },
        ]
    );
    assert_eq!(ids(&r), vec!["B".to_string()]);
    // the handle of a session that stays is the one registered first
    assert_eq!(r.get(&"B".to_string()), Some(fresh("B", 11)));
}

#[test]
fn reconcile_adds_and_removes_in_one_pass() {
    let mut r = SessionManager::new();
    r.reconcile(&vec![listed(1, "A"), listed(2, "B")]);
    let change = r.reconcile(&vec![listed(3, "C"), listed(2, "B"), listed(4, "D")]);
    assert_eq!(change.added, vec![fresh("C", 3), fresh("D", 4)]);
    assert_eq!(change.removed, vec![fresh("A", 1)]);
    assert_eq!(ids(&r), vec!["B".to_string(), "C".to_string(), "D".to_string()]);
}

#[test]
fn reconcile_against_the_same_list_changes_nothing() {
    let mut r = SessionManager::new();
    let listing = vec![listed(1, "A"), listed(2, "B")];
    r.reconcile(&listing);
    r.subscribe(&"A".to_string(), tokens(4, 5, 6));
    let change = r.reconcile(&listing);
    assert_eq!(change.added, Vec::<InnerSession>::new());
    assert_eq!(change.removed, Vec::<InnerSession>::new());
    assert_eq!(ids(&r), vec!["A".to_string(), "B".to_string()]);
    assert_eq!(r.get(&"A".to_string()).unwrap().tokens(), tokens(4, 5, 6));
}

#[test]
fn reconcile_passes_over_entries_without_id_and_repeated_ids() {
    let mut r = SessionManager::new();
    let change = r.reconcile(&vec![
        ListedSession { session: 1, id: None },
        listed(2, "A"),
        listed(3, "A"),
        ListedSession { session: 4, id: None },
        listed(5, "B"),
    ]);
    assert_eq!(change.added, vec![fresh("A", 2), fresh("B", 5)]);
    assert_eq!(r.len(), 2);
}

#[test]
fn reconcile_against_an_empty_list_removes_everything() {
    let mut r = SessionManager::new();
    r.reconcile(&vec![listed(1, "A"), listed(2, "B")]);
    let change = r.reconcile(&Vec::new());
    assert_eq!(change.removed, vec![fresh("A", 1), fresh("B", 2)]);
    assert_eq!(r.len(), 0);
    let again = r.reconcile(&Vec::new());
    assert_eq!(again.added, Vec::<InnerSession>::new());
    assert_eq!(again.removed, Vec::<InnerSession>::new());
}

#[test]
fn registry_follows_a_run_of_listings() {
    let mut r = SessionManager::new();
    let runs: Vec<Vec<&str>> = vec![
        vec!["A", "B"],
        vec!["B"],
        vec!["B", "C", "A"],
        vec![],
        vec!["D"],
        vec!["D", "A"],
    ];
    let mut previous: Vec<String> = Vec::new();
    for (n, run) in runs.iter().enumerate() {
        let listing: Vec<ListedSession> =
            run.iter().enumerate().map(|(i, id)| listed((n * 10 + i) as u64, id)).collect();
        let change = r.reconcile(&listing);
        let now: Vec<String> = run.iter().map(|s| s.to_string()).collect();
        let mut held = ids(&r);
        held.sort();
        let mut expected = now.clone();
        expected.sort();
        assert_eq!(held, expected);
        let entered: Vec<String> =
            now.iter().filter(|id| !previous.contains(id)).cloned().collect();
        let left: Vec<String> = previous.iter().filter(|id| !now.contains(id)).cloned().collect();
        let added: Vec<String> = change.added.iter().map(|s| s.id.clone()).collect();
        let mut removed: Vec<String> = change.removed.iter().map(|s| s.id.clone()).collect();
        removed.sort();
        let mut left_sorted = left.clone();
        left_sorted.sort();
        assert_eq!(added, entered);
        assert_eq!(removed, left_sorted);
        previous = now;
    }
}

#[test]
fn register_session_registers_an_id_once() {
    let mut r = SessionManager::new();
    assert!(register_session(&mut r, "A".to_string(), 1));
    assert!(!register_session(&mut r, "A".to_string(), 2));
    assert!(register_session(&mut r, "B".to_string(), 3));
    assert_eq!(ids(&r), vec!["A".to_string(), "B".to_string()]);
    assert_eq!(r.get(&"A".to_string()), Some(fresh("A", 1)));
    assert!(r.contains(&"B".to_string()));
    assert!(!r.contains(&"C".to_string()));
    assert_eq!(r.get(&"C".to_string()), None);
}

#[test]
fn subscribe_stores_tokens_and_hands_back_the_old_ones() {
    let mut r = SessionManager::new();
    register_session(&mut r, "A".to_string(), 1);
    register_session(&mut r, "B".to_string(), 2);
    assert_eq!(r.subscribe(&"B".to_string(), tokens(1, 2, 3)), SessionTokens::empty());
    assert_eq!(r.subscribe(&"B".to_string(), tokens(4, 5, 6)), tokens(1, 2, 3));
    assert_eq!(r.get(&"B".to_string()).unwrap().tokens(), tokens(4, 5, 6));
    assert_eq!(r.get(&"A".to_string()).unwrap().tokens(), SessionTokens::empty());
    // a session that is not held cannot keep tokens
    assert_eq!(r.subscribe(&"Z".to_string(), tokens(7, 8, 9)), tokens(7, 8, 9));
    assert_eq!(r.len(), 2);
}

#[test]
fn subscribe_keeps_absent_tokens_absent() {
    let mut r = SessionManager::new();
    register_session(&mut r, "A".to_string(), 1);
    let partial = SessionTokens {
        media_props_token: Some(5),
        playback_info_token: None,
        timeline_props_token: Some(6),
    };
    r.subscribe(&"A".to_string(), partial);
    let got = r.get(&"A".to_string()).unwrap();
    assert_eq!(got.media_props_token, Some(5));
    assert_eq!(got.playback_info_token, None);
    assert_eq!(got.timeline_props_token, Some(6));
    assert!(!got.tokens().is_empty());
}

#[test]
fn handle_unsubscribe_is_idempotent() {
    let mut h = InnerSession::new("A".to_string(), 3);
    assert_eq!(h.unsubscribe(), SessionTokens::empty());
    assert_eq!(h.subscribe(tokens(1, 2, 3)), SessionTokens::empty());
    assert_eq!(h.tokens(), tokens(1, 2, 3));
    assert_eq!(h.unsubscribe(), tokens(1, 2, 3));
    assert_eq!(h.tokens(), SessionTokens::empty());
    assert!(h.tokens().is_empty());
    assert_eq!(h.unsubscribe(), SessionTokens::empty());
    assert_eq!(h, fresh("A", 3));
    assert_eq!(h.duplicate(), h);
}

#[test]
fn callbacks_keep_registration_order_and_repeats() {
    let mut r = SessionManager::new();
    r.add_callback(EventKind::SessionAdded, 5);
    r.add_callback(EventKind::SessionRemoved, 9);
    r.add_callback(EventKind::SessionAdded, 3);
    r.add_callback(EventKind::SessionAdded, 5);
    assert_eq!(r.fan_out(EventKind::SessionAdded), vec![5, 3, 5]);
    assert_eq!(r.fan_out(EventKind::SessionRemoved), vec![9]);
    assert_eq!(r.fan_out(EventKind::MediaPropertiesChanged), Vec::<u64>::new());
    r.add_callback(EventKind::MediaPropertiesChanged, 1);
    r.add_callback(EventKind::PlaybackInfoChanged, 2);
    r.add_callback(EventKind::TimelinePropertiesChanged, 3);
    r.add_callback(EventKind::CurrentSessionChanged, 4);
    assert_eq!(r.fan_out(EventKind::MediaPropertiesChanged), vec![1]);
    assert_eq!(r.fan_out(EventKind::PlaybackInfoChanged), vec![2]);
    assert_eq!(r.fan_out(EventKind::TimelinePropertiesChanged), vec![3]);
    assert_eq!(r.fan_out(EventKind::CurrentSessionChanged), vec![4]);
    assert_eq!(r.len(), 0);
}

#[test]
fn clear_all_sessions_keeps_the_subscribers() {
    let mut r = SessionManager::new();
    r.add_callback(EventKind::SessionAdded, 5);
    register_session(&mut r, "A".to_string(), 1);
    r.subscribe(&"A".to_string(), tokens(1, 2, 3));
    let released = r.clear_all_sessions();
    assert_eq!(released.len(), 1);
    assert_eq!(released[0].id, "A");
    assert_eq!(released[0].tokens(), tokens(1, 2, 3));
    assert_eq!(r.len(), 0);
    assert_eq!(r.fan_out(EventKind::SessionAdded), vec![5]);
}

#[test]
fn clear_empties_sessions_and_subscribers() {
    let mut r = SessionManager::new();
    r.add_callback(EventKind::SessionAdded, 5);
    r.add_callback(EventKind::CurrentSessionChanged, 6);
    register_session(&mut r, "A".to_string(), 1);
    register_session(&mut r, "B".to_string(), 2);
    let released = r.clear();
    assert_eq!(released, vec![fresh("A", 1), fresh("B", 2)]);
    assert_eq!(r.len(), 0);
    assert_eq!(r.fan_out(EventKind::SessionAdded), Vec::<u64>::new());
    assert_eq!(r.fan_out(EventKind::CurrentSessionChanged), Vec::<u64>::new());
}

#[test]
fn clear_on_a_registry_without_sessions() {
    let mut r = SessionManager::new();
    assert_eq!(r.clear(), Vec::<InnerSession>::new());
    assert_eq!(r.clear_all_sessions(), Vec::<InnerSession>::new());
    assert_eq!(r.len(), 0);
}

#[test]
fn listing_has_compares_ids() {
    let listing = vec![listed(1, "A"), ListedSession { session: 2, id: None }, listed(3, "B")];
    assert!(listing_has(&listing, &"A".to_string()));
    assert!(listing_has(&listing, &"B".to_string()));
    assert!(!listing_has(&listing, &"a".to_string()));
    assert!(!listing_has(&listing, &"".to_string()));
    assert!(!listing_has(&Vec::new(), &"A".to_string()));
}
