use spoticord::session::{SessionHandle, SessionManager, SessionQuery};

#[test]
fn created_sessions_are_found_by_guild_and_owner() {
    let mut m = SessionManager::new("Spoticord");
    let h = m.create_session(10, 20, 30, 40);
    assert_eq!(h, SessionHandle { guild_id: 10, owner: 40, voice_channel_id: 20, text_channel_id: 30 });
    assert_eq!(m.get_session(SessionQuery::Guild(10)), Some(h));
    assert_eq!(m.get_session(SessionQuery::Owner(40)), Some(h));
    assert_eq!(m.get_session(SessionQuery::Guild(40)), None);
    assert_eq!(m.get_session(SessionQuery::Owner(10)), None);
    assert_eq!(m.device_name(), "Spoticord");
}

#[test]
fn removal_only_touches_the_named_index() {
    let mut m = SessionManager::new("d");
    let h = m.create_session(1, 2, 3, 4);
    m.remove_session(SessionQuery::Guild(1));
    assert_eq!(m.get_session(SessionQuery::Guild(1)), None);
    assert_eq!(m.get_session(SessionQuery::Owner(4)), Some(h));
    m.remove_session(SessionQuery::Owner(4));
    assert_eq!(m.get_session(SessionQuery::Owner(4)), None);
    // Removing what is not there is harmless.
    m.remove_session(SessionQuery::Guild(99));
}

#[test]
fn a_new_session_in_a_guild_replaces_the_old_one() {
    let mut m = SessionManager::new("d");
    m.create_session(1, 2, 3, 4);
    let h2 = m.create_session(1, 5, 6, 7);
    assert_eq!(m.get_session(SessionQuery::Guild(1)), Some(h2));
    assert_eq!(m.get_all_sessions(), vec![h2]);
}

#[test]
fn all_sessions_and_shutdown() {
    let mut m = SessionManager::new("d");
    let a = m.create_session(1, 0, 0, 11);
    let b = m.create_session(2, 0, 0, 12);
    let c = m.create_session(3, 0, 0, 13);
    let mut all = m.get_all_sessions();
    all.sort_by_key(|h| h.guild_id);
    assert_eq!(all, vec![a, b, c]);
    m.shutdown_all();
    assert!(m.get_all_sessions().is_empty());
    assert_eq!(m.get_session(SessionQuery::Guild(2)), None);
    assert_eq!(m.get_session(SessionQuery::Owner(12)), None);
    // The manager can still create sessions afterwards.
    let d = m.create_session(4, 0, 0, 14);
    assert_eq!(m.get_session(SessionQuery::Owner(14)), Some(d));
}
