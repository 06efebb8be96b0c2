use plural_userproxies::config::SavedStatuses;
use plural_userproxies::userproxy::{prepare_userproxies, userproxies_from_body, Userproxy, MAX_EVENTS};

#[test]
fn from_api_names_by_id() {
    let u = Userproxy::from_api(r#"{"bot_id":"123","token":"tok","command":"cmd"}"#);
    assert_eq!(u.id, "123");
    assert_eq!(u.name, "123");
    assert_eq!(u.token, "tok");
    assert_eq!(u.command, "cmd");
    assert!(!u.online);
    assert_eq!(u.status, "");
    assert!(u.events.is_empty());
}

#[test]
fn from_api_missing_fields_are_empty() {
    let u = Userproxy::from_api(r#"{"bot_id":5,"token":null}"#);
    assert_eq!(u.id, "");
    assert_eq!(u.name, "");
    assert_eq!(u.token, "");
    assert_eq!(u.command, "");
}

#[test]
fn set_status_changes_status_only() {
    let mut u = Userproxy::from_api(r#"{"bot_id":"1","token":"t"}"#);
    u.set_status("away".to_string());
    assert_eq!(u.status, "away");
    assert_eq!(u.id, "1");
    assert_eq!(u.name, "1");
}

#[test]
fn record_event_keeps_latest_hundred() {
    let mut u = Userproxy::from_api(r#"{"bot_id":"1"}"#);
    for i in 0..150 {
        u.record_event(format!("E{}", i));
        assert!(u.events.len() <= MAX_EVENTS);
    }
    assert_eq!(u.events.len(), 100);
    assert_eq!(u.events.front().unwrap(), "E50");
    assert_eq!(u.events.back().unwrap(), "E149");
}

#[test]
fn record_event_appends_below_cap() {
    let mut u = Userproxy::from_api(r#"{"bot_id":"1"}"#);
    u.record_event("READY".to_string());
    u.record_event("GUILD_CREATE".to_string());
    assert_eq!(u.events.iter().cloned().collect::<Vec<_>>(), vec!["READY".to_string(), "GUILD_CREATE".to_string()]);
}

#[test]
fn prepare_applies_remembered_names_and_statuses() {
    let mut saved = SavedStatuses::new();
    saved.insert("2".to_string(), "Bob".to_string(), "gaming".to_string());
    let entries = vec![r#"{"bot_id":"1","token":"a"}"#.to_string(), r#"{"bot_id":"2","token":"b"}"#.to_string()];
    let ups = prepare_userproxies(&entries, &saved);
    assert_eq!(ups.len(), 2);
    assert_eq!(ups[0].id, "1");
    assert_eq!(ups[0].name, "1");
    assert_eq!(ups[0].status, "");
    assert_eq!(ups[1].id, "2");
    assert_eq!(ups[1].name, "Bob");
    assert_eq!(ups[1].status, "gaming");
    assert_eq!(ups[1].token, "b");
}

#[test]
fn from_api_on_non_objects_is_empty() {
    for json in ["[1,2]", "\"text\"", "not json"] {
        let u = Userproxy::from_api(json);
        assert_eq!(u.id, "");
        assert_eq!(u.token, "");
    }
}

#[test]
fn body_with_list_gives_userproxies() {
    let mut saved = SavedStatuses::new();
    saved.insert("11".to_string(), "Named".to_string(), "here".to_string());
    let body = r#"[{"bot_id":"10","token":"t10","command":"c"},{"bot_id":"11","token":"t11"}]"#;
    let ups = userproxies_from_body(body, &saved).unwrap();
    assert_eq!(ups.len(), 2);
    assert_eq!(ups[0].id, "10");
    assert_eq!(ups[0].name, "10");
    assert_eq!(ups[0].command, "c");
    assert_eq!(ups[1].name, "Named");
    assert_eq!(ups[1].status, "here");
    assert_eq!(ups[1].token, "t11");
}

#[test]
fn body_without_list_gives_none_or_nothing() {
    let saved = SavedStatuses::new();
    assert!(userproxies_from_body("{\"error\":1}", &saved).unwrap().is_empty());
    assert!(userproxies_from_body("[]", &saved).unwrap().is_empty());
    assert!(userproxies_from_body("<html>", &saved).is_none());
}
