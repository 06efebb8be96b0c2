use plural_userproxies::app::{App, EventOutcome, Popup};
use plural_userproxies::keys::{KeyCode, KeyDecision, KeyOutcome, KeyPress, CONTROL};
use plural_userproxies::layout::fit_view;
use plural_userproxies::userproxy::{fetch_response, FetchResponse};
use plural_userproxies::config::{AccentColor, Config};
use plural_userproxies::event::{AppEvent, ConfigOption, SortDirection};
use plural_userproxies::userproxy::Userproxy;

fn proxy(id: &str, name: &str, status: &str) -> Userproxy {
    let mut u = Userproxy::from_api(&format!(r#"{{"bot_id":"{}","token":"token-{}"}}"#, id, id));
    u.name = name.to_string();
    u.status = status.to_string();
    u
}

fn app_with(names: &[(&str, &str, &str)]) -> App {
    let mut config = Config::default();
    config.token = Some("secret".to_string());
    let mut app = App::new(config);
    let ups = names.iter().map(|(i, n, s)| proxy(i, n, s)).collect();
    app.handle_event(AppEvent::UpdateUserproxies(Some(ups), Some("v1".to_string())));
    app
}

fn key(code: KeyCode) -> KeyPress {
    KeyPress { code, modifiers: 0 }
}

fn ctrl(c: char) -> KeyPress {
    KeyPress { code: KeyCode::Char(c), modifiers: CONTROL }
}

#[test]
fn new_app_is_empty_and_running() {
    let app = App::new(Config::default());
    assert!(app.running);
    assert!(app.userproxies.is_empty());
    assert!(app.filtered_userproxies.is_empty());
    assert_eq!(app.query, "");
    assert_eq!(app.scroll_position, 0);
    assert_eq!(app.skip, 0);
    assert_eq!(app.tick_counter, 0);
    assert!(app.popup.is_none());
    assert_eq!(app.selected_userproxy(), None);
}

#[test]
fn update_userproxies_resets_query_and_lists_all() {
    let mut app = app_with(&[("1", "alpha", ""), ("2", "beta", "")]);
    assert_eq!(app.filtered_userproxies, vec![0, 1]);
    assert_eq!(app.userproxy_version.as_deref(), Some("v1"));
    app.query_input("a".to_string());
    app.scroll_position = 3;
    app.update_in_progress = true;
    app.handle_event(AppEvent::UpdateUserproxies(Some(vec![proxy("3", "gamma", "")]), None));
    assert_eq!(app.query, "");
    assert_eq!(app.filtered_userproxies, vec![0]);
    assert_eq!(app.scroll_position, 0);
    assert!(!app.update_in_progress);
    assert_eq!(app.userproxy_version, None);
}

#[test]
fn update_without_list_only_ends_update() {
    let mut app = app_with(&[("1", "alpha", "")]);
    app.update_in_progress = true;
    app.handle_event(AppEvent::UpdateUserproxies(None, None));
    assert!(!app.update_in_progress);
    assert_eq!(app.userproxies.len(), 1);
    assert_eq!(app.userproxy_version.as_deref(), Some("v1"));
}

#[test]
fn query_filters_by_substring_of_name() {
    let mut app = app_with(&[("1", "alpha", ""), ("2", "beta", ""), ("3", "alphabet", "")]);
    app.query_input("a".to_string());
    app.query_input("l".to_string());
    assert_eq!(app.query, "al");
    assert_eq!(app.filtered_userproxies, vec![0, 2]);
    app.query_input("\u{7f}".to_string());
    assert_eq!(app.query, "a");
    assert_eq!(app.filtered_userproxies, vec![0, 1, 2]);
    app.query_input("\u{7f}".to_string());
    app.query_input("\u{7f}".to_string());
    assert_eq!(app.query, "");
    assert_eq!(app.filtered_userproxies, vec![0, 1, 2]);
    app.query_input("z".to_string());
    assert!(app.filtered_userproxies.is_empty());
}

#[test]
fn query_input_resets_scroll() {
    let mut app = app_with(&[("1", "alpha", ""), ("2", "beta", "")]);
    app.scroll_position = 1;
    app.skip = 1;
    app.query_input("b".to_string());
    assert_eq!(app.scroll_position, 0);
    assert_eq!(app.skip, 0);
}

#[test]
fn query_input_ignored_while_editing_status() {
    let mut app = app_with(&[("1", "alpha", "")]);
    app.config.status_selected = true;
    app.query_input("x".to_string());
    assert_eq!(app.query, "");
}

#[test]
fn selection_moves_and_saturates() {
    let mut app = app_with(&[("1", "a", ""), ("2", "b", "")]);
    assert_eq!(app.selected_userproxy(), Some(0));
    app.increment_selection();
    assert_eq!(app.selected_userproxy(), Some(1));
    app.increment_selection();
    assert_eq!(app.selected_userproxy(), None);
    app.decrement_selection();
    app.decrement_selection();
    app.decrement_selection();
    assert_eq!(app.scroll_position, 0);
    app.scroll_position = usize::MAX;
    app.increment_selection();
    assert_eq!(app.scroll_position, usize::MAX);
}

#[test]
fn selection_counts_rows_scrolled_past() {
    let mut app = app_with(&[("1", "a", ""), ("2", "b", ""), ("3", "c", "")]);
    app.skip = 1;
    app.scroll_position = 1;
    assert_eq!(app.selected_userproxy(), Some(2));
    app.query_input("b".to_string());
    assert_eq!(app.selected_userproxy(), Some(1));
}

#[test]
fn toggles_flip_options() {
    let mut app = app_with(&[]);
    for (opt, get) in [
        (ConfigOption::ShowIds, (|c: &Config| c.show_ids) as fn(&Config) -> bool),
        (ConfigOption::ShowUptime, |c: &Config| c.show_uptime),
        (ConfigOption::ShowHelp, |c: &Config| c.show_help),
        (ConfigOption::ShowDebug, |c: &Config| c.show_debug),
        (ConfigOption::ShowLogs, |c: &Config| c.show_logs),
        (ConfigOption::ShowAccentColor, |c: &Config| c.show_accent_color),
    ] {
        let before = get(&app.config);
        assert_eq!(app.handle_event(AppEvent::ToggleConfig(opt)), EventOutcome::Nothing);
        assert_eq!(get(&app.config), !before);
        app.handle_event(AppEvent::ToggleConfig(opt));
        assert_eq!(get(&app.config), before);
    }
}

#[test]
fn cycle_accent_event_shows_colour() {
    let mut app = app_with(&[]);
    let out = app.handle_event(AppEvent::CycleAccentColor(SortDirection::Ascending));
    assert_eq!(out, EventOutcome::AccentChanged);
    assert_eq!(app.config.accent_color, AccentColor::Cyan);
    assert!(app.config.show_accent_color);
    assert!(app.accent_timer);
}

#[test]
fn status_edit_then_cancel_restores_status() {
    let mut app = app_with(&[("1", "alpha", "old status")]);
    assert_eq!(app.handle_event(AppEvent::ToggleConfig(ConfigOption::StatusSelected(false))), EventOutcome::Nothing);
    assert!(app.config.status_selected);
    assert_eq!(app.status_input, "old status");
    app.status_input = "typed".to_string();
    assert_eq!(app.handle_event(AppEvent::ToggleConfig(ConfigOption::StatusSelected(false))), EventOutcome::Nothing);
    assert!(!app.config.status_selected);
    assert_eq!(app.status_input, "old status");
    assert_eq!(app.userproxies[0].status, "old status");
    assert_eq!(app.config.userproxy_data.get(&"1".to_string()), None);
}

#[test]
fn status_edit_then_save_stores_status() {
    let mut app = app_with(&[("1", "alpha", "old"), ("2", "beta", "")]);
    app.increment_selection();
    app.handle_event(AppEvent::ToggleConfig(ConfigOption::StatusSelected(false)));
    app.status_input = "new status".to_string();
    let out = app.handle_event(AppEvent::ToggleConfig(ConfigOption::StatusSelected(true)));
    assert_eq!(out, EventOutcome::StatusSaved(1));
    assert!(!app.config.status_selected);
    assert_eq!(app.userproxies[1].status, "new status");
    assert_eq!(app.userproxies[0].status, "old");
    assert_eq!(
        app.config.userproxy_data.get(&"2".to_string()),
        Some(("beta".to_string(), "new status".to_string()))
    );
}

#[test]
fn update_online_sets_first_match() {
    let mut app = app_with(&[("1", "a", ""), ("2", "b", ""), ("2", "c", "")]);
    app.handle_event(AppEvent::UpdateOnline("2".to_string(), true));
    assert!(!app.userproxies[0].online);
    assert!(app.userproxies[1].online);
    assert!(!app.userproxies[2].online);
    app.handle_event(AppEvent::UpdateOnline("9".to_string(), true));
    assert!(!app.userproxies[0].online);
}

#[test]
fn update_name_renames_remembers_and_refilters() {
    let mut app = app_with(&[("1", "alpha", "st"), ("2", "beta", "")]);
    app.query_input("z".to_string());
    assert!(app.filtered_userproxies.is_empty());
    app.scroll_position = 2;
    app.handle_event(AppEvent::UpdateUserproxyName("1".to_string(), "zed".to_string()));
    assert_eq!(app.userproxies[0].name, "zed");
    assert_eq!(app.filtered_userproxies, vec![0]);
    assert_eq!(app.scroll_position, 0);
    assert_eq!(app.config.userproxy_data.get(&"1".to_string()), Some(("zed".to_string(), "st".to_string())));
}

#[test]
fn gateway_event_is_logged_at_its_userproxy() {
    let mut app = app_with(&[("1", "a", ""), ("2", "b", "")]);
    app.handle_event(AppEvent::GatewayEvent("2".to_string(), "READY".to_string()));
    assert!(app.userproxies[0].events.is_empty());
    assert_eq!(app.userproxies[1].events.len(), 1);
    assert_eq!(app.userproxies[1].events[0], "READY");
}

#[test]
fn token_invalid_forgets_token() {
    let mut app = app_with(&[]);
    app.status_input = "x".to_string();
    app.handle_event(AppEvent::TokenInvalid);
    assert!(app.config.token.is_none());
    assert_eq!(app.status_input, "");
}

#[test]
fn quit_remembers_every_userproxy() {
    let mut app = app_with(&[("1", "alpha", "s1"), ("2", "beta", "s2"), ("1", "again", "s3")]);
    assert_eq!(app.handle_event(AppEvent::Quit), EventOutcome::Quit);
    assert!(!app.running);
    assert_eq!(app.config.userproxy_data.get(&"1".to_string()), Some(("again".to_string(), "s3".to_string())));
    assert_eq!(app.config.userproxy_data.get(&"2".to_string()), Some(("beta".to_string(), "s2".to_string())));
    assert_eq!(app.config.userproxy_data.entries().len(), 2);
}

#[test]
fn scroll_events_move_selection() {
    let mut app = app_with(&[("1", "a", ""), ("2", "b", "")]);
    app.handle_event(AppEvent::ScrollDown);
    assert_eq!(app.scroll_position, 1);
    app.handle_event(AppEvent::ScrollUp);
    assert_eq!(app.scroll_position, 0);
    app.handle_event(AppEvent::QueryInput("b".to_string()));
    assert_eq!(app.filtered_userproxies, vec![1]);
    app.handle_event(AppEvent::QueryRun);
    assert_eq!(app.filtered_userproxies, vec![1]);
}

#[test]
fn tick_without_token_does_nothing() {
    let mut app = App::new(Config::default());
    let t = app.tick(false);
    assert!(!t.fetch_userproxies && !t.refresh_online);
    assert_eq!(app.tick_counter, 0);
}

#[test]
fn tick_fetches_at_zero_and_refreshes_every_fifty() {
    let mut app = app_with(&[]);
    let t = app.tick(false);
    assert!(t.fetch_userproxies && t.refresh_online);
    assert!(app.update_in_progress);
    assert_eq!(app.tick_counter, 1);
    app.update_in_progress = false;
    for n in 1..6000 {
        let t = app.tick(false);
        assert!(!t.fetch_userproxies);
        assert_eq!(t.refresh_online, n % 50 == 0);
    }
    assert_eq!(app.tick_counter, 0);
    assert!(!app.update_in_progress);
    assert!(app.tick(false).fetch_userproxies);
}

#[test]
fn tick_ends_accent_display_when_expired() {
    let mut app = app_with(&[]);
    app.handle_event(AppEvent::CycleAccentColor(SortDirection::Descending));
    app.tick(false);
    assert!(app.config.show_accent_color);
    app.tick(true);
    assert!(!app.config.show_accent_color);
    assert!(!app.accent_timer);
}

#[test]
fn fetch_response_by_status() {
    assert_eq!(fetch_response(200), FetchResponse::Userproxies);
    assert_eq!(fetch_response(304), FetchResponse::NoUpdate);
    assert_eq!(fetch_response(400), FetchResponse::TokenInvalid);
    assert_eq!(fetch_response(401), FetchResponse::TokenInvalid);
    assert_eq!(fetch_response(499), FetchResponse::TokenInvalid);
    assert_eq!(fetch_response(500), FetchResponse::NoUpdate);
    assert_eq!(fetch_response(201), FetchResponse::NoUpdate);
}

#[test]
fn keys_without_token_edit_submit_or_quit() {
    let mut app = App::new(Config::default());
    assert!(matches!(app.handle_key_events(key(KeyCode::Char('x'))), KeyOutcome::EditInput));
    app.status_input = "  my-token \n".to_string();
    app.tick_counter = 5;
    assert!(matches!(app.handle_key_events(key(KeyCode::Enter)), KeyOutcome::Nothing));
    assert_eq!(app.config.token.as_deref(), Some("my-token"));
    assert_eq!(app.status_input, "");
    assert_eq!(app.tick_counter, 0);
    let mut app = App::new(Config::default());
    assert!(matches!(app.handle_key_events(key(KeyCode::Esc)), KeyOutcome::Quit));
    assert!(!app.running);
}

#[test]
fn control_q_always_asks_to_quit() {
    let mut app = App::new(Config::default());
    assert!(matches!(app.handle_key_events(ctrl('q')), KeyOutcome::Send(AppEvent::Quit)));
    let mut app = app_with(&[]);
    app.config.status_selected = true;
    assert!(matches!(app.handle_key_events(ctrl('q')), KeyOutcome::Send(AppEvent::Quit)));
    assert!(matches!(app.handle_key_events(ctrl('c')), KeyOutcome::Send(AppEvent::Quit)));
    assert!(app.config.status_selected);
}

#[test]
fn control_c_edits_the_token_prompt() {
    let mut app = App::new(Config::default());
    assert!(matches!(app.handle_key_events(ctrl('c')), KeyOutcome::EditInput));
    assert!(app.running);
}

#[test]
fn enter_on_empty_list_with_overflowing_rows_is_ignored() {
    let mut app = app_with(&[]);
    app.scroll_position = usize::MAX;
    app.skip = 1;
    assert!(matches!(app.handle_key_events(key(KeyCode::Enter)), KeyOutcome::Nothing));
    assert_eq!(app.selected_userproxy(), None);
}

#[test]
fn keys_while_editing_status() {
    let mut app = app_with(&[("1", "a", "")]);
    app.config.status_selected = true;
    assert!(matches!(
        app.handle_key_events(key(KeyCode::Enter)),
        KeyOutcome::Send(AppEvent::ToggleConfig(ConfigOption::StatusSelected(true)))
    ));
    assert!(matches!(
        app.handle_key_events(key(KeyCode::Esc)),
        KeyOutcome::Send(AppEvent::ToggleConfig(ConfigOption::StatusSelected(false)))
    ));
    assert!(matches!(app.handle_key_events(key(KeyCode::Up)), KeyOutcome::EditInput));
    app.scroll_position = 5;
    assert!(matches!(app.handle_key_events(key(KeyCode::Enter)), KeyOutcome::EditInput));
}

#[test]
fn popups_open_close_and_block_keys() {
    let mut app = app_with(&[("1", "a", "")]);
    assert!(matches!(
        app.handle_key_events(ctrl('h')),
        KeyOutcome::Send(AppEvent::ToggleConfig(ConfigOption::ShowHelp))
    ));
    assert_eq!(app.popup, Some(Popup::Help));
    app.handle_event(AppEvent::ToggleConfig(ConfigOption::ShowHelp));
    assert!(matches!(app.handle_key_events(key(KeyCode::Down)), KeyOutcome::Nothing));
    assert!(matches!(app.handle_key_events(ctrl('d')), KeyOutcome::Nothing));
    assert!(matches!(app.handle_key_events(ctrl('c')), KeyOutcome::Send(AppEvent::Quit)));
    assert!(matches!(
        app.handle_key_events(ctrl('h')),
        KeyOutcome::Send(AppEvent::ToggleConfig(ConfigOption::ShowHelp))
    ));
    assert_eq!(app.popup, None);
    app.handle_event(AppEvent::ToggleConfig(ConfigOption::ShowHelp));
    assert!(matches!(
        app.handle_key_events(ctrl('d')),
        KeyOutcome::Send(AppEvent::ToggleConfig(ConfigOption::ShowDebug))
    ));
    assert_eq!(app.popup, Some(Popup::Debug));
    assert!(matches!(app.handle_key_events(ctrl('l')), KeyOutcome::Nothing));
    assert!(matches!(app.handle_key_events(ctrl('h')), KeyOutcome::Nothing));
    assert!(matches!(app.handle_key_events(key(KeyCode::Up)), KeyOutcome::Nothing));
    assert!(matches!(
        app.handle_key_events(ctrl('d')),
        KeyOutcome::Send(AppEvent::ToggleConfig(ConfigOption::ShowDebug))
    ));
    assert_eq!(app.popup, None);
}

#[test]
fn list_keys_raise_events() {
    let mut app = app_with(&[("1", "a", "")]);
    assert!(matches!(app.handle_key_events(ctrl('i')), KeyOutcome::Send(AppEvent::ToggleConfig(ConfigOption::ShowIds))));
    assert!(matches!(app.handle_key_events(key(KeyCode::Tab)), KeyOutcome::Send(AppEvent::ToggleConfig(ConfigOption::ShowIds))));
    assert!(matches!(app.handle_key_events(ctrl('u')), KeyOutcome::Send(AppEvent::ToggleConfig(ConfigOption::ShowUptime))));
    assert!(matches!(
        app.handle_key_events(key(KeyCode::Enter)),
        KeyOutcome::Send(AppEvent::ToggleConfig(ConfigOption::StatusSelected(false)))
    ));
    assert!(matches!(app.handle_key_events(key(KeyCode::Up)), KeyOutcome::Send(AppEvent::ScrollUp)));
    assert!(matches!(app.handle_key_events(key(KeyCode::Down)), KeyOutcome::Send(AppEvent::ScrollDown)));
    assert!(matches!(
        app.handle_key_events(key(KeyCode::Left)),
        KeyOutcome::Send(AppEvent::CycleAccentColor(SortDirection::Descending))
    ));
    assert!(matches!(
        app.handle_key_events(key(KeyCode::Right)),
        KeyOutcome::Send(AppEvent::CycleAccentColor(SortDirection::Ascending))
    ));
    match app.handle_key_events(key(KeyCode::Backspace)) {
        KeyOutcome::Send(AppEvent::QueryInput(s)) => assert_eq!(s, "\u{7f}"),
        _ => panic!("backspace"),
    }
    match app.handle_key_events(KeyPress { code: KeyCode::Char('B'), modifiers: 1 }) {
        KeyOutcome::Send(AppEvent::QueryInput(s)) => assert_eq!(s, "B"),
        _ => panic!("shifted character"),
    }
    assert!(matches!(app.handle_key_events(KeyPress { code: KeyCode::Char('x'), modifiers: 4 }), KeyOutcome::Nothing));
    assert!(matches!(app.handle_key_events(key(KeyCode::Other)), KeyOutcome::Nothing));
    app.query_input("zz".to_string());
    assert!(matches!(app.handle_key_events(key(KeyCode::Enter)), KeyOutcome::Nothing));
}

#[test]
fn decide_key_matches_handling() {
    let app = app_with(&[("1", "a", "")]);
    assert_eq!(app.decide_key(key(KeyCode::Char('q'))), KeyDecision::SendQuery('q'));
    assert_eq!(app.decide_key(ctrl('q')), KeyDecision::SendQuit);
    assert_eq!(app.decide_key(ctrl('h')), KeyDecision::TogglePopup(Popup::Help));
}

#[test]
fn fit_view_cases() {
    // skip capped at the visible rows, then scrolled up from the top row
    assert_eq!(fit_view(10, 0, 5, 20), (4, 1));
    // bottom row with entries hidden below scrolls down
    assert_eq!(fit_view(0, 4, 5, 20), (1, 3));
    // bottom row with nothing hidden below stays
    assert_eq!(fit_view(15, 4, 5, 10), (5, 4));
    // below the visible rows moves up
    assert_eq!(fit_view(0, 9, 5, 20), (0, 5));
    assert_eq!(fit_view(0, 5, 5, 20), (0, 4));
    // past the entries moves up by one
    assert_eq!(fit_view(0, 2, 5, 2), (0, 1));
    // otherwise unchanged
    assert_eq!(fit_view(0, 2, 5, 20), (0, 2));
    // no visible rows: the bottom row is the top row
    assert_eq!(fit_view(3, 0, 0, 20), (1, 0));
}

#[test]
fn layout_list_selects_and_shows_status() {
    let mut app = app_with(&[("1", "a", "s1"), ("2", "b", "s2"), ("3", "c", "s3")]);
    app.scroll_position = 1;
    assert_eq!(app.layout_list(10), Some(1));
    assert_eq!(app.status_input, "s2");
    app.config.status_selected = true;
    app.status_input = "typing".to_string();
    app.scroll_position = 2;
    assert_eq!(app.layout_list(10), Some(2));
    assert_eq!(app.status_input, "typing");
    app.scroll_position = 7;
    assert_eq!(app.layout_list(4), Some(2));
    assert_eq!(app.scroll_position, 2);
}

#[test]
fn moving_the_window_keeps_the_selected_entry() {
    for (skip, scroll, avail, len) in [(3usize, 0usize, 5usize, 20usize), (0, 4, 5, 20), (2, 4, 5, 20)] {
        let (s, r) = fit_view(skip, scroll, avail, len);
        assert_ne!(s, skip);
        assert_eq!(s + r, skip + scroll);
    }
    let mut app = app_with(&[("1", "a", ""), ("2", "b", ""), ("3", "c", ""), ("4", "d", ""), ("5", "e", "")]);
    app.scroll_position = 2;
    let before = app.selected_userproxy();
    assert_eq!(app.layout_list(5), before);
    assert_eq!(app.skip, 1);
    assert_eq!(app.scroll_position, 1);
}
