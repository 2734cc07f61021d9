use sqs_monitor::events::{auto_refresh_due, handle_key_event, AppEvent, Key};

#[test]
fn key_bindings_match_the_documented_table() {
    assert_eq!(handle_key_event(Key::Char('q')), Some(AppEvent::Quit));
    assert_eq!(handle_key_event(Key::Esc), Some(AppEvent::Quit));
    assert_eq!(handle_key_event(Key::Char('r')), Some(AppEvent::Refresh));
    assert_eq!(handle_key_event(Key::Char('f')), Some(AppEvent::ToggleFilter));
    assert_eq!(handle_key_event(Key::Down), Some(AppEvent::NextQueue));
    assert_eq!(handle_key_event(Key::Char('j')), Some(AppEvent::NextQueue));
    assert_eq!(handle_key_event(Key::Up), Some(AppEvent::PreviousQueue));
    assert_eq!(handle_key_event(Key::Char('k')), Some(AppEvent::PreviousQueue));
    assert_eq!(handle_key_event(Key::Char('X')), Some(AppEvent::PurgeQueue));
    assert_eq!(handle_key_event(Key::Char('y')), Some(AppEvent::ConfirmPurge));
    assert_eq!(handle_key_event(Key::Char('Y')), Some(AppEvent::ConfirmPurge));
    assert_eq!(handle_key_event(Key::Char('n')), Some(AppEvent::CancelPurge));
    assert_eq!(handle_key_event(Key::Char('N')), Some(AppEvent::CancelPurge));
}

#[test]
fn unbound_keys_yield_no_action() {
    assert_eq!(handle_key_event(Key::Char('x')), None);
    assert_eq!(handle_key_event(Key::Char('Q')), None);
    assert_eq!(handle_key_event(Key::Char('1')), None);
    assert_eq!(handle_key_event(Key::Other), None);
}

#[test]
fn auto_refresh_fires_exactly_when_the_interval_has_elapsed() {
    assert!(!auto_refresh_due(0, 30));
    assert!(!auto_refresh_due(29, 30));
    assert!(auto_refresh_due(30, 30));
    assert!(auto_refresh_due(31, 30));
    assert!(auto_refresh_due(0, 0));
}
