use sqs_monitor::app::{App, Effect, StatusMessage};
use sqs_monitor::events::AppEvent;
use sqs_monitor::types::{QueueDetails, QueueInfo};

fn queue(url: &str, name: &str, visible: i64) -> QueueInfo {
    QueueInfo {
        url: url.to_string(),
        name: name.to_string(),
        approximate_messages: visible,
        approximate_messages_not_visible: 0,
        approximate_messages_delayed: 0,
        last_updated: 1_700_000_000,
    }
}

fn names(queues: &[QueueInfo]) -> Vec<String> {
    queues.iter().map(|q| q.name.clone()).collect()
}

#[test]
fn new_app_is_empty_and_idle() {
    let app = App::new();
    assert!(app.queues.is_empty());
    assert!(app.all_queues.is_empty());
    assert_eq!(app.selected_index, 0);
    assert!(app.selected_details.is_none());
    assert!(app.last_refresh.is_none());
    assert_eq!(app.refresh_interval_secs, 30);
    assert!(matches!(app.status_message, StatusMessage::Initializing));
    assert!(!app.should_quit);
    assert!(!app.filter_non_empty);
    assert!(!app.awaiting_purge_confirmation);
    assert!(!app.purge_in_progress);
}

#[test]
fn refresh_sorts_descending_and_filter_keeps_selection() {
    // allQueues = [{A, 50}, {B, 0}, {C, 120}]
    let mut app = App::new();
    app.record_refresh(
        vec![queue("u/A", "A", 50), queue("u/B", "B", 0), queue("u/C", "C", 120)],
        7,
    );
    assert_eq!(names(&app.queues), ["C", "A", "B"]);
    assert_eq!(app.selected_index, 0);
    assert_eq!(app.last_refresh, Some(7));
    assert!(matches!(app.status_message, StatusMessage::RefreshOk { total: 3 }));

    // filter on: only C and A stay visible, selection stays on C
    app.toggle_filter();
    assert_eq!(names(&app.queues), ["C", "A"]);
    assert_eq!(names(&app.all_queues), ["C", "A", "B"]);
    assert_eq!(app.selected_index, 0);
    assert!(matches!(app.status_message, StatusMessage::FilterOn { shown: 2, total: 3 }));

    // filter off again: everything is back
    app.toggle_filter();
    assert_eq!(names(&app.queues), ["C", "A", "B"]);
    assert!(matches!(app.status_message, StatusMessage::FilterOff { total: 3 }));
}

#[test]
fn refresh_sort_is_stable_for_equal_counts() {
    let mut app = App::new();
    app.record_refresh(
        vec![queue("u/X", "X", 5), queue("u/Y", "Y", 5), queue("u/Z", "Z", 9)],
        1,
    );
    assert_eq!(names(&app.queues), ["Z", "X", "Y"]);
}

#[test]
fn refresh_with_filter_on_reports_filtered_counts() {
    let mut app = App::new();
    app.toggle_filter();
    app.record_refresh(vec![queue("u/A", "A", 50), queue("u/B", "B", 0)], 2);
    assert_eq!(names(&app.queues), ["A"]);
    assert!(matches!(app.status_message, StatusMessage::RefreshOkFiltered { shown: 1, total: 2 }));
}

#[test]
fn toggle_filter_clamps_selection_when_list_shrinks() {
    let mut app = App::new();
    app.record_refresh(vec![queue("u/A", "A", 3), queue("u/B", "B", 0)], 1);
    app.next_queue();
    assert_eq!(app.selected_index, 1);
    app.toggle_filter();
    assert_eq!(names(&app.queues), ["A"]);
    assert_eq!(app.selected_index, 0);
}

#[test]
fn toggle_filter_on_all_empty_queues_resets_selection_to_zero() {
    let mut app = App::new();
    app.record_refresh(vec![queue("u/A", "A", 0), queue("u/B", "B", 0)], 1);
    app.next_queue();
    app.toggle_filter();
    assert!(app.queues.is_empty());
    assert_eq!(app.selected_index, 0);
}

#[test]
fn select_next_wraps_from_last_to_zero() {
    let mut app = App::new();
    app.record_refresh(
        vec![queue("u/A", "A", 3), queue("u/B", "B", 2), queue("u/C", "C", 1)],
        1,
    );
    app.next_queue();
    app.next_queue();
    assert_eq!(app.selected_index, 2);
    app.next_queue();
    assert_eq!(app.selected_index, 0);
}

#[test]
fn select_previous_wraps_from_zero_to_last() {
    let mut app = App::new();
    app.record_refresh(
        vec![queue("u/A", "A", 3), queue("u/B", "B", 2), queue("u/C", "C", 1)],
        1,
    );
    assert_eq!(app.selected_index, 0);
    app.previous_queue();
    assert_eq!(app.selected_index, 2);
    app.previous_queue();
    assert_eq!(app.selected_index, 1);
}

#[test]
fn selection_is_a_noop_on_an_empty_list() {
    let mut app = App::new();
    app.next_queue();
    assert_eq!(app.selected_index, 0);
    app.previous_queue();
    assert_eq!(app.selected_index, 0);
    assert!(app.selected_queue().is_none());
}

#[test]
fn selected_queue_returns_the_row_under_the_cursor() {
    let mut app = App::new();
    app.record_refresh(vec![queue("u/A", "A", 3), queue("u/B", "B", 2)], 1);
    app.next_queue();
    let q = app.selected_queue().expect("a queue is selected");
    assert_eq!(q.name, "B");
}

#[test]
fn purge_prompt_names_the_selected_queue() {
    let mut app = App::new();
    app.record_refresh(vec![queue("u/orders-dlq", "orders-dlq", 12)], 1);
    app.request_purge_confirmation();
    assert!(app.awaiting_purge_confirmation);
    match &app.status_message {
        StatusMessage::PurgePrompt { name } => assert_eq!(name, "orders-dlq"),
        other => panic!("unexpected status: {:?}", other),
    }
}

#[test]
fn purge_request_without_selection_is_a_noop() {
    let mut app = App::new();
    app.request_purge_confirmation();
    assert!(!app.awaiting_purge_confirmation);
    assert!(matches!(app.status_message, StatusMessage::Initializing));
}

#[test]
fn confirm_purge_runs_begin_then_outcome_then_refresh() {
    let mut app = App::new();
    app.record_refresh(vec![queue("u/orders-dlq", "orders-dlq", 12)], 1);
    app.request_purge_confirmation();

    let effect = app.handle_event(AppEvent::ConfirmPurge);
    let (url, name) = match effect {
        Effect::ExecutePurge { url, name } => (url, name),
        other => panic!("unexpected effect: {:?}", other),
    };
    assert_eq!(url, "u/orders-dlq");
    assert_eq!(name, "orders-dlq");
    assert!(!app.awaiting_purge_confirmation);
    assert!(app.purge_in_progress);
    assert!(matches!(app.status_message, StatusMessage::Purging { .. }));

    // the client purge succeeds: a refresh is owed, and the flag drops
    let do_refresh = app.purge_outcome(name, Ok(()));
    assert!(do_refresh);
    app.record_refresh(vec![queue("u/orders-dlq", "orders-dlq", 0)], 2);
    app.finish_purge();
    assert!(!app.purge_in_progress);
    assert_eq!(app.queues[0].approximate_messages, 0);
}

#[test]
fn failed_purge_clears_flag_and_owes_no_refresh() {
    let mut app = App::new();
    app.record_refresh(vec![queue("u/A", "A", 9)], 1);
    app.request_purge_confirmation();
    app.begin_purge();
    let do_refresh = app.purge_outcome("A".to_string(), Err("access denied".to_string()));
    assert!(!do_refresh);
    app.finish_purge();
    assert!(!app.purge_in_progress);
    assert_eq!(app.queues[0].approximate_messages, 9);
    match &app.status_message {
        StatusMessage::PurgeError { name, error } => {
            assert_eq!(name, "A");
            assert_eq!(error, "access denied");
        },
        other => panic!("unexpected status: {:?}", other),
    }
}

#[test]
fn confirm_without_pending_confirmation_changes_nothing() {
    let mut app = App::new();
    app.record_refresh(vec![queue("u/A", "A", 9)], 1);
    let effect = app.handle_event(AppEvent::ConfirmPurge);
    assert!(matches!(effect, Effect::Nothing));
    assert!(!app.awaiting_purge_confirmation);
    assert!(!app.purge_in_progress);
    assert!(matches!(app.status_message, StatusMessage::RefreshOk { total: 1 }));
}

#[test]
fn cancel_purge_returns_to_idle_without_touching_queues() {
    let mut app = App::new();
    app.record_refresh(vec![queue("u/A", "A", 9), queue("u/B", "B", 1)], 1);
    app.request_purge_confirmation();
    let effect = app.handle_event(AppEvent::CancelPurge);
    assert!(matches!(effect, Effect::Nothing));
    assert!(!app.awaiting_purge_confirmation);
    assert!(!app.purge_in_progress);
    assert!(matches!(app.status_message, StatusMessage::PurgeCancelled));
    assert_eq!(names(&app.queues), ["A", "B"]);
}

#[test]
fn pending_confirmation_swallows_navigation_refresh_and_filter() {
    let mut app = App::new();
    app.record_refresh(vec![queue("u/A", "A", 9), queue("u/B", "B", 1)], 1);
    app.request_purge_confirmation();
    for event in [
        AppEvent::NextQueue,
        AppEvent::PreviousQueue,
        AppEvent::Refresh,
        AppEvent::ToggleFilter,
        AppEvent::PurgeQueue,
    ] {
        let effect = app.handle_event(event);
        assert!(matches!(effect, Effect::Nothing));
        assert_eq!(app.selected_index, 0);
        assert!(!app.filter_non_empty);
        assert!(app.awaiting_purge_confirmation);
        assert!(matches!(app.status_message, StatusMessage::PurgePrompt { .. }));
    }
}

#[test]
fn quit_event_sets_the_quit_flag() {
    let mut app = App::new();
    let effect = app.handle_event(AppEvent::Quit);
    assert!(matches!(effect, Effect::Nothing));
    assert!(app.should_quit);
}

#[test]
fn refresh_event_marks_refreshing_and_asks_for_a_refresh() {
    let mut app = App::new();
    let effect = app.handle_event(AppEvent::Refresh);
    assert!(matches!(effect, Effect::Refresh));
    assert!(matches!(app.status_message, StatusMessage::Refreshing));
}

#[test]
fn navigation_events_ask_for_a_detail_fetch() {
    let mut app = App::new();
    app.record_refresh(vec![queue("u/A", "A", 9), queue("u/B", "B", 1)], 1);
    let effect = app.handle_event(AppEvent::NextQueue);
    assert!(matches!(effect, Effect::FetchDetail));
    assert_eq!(app.selected_index, 1);
    let effect = app.handle_event(AppEvent::ToggleFilter);
    assert!(matches!(effect, Effect::FetchDetail));
}

#[test]
fn failed_refresh_leaves_prior_state_untouched() {
    let mut app = App::new();
    let fetch = app.apply_refresh_outcome(Ok(vec![
        queue("u/A", "A", 9),
        queue("u/B", "B", 1),
    ]));
    assert!(fetch);
    app.next_queue();

    let fetch = app.apply_refresh_outcome(Err("connection reset".to_string()));
    assert!(!fetch);
    assert_eq!(names(&app.queues), ["A", "B"]);
    assert_eq!(names(&app.all_queues), ["A", "B"]);
    assert_eq!(app.selected_index, 1);
    match &app.status_message {
        StatusMessage::RefreshError { error } => assert_eq!(error, "connection reset"),
        other => panic!("unexpected status: {:?}", other),
    }
}

#[test]
fn successful_refresh_records_a_timestamp() {
    let mut app = App::new();
    app.apply_refresh_outcome(Ok(vec![queue("u/A", "A", 9)]));
    assert!(app.last_refresh.is_some());
}

#[test]
fn detail_outcome_replaces_details_on_success_only() {
    let mut app = App::new();
    app.record_refresh(vec![queue("u/A", "A", 9)], 1);

    let mut d = QueueDetails::default();
    d.visibility_timeout = Some(30);
    app.apply_detail_outcome(Ok(d));
    assert_eq!(app.selected_details.as_ref().unwrap().visibility_timeout, Some(30));

    app.apply_detail_outcome(Err("throttled".to_string()));
    assert_eq!(app.selected_details.as_ref().unwrap().visibility_timeout, Some(30));
    match &app.status_message {
        StatusMessage::DetailError { error } => assert_eq!(error, "throttled"),
        other => panic!("unexpected status: {:?}", other),
    }
}
