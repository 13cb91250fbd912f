//! The controller state machine: modal precedence, the add-task input,
//! the delete confirmation, and the outcome handlers.

use synodl::{Activity, App, ClientError, Key, Task, TickAction};

fn task(id: &str, status: &str) -> Task {
    Task {
        id: String::from(id),
        title: String::from(id),
        status: String::from(status),
        size: 100,
        size_downloaded: 50,
        size_uploaded: 0,
        speed_download: 0,
        speed_upload: 0,
    }
}

fn idle_app_with_tasks(n: usize) -> App {
    let mut app = App::new();
    let mut tasks = Vec::new();
    for i in 0..n {
        tasks.push(task(&format!("id{}", i), "downloading"));
    }
    app.tasks = tasks;
    app.activity = Activity::Idle;
    app
}

#[test]
fn startup_schedules_a_refresh() {
    let app = App::new();
    assert_eq!(app.activity, Activity::Refresh);
    assert_eq!(app.selected(), None);
    assert!(app.tasks.is_empty());
}

#[test]
fn quit_key_schedules_a_logout() {
    let mut app = idle_app_with_tasks(1);
    let r = app.handle_key(Key::Char('q'), 10);
    assert!(r.is_none());
    assert_eq!(app.activity, Activity::Quit);
}

#[test]
fn refresh_key_schedules_a_reload() {
    let mut app = idle_app_with_tasks(1);
    app.handle_key(Key::Char('R'), 10);
    assert_eq!(app.activity, Activity::Refresh);
}

#[test]
fn help_overlay_swallows_the_next_key() {
    let mut app = idle_app_with_tasks(3);
    app.handle_key(Key::Char('?'), 10);
    assert!(app.ui.show_help);

    app.handle_key(Key::Char('q'), 10);
    assert!(!app.ui.show_help);
    assert_eq!(app.activity, Activity::Idle);
}

#[test]
fn details_overlay_swallows_the_next_key() {
    let mut app = idle_app_with_tasks(3);
    app.handle_key(Key::Char('i'), 10);
    assert!(app.ui.show_details);

    app.handle_key(Key::Char('q'), 10);
    assert!(!app.ui.show_details);
    assert_eq!(app.activity, Activity::Idle);
}

#[test]
fn add_task_modal_collects_typed_characters() {
    let mut app = idle_app_with_tasks(0);
    app.handle_key(Key::Char('a'), 10);
    assert!(app.ui.ask_for_task_url);

    app.handle_key(Key::Char('u'), 10);
    app.handle_key(Key::Char('r'), 10);
    app.handle_key(Key::Char('x'), 10);
    app.handle_key(Key::Backspace, 10);
    app.handle_key(Key::Char('l'), 10);
    assert_eq!(app.input, vec!['u', 'r', 'l']);

    app.handle_key(Key::Enter, 10);
    assert!(!app.ui.ask_for_task_url);
    assert_eq!(app.activity, Activity::Submit);
}

#[test]
fn escape_cancels_the_add_task_modal_and_clears_the_input() {
    let mut app = idle_app_with_tasks(0);
    app.handle_key(Key::Char('a'), 10);
    app.handle_key(Key::Char('u'), 10);
    app.handle_key(Key::Esc, 10);
    assert!(!app.ui.ask_for_task_url);
    assert!(app.input.is_empty());
    assert_eq!(app.activity, Activity::Idle);
}

#[test]
fn confirming_a_delete_yields_the_selected_task_id() {
    let mut app = idle_app_with_tasks(3);
    app.select(Some(1));
    app.handle_key(Key::Char('d'), 10);
    assert!(app.ui.confirm_delete);
    assert!(!app.ui.delete_yes_selected);

    app.handle_key(Key::Left, 10);
    assert!(app.ui.delete_yes_selected);

    let r = app.handle_key(Key::Enter, 10);
    assert_eq!(r, Some(String::from("id1")));
    assert!(!app.ui.confirm_delete);
    assert!(!app.ui.delete_yes_selected);
}

#[test]
fn declining_a_delete_yields_nothing() {
    let mut app = idle_app_with_tasks(3);
    app.select(Some(1));
    app.handle_key(Key::Char('d'), 10);
    let r = app.handle_key(Key::Enter, 10);
    assert_eq!(r, None);
    assert!(!app.ui.confirm_delete);
}

#[test]
fn escape_closes_the_delete_confirmation() {
    let mut app = idle_app_with_tasks(3);
    app.handle_key(Key::Char('d'), 10);
    app.handle_key(Key::Esc, 10);
    assert!(!app.ui.confirm_delete);
}

#[test]
fn deleting_with_no_selection_records_an_error() {
    let mut app = idle_app_with_tasks(3);
    assert_eq!(app.selected(), None);
    app.handle_key(Key::Char('d'), 10);
    app.handle_key(Key::Left, 10);
    let r = app.handle_key(Key::Enter, 10);
    assert_eq!(r, None);
    assert_eq!(app.error, "No task found");
    assert_eq!(app.tasks.len(), 3);
    assert_eq!(app.activity, Activity::Idle);
}

#[test]
fn deleting_with_a_stale_selection_records_an_error() {
    let mut app = idle_app_with_tasks(3);
    app.select(Some(7));
    app.handle_key(Key::Char('d'), 10);
    app.handle_key(Key::Down, 10);
    let r = app.handle_key(Key::Enter, 10);
    assert_eq!(r, None);
    assert_eq!(app.error, "No task found");
}

#[test]
fn page_keys_move_by_the_visible_rows() {
    let mut app = idle_app_with_tasks(5);
    app.select(Some(1));
    app.handle_key(Key::PageDown, 2);
    assert_eq!(app.selected(), Some(3));
    app.handle_key(Key::PageUp, 3);
    assert_eq!(app.selected(), Some(0));
}

#[test]
fn successful_refresh_selects_the_first_row() {
    let mut app = App::new();
    app.apply_refresh_result(Ok(vec![task("a", "downloading"), task("b", "finished")]));
    assert_eq!(app.activity, Activity::Idle);
    assert_eq!(app.selected(), Some(0));
    assert_eq!(app.tasks.len(), 2);
}

#[test]
fn refresh_keeps_an_existing_selection() {
    let mut app = idle_app_with_tasks(3);
    app.select(Some(2));
    app.apply_refresh_result(Ok(vec![task("a", "downloading")]));
    assert_eq!(app.selected(), Some(2));
}

#[test]
fn failed_refresh_records_the_error_and_goes_idle() {
    let mut app = App::new();
    app.apply_refresh_result(Err(ClientError::NetworkError(String::from("no route"))));
    assert_eq!(app.activity, Activity::Idle);
    assert_eq!(app.error, "no route");
    assert!(app.tasks.is_empty());
}

#[test]
fn successful_submit_clears_the_input_and_schedules_a_reload() {
    let mut app = idle_app_with_tasks(0);
    app.input = vec!['u', 'r', 'l'];
    app.ui.ask_for_task_url = true;
    app.apply_submit_result(Ok(()));
    assert!(app.input.is_empty());
    assert!(!app.ui.ask_for_task_url);
    assert_eq!(app.activity, Activity::Refresh);
}

#[test]
fn failed_submit_records_the_error_and_keeps_the_input() {
    let mut app = idle_app_with_tasks(0);
    app.input = vec!['u'];
    app.apply_submit_result(Err(ClientError::ApiFailure(
        String::from("http://u/"),
        String::from("{\"success\":false}"),
    )));
    assert_eq!(app.error, "API request failed");
    assert_eq!(app.input, vec!['u']);
    assert_eq!(app.activity, Activity::Idle);
}

#[test]
fn successful_delete_schedules_a_reload() {
    let mut app = idle_app_with_tasks(2);
    app.apply_delete_result(Ok(()));
    assert_eq!(app.activity, Activity::Refresh);
}

#[test]
fn failed_delete_records_the_error() {
    let mut app = idle_app_with_tasks(2);
    app.apply_delete_result(Err(ClientError::MalformedResponse(String::from("x"))));
    assert_eq!(app.error, "Failed to parse server response");
}

#[test]
fn clearing_the_error_leaves_the_rest_untouched() {
    let mut app = idle_app_with_tasks(2);
    app.select(Some(1));
    app.apply_delete_result(Err(ClientError::MalformedResponse(String::from("x"))));
    app.clear_error();
    assert!(app.error.is_empty());
    assert_eq!(app.selected(), Some(1));
    assert_eq!(app.tasks.len(), 2);
}

#[test]
fn each_activity_resolves_to_its_action() {
    let mut app = App::new();
    assert!(matches!(app.pending_action(), TickAction::Refresh));

    app.activity = Activity::Idle;
    assert!(matches!(app.pending_action(), TickAction::AwaitKey));

    app.activity = Activity::Quit;
    assert!(matches!(app.pending_action(), TickAction::Logout));

    app.activity = Activity::Submit;
    app.input = vec!['u', 'r', 'l'];
    match app.pending_action() {
        TickAction::Submit(uri) => assert_eq!(uri, "url"),
        _ => panic!("expected a submit"),
    }
}

#[test]
fn auth_failure_has_a_message() {
    assert_eq!(ClientError::AuthFailed.message(), "Login failed");
}
