//! Selection navigation over the task list: stepping, wrapping, page
//! jumps, and their behavior on an empty list.

use synodl::{App, Task};

fn test_task(title: &str) -> Task {
    Task {
        id: String::from("uuid01"),
        title: String::from(title),
        status: "finished".to_owned(),
        size: 1024000,
        size_downloaded: 1024000,
        size_uploaded: 1024000,
        speed_download: 0,
        speed_upload: 0,
    }
}

fn get_test_app(howmany: usize) -> App {
    let mut app = App::new();
    let mut tasks = Vec::new();
    for i in 0..howmany {
        tasks.push(test_task(&format!("test-task-{}", i + 1)));
    }
    app.tasks = tasks;
    app
}

#[test]
fn select_next_item_with_no_item_selected() {
    let mut app = get_test_app(5);
    assert_eq!(app.selected(), None);

    app.next();
    assert_eq!(app.selected(), Some(0));
}

#[test]
fn select_next_item_with_item_selected() {
    let mut app = get_test_app(5);
    app.select(Some(3));
    assert_eq!(app.selected(), Some(3));

    app.next();
    assert_eq!(app.selected(), Some(4));
}

#[test]
fn select_next_item_wraps_around() {
    let mut app = get_test_app(5);
    app.select(Some(4));
    assert_eq!(app.selected(), Some(4));

    app.next();
    assert_eq!(app.selected(), Some(0));
}

#[test]
fn select_next_item_when_no_items_present() {
    let mut app = App::new();
    assert_eq!(app.selected(), None);

    app.next();
    assert_eq!(app.selected(), None);
}

#[test]
fn select_prev_item_with_no_item_selected() {
    let mut app = get_test_app(5);
    assert_eq!(app.selected(), None);

    app.previous();
    assert_eq!(app.selected(), Some(4));
}

#[test]
fn select_prev_item_with_item_selected() {
    let mut app = get_test_app(5);
    app.select(Some(3));
    assert_eq!(app.selected(), Some(3));

    app.previous();
    assert_eq!(app.selected(), Some(2));
}

#[test]
fn select_prev_item_wraps_around() {
    let mut app = get_test_app(5);
    app.select(Some(0));
    assert_eq!(app.selected(), Some(0));

    app.previous();
    assert_eq!(app.selected(), Some(4));
}

#[test]
fn select_prev_item_when_no_items_present() {
    let mut app = App::new();
    assert_eq!(app.selected(), None);

    app.previous();
    assert_eq!(app.selected(), None);
}

#[test]
fn select_first_item_with_no_item_selected() {
    let mut app = get_test_app(5);
    assert_eq!(app.selected(), None);

    app.first();
    assert_eq!(app.selected(), Some(0));
}

#[test]
fn select_first_item_with_item_selected() {
    let mut app = get_test_app(5);
    app.select(Some(3));
    app.first();
    assert_eq!(app.selected(), Some(0));
}

#[test]
fn select_first_item_when_no_items_present() {
    let mut app = App::new();
    assert_eq!(app.selected(), None);

    app.first();
    assert_eq!(app.selected(), None);
}

#[test]
fn select_last_item_with_no_item_selected() {
    let mut app = get_test_app(5);
    assert_eq!(app.selected(), None);

    app.last();
    assert_eq!(app.selected(), Some(4));
}

#[test]
fn select_last_item_with_item_selected() {
    let mut app = get_test_app(5);
    app.select(Some(3));
    app.last();
    assert_eq!(app.selected(), Some(4));
}

#[test]
fn select_last_item_when_no_items_present() {
    let mut app = App::new();
    assert_eq!(app.selected(), None);

    app.last();
    assert_eq!(app.selected(), None);
}

#[test]
fn select_next_page_with_no_item_selected() {
    let mut app = get_test_app(5);
    assert_eq!(app.selected(), None);

    app.next_page(4);
    assert_ne!(app.selected(), None);
}

#[test]
fn select_next_page_with_item_selected() {
    let mut app = get_test_app(5);
    app.select(Some(1));
    app.next_page(3);
    assert_eq!(app.selected(), Some(4));

    app.select(Some(1));
    app.next_page(2);
    assert_eq!(app.selected(), Some(3));
}

#[test]
fn select_next_page_when_already_on_last_page() {
    let mut app = get_test_app(5);
    app.select(Some(3));

    app.next_page(3);
    assert_eq!(app.selected(), Some(4));
}

#[test]
fn select_next_page_when_already_on_last_item() {
    let mut app = get_test_app(5);
    app.select(Some(4));

    app.next_page(3);
    assert_eq!(app.selected(), Some(4));
}

#[test]
fn select_previous_page_with_no_item_selected() {
    let mut app = get_test_app(5);
    assert_eq!(app.selected(), None);

    app.previous_page(4);
    assert_ne!(app.selected(), None);
}

#[test]
fn select_previous_page_with_item_selected() {
    let mut app = get_test_app(5);
    app.select(Some(4));
    app.previous_page(3);
    assert_eq!(app.selected(), Some(1));

    app.select(Some(4));
    app.previous_page(2);
    assert_eq!(app.selected(), Some(2));
}

#[test]
fn select_previous_page_when_already_on_first_page() {
    let mut app = get_test_app(5);
    app.select(Some(1));

    app.previous_page(3);
    assert_eq!(app.selected(), Some(0));
}

#[test]
fn select_previous_page_when_already_on_first_item() {
    let mut app = get_test_app(5);
    app.select(Some(0));

    app.previous_page(3);
    assert_eq!(app.selected(), Some(0));
}

#[test]
fn replace_keeps_selection_untouched() {
    let mut app = get_test_app(5);
    app.select(Some(2));
    app.replace(vec![test_task("only")]);
    assert_eq!(app.selected(), Some(2));
    assert_eq!(app.tasks.len(), 1);
}
