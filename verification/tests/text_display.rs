//! Display text: byte counts, speeds, the status line, the aggregate
//! traffic summary, and status colors.

use synodl::{
    size_text, speed_text, status_color, status_text, status_traffic, Activity, App, Config,
    StatusColor, Summary, Task,
};

fn finished_task(speed_download: u64, speed_upload: u64) -> Task {
    Task {
        id: String::from("uuid01"),
        title: "Peppermint-7-20160616-amd64.iso".to_owned(),
        status: "finished".to_owned(),
        size: 1024000,
        size_downloaded: 1024000,
        size_uploaded: 1024000,
        speed_download,
        speed_upload,
    }
}

fn test_config() -> Config {
    Config {
        user: String::from(""),
        url: String::from("http://foo/"),
        password: None,
        password_command: None,
        cacert: None,
    }
}

#[test]
fn byte_text_bytes() {
    let result = size_text(500);
    assert_eq!(result, "500 B");
}

#[test]
fn byte_text_kb() {
    let result = size_text(5300);
    assert_eq!(result, "5.30 KB");
}

#[test]
fn byte_text_mb() {
    let result = size_text(50000000);
    assert_eq!(result, "50.00 MB");
}

#[test]
fn speed_text_bytes() {
    let result = speed_text(500);
    assert_eq!(result, "500 B/s");
}

#[test]
fn speed_text_kb() {
    let result = speed_text(5300);
    assert_eq!(result, "5.30 KB/s");
}

#[test]
fn speed_text_mb() {
    let result = speed_text(50000000);
    assert_eq!(result, "50.00 MB/s");
}

#[test]
fn status_no_traffic() {
    let mut app = App::new();
    app.activity = Activity::Idle;
    assert_eq!(
        status_traffic(&app),
        "up: 0 B/s, down: 0 B/s.  Press '?' for help."
    );
}

#[test]
fn status_text_quitting() {
    let mut app = App::new();
    app.activity = Activity::Quit;

    let cfg = test_config();
    assert_eq!(status_text(&app, &cfg), "Quitting ...");
}

#[test]
fn status_line_loading() {
    let mut app = App::new();
    app.activity = Activity::Refresh;

    let cfg = test_config();
    assert_eq!(status_text(&app, &cfg), "Refreshing ...");
}

#[test]
fn status_line_normal() {
    let mut app = App::new();
    app.activity = Activity::Idle;

    let cfg = test_config();
    assert_eq!(status_text(&app, &cfg), "http://foo/");
}

#[test]
fn five_finished_tasks_show_no_traffic() {
    let mut app = App::new();
    app.tasks = vec![
        finished_task(0, 0),
        finished_task(0, 0),
        finished_task(0, 0),
        finished_task(0, 0),
        finished_task(0, 0),
    ];
    app.activity = Activity::Idle;
    assert_eq!(
        status_traffic(&app),
        "up: 0 B/s, down: 0 B/s.  Press '?' for help."
    );
}

#[test]
fn sumary_single_finished_task() {
    let tasks = vec![finished_task(0, 0)];

    let s = Summary::new(&tasks);
    assert_eq!(s.speed_download, 0);
    assert_eq!(s.speed_upload, 0);
}

#[test]
fn sumary_single_downlodaing_task() {
    let tasks = vec![finished_task(1234, 0)];

    let s = Summary::new(&tasks);
    assert_eq!(s.speed_download, 1234);
    assert_eq!(s.speed_upload, 0);
}

#[test]
fn sumary_single_uplodaing_task() {
    let tasks = vec![finished_task(0, 2345)];

    let s = Summary::new(&tasks);
    assert_eq!(s.speed_download, 0);
    assert_eq!(s.speed_upload, 2345);
}

#[test]
fn sumary_single_downloading_and_uplodaing_task() {
    let tasks = vec![finished_task(1234, 2345)];

    let s = Summary::new(&tasks);
    assert_eq!(s.speed_download, 1234);
    assert_eq!(s.speed_upload, 2345);
}

#[test]
fn sumary_no_tasks() {
    let tasks = vec![];

    let s = Summary::new(&tasks);
    assert_eq!(s.speed_download, 0);
    assert_eq!(s.speed_upload, 0);
}

#[test]
fn sumary_multiple_tasks() {
    let tasks = vec![
        finished_task(100, 200),
        finished_task(50, 0),
        finished_task(0, 25),
        finished_task(0, 0),
    ];

    let s = Summary::new(&tasks);
    assert_eq!(s.speed_download, 150);
    assert_eq!(s.speed_upload, 225);
}

#[test]
fn summary_saturates_at_the_counter_maximum() {
    let tasks = vec![finished_task(u64::MAX, 1), finished_task(2, u64::MAX)];

    let s = Summary::new(&tasks);
    assert_eq!(s.speed_download, u64::MAX);
    assert_eq!(s.speed_upload, u64::MAX);
}

#[test]
fn test_status_colors() {
    assert_eq!(status_color("waiting"), StatusColor::Yellow);
    assert_eq!(status_color("downloading"), StatusColor::Cyan);
    assert_eq!(status_color("paused"), StatusColor::Magenta);
    assert_eq!(status_color("finishing"), StatusColor::Cyan);
    assert_eq!(status_color("finished"), StatusColor::Green);
    assert_eq!(status_color("hash_checking"), StatusColor::Cyan);
    assert_eq!(status_color("seeding"), StatusColor::Blue);
    assert_eq!(status_color("filehosting_waiting"), StatusColor::Yellow);
    assert_eq!(status_color("extracting"), StatusColor::Cyan);
    assert_eq!(status_color("something else"), StatusColor::Red);
}
