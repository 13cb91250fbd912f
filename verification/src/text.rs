//! Display text: byte counts and speeds in their appropriate unit, the
//! status line, the aggregate traffic summary, and the status colors.

use vstd::prelude::*;
use vstd::string::StringExecFns;

use crate::config::Config;
use crate::state::{Activity, App};
use crate::task::Task;

verus! {

/// What `byte_unit` displays for a byte count in its appropriate decimal
/// unit, with two fractional digits (none for a count below 1000): a
/// function of the count alone.
pub uninterp spec fn size_label(n: u64) -> Seq<char>;

/// Relies on `byte_unit::Byte::get_appropriate_unit`: the display of a
/// byte count in its appropriate decimal unit is deterministic in the
/// count.
#[verifier::external_body]
pub fn size_text(n: u64) -> (r: String)
    ensures
        r@ == size_label(n),
{
    format!(
        "{:.2}",
        byte_unit::Byte::from_u64(n).get_appropriate_unit(byte_unit::UnitType::Decimal),
    )
}

/// A byte count per second: the byte-count display with `/s` appended.
pub fn speed_text(n: u64) -> (r: String)
    ensures
        r@ == size_label(n) + "/s"@,
{
    let mut r = size_text(n);
    r.append("/s");
    r
}

/// The total download speed over a task list.
pub open spec fn sum_down(tasks: Seq<Task>) -> int
    decreases tasks.len(),
{
    if tasks.len() == 0 {
        0
    } else {
        sum_down(tasks.drop_last()) + tasks.last().speed_download
    }
}

/// The total upload speed over a task list.
pub open spec fn sum_up(tasks: Seq<Task>) -> int
    decreases tasks.len(),
{
    if tasks.len() == 0 {
        0
    } else {
        sum_up(tasks.drop_last()) + tasks.last().speed_upload
    }
}

/// A non-negative total, clamped to what a counter can hold.
pub open spec fn clamped(x: int) -> u64 {
    if x > u64::MAX {
        u64::MAX
    } else if x < 0 {
        0
    } else {
        x as u64
    }
}

/// The aggregate traffic over the current task list.
pub struct Summary {
    /// The total download speed, saturating at the counter's maximum.
    pub speed_download: u64,
    /// The total upload speed, saturating at the counter's maximum.
    pub speed_upload: u64,
}

proof fn lemma_sums_nonneg(tasks: Seq<Task>)
    ensures
        sum_down(tasks) >= 0,
        sum_up(tasks) >= 0,
    decreases tasks.len(),
{
    if tasks.len() > 0 {
        lemma_sums_nonneg(tasks.drop_last());
    }
}

proof fn lemma_sums_snoc(tasks: Seq<Task>, i: int)
    requires
        0 <= i < tasks.len(),
    ensures
        sum_down(tasks.take(i + 1)) == sum_down(tasks.take(i)) + tasks[i].speed_download,
        sum_up(tasks.take(i + 1)) == sum_up(tasks.take(i)) + tasks[i].speed_upload,
{
    let t = tasks.take(i + 1);
    assert(t.drop_last() =~= tasks.take(i));
    assert(t.last() == tasks[i]);
}

impl Summary {
    /// The aggregate traffic over `t`: the sums of the download and
    /// upload speeds, each saturating at the counter's maximum.
    pub fn new(t: &Vec<Task>) -> (r: Summary)
        ensures
            r.speed_download == clamped(sum_down(t@)),
            r.speed_upload == clamped(sum_up(t@)),
    {
        let mut down: u64 = 0;
        let mut up: u64 = 0;
        let mut i: usize = 0;
        proof {
            assert(t@.take(0) =~= Seq::<Task>::empty());
        }
        while i < t.len()
            invariant
                i <= t@.len(),
                down == clamped(sum_down(t@.take(i as int))),
                up == clamped(sum_up(t@.take(i as int))),
            decreases t@.len() - i,
        {
            down = down.saturating_add(t[i].speed_download);
            up = up.saturating_add(t[i].speed_upload);
            proof {
                lemma_sums_snoc(t@, i as int);
                lemma_sums_nonneg(t@.take(i as int));
            }
            i = i + 1;
        }
        proof {
            assert(t@.take(t@.len() as int) =~= t@);
        }
        Summary { speed_download: down, speed_upload: up }
    }
}

/// The left side of the status line: what the controller is doing, or the
/// configured URL when it is idle.
pub fn status_text(app: &App, cfg: &Config) -> (r: String)
    ensures
        app@.activity == Activity::Quit ==> r@ == "Quitting ..."@,
        app@.activity == Activity::Refresh ==> r@ == "Refreshing ..."@,
        app@.activity != Activity::Quit && app@.activity != Activity::Refresh ==> r@ == cfg.url@,
{
    match app.activity {
        Activity::Quit => "Quitting ...".to_owned(),
        Activity::Refresh => "Refreshing ...".to_owned(),
        _ => cfg.url.clone(),
    }
}

/// The right side of the status line: the aggregate up and down traffic,
/// and the hint that `?` opens the help.
pub fn status_traffic(app: &App) -> (r: String)
    ensures
        r@ == "up: "@ + size_label(clamped(sum_up(app@.tasks))) + "/s"@ + ", down: "@ + size_label(
            clamped(sum_down(app@.tasks)),
        ) + "/s"@ + ".  Press '?' for help."@,
{
    let s = Summary::new(&app.tasks);
    let mut r = "up: ".to_owned();
    r.append(speed_text(s.speed_upload).as_str());
    r.append(", down: ");
    r.append(speed_text(s.speed_download).as_str());
    r.append(".  Press '?' for help.");
    r
}

/// A display color for a task status.
#[derive(Debug, PartialEq, Eq, Structural, Clone, Copy)]
pub enum StatusColor {
    Yellow,
    Cyan,
    Magenta,
    Green,
    Blue,
    Red,
}

/// The color of each status: the vendor's known states each have one, and
/// any unrecognized status shows as red.
pub open spec fn spec_status_color(s: Seq<char>) -> StatusColor {
    if s == "waiting"@ {
        StatusColor::Yellow
    } else if s == "downloading"@ {
        StatusColor::Cyan
    } else if s == "paused"@ {
        StatusColor::Magenta
    } else if s == "finishing"@ {
        StatusColor::Cyan
    } else if s == "finished"@ {
        StatusColor::Green
    } else if s == "hash_checking"@ {
        StatusColor::Cyan
    } else if s == "seeding"@ {
        StatusColor::Blue
    } else if s == "filehosting_waiting"@ {
        StatusColor::Yellow
    } else if s == "extracting"@ {
        StatusColor::Cyan
    } else {
        StatusColor::Red
    }
}

/// The display color of a task status.
pub fn status_color(status: &str) -> (r: StatusColor)
    ensures
        r == spec_status_color(status@),
{
    let s = status.to_owned();
    if s == "waiting".to_owned() {
        StatusColor::Yellow
    } else if s == "downloading".to_owned() {
        StatusColor::Cyan
    } else if s == "paused".to_owned() {
        StatusColor::Magenta
    } else if s == "finishing".to_owned() {
        StatusColor::Cyan
    } else if s == "finished".to_owned() {
        StatusColor::Green
    } else if s == "hash_checking".to_owned() {
        StatusColor::Cyan
    } else if s == "seeding".to_owned() {
        StatusColor::Blue
    } else if s == "filehosting_waiting".to_owned() {
        StatusColor::Yellow
    } else if s == "extracting".to_owned() {
        StatusColor::Cyan
    } else {
        StatusColor::Red
    }
}

} // verus!
