//! Interactive application state: the ordered task list, the single
//! selection index, the pending activity, the modal flags, and the key
//! handling that drives them.

use vstd::prelude::*;

use crate::error::{spec_client_message, ClientError};
use crate::query::push_char;
use crate::task::Task;

verus! {

/// What the controller must do before it reads input again: resolve the
/// pending activity with a network call, or wait for a key.
pub enum TickAction {
    /// Log out and terminate.
    Logout,
    /// Send the input buffer as a new download task.
    Submit(String),
    /// Reload the task list.
    Refresh,
    /// Nothing is pending: block for one key event.
    AwaitKey,
}

/// The pending action the controller must resolve before reading input.
#[derive(Debug, PartialEq, Eq, Structural, Clone, Copy)]
pub enum Activity {
    /// Awaiting input.
    Idle,
    /// The task list must be reloaded before proceeding.
    Refresh,
    /// The operator must be logged out and the program must terminate.
    Quit,
    /// The pending input buffer must be sent as a new download task.
    Submit,
}

/// The modal overlay flags.  At most one of them routes input at a time;
/// see [`App::handle_key`] for the precedence.
#[derive(Debug, PartialEq, Eq, Structural, Clone, Copy)]
pub struct UI {
    /// The add-task modal is open and collects a URL.
    pub ask_for_task_url: bool,
    /// The delete-confirmation modal is open.
    pub confirm_delete: bool,
    /// Inside the delete-confirmation modal, "Yes" is the highlighted answer.
    pub delete_yes_selected: bool,
    /// The task-details overlay is open.
    pub show_details: bool,
    /// The help overlay is open.
    pub show_help: bool,
}

/// A key event, as the terminal reports it.
#[derive(Debug, PartialEq, Eq, Structural, Clone, Copy)]
pub enum Key {
    Up,
    Down,
    Left,
    Home,
    End,
    PageUp,
    PageDown,
    Enter,
    Esc,
    Backspace,
    Char(char),
    Other,
}

/// The mathematical value of an [`App`]: the task list, the optional
/// selection index, the input and error buffers, the pending activity and
/// the modal flags.
#[verifier::ext_equal]
pub ghost struct AppView {
    pub tasks: Seq<Task>,
    pub selected: Option<int>,
    pub input: Seq<char>,
    pub error: Seq<char>,
    pub activity: Activity,
    pub ui: UI,
}

/// The interactive application state.
pub struct App {
    /// The tasks, in display order (newest first).
    pub tasks: Vec<Task>,
    /// The selected row, if any.
    pub selected: Option<usize>,
    /// The add-task input buffer.
    pub input: Vec<char>,
    /// The last recorded error message, empty when there is none.
    pub error: String,
    /// The pending activity.
    pub activity: Activity,
    /// The modal flags.
    pub ui: UI,
}

/// The selection index as a mathematical value.
pub open spec fn sel_view(sel: Option<usize>) -> Option<int> {
    match sel {
        Some(i) => Some(i as int),
        None => None,
    }
}

impl View for App {
    type V = AppView;

    open spec fn view(&self) -> AppView {
        AppView {
            tasks: self.tasks@,
            selected: sel_view(self.selected),
            input: self.input@,
            error: self.error@,
            activity: self.activity,
            ui: self.ui,
        }
    }
}

/// Where `next` moves the selection: unchanged on an empty list; the first
/// row when nothing is selected; otherwise one row down, wrapping from the
/// last row to the first.
pub open spec fn next_index(len: int, sel: Option<int>) -> Option<int> {
    if len <= 0 {
        sel
    } else {
        match sel {
            None => Some(0),
            Some(i) => if i >= len - 1 {
                Some(0)
            } else {
                Some(i + 1)
            },
        }
    }
}

/// Where `previous` moves the selection: unchanged on an empty list; the
/// last row when nothing is selected; otherwise one row up, wrapping from
/// the first row to the last.
pub open spec fn previous_index(len: int, sel: Option<int>) -> Option<int> {
    if len <= 0 {
        sel
    } else {
        match sel {
            None => Some(len - 1),
            Some(i) => if i == 0 {
                Some(len - 1)
            } else {
                Some(i - 1)
            },
        }
    }
}

/// Where `first` moves the selection: unchanged on an empty list, else row 0.
pub open spec fn first_index(len: int, sel: Option<int>) -> Option<int> {
    if len <= 0 {
        sel
    } else {
        Some(0)
    }
}

/// Where `last` moves the selection: unchanged on an empty list, else the
/// last row.
pub open spec fn last_index(len: int, sel: Option<int>) -> Option<int> {
    if len <= 0 {
        sel
    } else {
        Some(len - 1)
    }
}

/// Where `next_page` moves the selection: unchanged on an empty list; row 0
/// when nothing is selected; otherwise `lines` rows down, clamped to the
/// last row.
pub open spec fn next_page_index(len: int, sel: Option<int>, lines: int) -> Option<int> {
    if len <= 0 {
        sel
    } else {
        match sel {
            None => Some(0),
            Some(i) => if i + lines >= len - 1 {
                Some(len - 1)
            } else {
                Some(i + lines)
            },
        }
    }
}

/// Where `previous_page` moves the selection: unchanged on an empty list;
/// row 0 when nothing is selected; otherwise `lines` rows up, clamped to
/// row 0.
pub open spec fn previous_page_index(len: int, sel: Option<int>, lines: int) -> Option<int> {
    if len <= 0 {
        sel
    } else {
        match sel {
            None => Some(0),
            Some(i) => if lines > i {
                Some(0)
            } else {
                Some(i - lines)
            },
        }
    }
}

/// Where the selection stands after a refresh replaced the list: an
/// existing selection is kept as it is (even when the new list is shorter);
/// with no selection, row 0 is selected as soon as the list is non-empty.
pub open spec fn refreshed_index(sel: Option<int>, len: int) -> Option<int> {
    match sel {
        Some(i) => Some(i),
        None => if len > 0 {
            Some(0)
        } else {
            None
        },
    }
}

/// The selection after `k` applications of [`next_index`] on a list of
/// `len` rows.
pub open spec fn iterate_next(len: int, sel: Option<int>, k: nat) -> Option<int>
    decreases k,
{
    if k == 0 {
        sel
    } else {
        iterate_next(len, next_index(len, sel), (k - 1) as nat)
    }
}

/// The selection after `k` applications of [`previous_index`] on a list of
/// `len` rows.
pub open spec fn iterate_previous(len: int, sel: Option<int>, k: nat) -> Option<int>
    decreases k,
{
    if k == 0 {
        sel
    } else {
        iterate_previous(len, previous_index(len, sel), (k - 1) as nat)
    }
}

proof fn lemma_iterate_next_compose(len: int, sel: Option<int>, a: nat, b: nat)
    ensures
        iterate_next(len, sel, a + b) == iterate_next(len, iterate_next(len, sel, a), b),
    decreases a,
{
    if a > 0 {
        lemma_iterate_next_compose(len, next_index(len, sel), (a - 1) as nat, b);
    }
}

proof fn lemma_iterate_next_no_wrap(len: int, i: int, k: nat)
    requires
        0 <= i,
        i + k <= len - 1,
    ensures
        iterate_next(len, Some(i), k) == Some(i + k),
    decreases k,
{
    if k > 0 {
        lemma_iterate_next_no_wrap(len, i + 1, (k - 1) as nat);
    }
}

proof fn lemma_iterate_previous_compose(len: int, sel: Option<int>, a: nat, b: nat)
    ensures
        iterate_previous(len, sel, a + b) == iterate_previous(
            len,
            iterate_previous(len, sel, a),
            b,
        ),
    decreases a,
{
    if a > 0 {
        lemma_iterate_previous_compose(len, previous_index(len, sel), (a - 1) as nat, b);
    }
}

proof fn lemma_iterate_previous_no_wrap(len: int, i: int, k: nat)
    requires
        0 < len,
        k <= i <= len - 1,
    ensures
        iterate_previous(len, Some(i), k) == Some(i - k),
    decreases k,
{
    if k > 0 {
        lemma_iterate_previous_no_wrap(len, i - 1, (k - 1) as nat);
    }
}

/// On a non-empty list, `next` composed once per row returns to the
/// selection it started from: stepping through the list is cyclic.
pub proof fn lemma_next_cycles(len: int, i: int)
    requires
        0 < len,
        0 <= i < len,
    ensures
        iterate_next(len, Some(i), len as nat) == Some(i),
{
    let up = (len - 1 - i) as nat;
    lemma_iterate_next_no_wrap(len, i, up);
    lemma_iterate_next_compose(len, Some(i), up, 1);
    assert(iterate_next(len, Some(len - 1), 1) == iterate_next(
        len,
        next_index(len, Some(len - 1)),
        0,
    ));
    lemma_iterate_next_compose(len, Some(i), (up + 1) as nat, i as nat);
    lemma_iterate_next_no_wrap(len, 0, i as nat);
    assert(up + 1 + i == len);
}

/// On a non-empty list, `previous` composed once per row returns to the
/// selection it started from: stepping through the list is cyclic.
pub proof fn lemma_previous_cycles(len: int, i: int)
    requires
        0 < len,
        0 <= i < len,
    ensures
        iterate_previous(len, Some(i), len as nat) == Some(i),
{
    let down = i as nat;
    lemma_iterate_previous_no_wrap(len, i, down);
    lemma_iterate_previous_compose(len, Some(i), down, 1);
    assert(iterate_previous(len, Some(0int), 1) == iterate_previous(
        len,
        previous_index(len, Some(0int)),
        0,
    ));
    lemma_iterate_previous_compose(len, Some(i), (down + 1) as nat, (len - 1 - i) as nat);
    lemma_iterate_previous_no_wrap(len, len - 1, (len - 1 - i) as nat);
    assert(down + 1 + (len - 1 - i) == len);
}

/// On a non-empty list, `next` on the last row wraps to row 0 and
/// `previous` on row 0 wraps to the last row.
pub proof fn lemma_wraparound(len: int)
    requires
        0 < len,
    ensures
        next_index(len, Some(len - 1)) == Some(0int),
        previous_index(len, Some(0int)) == Some(len - 1),
{
}

/// On an empty list, no navigation operation moves the selection.
pub proof fn lemma_empty_list_navigation(sel: Option<int>, lines: int)
    ensures
        next_index(0, sel) == sel,
        previous_index(0, sel) == sel,
        first_index(0, sel) == sel,
        last_index(0, sel) == sel,
        next_page_index(0, sel, lines) == sel,
        previous_page_index(0, sel, lines) == sel,
{
}

/// On a non-empty list, a page jump down never selects past the last row,
/// and a page jump up never selects before row 0.
pub proof fn lemma_page_moves_stay_in_range(len: int, sel: Option<int>, lines: int)
    requires
        0 < len,
        0 <= lines,
        sel matches Some(i) ==> 0 <= i,
    ensures
        ({
            let r = next_page_index(len, sel, lines);
            r matches Some(j) && 0 <= j <= len - 1
        }),
        ({
            let r = previous_page_index(len, sel, lines);
            r matches Some(j) && 0 <= j
        }),
{
}

/// The keys that toggle the highlighted answer inside the
/// delete-confirmation modal.
pub open spec fn key_toggles_delete_answer(key: Key) -> bool {
    ||| key == Key::Left
    ||| key == Key::Down
    ||| key == Key::Char('h')
    ||| key == Key::Char('H')
    ||| key == Key::Char('l')
    ||| key == Key::Char('L')
}

/// One key inside the add-task modal: Enter submits the buffer, Escape
/// cancels and clears it, Backspace drops the last character, a printable
/// character is appended, anything else is ignored.
pub open spec fn add_task_step(pre: AppView, key: Key) -> AppView {
    match key {
        Key::Enter => AppView {
            ui: UI { ask_for_task_url: false, ..pre.ui },
            activity: Activity::Submit,
            ..pre
        },
        Key::Esc => AppView { ui: UI { ask_for_task_url: false, ..pre.ui }, input: Seq::empty(), ..pre },
        Key::Backspace => AppView {
            input: if pre.input.len() == 0 {
                pre.input
            } else {
                pre.input.drop_last()
            },
            ..pre
        },
        Key::Char(c) => AppView { input: pre.input.push(c), ..pre },
        _ => pre,
    }
}

/// One key inside the delete-confirmation modal: Enter closes the modal
/// and, when "Yes" was highlighted but no selected task exists — nothing
/// is selected, or the selection no longer names a task — records an
/// error (a valid selection instead produces a delete request, see
/// [`key_delete_request`]); Escape closes the modal; the toggle keys flip
/// the highlighted answer.
pub open spec fn confirm_delete_step(pre: AppView, key: Key) -> AppView {
    if key == Key::Enter {
        let ui = UI { confirm_delete: false, delete_yes_selected: false, ..pre.ui };
        if pre.ui.delete_yes_selected && (match pre.selected {
            Some(i) => i >= pre.tasks.len(),
            None => true,
        }) {
            AppView { ui, error: "No task found"@, ..pre }
        } else {
            AppView { ui, ..pre }
        }
    } else if key == Key::Esc {
        AppView { ui: UI { confirm_delete: false, delete_yes_selected: false, ..pre.ui }, ..pre }
    } else if key_toggles_delete_answer(key) {
        AppView { ui: UI { delete_yes_selected: !pre.ui.delete_yes_selected, ..pre.ui }, ..pre }
    } else {
        pre
    }
}

/// One key with no modal open: navigation, opening a modal, or scheduling
/// an activity.
pub open spec fn normal_step(pre: AppView, key: Key, lines: int) -> AppView {
    let len = pre.tasks.len() as int;
    match key {
        Key::Down => AppView { selected: next_index(len, pre.selected), ..pre },
        Key::Up => AppView { selected: previous_index(len, pre.selected), ..pre },
        Key::Home => AppView { selected: first_index(len, pre.selected), ..pre },
        Key::End => AppView { selected: last_index(len, pre.selected), ..pre },
        Key::PageDown => AppView { selected: next_page_index(len, pre.selected, lines), ..pre },
        Key::PageUp => AppView { selected: previous_page_index(len, pre.selected, lines), ..pre },
        Key::Char(c) => if c == 'a' || c == 'A' {
            AppView { ui: UI { ask_for_task_url: true, ..pre.ui }, ..pre }
        } else if c == 'd' || c == 'D' {
            AppView { ui: UI { confirm_delete: true, delete_yes_selected: false, ..pre.ui }, ..pre }
        } else if c == 'i' || c == 'I' {
            AppView { ui: UI { show_details: true, ..pre.ui }, ..pre }
        } else if c == 'j' || c == 'J' {
            AppView { selected: next_index(len, pre.selected), ..pre }
        } else if c == 'k' || c == 'K' {
            AppView { selected: previous_index(len, pre.selected), ..pre }
        } else if c == 'q' || c == 'Q' {
            AppView { activity: Activity::Quit, ..pre }
        } else if c == 'r' || c == 'R' {
            AppView { activity: Activity::Refresh, ..pre }
        } else if c == '?' {
            AppView { ui: UI { show_help: true, ..pre.ui }, ..pre }
        } else {
            pre
        },
        _ => pre,
    }
}

/// One key event against the whole state, with the strict modal
/// precedence: an open help overlay swallows the key; else an open details
/// overlay swallows it; else the add-task modal handles it; else the
/// delete-confirmation modal; else normal mode.
pub open spec fn key_step(pre: AppView, key: Key, lines: int) -> AppView {
    if pre.ui.show_help {
        AppView { ui: UI { show_help: false, ..pre.ui }, ..pre }
    } else if pre.ui.show_details {
        AppView { ui: UI { show_details: false, ..pre.ui }, ..pre }
    } else if pre.ui.ask_for_task_url {
        add_task_step(pre, key)
    } else if pre.ui.confirm_delete {
        confirm_delete_step(pre, key)
    } else {
        normal_step(pre, key, lines)
    }
}

/// The id of the task that a key event asks to delete: only Enter in the
/// delete-confirmation modal with "Yes" highlighted and a selection that
/// names a task produces one.
pub open spec fn key_delete_request(pre: AppView, key: Key) -> Option<Seq<char>> {
    if !pre.ui.show_help && !pre.ui.show_details && !pre.ui.ask_for_task_url
        && pre.ui.confirm_delete && key == Key::Enter && pre.ui.delete_yes_selected {
        match pre.selected {
            Some(i) => if i < pre.tasks.len() {
                Some(pre.tasks[i].id@)
            } else {
                None
            },
            None => None,
        }
    } else {
        None
    }
}

impl App {
    /// A fresh application: empty list, no selection, empty buffers, no
    /// modal open, and a reload pending as the first activity.
    pub fn new() -> (r: App)
        ensures
            r@ == (AppView {
                tasks: Seq::empty(),
                selected: None,
                input: Seq::empty(),
                error: Seq::empty(),
                activity: Activity::Refresh,
                ui: UI {
                    ask_for_task_url: false,
                    confirm_delete: false,
                    delete_yes_selected: false,
                    show_details: false,
                    show_help: false,
                },
            }),
    {
        let r = App {
            tasks: Vec::new(),
            selected: None,
            input: Vec::new(),
            error: String::new(),
            activity: Activity::Refresh,
            ui: UI {
                ask_for_task_url: false,
                confirm_delete: false,
                delete_yes_selected: false,
                show_details: false,
                show_help: false,
            },
        };
        assert(r@ =~= (AppView {
            tasks: Seq::empty(),
            selected: None,
            input: Seq::empty(),
            error: Seq::empty(),
            activity: Activity::Refresh,
            ui: UI {
                ask_for_task_url: false,
                confirm_delete: false,
                delete_yes_selected: false,
                show_details: false,
                show_help: false,
            },
        }));
        r
    }

    /// The selected row, if any.
    pub fn selected(&self) -> (r: Option<usize>)
        ensures
            sel_view(r) == self@.selected,
    {
        self.selected
    }

    /// Set the selection directly.
    pub fn select(&mut self, sel: Option<usize>)
        ensures
            final(self)@ == (AppView { selected: sel_view(sel), ..old(self)@ }),
    {
        self.selected = sel;
    }

    /// Move the selection one row down, wrapping at the end of the list.
    pub fn next(&mut self)
        ensures
            final(self)@ == (AppView {
                selected: next_index(old(self)@.tasks.len() as int, old(self)@.selected),
                ..old(self)@
            }),
    {
        let len = self.tasks.len();
        if len > 0 {
            let i: usize = match self.selected {
                Some(i) => if i >= len - 1 {
                    0
                } else {
                    i + 1
                },
                None => 0,
            };
            self.selected = Some(i);
        }
    }

    /// Move the selection one row up, wrapping at the start of the list.
    pub fn previous(&mut self)
        ensures
            final(self)@ == (AppView {
                selected: previous_index(old(self)@.tasks.len() as int, old(self)@.selected),
                ..old(self)@
            }),
    {
        let len = self.tasks.len();
        if len > 0 {
            let i: usize = match self.selected {
                Some(i) => if i == 0 {
                    len - 1
                } else {
                    i - 1
                },
                None => len - 1,
            };
            self.selected = Some(i);
        }
    }

    /// Select the first row.
    pub fn first(&mut self)
        ensures
            final(self)@ == (AppView {
                selected: first_index(old(self)@.tasks.len() as int, old(self)@.selected),
                ..old(self)@
            }),
    {
        if self.tasks.len() > 0 {
            self.selected = Some(0);
        }
    }

    /// Select the last row.
    pub fn last(&mut self)
        ensures
            final(self)@ == (AppView {
                selected: last_index(old(self)@.tasks.len() as int, old(self)@.selected),
                ..old(self)@
            }),
    {
        let len = self.tasks.len();
        if len > 0 {
            self.selected = Some(len - 1);
        }
    }

    /// Move the selection `lines` rows down, clamped to the last row.
    pub fn next_page(&mut self, lines: usize)
        ensures
            final(self)@ == (AppView {
                selected: next_page_index(
                    old(self)@.tasks.len() as int,
                    old(self)@.selected,
                    lines as int,
                ),
                ..old(self)@
            }),
    {
        let len = self.tasks.len();
        if len > 0 {
            let cap = len - 1;
            let i: usize = match self.selected {
                Some(i) => if i >= cap {
                    cap
                } else if lines >= cap - i {
                    cap
                } else {
                    i + lines
                },
                None => 0,
            };
            self.selected = Some(i);
        }
    }

    /// Move the selection `lines` rows up, clamped to the first row.
    pub fn previous_page(&mut self, lines: usize)
        ensures
            final(self)@ == (AppView {
                selected: previous_page_index(
                    old(self)@.tasks.len() as int,
                    old(self)@.selected,
                    lines as int,
                ),
                ..old(self)@
            }),
    {
        if self.tasks.len() > 0 {
            let i: usize = match self.selected {
                Some(i) => if lines > i {
                    0
                } else {
                    i - lines
                },
                None => 0,
            };
            self.selected = Some(i);
        }
    }

    /// Swap in a freshly fetched task list.  The selection is left as it
    /// is; re-selecting after a reload is the controller's concern.
    pub fn replace(&mut self, tasks: Vec<Task>)
        ensures
            final(self)@ == (AppView { tasks: tasks@, ..old(self)@ }),
    {
        self.tasks = tasks;
    }

    /// Forget the recorded error message, after it has been shown once.
    pub fn clear_error(&mut self)
        ensures
            final(self)@ == (AppView { error: Seq::empty(), ..old(self)@ }),
    {
        self.error = String::new();
    }

    /// Record the outcome of the pending reload: on success the fetched
    /// list replaces the current one and row 0 is selected when nothing
    /// was; on failure the error message is recorded.  Either way the
    /// controller returns to `Idle`.
    pub fn apply_refresh_result(&mut self, r: Result<Vec<Task>, ClientError>)
        ensures
            match r {
                Ok(tasks) => final(self)@ == (AppView {
                    tasks: tasks@,
                    selected: refreshed_index(old(self)@.selected, tasks@.len() as int),
                    activity: Activity::Idle,
                    ..old(self)@
                }),
                Err(e) => final(self)@ == (AppView {
                    error: spec_client_message(e),
                    activity: Activity::Idle,
                    ..old(self)@
                }),
            },
    {
        match r {
            Ok(tasks) => {
                self.replace(tasks);
                if self.selected.is_none() {
                    self.first();
                }
                self.activity = Activity::Idle;
            },
            Err(e) => {
                self.error = e.message();
                self.activity = Activity::Idle;
            },
        }
    }

    /// Record the outcome of submitting the input buffer as a new task:
    /// on success the buffer is cleared and a reload is scheduled; on
    /// failure the error message is recorded and the controller returns to
    /// `Idle`.  The add-task modal closes either way.
    pub fn apply_submit_result(&mut self, r: Result<(), ClientError>)
        ensures
            match r {
                Ok(_) => final(self)@ == (AppView {
                    input: Seq::empty(),
                    activity: Activity::Refresh,
                    ui: UI { ask_for_task_url: false, ..old(self)@.ui },
                    ..old(self)@
                }),
                Err(e) => final(self)@ == (AppView {
                    error: spec_client_message(e),
                    activity: Activity::Idle,
                    ui: UI { ask_for_task_url: false, ..old(self)@.ui },
                    ..old(self)@
                }),
            },
    {
        match r {
            Ok(_) => {
                self.input = Vec::new();
                self.activity = Activity::Refresh;
            },
            Err(e) => {
                self.error = e.message();
                self.activity = Activity::Idle;
            },
        }
        self.ui.ask_for_task_url = false;
    }

    /// Record the outcome of a delete call: on success the input buffer is
    /// cleared and a reload is scheduled; on failure the error message is
    /// recorded.
    pub fn apply_delete_result(&mut self, r: Result<(), ClientError>)
        ensures
            match r {
                Ok(_) => final(self)@ == (AppView {
                    input: Seq::empty(),
                    activity: Activity::Refresh,
                    ..old(self)@
                }),
                Err(e) => final(self)@ == (AppView {
                    error: spec_client_message(e),
                    ..old(self)@
                }),
            },
    {
        match r {
            Ok(_) => {
                self.input = Vec::new();
                self.activity = Activity::Refresh;
            },
            Err(e) => {
                self.error = e.message();
            },
        }
    }

    /// The input buffer as a string.
    pub fn input_text(&self) -> (r: String)
        ensures
            r@ == self@.input,
    {
        let mut r = String::new();
        let mut i: usize = 0;
        while i < self.input.len()
            invariant
                i <= self.input@.len(),
                r@ == self.input@.take(i as int),
            decreases self.input@.len() - i,
        {
            push_char(&mut r, self.input[i]);
            proof {
                assert(r@ =~= self.input@.take(i as int + 1));
            }
            i = i + 1;
        }
        proof {
            assert(self.input@.take(self.input@.len() as int) =~= self.input@);
        }
        r
    }

    /// What the controller must resolve this tick, before any input is
    /// read: a pending quit logs out, a pending submit sends the input
    /// buffer, a pending refresh reloads the list, and only an idle
    /// controller waits for a key.
    pub fn pending_action(&self) -> (r: TickAction)
        ensures
            match self@.activity {
                Activity::Quit => r matches TickAction::Logout,
                Activity::Submit => r matches TickAction::Submit(u) && u@ == self@.input,
                Activity::Refresh => r matches TickAction::Refresh,
                Activity::Idle => r matches TickAction::AwaitKey,
            },
    {
        match self.activity {
            Activity::Quit => TickAction::Logout,
            Activity::Submit => TickAction::Submit(self.input_text()),
            Activity::Refresh => TickAction::Refresh,
            Activity::Idle => TickAction::AwaitKey,
        }
    }

    /// Dispatch one key event by the strict modal precedence (see
    /// [`key_step`]).  When the key confirms a deletion of a task that
    /// exists, its id is returned for the caller to issue the delete call,
    /// whose outcome is then recorded with [`App::apply_delete_result`].
    pub fn handle_key(&mut self, key: Key, lines: usize) -> (r: Option<String>)
        ensures
            final(self)@ == key_step(old(self)@, key, lines as int),
            match r {
                Some(id) => key_delete_request(old(self)@, key) == Some(id@),
                None => key_delete_request(old(self)@, key) is None,
            },
    {
        if self.ui.show_help {
            self.ui.show_help = false;
            None
        } else if self.ui.show_details {
            self.ui.show_details = false;
            None
        } else if self.ui.ask_for_task_url {
            match key {
                Key::Enter => {
                    self.ui.ask_for_task_url = false;
                    self.activity = Activity::Submit;
                },
                Key::Esc => {
                    self.ui.ask_for_task_url = false;
                    self.input = Vec::new();
                },
                Key::Backspace => {
                    let _ = self.input.pop();
                },
                Key::Char(c) => {
                    self.input.push(c);
                },
                _ => {},
            }
            None
        } else if self.ui.confirm_delete {
            if key == Key::Enter {
                self.ui.confirm_delete = false;
                let yes = self.ui.delete_yes_selected;
                self.ui.delete_yes_selected = false;
                if yes {
                    match self.selected {
                        Some(i) => {
                            if i < self.tasks.len() {
                                Some(self.tasks[i].id.clone())
                            } else {
                                self.error = "No task found".to_owned();
                                None
                            }
                        },
                        None => {
                            self.error = "No task found".to_owned();
                            None
                        },
                    }
                } else {
                    None
                }
            } else if key == Key::Esc {
                self.ui.confirm_delete = false;
                self.ui.delete_yes_selected = false;
                None
            } else if key == Key::Left || key == Key::Down || key == Key::Char('h') || key
                == Key::Char('H') || key == Key::Char('l') || key == Key::Char('L') {
                self.ui.delete_yes_selected = !self.ui.delete_yes_selected;
                None
            } else {
                None
            }
        } else {
            match key {
                Key::Down => self.next(),
                Key::Up => self.previous(),
                Key::Home => self.first(),
                Key::End => self.last(),
                Key::PageDown => self.next_page(lines),
                Key::PageUp => self.previous_page(lines),
                Key::Char(c) => {
                    if c == 'a' || c == 'A' {
                        self.ui.ask_for_task_url = true;
                    } else if c == 'd' || c == 'D' {
                        self.ui.confirm_delete = true;
                        self.ui.delete_yes_selected = false;
                    } else if c == 'i' || c == 'I' {
                        self.ui.show_details = true;
                    } else if c == 'j' || c == 'J' {
                        self.next();
                    } else if c == 'k' || c == 'K' {
                        self.previous();
                    } else if c == 'q' || c == 'Q' {
                        self.activity = Activity::Quit;
                    } else if c == 'r' || c == 'R' {
                        self.activity = Activity::Refresh;
                    } else if c == '?' {
                        self.ui.show_help = true;
                    }
                },
                _ => {},
            }
            None
        }
    }
}

} // verus!
