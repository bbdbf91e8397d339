//! The interactive session: file list, cursor, selections, popup menu, and
//! the keyboard dispatcher.
//!
//! Every state change of one input event is decided here. Work that only the
//! external tool can do (fetching a diff, applying or re-adding files,
//! opening an editor) is handed back to the caller as an [`Effect`]; the
//! caller performs it and reports the outcome through [`App::set_diff`],
//! [`App::finish_mutation_success`] or [`App::finish_mutation_failure`].

use vstd::prelude::*;
use vstd::string::*;

use crate::status::{
    actionable, is_actionable, models, string_views, FileItem, FileModel, FileStatus, Selection,
};

verus! {

/// One entry of the popup menu.
#[derive(Clone, Copy, Debug, PartialEq, Eq, Structural)]
pub enum PopupAction {
    Apply,
    ReAdd,
    Cancel,
}

/// One keyboard input, reduced to what the dispatcher distinguishes.
#[derive(Clone, Copy, Debug, PartialEq, Eq)]
pub enum Key {
    Esc,
    Enter,
    Up,
    Down,
    Char(char),
    Ctrl(char),
    Other,
}

/// What the caller must do after an input event: nothing, fetch a diff,
/// run a mutating operation on the given arguments, or hand the terminal
/// to an editor.
#[derive(Debug, PartialEq, Eq)]
pub enum Effect {
    Idle,
    FetchDiff(String),
    Apply(Vec<String>),
    ReAdd(Vec<String>),
    Edit(String),
    OpenSource,
}

/// The whole session state.
#[derive(Debug)]
pub struct App {
    pub running: bool,
    pub files: Vec<FileItem>,
    pub chezmoi_file_diff: String,
    pub highlighted: usize,
    pub error_message: Option<String>,
    pub show_popup: bool,
    pub popup_items: Vec<(String, PopupAction)>,
    pub popup_state: usize,
}

/// A selection marker only ever points at an axis with a change on it.
pub open spec fn file_ok(f: FileModel) -> bool {
    &&& f.selected == Selection::Local ==> f.local_status != FileStatus::Unchanged
    &&& f.selected == Selection::Source ==> f.source_status != FileStatus::Unchanged
}

/// The cursor index after moving down one entry, wrapping at the end.
pub open spec fn next_index(i: int, len: int) -> int {
    if i >= len - 1 {
        0
    } else {
        i + 1
    }
}

/// The cursor index after moving up one entry, wrapping at the start.
pub open spec fn prev_index(i: int, len: int) -> int {
    if i == 0 {
        len - 1
    } else {
        i - 1
    }
}

/// The cursor index after the list was replaced by one of `len` entries.
pub open spec fn clamped(i: int, len: int) -> int {
    if len == 0 {
        0
    } else if i < len {
        i
    } else {
        len - 1
    }
}

/// The selection marker after one press of the toggle key, given which axes
/// have a change: the cycle skips any axis whose status is unchanged.
pub open spec fn next_selection(cur: Selection, local_changed: bool, source_changed: bool) -> Selection {
    match cur {
        Selection::Unselected => if local_changed {
            Selection::Local
        } else if source_changed {
            Selection::Source
        } else {
            Selection::Unselected
        },
        Selection::Local => if source_changed {
            Selection::Source
        } else {
            Selection::Unselected
        },
        Selection::Source => Selection::Unselected,
    }
}

/// Advances the selection marker of one file by one press of the toggle
/// key.
pub fn cycle_selection(cur: Selection, local_changed: bool, source_changed: bool) -> (next: Selection)
    ensures
        next == next_selection(cur, local_changed, source_changed),
{
    match cur {
        Selection::Unselected => if local_changed {
            Selection::Local
        } else if source_changed {
            Selection::Source
        } else {
            Selection::Unselected
        },
        Selection::Local => if source_changed {
            Selection::Source
        } else {
            Selection::Unselected
        },
        Selection::Source => Selection::Unselected,
    }
}

/// A file whose selection queues it for re-add: selected on the local axis
/// with an actionable local status.
pub open spec fn local_selected(f: FileModel) -> bool {
    f.selected == Selection::Local && actionable(f.local_status)
}

/// A file whose selection queues it for apply: selected on the source axis
/// with an actionable source status.
pub open spec fn source_selected(f: FileModel) -> bool {
    f.selected == Selection::Source && actionable(f.source_status)
}

/// The paths queued for re-add, in list order.
pub open spec fn selected_local_paths(files: Seq<FileModel>) -> Seq<Seq<char>>
    decreases files.len(),
{
    if files.len() == 0 {
        Seq::empty()
    } else {
        let p = selected_local_paths(files.drop_last());
        if local_selected(files.last()) {
            p.push(files.last().path)
        } else {
            p
        }
    }
}

/// The paths queued for apply, in list order.
pub open spec fn selected_source_paths(files: Seq<FileModel>) -> Seq<Seq<char>>
    decreases files.len(),
{
    if files.len() == 0 {
        Seq::empty()
    } else {
        let p = selected_source_paths(files.drop_last());
        if source_selected(files.last()) {
            p.push(files.last().path)
        } else {
            p
        }
    }
}

impl App {
    /// Well-formedness: the cursor is valid whenever the list is non-empty,
    /// the popup cursor is valid while the popup is open, and every
    /// selection marker points at a changed axis.
    pub open spec fn inv(self) -> bool {
        &&& self.files@.len() > 0 ==> (self.highlighted as int) < self.files@.len()
        &&& self.files@.len() == 0 ==> self.highlighted == 0
        &&& self.show_popup ==> (self.popup_state as int) < self.popup_items@.len()
        &&& forall|i: int| 0 <= i < self.files@.len() ==> file_ok(#[trigger] self.files@[i]@)
    }
}

/// The session ended; nothing else moved.
pub open spec fn quit_rel(pre: App, post: App) -> bool {
    post == (App { running: false, ..pre })
}

/// Only the highlighted entry's selection marker advanced by one press of
/// the toggle key; with an empty list nothing moved.
pub open spec fn toggle_rel(pre: App, post: App) -> bool {
    if pre.files@.len() == 0 {
        post == pre
    } else {
        let i = pre.highlighted as int;
        let f = pre.files@[i]@;
        &&& post.files@.len() == pre.files@.len()
        &&& forall|j: int|
            0 <= j < pre.files@.len() && j != i ==> post.files@[j] == pre.files@[j]
        &&& post.files@[i]@ == (FileModel {
            selected: next_selection(
                f.selected,
                f.local_status != FileStatus::Unchanged,
                f.source_status != FileStatus::Unchanged,
            ),
            ..f
        })
        &&& post == (App { files: post.files, ..pre })
    }
}

/// Moving the cursor touches the cursor and empties the diff pane, nothing
/// else.
pub open spec fn nav_frame(pre: App, post: App) -> bool {
    &&& post.chezmoi_file_diff@ == Seq::<char>::empty()
    &&& post == (App {
        highlighted: post.highlighted,
        chezmoi_file_diff: post.chezmoi_file_diff,
        ..pre
    })
}

/// One step down the list: wraparound move, diff pane emptied, and a fetch
/// of the newly highlighted file's diff requested; a no-op on an empty
/// list.
pub open spec fn nav_next_rel(pre: App, post: App, eff: Effect) -> bool {
    if pre.files@.len() == 0 {
        post == pre && eff is Idle
    } else {
        &&& post.highlighted as int == next_index(pre.highlighted as int, pre.files@.len() as int)
        &&& nav_frame(pre, post)
        &&& (eff matches Effect::FetchDiff(p) && p@ == pre.files@[post.highlighted as int]@.path)
    }
}

/// One step up the list, the mirror image of [`nav_next_rel`].
pub open spec fn nav_prev_rel(pre: App, post: App, eff: Effect) -> bool {
    if pre.files@.len() == 0 {
        post == pre && eff is Idle
    } else {
        &&& post.highlighted as int == prev_index(pre.highlighted as int, pre.files@.len() as int)
        &&& nav_frame(pre, post)
        &&& (eff matches Effect::FetchDiff(p) && p@ == pre.files@[post.highlighted as int]@.path)
    }
}

/// The popup opened on the given entries with its cursor at the top;
/// nothing else moved.
pub open spec fn popup_shown_rel(pre: App, post: App, items: Seq<(String, PopupAction)>) -> bool {
    &&& post.show_popup
    &&& post.popup_items@ == items
    &&& post.popup_state == 0
    &&& post == (App {
        show_popup: post.show_popup,
        popup_items: post.popup_items,
        popup_state: post.popup_state,
        ..pre
    })
}

/// The action popup opened: three entries, apply, re-add and cancel, with
/// the cursor at the top; nothing else moved.
pub open spec fn popup_open_rel(pre: App, post: App) -> bool {
    &&& post.popup_items@.len() == 3
    &&& post.popup_items@[0].1 == PopupAction::Apply
    &&& post.popup_items@[1].1 == PopupAction::ReAdd
    &&& post.popup_items@[2].1 == PopupAction::Cancel
    &&& post.popup_items@[0].0@ == "Apply selected files"@
    &&& post.popup_items@[1].0@ == "Re-add selected files"@
    &&& post.popup_items@[2].0@ == "Cancel"@
    &&& popup_shown_rel(pre, post, post.popup_items@)
}

/// The popup closed; nothing else moved.
pub open spec fn popup_close_rel(pre: App, post: App) -> bool {
    post == (App { show_popup: false, ..pre })
}

/// The popup cursor moved one entry down, wrapping by the same rule as the
/// file cursor; nothing else moved.
pub open spec fn popup_next_rel(pre: App, post: App) -> bool {
    &&& post.popup_state as int == next_index(
        pre.popup_state as int,
        pre.popup_items@.len() as int,
    )
    &&& post == (App { popup_state: post.popup_state, ..pre })
}

/// The popup cursor moved one entry up, wrapping by the same rule as the
/// file cursor; nothing else moved.
pub open spec fn popup_prev_rel(pre: App, post: App) -> bool {
    &&& post.popup_state as int == prev_index(
        pre.popup_state as int,
        pre.popup_items@.len() as int,
    )
    &&& post == (App { popup_state: post.popup_state, ..pre })
}

/// Confirming the highlighted popup action: the popup closes, and the
/// matching operation is requested on the queued paths — unless that set is
/// empty, in which case nothing is requested and nothing else changes.
pub open spec fn popup_enter_rel(pre: App, post: App, eff: Effect) -> bool {
    &&& popup_close_rel(pre, post)
    &&& match pre.popup_items@[pre.popup_state as int].1 {
        PopupAction::Cancel => eff is Idle,
        PopupAction::Apply => {
            let paths = selected_source_paths(models(pre.files@));
            if paths.len() == 0 {
                eff is Idle
            } else {
                eff matches Effect::Apply(ps) && string_views(ps@) == paths
            }
        },
        PopupAction::ReAdd => {
            let paths = selected_local_paths(models(pre.files@));
            if paths.len() == 0 {
                eff is Idle
            } else {
                eff matches Effect::ReAdd(ps) && string_views(ps@) == paths
            }
        },
    }
}

/// The edit key: with a highlighted file whose path is non-empty the
/// session ends and the editor is requested on it; otherwise nothing
/// happens.
pub open spec fn edit_rel(pre: App, post: App, eff: Effect) -> bool {
    if pre.files@.len() > 0 && pre.files@[pre.highlighted as int]@.path.len() > 0 {
        &&& quit_rel(pre, post)
        &&& (eff matches Effect::Edit(p) && p@ == pre.files@[pre.highlighted as int]@.path)
    } else {
        post == pre && eff is Idle
    }
}

/// Nothing happened.
pub open spec fn idle_rel(pre: App, post: App, eff: Effect) -> bool {
    post == pre && eff is Idle
}

/// The whole keyboard surface: what one input event does to the session,
/// depending on whether the popup is open.
pub open spec fn dispatch_spec(pre: App, post: App, key: Key, eff: Effect) -> bool {
    if pre.show_popup {
        match key {
            Key::Esc => popup_close_rel(pre, post) && eff is Idle,
            Key::Enter => popup_enter_rel(pre, post, eff),
            Key::Up => popup_prev_rel(pre, post) && eff is Idle,
            Key::Down => popup_next_rel(pre, post) && eff is Idle,
            Key::Char(c) => if c == 'k' {
                popup_prev_rel(pre, post) && eff is Idle
            } else if c == 'j' {
                popup_next_rel(pre, post) && eff is Idle
            } else {
                idle_rel(pre, post, eff)
            },
            _ => idle_rel(pre, post, eff),
        }
    } else {
        match key {
            Key::Esc => quit_rel(pre, post) && eff is Idle,
            Key::Ctrl(c) => if c == 'c' || c == 'C' {
                quit_rel(pre, post) && eff is Idle
            } else {
                idle_rel(pre, post, eff)
            },
            Key::Char(c) => if c == 'q' {
                quit_rel(pre, post) && eff is Idle
            } else if c == ' ' {
                toggle_rel(pre, post) && eff is Idle
            } else if c == 'S' {
                quit_rel(pre, post) && eff is OpenSource
            } else if c == 'A' {
                popup_open_rel(pre, post) && eff is Idle
            } else if c == 'e' {
                edit_rel(pre, post, eff)
            } else if c == 'k' {
                nav_prev_rel(pre, post, eff)
            } else if c == 'j' {
                nav_next_rel(pre, post, eff)
            } else {
                idle_rel(pre, post, eff)
            },
            Key::Up => nav_prev_rel(pre, post, eff),
            Key::Down => nav_next_rel(pre, post, eff),
            _ => idle_rel(pre, post, eff),
        }
    }
}

/// The list was replaced by the re-fetched entries with every selection
/// reset, the cursor was clamped into the new list, the diff pane emptied
/// and the stored error cleared; the popup fields and the running flag kept
/// their values.
pub open spec fn refresh_rel(pre: App, post: App, fetched: Seq<FileItem>) -> bool {
    &&& post.files@.len() == fetched.len()
    &&& forall|i: int|
        0 <= i < fetched.len() ==> #[trigger] post.files@[i]@ == (FileModel {
            selected: Selection::Unselected,
            ..fetched[i]@
        })
    &&& post.highlighted as int == clamped(pre.highlighted as int, fetched.len() as int)
    &&& post.chezmoi_file_diff@ == Seq::<char>::empty()
    &&& post.error_message is None
    &&& post.running == pre.running
    &&& post.show_popup == pre.show_popup
    &&& post.popup_items == pre.popup_items
    &&& post.popup_state == pre.popup_state
}

impl App {
    /// A fresh session over an already fetched file list: cursor on the
    /// first entry, no diff yet, no error, popup closed.
    pub fn new(files: Vec<FileItem>) -> (app: App)
        requires
            forall|i: int| 0 <= i < files@.len() ==> file_ok(#[trigger] files@[i]@),
        ensures
            app.inv(),
            app.files == files,
            app.running,
            app.highlighted == 0,
            app.chezmoi_file_diff@ == Seq::<char>::empty(),
            app.error_message is None,
            !app.show_popup,
    {
        App {
            running: true,
            files,
            chezmoi_file_diff: String::new(),
            highlighted: 0,
            error_message: None,
            show_popup: false,
            popup_items: Vec::new(),
            popup_state: 0,
        }
    }

    /// The path of the highlighted file, or the empty string on an empty
    /// list.
    pub fn get_highlighted_file(&self) -> (path: String)
        requires
            self.inv(),
        ensures
            self.files@.len() > 0 ==> path@ == self.files@[self.highlighted as int]@.path,
            self.files@.len() == 0 ==> path@ == Seq::<char>::empty(),
    {
        if self.files.len() > 0 {
            self.files[self.highlighted].path.clone()
        } else {
            String::new()
        }
    }

    /// The paths queued for re-add: the files selected on the local axis
    /// whose local status is actionable.
    pub fn get_selected_local_files(&self) -> (paths: Vec<String>)
        ensures
            string_views(paths@) == selected_local_paths(models(self.files@)),
    {
        let mut paths: Vec<String> = Vec::new();
        let mut i: usize = 0;
        proof {
            assert(models(self.files@).subrange(0, 0) =~= Seq::<FileModel>::empty());
            assert(string_views(paths@) =~= selected_local_paths(
                models(self.files@).subrange(0, 0),
            ));
        }
        while i < self.files.len()
            invariant
                i <= self.files@.len(),
                string_views(paths@) == selected_local_paths(
                    models(self.files@).subrange(0, i as int),
                ),
            decreases self.files@.len() - i,
        {
            let ghost m = models(self.files@);
            proof {
                assert(m.subrange(0, i + 1).drop_last() =~= m.subrange(0, i as int));
                assert(m.subrange(0, i + 1).last() == m[i as int]);
                assert(m[i as int] == self.files@[i as int]@);
            }
            let f = &self.files[i];
            if f.selected == Selection::Local && is_actionable(f.local_status) {
                let p = f.path.clone();
                proof {
                    crate::status::lemma_string_views_push(paths@, p);
                }
                paths.push(p);
            }
            i += 1;
        }
        proof {
            assert(models(self.files@).subrange(0, self.files@.len() as int) =~= models(
                self.files@,
            ));
        }
        paths
    }

    /// The paths queued for apply: the files selected on the source axis
    /// whose source status is actionable.
    pub fn get_selected_source_files(&self) -> (paths: Vec<String>)
        ensures
            string_views(paths@) == selected_source_paths(models(self.files@)),
    {
        let mut paths: Vec<String> = Vec::new();
        let mut i: usize = 0;
        proof {
            assert(models(self.files@).subrange(0, 0) =~= Seq::<FileModel>::empty());
            assert(string_views(paths@) =~= selected_source_paths(
                models(self.files@).subrange(0, 0),
            ));
        }
        while i < self.files.len()
            invariant
                i <= self.files@.len(),
                string_views(paths@) == selected_source_paths(
                    models(self.files@).subrange(0, i as int),
                ),
            decreases self.files@.len() - i,
        {
            let ghost m = models(self.files@);
            proof {
                assert(m.subrange(0, i + 1).drop_last() =~= m.subrange(0, i as int));
                assert(m.subrange(0, i + 1).last() == m[i as int]);
                assert(m[i as int] == self.files@[i as int]@);
            }
            let f = &self.files[i];
            if f.selected == Selection::Source && is_actionable(f.source_status) {
                let p = f.path.clone();
                proof {
                    crate::status::lemma_string_views_push(paths@, p);
                }
                paths.push(p);
            }
            i += 1;
        }
        proof {
            assert(models(self.files@).subrange(0, self.files@.len() as int) =~= models(
                self.files@,
            ));
        }
        paths
    }

    /// Advances the highlighted entry's selection marker by one press of
    /// the toggle key; a no-op on an empty list.
    pub fn toggle_selected_file(&mut self)
        requires
            old(self).inv(),
        ensures
            final(self).inv(),
            toggle_rel(*old(self), *final(self)),
    {
        if self.files.len() > 0 {
            let i = self.highlighted;
            let local_changed = self.files[i].local_status != FileStatus::Unchanged;
            let source_changed = self.files[i].source_status != FileStatus::Unchanged;
            let next = cycle_selection(self.files[i].selected, local_changed, source_changed);
            let f = &mut self.files[i];
            f.selected = next;
        }
    }

    /// Moves the cursor one entry down with wraparound and empties the diff
    /// pane; a no-op on an empty list.
    pub fn next_item(&mut self)
        requires
            old(self).inv(),
        ensures
            final(self).inv(),
            old(self).files@.len() == 0 ==> *final(self) == *old(self),
            old(self).files@.len() > 0 ==> final(self).highlighted as int == next_index(
                old(self).highlighted as int,
                old(self).files@.len() as int,
            ) && nav_frame(*old(self), *final(self)),
    {
        if self.files.len() > 0 {
            let len = self.files.len();
            let i: usize = if self.highlighted >= len - 1 {
                0
            } else {
                self.highlighted + 1
            };
            self.highlighted = i;
            self.chezmoi_file_diff = String::new();
        }
    }

    /// Moves the cursor one entry up with wraparound and empties the diff
    /// pane; a no-op on an empty list.
    pub fn previous_item(&mut self)
        requires
            old(self).inv(),
        ensures
            final(self).inv(),
            old(self).files@.len() == 0 ==> *final(self) == *old(self),
            old(self).files@.len() > 0 ==> final(self).highlighted as int == prev_index(
                old(self).highlighted as int,
                old(self).files@.len() as int,
            ) && nav_frame(*old(self), *final(self)),
    {
        if self.files.len() > 0 {
            let len = self.files.len();
            let i: usize = if self.highlighted == 0 {
                len - 1
            } else {
                self.highlighted - 1
            };
            self.highlighted = i;
            self.chezmoi_file_diff = String::new();
        }
    }

    /// Stores the diff text for the highlighted file.
    pub fn set_diff(&mut self, text: String)
        ensures
            *final(self) == (App { chezmoi_file_diff: text, ..*old(self) }),
    {
        self.chezmoi_file_diff = text;
    }

    /// Opens the popup on the given entries, its cursor on the first.
    pub fn show_popup(&mut self, items: Vec<(String, PopupAction)>)
        requires
            old(self).inv(),
            items@.len() > 0,
        ensures
            final(self).inv(),
            popup_shown_rel(*old(self), *final(self), items@),
    {
        self.show_popup = true;
        self.popup_items = items;
        self.popup_state = 0;
    }

    /// Opens the action popup: apply, re-add, cancel.
    pub fn show_action_popup(&mut self)
        requires
            old(self).inv(),
        ensures
            final(self).inv(),
            popup_open_rel(*old(self), *final(self)),
    {
        let mut items: Vec<(String, PopupAction)> = Vec::new();
        items.push((String::from_str("Apply selected files"), PopupAction::Apply));
        items.push((String::from_str("Re-add selected files"), PopupAction::ReAdd));
        items.push((String::from_str("Cancel"), PopupAction::Cancel));
        self.show_popup(items);
    }

    fn popup_next(&mut self)
        requires
            old(self).inv(),
            old(self).show_popup,
        ensures
            final(self).inv(),
            popup_next_rel(*old(self), *final(self)),
    {
        let len = self.popup_items.len();
        let i: usize = if self.popup_state >= len - 1 {
            0
        } else {
            self.popup_state + 1
        };
        self.popup_state = i;
    }

    fn popup_previous(&mut self)
        requires
            old(self).inv(),
            old(self).show_popup,
        ensures
            final(self).inv(),
            popup_prev_rel(*old(self), *final(self)),
    {
        let len = self.popup_items.len();
        let i: usize = if self.popup_state == 0 {
            len - 1
        } else {
            self.popup_state - 1
        };
        self.popup_state = i;
    }

    fn quit(&mut self)
        ensures
            *final(self) == (App { running: false, ..*old(self) }),
    {
        self.running = false;
    }

    fn edit_highlighted(&mut self) -> (eff: Effect)
        requires
            old(self).inv(),
        ensures
            final(self).inv(),
            edit_rel(*old(self), *final(self), eff),
    {
        let path = self.get_highlighted_file();
        if path.as_str().unicode_len() > 0 {
            self.quit();
            Effect::Edit(path)
        } else {
            Effect::Idle
        }
    }

    fn confirm_popup(&mut self) -> (eff: Effect)
        requires
            old(self).inv(),
            old(self).show_popup,
        ensures
            final(self).inv(),
            popup_enter_rel(*old(self), *final(self), eff),
    {
        let action = self.popup_items[self.popup_state].1;
        self.show_popup = false;
        match action {
            PopupAction::Apply => {
                let paths = self.get_selected_source_files();
                if paths.len() > 0 {
                    Effect::Apply(paths)
                } else {
                    Effect::Idle
                }
            },
            PopupAction::ReAdd => {
                let paths = self.get_selected_local_files();
                if paths.len() > 0 {
                    Effect::ReAdd(paths)
                } else {
                    Effect::Idle
                }
            },
            PopupAction::Cancel => Effect::Idle,
        }
    }

    /// Handles one input event: mutates the session and returns the work
    /// the caller owes the external tool.
    pub fn on_key(&mut self, key: Key) -> (eff: Effect)
        requires
            old(self).inv(),
        ensures
            final(self).inv(),
            dispatch_spec(*old(self), *final(self), key, eff),
    {
        if self.show_popup {
            match key {
                Key::Esc => {
                    self.show_popup = false;
                    Effect::Idle
                },
                Key::Enter => self.confirm_popup(),
                Key::Up => {
                    self.popup_previous();
                    Effect::Idle
                },
                Key::Down => {
                    self.popup_next();
                    Effect::Idle
                },
                Key::Char(c) => {
                    if c == 'k' {
                        self.popup_previous();
                        Effect::Idle
                    } else if c == 'j' {
                        self.popup_next();
                        Effect::Idle
                    } else {
                        Effect::Idle
                    }
                },
                _ => Effect::Idle,
            }
        } else {
            match key {
                Key::Esc => {
                    self.quit();
                    Effect::Idle
                },
                Key::Ctrl(c) => {
                    if c == 'c' || c == 'C' {
                        self.quit();
                    }
                    Effect::Idle
                },
                Key::Char(c) => {
                    if c == 'q' {
                        self.quit();
                        Effect::Idle
                    } else if c == ' ' {
                        self.toggle_selected_file();
                        Effect::Idle
                    } else if c == 'S' {
                        self.quit();
                        Effect::OpenSource
                    } else if c == 'A' {
                        self.show_action_popup();
                        Effect::Idle
                    } else if c == 'e' {
                        self.edit_highlighted()
                    } else if c == 'k' {
                        self.nav_previous()
                    } else if c == 'j' {
                        self.nav_next()
                    } else {
                        Effect::Idle
                    }
                },
                Key::Up => self.nav_previous(),
                Key::Down => self.nav_next(),
                _ => Effect::Idle,
            }
        }
    }

    fn nav_next(&mut self) -> (eff: Effect)
        requires
            old(self).inv(),
        ensures
            final(self).inv(),
            nav_next_rel(*old(self), *final(self), eff),
    {
        if self.files.len() > 0 {
            self.next_item();
            Effect::FetchDiff(self.get_highlighted_file())
        } else {
            Effect::Idle
        }
    }

    fn nav_previous(&mut self) -> (eff: Effect)
        requires
            old(self).inv(),
        ensures
            final(self).inv(),
            nav_prev_rel(*old(self), *final(self), eff),
    {
        if self.files.len() > 0 {
            self.previous_item();
            Effect::FetchDiff(self.get_highlighted_file())
        } else {
            Effect::Idle
        }
    }

    /// After a successful apply or re-add: the list is replaced by the
    /// re-fetched entries with every selection reset, the cursor is clamped
    /// into the new list, the diff pane is emptied and the stored error is
    /// cleared.
    pub fn finish_mutation_success(&mut self, new_files: Vec<FileItem>)
        requires
            old(self).inv(),
        ensures
            final(self).inv(),
            refresh_rel(*old(self), *final(self), new_files@),
    {
        let ghost fetched = new_files@;
        let mut fs = new_files;
        let mut i: usize = 0;
        while i < fs.len()
            invariant
                i <= fs@.len(),
                fs@.len() == fetched.len(),
                forall|j: int|
                    0 <= j < i ==> #[trigger] fs@[j]@ == (FileModel {
                        selected: Selection::Unselected,
                        ..fetched[j]@
                    }),
                forall|j: int| i <= j < fetched.len() ==> #[trigger] fs@[j] == fetched[j],
            decreases fs@.len() - i,
        {
            let f = &mut fs[i];
            f.selected = Selection::Unselected;
            i += 1;
        }
        self.files = fs;
        if self.files.len() == 0 {
            self.highlighted = 0;
        } else if self.highlighted >= self.files.len() {
            self.highlighted = self.files.len() - 1;
        }
        self.chezmoi_file_diff = String::new();
        self.error_message = None;
    }

    /// After a failing apply or re-add: the tool's error text is stored and
    /// nothing else changes — not the list, not the selections, not the
    /// cursor.
    pub fn finish_mutation_failure(&mut self, message: String)
        ensures
            *final(self) == (App { error_message: Some(message), ..*old(self) }),
    {
        self.error_message = Some(message);
    }
}

/// Moving the cursor down and then up — or up and then down — returns it to
/// where it was, on any non-empty list.
pub proof fn lemma_move_round_trip(i: int, len: int)
    requires
        len > 0,
        0 <= i < len,
    ensures
        prev_index(next_index(i, len), len) == i,
        next_index(prev_index(i, len), len) == i,
{
}

/// The cursor wraps: moving down from the last entry lands on the first,
/// moving up from the first lands on the last.
pub proof fn lemma_move_wraps(len: int)
    requires
        len > 0,
    ensures
        next_index(len - 1, len) == 0,
        prev_index(0, len) == len - 1,
{
}

/// On a non-empty list, one step down followed by one step up — or one step
/// up followed by one step down — returns the cursor to where it was and
/// leaves the file list as it was.
pub proof fn lemma_nav_round_trip(s0: App, s1: App, s2: App, e1: Effect, e2: Effect)
    requires
        s0.inv(),
        !s0.show_popup,
        s0.files@.len() > 0,
        dispatch_spec(s0, s1, Key::Down, e1) || dispatch_spec(s0, s1, Key::Up, e1),
        dispatch_spec(s0, s1, Key::Down, e1) ==> dispatch_spec(s1, s2, Key::Up, e2),
        dispatch_spec(s0, s1, Key::Up, e1) ==> dispatch_spec(s1, s2, Key::Down, e2),
    ensures
        s2.highlighted == s0.highlighted,
        s2.files == s0.files,
{
    lemma_move_round_trip(s0.highlighted as int, s0.files@.len() as int);
}

/// While the popup is open, its cursor moves by the very index functions
/// the file cursor moves by; over the three actions it wraps from the last
/// back to the first and from the first back to the last.
pub proof fn lemma_popup_cursor_wraps(pre: App, post: App, eff: Effect, key: Key)
    requires
        pre.inv(),
        pre.show_popup,
        pre.popup_items@.len() == 3,
        key == Key::Down || key == Key::Up,
        dispatch_spec(pre, post, key, eff),
    ensures
        key == Key::Down ==> post.popup_state as int == next_index(pre.popup_state as int, 3),
        key == Key::Up ==> post.popup_state as int == prev_index(pre.popup_state as int, 3),
        key == Key::Down && pre.popup_state == 2 ==> post.popup_state == 0,
        key == Key::Up && pre.popup_state == 0 ==> post.popup_state == 2,
{
}

/// The toggle cycle never selects an axis whose status is unchanged; on a
/// file changed on both axes it cycles unselected, local, source,
/// unselected.
pub proof fn lemma_toggle_skips_unchanged(cur: Selection, local_changed: bool, source_changed: bool)
    ensures
        !local_changed ==> next_selection(cur, local_changed, source_changed) != Selection::Local,
        !source_changed ==> next_selection(cur, local_changed, source_changed) != Selection::Source,
        next_selection(Selection::Unselected, true, true) == Selection::Local,
        next_selection(Selection::Local, true, true) == Selection::Source,
        next_selection(Selection::Source, true, true) == Selection::Unselected,
{
}

/// Some file in the list carries this path, is selected on the source axis,
/// and its source status is neither unchanged nor renamed.
pub open spec fn path_of_source_selected(files: Seq<FileModel>, path: Seq<char>) -> bool {
    exists|i: int|
        0 <= i < files.len() && #[trigger] files[i].path == path && files[i].selected
            == Selection::Source && files[i].source_status != FileStatus::Unchanged
            && files[i].source_status != FileStatus::Renamed
}

/// Some file in the list carries this path, is selected on the local axis,
/// and its local status is neither unchanged nor renamed.
pub open spec fn path_of_local_selected(files: Seq<FileModel>, path: Seq<char>) -> bool {
    exists|i: int|
        0 <= i < files.len() && #[trigger] files[i].path == path && files[i].selected
            == Selection::Local && files[i].local_status != FileStatus::Unchanged
            && files[i].local_status != FileStatus::Renamed
}

/// Every path queued for apply belongs to a file selected on the source
/// axis whose source status is neither unchanged nor renamed.
pub proof fn lemma_selected_source_actionable(files: Seq<FileModel>)
    ensures
        forall|j: int|
            0 <= j < selected_source_paths(files).len() ==> path_of_source_selected(
                files,
                #[trigger] selected_source_paths(files)[j],
            ),
    decreases files.len(),
{
    if files.len() > 0 {
        lemma_selected_source_actionable(files.drop_last());
        let p = selected_source_paths(files.drop_last());
        assert forall|j: int|
            0 <= j < selected_source_paths(files).len() implies path_of_source_selected(
            files,
            selected_source_paths(files)[j],
        ) by {
            if j < p.len() {
                assert(path_of_source_selected(files.drop_last(), p[j]));
                let i = choose|i: int|
                    0 <= i < files.drop_last().len() && #[trigger] files.drop_last()[i].path
                        == p[j] && files.drop_last()[i].selected == Selection::Source
                        && files.drop_last()[i].source_status != FileStatus::Unchanged
                        && files.drop_last()[i].source_status != FileStatus::Renamed;
                assert(files[i] == files.drop_last()[i]);
            } else {
                assert(source_selected(files.last()));
                assert(files[files.len() - 1].path == selected_source_paths(files)[j]);
            }
        }
    }
}

/// Every path queued for re-add belongs to a file selected on the local
/// axis whose local status is neither unchanged nor renamed.
pub proof fn lemma_selected_local_actionable(files: Seq<FileModel>)
    ensures
        forall|j: int|
            0 <= j < selected_local_paths(files).len() ==> path_of_local_selected(
                files,
                #[trigger] selected_local_paths(files)[j],
            ),
    decreases files.len(),
{
    if files.len() > 0 {
        lemma_selected_local_actionable(files.drop_last());
        let p = selected_local_paths(files.drop_last());
        assert forall|j: int|
            0 <= j < selected_local_paths(files).len() implies path_of_local_selected(
            files,
            selected_local_paths(files)[j],
        ) by {
            if j < p.len() {
                assert(path_of_local_selected(files.drop_last(), p[j]));
                let i = choose|i: int|
                    0 <= i < files.drop_last().len() && #[trigger] files.drop_last()[i].path
                        == p[j] && files.drop_last()[i].selected == Selection::Local
                        && files.drop_last()[i].local_status != FileStatus::Unchanged
                        && files.drop_last()[i].local_status != FileStatus::Renamed;
                assert(files[i] == files.drop_last()[i]);
            } else {
                assert(local_selected(files.last()));
                assert(files[files.len() - 1].path == selected_local_paths(files)[j]);
            }
        }
    }
}

/// Confirming a popup action with nothing queued on either axis issues no
/// gateway request and leaves the whole model — list, selections, cursor,
/// diff, error — untouched; only the popup closes.
pub proof fn lemma_empty_selection_no_gateway(pre: App, post: App, eff: Effect)
    requires
        pre.inv(),
        pre.show_popup,
        dispatch_spec(pre, post, Key::Enter, eff),
        selected_source_paths(models(pre.files@)).len() == 0,
        selected_local_paths(models(pre.files@)).len() == 0,
    ensures
        eff is Idle,
        post.files == pre.files,
        post.highlighted == pre.highlighted,
        post.error_message == pre.error_message,
        post.chezmoi_file_diff == pre.chezmoi_file_diff,
        post.running == pre.running,
{
}

/// Opening the popup and closing it again with escape leaves the file
/// list, the selections, the cursor, the diff and the error exactly as
/// they were, and input handling is back to normal.
pub proof fn lemma_popup_esc_preserves_model(
    s0: App,
    s1: App,
    s2: App,
    e1: Effect,
    e2: Effect,
)
    requires
        s0.inv(),
        !s0.show_popup,
        dispatch_spec(s0, s1, Key::Char('A'), e1),
        dispatch_spec(s1, s2, Key::Esc, e2),
    ensures
        !s2.show_popup,
        s2.files == s0.files,
        s2.highlighted == s0.highlighted,
        s2.chezmoi_file_diff == s0.chezmoi_file_diff,
        s2.error_message == s0.error_message,
        s2.running == s0.running,
{
}

} // verus!
