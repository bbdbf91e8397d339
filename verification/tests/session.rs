use chezmoi_tui::app::{App, Effect, Key, PopupAction};
use chezmoi_tui::status::{parse_status_output, FileItem, FileStatus, Selection};

fn item(path: &str, local: FileStatus, source: FileStatus, selected: Selection) -> FileItem {
    FileItem {
        path: path.to_string(),
        selected,
        local_status: local,
        source_status: source,
    }
}

fn three_files() -> Vec<FileItem> {
    vec![
        item("a", FileStatus::Modified, FileStatus::Unchanged, Selection::Unselected),
        item("b", FileStatus::Unchanged, FileStatus::Added, Selection::Unselected),
        item("c", FileStatus::Modified, FileStatus::Modified, Selection::Unselected),
    ]
}

#[test]
fn new_session_starts_at_top() {
    let app = App::new(three_files());
    assert!(app.running);
    assert_eq!(app.highlighted, 0);
    assert_eq!(app.chezmoi_file_diff, "");
    assert_eq!(app.error_message, None);
    assert!(!app.show_popup);
    assert_eq!(app.get_highlighted_file(), "a");
}

#[test]
fn cursor_round_trip() {
    let mut app = App::new(three_files());
    app.on_key(Key::Down);
    assert_eq!(app.highlighted, 1);
    app.on_key(Key::Up);
    assert_eq!(app.highlighted, 0);
    app.on_key(Key::Up);
    app.on_key(Key::Down);
    assert_eq!(app.highlighted, 0);
}

#[test]
fn cursor_wraps_at_both_ends() {
    let mut app = App::new(three_files());
    let eff = app.on_key(Key::Up);
    assert_eq!(app.highlighted, 2);
    assert_eq!(eff, Effect::FetchDiff("c".to_string()));
    let eff = app.on_key(Key::Down);
    assert_eq!(app.highlighted, 0);
    assert_eq!(eff, Effect::FetchDiff("a".to_string()));
}

#[test]
fn vi_keys_navigate() {
    let mut app = App::new(three_files());
    app.on_key(Key::Char('j'));
    assert_eq!(app.highlighted, 1);
    app.on_key(Key::Char('k'));
    assert_eq!(app.highlighted, 0);
}

#[test]
fn navigation_clears_diff_and_requests_fetch() {
    let mut app = App::new(three_files());
    app.set_diff("old diff".to_string());
    let eff = app.on_key(Key::Down);
    assert_eq!(app.chezmoi_file_diff, "");
    assert_eq!(eff, Effect::FetchDiff("b".to_string()));
}

#[test]
fn navigation_on_empty_list_is_a_no_op() {
    let mut app = App::new(Vec::new());
    let eff = app.on_key(Key::Down);
    assert_eq!(eff, Effect::Idle);
    assert_eq!(app.highlighted, 0);
    let eff = app.on_key(Key::Up);
    assert_eq!(eff, Effect::Idle);
    assert_eq!(app.highlighted, 0);
    assert_eq!(app.get_highlighted_file(), "");
}

#[test]
fn toggle_cycles_over_both_changed_axes() {
    let mut app = App::new(three_files());
    app.on_key(Key::Down);
    app.on_key(Key::Down);
    // "c" is changed on both axes
    app.on_key(Key::Char(' '));
    assert_eq!(app.files[2].selected, Selection::Local);
    app.on_key(Key::Char(' '));
    assert_eq!(app.files[2].selected, Selection::Source);
    app.on_key(Key::Char(' '));
    assert_eq!(app.files[2].selected, Selection::Unselected);
}

#[test]
fn toggle_skips_unchanged_axis() {
    let mut app = App::new(three_files());
    // "a" is changed only locally
    app.on_key(Key::Char(' '));
    assert_eq!(app.files[0].selected, Selection::Local);
    app.on_key(Key::Char(' '));
    assert_eq!(app.files[0].selected, Selection::Unselected);
    // "b" is changed only on the source axis
    app.on_key(Key::Down);
    app.on_key(Key::Char(' '));
    assert_eq!(app.files[1].selected, Selection::Source);
    app.on_key(Key::Char(' '));
    assert_eq!(app.files[1].selected, Selection::Unselected);
}

#[test]
fn toggle_leaves_fully_unchanged_file_unselected() {
    let files = vec![item(
        "x",
        FileStatus::Unchanged,
        FileStatus::Unchanged,
        Selection::Unselected,
    )];
    let mut app = App::new(files);
    app.on_key(Key::Char(' '));
    assert_eq!(app.files[0].selected, Selection::Unselected);
}

#[test]
fn toggle_on_empty_list_is_a_no_op() {
    let mut app = App::new(Vec::new());
    let eff = app.on_key(Key::Char(' '));
    assert_eq!(eff, Effect::Idle);
}

#[test]
fn selected_files_filter_by_axis_and_status() {
    let files = vec![
        item("a", FileStatus::Modified, FileStatus::Added, Selection::Source),
        item("b", FileStatus::Deleted, FileStatus::Modified, Selection::Local),
        item("c", FileStatus::Modified, FileStatus::Modified, Selection::Unselected),
        item("d", FileStatus::Untracked, FileStatus::Untracked, Selection::Source),
    ];
    let app = App::new(files);
    assert_eq!(app.get_selected_source_files(), vec!["a".to_string(), "d".to_string()]);
    assert_eq!(app.get_selected_local_files(), vec!["b".to_string()]);
}

#[test]
fn selected_files_exclude_renamed_and_unchanged() {
    // a renamed source axis is selectable but never actionable, and a
    // defensively constructed unchanged-but-selected entry is filtered out
    let files = vec![
        item("r", FileStatus::Modified, FileStatus::Renamed, Selection::Source),
        item("u", FileStatus::Unchanged, FileStatus::Unchanged, Selection::Source),
        item("ok", FileStatus::Modified, FileStatus::Modified, Selection::Source),
    ];
    let app = App {
        running: true,
        files,
        chezmoi_file_diff: String::new(),
        highlighted: 0,
        error_message: None,
        show_popup: false,
        popup_items: Vec::new(),
        popup_state: 0,
    };
    assert_eq!(app.get_selected_source_files(), vec!["ok".to_string()]);
    assert_eq!(app.get_selected_local_files(), Vec::<String>::new());
}

#[test]
fn action_key_opens_popup() {
    let mut app = App::new(three_files());
    let eff = app.on_key(Key::Char('A'));
    assert_eq!(eff, Effect::Idle);
    assert!(app.show_popup);
    assert_eq!(app.popup_state, 0);
    assert_eq!(app.popup_items.len(), 3);
    assert_eq!(app.popup_items[0].0, "Apply selected files");
    assert_eq!(app.popup_items[0].1, PopupAction::Apply);
    assert_eq!(app.popup_items[1].0, "Re-add selected files");
    assert_eq!(app.popup_items[1].1, PopupAction::ReAdd);
    assert_eq!(app.popup_items[2].0, "Cancel");
    assert_eq!(app.popup_items[2].1, PopupAction::Cancel);
}

#[test]
fn popup_cursor_wraps_like_the_list() {
    let mut app = App::new(three_files());
    app.on_key(Key::Char('A'));
    let eff = app.on_key(Key::Up);
    assert_eq!(eff, Effect::Idle);
    assert_eq!(app.popup_state, 2);
    app.on_key(Key::Down);
    assert_eq!(app.popup_state, 0);
    app.on_key(Key::Char('j'));
    assert_eq!(app.popup_state, 1);
    app.on_key(Key::Char('k'));
    assert_eq!(app.popup_state, 0);
}

#[test]
fn popup_intercepts_other_keys() {
    let mut app = App::new(three_files());
    app.on_key(Key::Char('A'));
    // keys that would quit or navigate in normal mode are ignored
    let eff = app.on_key(Key::Char('q'));
    assert_eq!(eff, Effect::Idle);
    assert!(app.running);
    assert_eq!(app.highlighted, 0);
    let eff = app.on_key(Key::Char(' '));
    assert_eq!(eff, Effect::Idle);
    assert_eq!(app.files[0].selected, Selection::Unselected);
    assert!(app.show_popup);
}

#[test]
fn popup_esc_leaves_model_untouched() {
    let mut app = App::new(three_files());
    app.on_key(Key::Char(' '));
    app.on_key(Key::Down);
    app.set_diff("diff of b".to_string());
    let before_selected: Vec<Selection> = app.files.iter().map(|f| f.selected).collect();
    app.on_key(Key::Char('A'));
    let eff = app.on_key(Key::Esc);
    assert_eq!(eff, Effect::Idle);
    assert!(!app.show_popup);
    assert_eq!(app.highlighted, 1);
    assert_eq!(app.chezmoi_file_diff, "diff of b");
    assert_eq!(app.error_message, None);
    let after_selected: Vec<Selection> = app.files.iter().map(|f| f.selected).collect();
    assert_eq!(before_selected, after_selected);
    // input handling is back to normal: down moves the main cursor again
    app.on_key(Key::Down);
    assert_eq!(app.highlighted, 2);
}

#[test]
fn popup_apply_requests_selected_source_paths() {
    let files = vec![
        item("a", FileStatus::Modified, FileStatus::Added, Selection::Source),
        item("b", FileStatus::Modified, FileStatus::Unchanged, Selection::Local),
    ];
    let mut app = App::new(files);
    app.on_key(Key::Char('A'));
    let eff = app.on_key(Key::Enter);
    assert_eq!(eff, Effect::Apply(vec!["a".to_string()]));
    assert!(!app.show_popup);
}

#[test]
fn popup_re_add_requests_selected_local_paths() {
    let files = vec![
        item("a", FileStatus::Modified, FileStatus::Added, Selection::Source),
        item("b", FileStatus::Modified, FileStatus::Unchanged, Selection::Local),
    ];
    let mut app = App::new(files);
    app.on_key(Key::Char('A'));
    app.on_key(Key::Down);
    let eff = app.on_key(Key::Enter);
    assert_eq!(eff, Effect::ReAdd(vec!["b".to_string()]));
    assert!(!app.show_popup);
}

#[test]
fn popup_cancel_does_nothing() {
    let mut app = App::new(three_files());
    app.on_key(Key::Char(' '));
    app.on_key(Key::Char('A'));
    app.on_key(Key::Up);
    let eff = app.on_key(Key::Enter);
    assert_eq!(eff, Effect::Idle);
    assert!(!app.show_popup);
    assert_eq!(app.files[0].selected, Selection::Local);
}

#[test]
fn empty_selection_never_reaches_the_gateway() {
    let mut app = App::new(three_files());
    app.set_diff("d".to_string());
    app.on_key(Key::Char('A'));
    let eff = app.on_key(Key::Enter);
    assert_eq!(eff, Effect::Idle);
    assert!(!app.show_popup);
    assert_eq!(app.highlighted, 0);
    assert_eq!(app.chezmoi_file_diff, "d");
    assert_eq!(app.error_message, None);
    assert!(app.files.iter().all(|f| f.selected == Selection::Unselected));
}

#[test]
fn selection_on_renamed_axis_never_reaches_the_gateway() {
    // selectable (the axis is changed) but not actionable, so confirming
    // apply finds an empty path set and requests nothing
    let files = vec![item("r", FileStatus::Modified, FileStatus::Renamed, Selection::Source)];
    let mut app = App::new(files);
    app.on_key(Key::Char('A'));
    let eff = app.on_key(Key::Enter);
    assert_eq!(eff, Effect::Idle);
    assert_eq!(app.files[0].selected, Selection::Source);
    assert_eq!(app.error_message, None);
}

#[test]
fn successful_mutation_resets_and_refreshes() {
    let mut app = App::new(three_files());
    app.on_key(Key::Char(' '));
    app.on_key(Key::Down);
    app.on_key(Key::Down);
    app.finish_mutation_failure("old error".to_string());
    let fetched = parse_status_output("M  only.txt");
    app.finish_mutation_success(fetched);
    assert_eq!(app.files.len(), 1);
    assert_eq!(app.files[0].path, "only.txt");
    assert_eq!(app.files[0].selected, Selection::Unselected);
    assert_eq!(app.error_message, None);
    assert_eq!(app.chezmoi_file_diff, "");
    // the cursor is clamped into the new, shorter list
    assert_eq!(app.highlighted, 0);
    assert!(app.running);
}

#[test]
fn failed_mutation_changes_only_the_error() {
    let mut app = App::new(three_files());
    app.on_key(Key::Char(' '));
    app.on_key(Key::Down);
    app.set_diff("diff of b".to_string());
    app.finish_mutation_failure("chezmoi: apply failed".to_string());
    assert_eq!(app.error_message, Some("chezmoi: apply failed".to_string()));
    assert_eq!(app.files.len(), 3);
    assert_eq!(app.files[0].selected, Selection::Local);
    assert_eq!(app.highlighted, 1);
    assert_eq!(app.chezmoi_file_diff, "diff of b");
    assert!(app.running);
}

#[test]
fn quit_keys_end_the_session() {
    for key in [Key::Esc, Key::Char('q'), Key::Ctrl('c'), Key::Ctrl('C')] {
        let mut app = App::new(three_files());
        let eff = app.on_key(key);
        assert_eq!(eff, Effect::Idle);
        assert!(!app.running);
    }
    // an unbound control chord does nothing
    let mut app = App::new(three_files());
    app.on_key(Key::Ctrl('x'));
    assert!(app.running);
}

#[test]
fn open_source_ends_session_and_requests_editor() {
    let mut app = App::new(three_files());
    let eff = app.on_key(Key::Char('S'));
    assert_eq!(eff, Effect::OpenSource);
    assert!(!app.running);
    // lowercase s is unbound
    let mut app = App::new(three_files());
    let eff = app.on_key(Key::Char('s'));
    assert_eq!(eff, Effect::Idle);
    assert!(app.running);
}

#[test]
fn edit_key_requests_editor_on_highlighted_file() {
    let mut app = App::new(three_files());
    app.on_key(Key::Down);
    let eff = app.on_key(Key::Char('e'));
    assert_eq!(eff, Effect::Edit("b".to_string()));
    assert!(!app.running);
}

#[test]
fn edit_key_on_empty_list_is_a_no_op() {
    let mut app = App::new(Vec::new());
    let eff = app.on_key(Key::Char('e'));
    assert_eq!(eff, Effect::Idle);
    assert!(app.running);
}

#[test]
fn unbound_keys_do_nothing() {
    let mut app = App::new(three_files());
    for key in [Key::Enter, Key::Other, Key::Char('z')] {
        let eff = app.on_key(key);
        assert_eq!(eff, Effect::Idle);
        assert!(app.running);
        assert_eq!(app.highlighted, 0);
    }
}
