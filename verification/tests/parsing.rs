use chezmoi_tui::chezmoi::{clean_diff, home_args, home_path};
use chezmoi_tui::status::{
    extract_filename_and_status, is_actionable, parse_status_output, split_lines, status_from_char,
    trim_blanks, FileStatus, Selection,
};

#[test]
fn status_char_mappings() {
    assert_eq!(status_from_char('M'), FileStatus::Modified);
    assert_eq!(status_from_char('A'), FileStatus::Added);
    assert_eq!(status_from_char('D'), FileStatus::Deleted);
    assert_eq!(status_from_char('?'), FileStatus::Untracked);
    assert_eq!(status_from_char(' '), FileStatus::Unchanged);
    assert_eq!(status_from_char('R'), FileStatus::Unchanged);
    assert_eq!(status_from_char('z'), FileStatus::Unchanged);
}

#[test]
fn actionable_statuses() {
    assert!(is_actionable(FileStatus::Added));
    assert!(is_actionable(FileStatus::Modified));
    assert!(is_actionable(FileStatus::Deleted));
    assert!(is_actionable(FileStatus::Untracked));
    assert!(!is_actionable(FileStatus::Renamed));
    assert!(!is_actionable(FileStatus::Unchanged));
}

#[test]
fn trim_blanks_strips_both_sides() {
    assert_eq!(trim_blanks("  foo bar \t"), "foo bar");
    assert_eq!(trim_blanks("x"), "x");
    assert_eq!(trim_blanks("   "), "");
    assert_eq!(trim_blanks(""), "");
}

#[test]
fn trim_blanks_strips_all_unicode_whitespace() {
    // the same set str::trim strips
    assert_eq!(trim_blanks("\u{000B}\u{000C}x\u{0085}\u{00A0}"), "x");
    assert_eq!(trim_blanks("\u{1680}\u{2000}\u{2005}\u{200A}y\u{2028}\u{2029}"), "y");
    assert_eq!(trim_blanks("\u{202F}\u{205F}\u{3000}z"), "z");
    let noisy = "\u{00A0} a\u{2003}b \u{000C}";
    assert_eq!(trim_blanks(noisy), noisy.trim());
}

#[test]
fn parse_line_trims_unicode_whitespace_around_path() {
    let (path, local, source) = extract_filename_and_status("M \u{000B}foo.txt\u{00A0}");
    assert_eq!(path, "foo.txt");
    assert_eq!(local, FileStatus::Modified);
    assert_eq!(source, FileStatus::Unchanged);
}

#[test]
fn parse_modified_line() {
    let (path, local, source) = extract_filename_and_status("M  foo/bar.txt");
    assert_eq!(path, "foo/bar.txt");
    assert_eq!(local, FileStatus::Modified);
    assert_eq!(source, FileStatus::Unchanged);
}

#[test]
fn parse_untracked_line() {
    let (path, local, source) = extract_filename_and_status("?? newfile");
    assert_eq!(path, "newfile");
    assert_eq!(local, FileStatus::Untracked);
    assert_eq!(source, FileStatus::Untracked);
}

#[test]
fn parse_two_status_line() {
    let (path, local, source) = extract_filename_and_status("MA dotfiles/vimrc");
    assert_eq!(path, "dotfiles/vimrc");
    assert_eq!(local, FileStatus::Modified);
    assert_eq!(source, FileStatus::Added);
}

#[test]
fn parse_path_with_spaces() {
    let (path, local, source) = extract_filename_and_status("A  my docs/a file.txt  ");
    assert_eq!(path, "my docs/a file.txt");
    assert_eq!(local, FileStatus::Added);
    assert_eq!(source, FileStatus::Unchanged);
}

#[test]
fn split_lines_variants() {
    assert_eq!(split_lines(""), Vec::<String>::new());
    assert_eq!(split_lines("a"), vec!["a".to_string()]);
    assert_eq!(split_lines("a\nb"), vec!["a".to_string(), "b".to_string()]);
    assert_eq!(split_lines("a\n"), vec!["a".to_string()]);
    assert_eq!(
        split_lines("a\n\nb\n"),
        vec!["a".to_string(), "".to_string(), "b".to_string()]
    );
    assert_eq!(split_lines("\n"), vec!["".to_string()]);
}

#[test]
fn parse_status_output_whole() {
    let out = "MA dotfiles/vimrc\nM  foo/bar.txt\n?? newfile\n";
    let files = parse_status_output(out);
    assert_eq!(files.len(), 3);
    assert_eq!(files[0].path, "dotfiles/vimrc");
    assert_eq!(files[0].local_status, FileStatus::Modified);
    assert_eq!(files[0].source_status, FileStatus::Added);
    assert_eq!(files[0].selected, Selection::Unselected);
    assert_eq!(files[1].path, "foo/bar.txt");
    assert_eq!(files[1].local_status, FileStatus::Modified);
    assert_eq!(files[1].source_status, FileStatus::Unchanged);
    assert_eq!(files[2].path, "newfile");
    assert_eq!(files[2].local_status, FileStatus::Untracked);
    assert_eq!(files[2].source_status, FileStatus::Untracked);
    assert_eq!(files[2].selected, Selection::Unselected);
}

#[test]
fn parse_status_output_skips_short_lines() {
    let out = "MA a\nX\n\n?? b";
    let files = parse_status_output(out);
    assert_eq!(files.len(), 2);
    assert_eq!(files[0].path, "a");
    assert_eq!(files[1].path, "b");
}

#[test]
fn parse_status_output_empty() {
    assert_eq!(parse_status_output("").len(), 0);
}

#[test]
fn home_path_prefixes() {
    assert_eq!(home_path("foo/bar"), "~/foo/bar");
    assert_eq!(home_path(""), "~/");
}

#[test]
fn home_args_one_argument_per_path() {
    let paths = vec!["a b".to_string(), "c".to_string()];
    let args = home_args(&paths);
    assert_eq!(args, vec!["~/a b".to_string(), "~/c".to_string()]);
}

#[test]
fn clean_diff_strips_ansi_escapes() {
    let raw: Vec<u8> = b"\x1b[32m+added\x1b[0m\n\x1b[31m-removed\x1b[m".to_vec();
    assert_eq!(clean_diff(&raw), "+added\n-removed");
}

#[test]
fn clean_diff_keeps_plain_text() {
    let raw: Vec<u8> = b"@@ -1 +1 @@\n+a\n-b\n context".to_vec();
    assert_eq!(clean_diff(&raw), "@@ -1 +1 @@\n+a\n-b\n context");
}
