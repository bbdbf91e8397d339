//! File statuses, selections, and the status-line parser.
//!
//! The dotfile manager reports one line per changed file: two status
//! characters (the local axis, then the source axis) followed by the path.
//! Every entry starts out unselected; a refresh therefore always yields a
//! list with no selections.

use vstd::prelude::*;
use vstd::string::*;

verus! {

/// Status of one file on one axis, as the dotfile manager reports it.
#[derive(Clone, Copy, Debug, PartialEq, Eq, Structural)]
pub enum FileStatus {
    Modified,
    Added,
    Deleted,
    Untracked,
    Renamed,
    Unchanged,
}

/// Which axis, if any, a file is selected for. A file is selected for at
/// most one axis at a time.
#[derive(Clone, Copy, Debug, PartialEq, Eq, Structural)]
pub enum Selection {
    Unselected,
    Source,
    Local,
}

/// One row of the file list: a path and its status on both axes, plus the
/// selection marker.
#[derive(Debug)]
pub struct FileItem {
    pub path: String,
    pub selected: Selection,
    pub local_status: FileStatus,
    pub source_status: FileStatus,
}

/// Mathematical model of a [`FileItem`]: the same fields with the path as a
/// character sequence.
pub ghost struct FileModel {
    pub path: Seq<char>,
    pub selected: Selection,
    pub local_status: FileStatus,
    pub source_status: FileStatus,
}

impl View for FileItem {
    type V = FileModel;

    open spec fn view(&self) -> FileModel {
        FileModel {
            path: self.path@,
            selected: self.selected,
            local_status: self.local_status,
            source_status: self.source_status,
        }
    }
}

/// The models of a sequence of file items.
pub open spec fn models(files: Seq<FileItem>) -> Seq<FileModel> {
    files.map_values(|f: FileItem| f@)
}

/// The views of a sequence of strings.
pub open spec fn string_views(v: Seq<String>) -> Seq<Seq<char>> {
    v.map_values(|s: String| s@)
}

/// A status for which apply, add and re-add act on the file.
pub open spec fn actionable(s: FileStatus) -> bool {
    ||| s == FileStatus::Added
    ||| s == FileStatus::Modified
    ||| s == FileStatus::Deleted
    ||| s == FileStatus::Untracked
}

/// Decides whether apply, add and re-add act on a file with this status.
pub fn is_actionable(s: FileStatus) -> (r: bool)
    ensures
        r == actionable(s),
{
    s == FileStatus::Added || s == FileStatus::Modified || s == FileStatus::Deleted || s
        == FileStatus::Untracked
}

/// The status a single status character stands for.
pub open spec fn status_of_char(c: char) -> FileStatus {
    if c == 'M' {
        FileStatus::Modified
    } else if c == 'A' {
        FileStatus::Added
    } else if c == 'D' {
        FileStatus::Deleted
    } else if c == '?' {
        FileStatus::Untracked
    } else {
        FileStatus::Unchanged
    }
}

/// Maps one status character to the status it stands for.
pub fn status_from_char(c: char) -> (s: FileStatus)
    ensures
        s == status_of_char(c),
{
    if c == 'M' {
        FileStatus::Modified
    } else if c == 'A' {
        FileStatus::Added
    } else if c == 'D' {
        FileStatus::Deleted
    } else if c == '?' {
        FileStatus::Untracked
    } else {
        FileStatus::Unchanged
    }
}

/// A character the parser strips around the path: the Unicode white-space
/// characters.
pub open spec fn is_blank(c: char) -> bool {
    ||| c == '\u{0009}' || c == '\u{000A}' || c == '\u{000B}' || c == '\u{000C}' || c
        == '\u{000D}'
    ||| c == ' ' || c == '\u{0085}' || c == '\u{00A0}' || c == '\u{1680}'
    ||| ((c as u32) >= 0x2000 && (c as u32) <= 0x200A)
    ||| c == '\u{2028}' || c == '\u{2029}' || c == '\u{202F}' || c == '\u{205F}' || c
        == '\u{3000}'
}

fn is_blank_char(c: char) -> (r: bool)
    ensures
        r == is_blank(c),
{
    c == '\u{0009}' || c == '\u{000A}' || c == '\u{000B}' || c == '\u{000C}' || c == '\u{000D}'
        || c == ' ' || c == '\u{0085}' || c == '\u{00A0}' || c == '\u{1680}' || ((c as u32)
        >= 0x2000 && (c as u32) <= 0x200A) || c == '\u{2028}' || c == '\u{2029}' || c == '\u{202F}'
        || c == '\u{205F}' || c == '\u{3000}'
}

/// The sequence without its leading blanks.
pub open spec fn trim_front(s: Seq<char>) -> Seq<char>
    decreases s.len(),
{
    if s.len() > 0 && is_blank(s[0]) {
        trim_front(s.subrange(1, s.len() as int))
    } else {
        s
    }
}

/// The sequence without its trailing blanks.
pub open spec fn trim_back(s: Seq<char>) -> Seq<char>
    decreases s.len(),
{
    if s.len() > 0 && is_blank(s[s.len() - 1]) {
        trim_back(s.subrange(0, s.len() - 1))
    } else {
        s
    }
}

/// The sequence without its surrounding blanks.
pub open spec fn trimmed(s: Seq<char>) -> Seq<char> {
    trim_back(trim_front(s))
}

fn trim_front_str<'a>(s: &'a str) -> (r: &'a str)
    ensures
        r@ == trim_front(s@),
    decreases s@.len(),
{
    let n = s.unicode_len();
    if n > 0 && is_blank_char(s.get_char(0)) {
        trim_front_str(s.substring_char(1, n))
    } else {
        s
    }
}

fn trim_back_str<'a>(s: &'a str) -> (r: &'a str)
    ensures
        r@ == trim_back(s@),
    decreases s@.len(),
{
    let n = s.unicode_len();
    if n > 0 && is_blank_char(s.get_char(n - 1)) {
        trim_back_str(s.substring_char(0, n - 1))
    } else {
        s
    }
}

/// Removes the blanks around a piece of text.
pub fn trim_blanks(s: &str) -> (r: String)
    ensures
        r@ == trimmed(s@),
{
    trim_back_str(trim_front_str(s)).to_owned()
}

/// The file entry one status line of length at least two stands for: the
/// first two characters give the local and the source status, the rest is
/// the path with surrounding blanks removed. A fresh entry is unselected.
pub open spec fn parse_line(l: Seq<char>) -> FileModel {
    FileModel {
        path: trimmed(l.subrange(2, l.len() as int)),
        selected: Selection::Unselected,
        local_status: status_of_char(l[0]),
        source_status: status_of_char(l[1]),
    }
}

/// Splits one status line into the path and the two axis statuses.
pub fn extract_filename_and_status(line: &str) -> (r: (String, FileStatus, FileStatus))
    requires
        line@.len() >= 2,
    ensures
        r.0@ == parse_line(line@).path,
        r.1 == parse_line(line@).local_status,
        r.2 == parse_line(line@).source_status,
{
    let n = line.unicode_len();
    let local = status_from_char(line.get_char(0));
    let source = status_from_char(line.get_char(1));
    let path = trim_blanks(line.substring_char(2, n));
    (path, local, source)
}

/// The segments of a text between newline characters; a text with `k`
/// newlines has `k + 1` segments.
pub open spec fn segs(s: Seq<char>) -> Seq<Seq<char>>
    decreases s.len(),
{
    if s.len() == 0 {
        seq![Seq::<char>::empty()]
    } else {
        let p = segs(s.drop_last());
        if s.last() == '\n' {
            p.push(Seq::<char>::empty())
        } else {
            p.update(p.len() - 1, p.last().push(s.last()))
        }
    }
}

proof fn lemma_segs_len(s: Seq<char>)
    ensures
        segs(s).len() >= 1,
    decreases s.len(),
{
    if s.len() > 0 {
        lemma_segs_len(s.drop_last());
    }
}

/// The lines of a text: the segments between newlines, except that a
/// trailing newline ends the last line rather than opening an empty one.
pub open spec fn lines_of(s: Seq<char>) -> Seq<Seq<char>> {
    if s.len() == 0 {
        Seq::empty()
    } else if s.last() == '\n' {
        segs(s).drop_last()
    } else {
        segs(s)
    }
}

pub(crate) proof fn lemma_string_views_push(v: Seq<String>, x: String)
    ensures
        string_views(v.push(x)) == string_views(v).push(x@),
{
    assert(string_views(v.push(x)) =~= string_views(v).push(x@));
}

/// Splits a text into its lines.
pub fn split_lines(s: &str) -> (r: Vec<String>)
    ensures
        string_views(r@) == lines_of(s@),
{
    let n = s.unicode_len();
    let mut acc: Vec<String> = Vec::new();
    let mut start: usize = 0;
    let mut i: usize = 0;
    proof {
        assert(s@.subrange(0, 0) =~= Seq::<char>::empty());
        assert(string_views(acc@).push(s@.subrange(0, 0)) =~= segs(s@.subrange(0, 0)));
    }
    while i < n
        invariant
            start <= i <= n,
            n == s@.len(),
            string_views(acc@).push(s@.subrange(start as int, i as int)) == segs(
                s@.subrange(0, i as int),
            ),
        decreases n - i,
    {
        let ghost pre = s@.subrange(0, i as int);
        let ghost cur = s@.subrange(start as int, i as int);
        let c = s.get_char(i);
        proof {
            assert(s@.subrange(0, i + 1).drop_last() =~= pre);
            assert(s@.subrange(0, i + 1).last() == c);
            lemma_segs_len(pre);
        }
        if c == '\n' {
            let piece = s.substring_char(start, i).to_owned();
            proof {
                lemma_string_views_push(acc@, piece);
                assert(s@.subrange(i + 1, i + 1) =~= Seq::<char>::empty());
                assert(segs(s@.subrange(0, i + 1)) == segs(pre).push(Seq::<char>::empty()));
                assert(string_views(acc@.push(piece)).push(Seq::<char>::empty()) == segs(
                    s@.subrange(0, i + 1),
                ));
            }
            acc.push(piece);
            start = i + 1;
        } else {
            proof {
                let p = segs(pre);
                assert(segs(s@.subrange(0, i + 1)) == p.update(p.len() - 1, p.last().push(c)));
                assert(p.last() == cur);
                assert(p.drop_last() == string_views(acc@)) by {
                    assert(p.drop_last() =~= string_views(acc@).push(cur).drop_last());
                }
                assert(cur.push(c) =~= s@.subrange(start as int, i + 1));
                assert(p.update(p.len() - 1, cur.push(c)) =~= string_views(acc@).push(
                    s@.subrange(start as int, i + 1),
                ));
            }
        }
        i += 1;
    }
    proof {
        assert(s@.subrange(0, n as int) =~= s@);
    }
    if n > 0 && start < n {
        let piece = s.substring_char(start, n).to_owned();
        proof {
            lemma_string_views_push(acc@, piece);
            assert(s@.last() != '\n') by {
                if s@.last() == '\n' {
                    // the loop body moved `start` to `i + 1` on that newline
                    assert(segs(s@).last() == s@.subrange(start as int, n as int));
                    assert(s@.subrange(start as int, n as int).len() > 0);
                    assert(segs(s@).last()[s@.subrange(start as int, n as int).len() - 1] == s@[n
                        - 1]);
                }
            }
        }
        acc.push(piece);
        proof {
            assert(string_views(acc@) == segs(s@)) by {
                assert(string_views(acc@) =~= segs(s@));
            }
        }
        acc
    } else {
        proof {
            if n == 0 {
                assert(string_views(acc@).len() == 0);
                assert(string_views(acc@) =~= lines_of(s@));
            } else {
                // start == n, so the last character was a newline
                assert(s@.subrange(start as int, n as int) =~= Seq::<char>::empty());
                assert(s@.last() == '\n') by {
                    if s@.last() != '\n' {
                        assert(segs(s@) == segs(s@.drop_last()).update(
                            segs(s@.drop_last()).len() - 1,
                            segs(s@.drop_last()).last().push(s@.last()),
                        ));
                        lemma_segs_len(s@.drop_last());
                        assert(segs(s@).last() == segs(s@.drop_last()).last().push(s@.last()));
                        assert(segs(s@).last().len() > 0);
                        assert(segs(s@).last() == string_views(acc@).push(
                            Seq::<char>::empty(),
                        ).last());
                    }
                }
                assert(string_views(acc@) =~= segs(s@).drop_last());
            }
        }
        acc
    }
}

/// The file entries a sequence of lines stands for: one entry per line of
/// length at least two, in order; shorter lines carry no status and no path
/// and are passed over.
pub open spec fn parse_lines(ls: Seq<Seq<char>>) -> Seq<FileModel>
    decreases ls.len(),
{
    if ls.len() == 0 {
        Seq::empty()
    } else {
        let p = parse_lines(ls.drop_last());
        if ls.last().len() >= 2 {
            p.push(parse_line(ls.last()))
        } else {
            p
        }
    }
}

/// The file entries the tool's whole status output stands for.
pub open spec fn parse_model(s: Seq<char>) -> Seq<FileModel> {
    parse_lines(lines_of(s))
}

/// Every entry of a freshly parsed list is unselected.
pub proof fn lemma_parse_lines_unselected(ls: Seq<Seq<char>>)
    ensures
        forall|i: int|
            0 <= i < parse_lines(ls).len() ==> #[trigger] parse_lines(ls)[i].selected
                == Selection::Unselected,
    decreases ls.len(),
{
    if ls.len() > 0 {
        lemma_parse_lines_unselected(ls.drop_last());
    }
}

proof fn lemma_models_push(v: Seq<FileItem>, x: FileItem)
    ensures
        models(v.push(x)) == models(v).push(x@),
{
    assert(models(v.push(x)) =~= models(v).push(x@));
}

/// Parses the tool's status output into the file list it stands for.
pub fn parse_status_output(out: &str) -> (files: Vec<FileItem>)
    ensures
        models(files@) == parse_model(out@),
        forall|i: int|
            0 <= i < files@.len() ==> #[trigger] files@[i]@.selected == Selection::Unselected,
{
    let lines = split_lines(out);
    let mut files: Vec<FileItem> = Vec::new();
    let mut i: usize = 0;
    proof {
        assert(string_views(lines@).subrange(0, 0) =~= Seq::<Seq<char>>::empty());
        assert(models(files@) =~= parse_lines(string_views(lines@).subrange(0, 0)));
    }
    while i < lines.len()
        invariant
            i <= lines@.len(),
            string_views(lines@) == lines_of(out@),
            models(files@) == parse_lines(string_views(lines@).subrange(0, i as int)),
        decreases lines@.len() - i,
    {
        let ghost lv = string_views(lines@);
        proof {
            assert(lv.subrange(0, i + 1).drop_last() =~= lv.subrange(0, i as int));
            assert(lv.subrange(0, i + 1).last() == lines@[i as int]@);
        }
        let line = &lines[i];
        if line.as_str().unicode_len() >= 2 {
            let (path, local, source) = extract_filename_and_status(line.as_str());
            let item = FileItem {
                path,
                selected: Selection::Unselected,
                local_status: local,
                source_status: source,
            };
            proof {
                assert(item@ == parse_line(lines@[i as int]@));
                lemma_models_push(files@, item);
            }
            files.push(item);
        }
        i += 1;
    }
    proof {
        assert(string_views(lines@).subrange(0, lines@.len() as int) =~= string_views(lines@));
        assert(models(files@) == parse_lines(lines_of(out@)));
        lemma_parse_lines_unselected(lines_of(out@));
        assert forall|j: int|
            0 <= j < files@.len() implies #[trigger] files@[j]@.selected
            == Selection::Unselected by {
            assert(models(files@)[j] == files@[j]@);
            assert(parse_lines(lines_of(out@))[j].selected == Selection::Unselected);
        }
    }
    files
}

} // verus!
