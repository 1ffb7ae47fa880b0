//! Archive kinds, and the sanitizing of the names inside an archive.

use vstd::prelude::*;
use vstd::string::*;
use crate::text::{ends_with, same_text, spec_ends_with, spec_strip_suffix, strip_suffix, texts};

verus! {

/// A container format that can be unpacked.
#[derive(Clone, Copy, Debug, PartialEq, Eq, Structural)]
pub enum ArchiveKind {
    Zip,
    SevenZ,
}

/// The kind that a file name's extension stands for: `.zip` or `.7z`
/// behind a non-empty stem.
pub open spec fn spec_archive_kind(file_name: Seq<char>) -> Option<ArchiveKind> {
    if spec_ends_with(file_name, ".zip"@) && file_name.len() > ".zip"@.len() {
        Some(ArchiveKind::Zip)
    } else if spec_ends_with(file_name, ".7z"@) && file_name.len() > ".7z"@.len() {
        Some(ArchiveKind::SevenZ)
    } else {
        None
    }
}

/// The archive kind of a downloaded file, read from the extension of its
/// name; `None` for every extension but `.zip` and `.7z`.
pub fn archive_kind(file_name: &str) -> (r: Option<ArchiveKind>)
    ensures
        r == spec_archive_kind(file_name@),
{
    let n = file_name.unicode_len();
    if ends_with(file_name, ".zip") && n > ".zip".unicode_len() {
        Some(ArchiveKind::Zip)
    } else if ends_with(file_name, ".7z") && n > ".7z".unicode_len() {
        Some(ArchiveKind::SevenZ)
    } else {
        None
    }
}

/// The directory a ZIP release unpacks to: the file name without `.zip`.
pub open spec fn spec_zip_top_level(file_name: Seq<char>) -> Seq<char> {
    spec_strip_suffix(file_name, ".zip"@)
}

/// The name of the top-level directory inside a ZIP release, which is the
/// archive's file name without its `.zip`.
pub fn zip_top_level(file_name: &str) -> (r: String)
    ensures
        r@ == spec_zip_top_level(file_name@),
{
    strip_suffix(file_name, ".zip")
}

/// Whether a character separates the segments of an entry's name. Both
/// slashes do, whatever the system the archive was packed on.
pub open spec fn spec_is_separator(c: char) -> bool {
    c == '/' || c == '\\'
}

/// Whether a segment names a file or directory: it is not empty and is
/// neither `.` nor `..`.
pub open spec fn spec_is_normal(segment: Seq<char>) -> bool {
    segment.len() > 0 && segment != "."@ && segment != ".."@
}

/// Whether a segment can be joined to a directory and stay below it: it
/// is normal and holds neither a separator nor a NUL.
pub open spec fn spec_is_plain_segment(segment: Seq<char>) -> bool {
    &&& spec_is_normal(segment)
    &&& forall|k: int|
        0 <= k < segment.len() ==> !spec_is_separator(#[trigger] segment[k]) && segment[k] != '\0'
}

/// `done` with `segment` behind it, where the segment is normal.
pub open spec fn spec_keep(done: Seq<Seq<char>>, segment: Seq<char>) -> Seq<Seq<char>> {
    if spec_is_normal(segment) {
        done.push(segment)
    } else {
        done
    }
}

/// The normal segments of `name`, given those found before position
/// `start` and a segment that began at `start` and reaches to `i`. The
/// name ends at its first NUL.
pub open spec fn spec_scan(name: Seq<char>, start: int, i: int, done: Seq<Seq<char>>) -> Seq<
    Seq<char>,
>
    decreases name.len() - i,
{
    if i < 0 || i >= name.len() || name[i] == '\0' {
        spec_keep(done, name.subrange(start, i))
    } else if spec_is_separator(name[i]) {
        spec_scan(name, i + 1, i + 1, spec_keep(done, name.subrange(start, i)))
    } else {
        spec_scan(name, start, i + 1, done)
    }
}

/// The sanitized relative path of an entry, segment by segment: the name
/// is cut at its first NUL and split at every separator, and only the
/// normal segments are kept. A leading separator, `.` and `..` thereby
/// fall away.
pub open spec fn spec_sanitized_segments(name: Seq<char>) -> Seq<Seq<char>> {
    spec_scan(name, 0, 0, Seq::<Seq<char>>::empty())
}

/// Scanning keeps the segments plain: if those found so far are, and the
/// segment under way holds no separator and no NUL, all of the result is.
proof fn lemma_scan_plain(name: Seq<char>, start: int, i: int, done: Seq<Seq<char>>)
    requires
        0 <= start <= i <= name.len(),
        forall|k: int| 0 <= k < done.len() ==> spec_is_plain_segment(#[trigger] done[k]),
        forall|k: int| start <= k < i ==> !spec_is_separator(#[trigger] name[k]) && name[k] != '\0',
    ensures
        forall|k: int|
            0 <= k < spec_scan(name, start, i, done).len() ==> spec_is_plain_segment(
                #[trigger] spec_scan(name, start, i, done)[k],
            ),
    decreases name.len() - i,
{
    let segment = name.subrange(start, i);
    let kept = spec_keep(done, segment);
    assert forall|k: int| 0 <= k < kept.len() implies spec_is_plain_segment(#[trigger] kept[k]) by {
        if k < done.len() {
            assert(kept[k] == done[k]);
        } else {
            assert(kept[k] == segment);
            assert forall|m: int| 0 <= m < segment.len() implies !spec_is_separator(
                #[trigger] segment[m],
            ) && segment[m] != '\0' by {
                assert(segment[m] == name[start + m]);
            }
        }
    }
    if i >= name.len() || name[i] == '\0' {
        assert(spec_scan(name, start, i, done) == kept);
    } else if spec_is_separator(name[i]) {
        lemma_scan_plain(name, i + 1, i + 1, kept);
        assert(spec_scan(name, start, i, done) == spec_scan(name, i + 1, i + 1, kept));
    } else {
        lemma_scan_plain(name, start, i + 1, done);
        assert(spec_scan(name, start, i, done) == spec_scan(name, start, i + 1, done));
    }
}

/// Whatever an entry is called, each segment of its sanitized path is
/// not empty, is neither `.` nor `..`, and holds no separator and no NUL:
/// joined to the destination, the path stays below it.
pub proof fn lemma_sanitized_is_plain(name: Seq<char>)
    ensures
        forall|k: int|
            0 <= k < spec_sanitized_segments(name).len() ==> spec_is_plain_segment(
                #[trigger] spec_sanitized_segments(name)[k],
            ),
{
    lemma_scan_plain(name, 0, 0, Seq::<Seq<char>>::empty());
}

/// Whether a character separates the segments of an entry's name.
pub fn is_separator(c: char) -> (r: bool)
    ensures
        r == spec_is_separator(c),
{
    c == '/' || c == '\\'
}

/// The sanitized relative path of an archive entry, as the segments to
/// join to the destination directory in order.
pub fn sanitized_segments(name: &str) -> (r: Vec<String>)
    ensures
        texts(r@) == spec_sanitized_segments(name@),
{
    let n = name.unicode_len();
    let mut out: Vec<String> = Vec::new();
    let mut start: usize = 0;
    let mut i: usize = 0;
    let mut ended = false;
    assert(texts(out@) =~= Seq::<Seq<char>>::empty());
    while i < n && !ended
        invariant
            start <= i <= n,
            n == name@.len(),
            !ended ==> spec_sanitized_segments(name@) == spec_scan(
                name@,
                start as int,
                i as int,
                texts(out@),
            ),
            ended ==> texts(out@) == spec_sanitized_segments(name@),
        decreases n - i + (if ended { 0int } else { 1int }),
    {
        let c = name.get_char(i);
        if c == '\0' || is_separator(c) {
            let segment = name.substring_char(start, i);
            let ghost before = texts(out@);
            if segment.unicode_len() > 0 && !same_text(segment, ".") && !same_text(segment, "..") {
                out.push(String::from_str(segment));
                assert(texts(out@) =~= before.push(segment@));
            }
            assert(texts(out@) == spec_keep(before, name@.subrange(start as int, i as int)));
            if c == '\0' {
                ended = true;
            } else {
                i = i + 1;
                start = i;
            }
        } else {
            i = i + 1;
        }
    }
    if !ended {
        let segment = name.substring_char(start, i);
        let ghost before = texts(out@);
        if segment.unicode_len() > 0 && !same_text(segment, ".") && !same_text(segment, "..") {
            out.push(String::from_str(segment));
            assert(texts(out@) =~= before.push(segment@));
        }
    }
    out
}

/// What to do with one entry of a ZIP archive.
#[derive(Clone, Copy, Debug, PartialEq, Eq, Structural)]
pub enum EntryAction {
    /// A file whose sanitized path is empty cannot be written: give the
    /// archive up.
    Reject,
    /// A directory whose sanitized path is empty is the destination
    /// itself: nothing to create.
    Skip,
    /// Create the directory at the sanitized path, with its parents.
    MakeDir,
    /// Create the parent directories, then write the file at the
    /// sanitized path.
    WriteFile,
}

/// What to do with an entry of that name.
pub open spec fn spec_entry_action(name: Seq<char>, is_dir: bool) -> EntryAction {
    if spec_sanitized_segments(name).len() == 0 {
        if is_dir {
            EntryAction::Skip
        } else {
            EntryAction::Reject
        }
    } else if is_dir {
        EntryAction::MakeDir
    } else {
        EntryAction::WriteFile
    }
}

/// Decides what to do with an entry of a ZIP archive and where: the
/// action, and the segments of the sanitized path to join to the
/// destination. Only a file left without a name is refused.
pub fn plan_entry(name: &str, is_dir: bool) -> (r: (EntryAction, Vec<String>))
    ensures
        r.0 == spec_entry_action(name@, is_dir),
        texts(r.1@) == spec_sanitized_segments(name@),
{
    let segments = sanitized_segments(name);
    let action = if segments.len() == 0 {
        if is_dir {
            EntryAction::Skip
        } else {
            EntryAction::Reject
        }
    } else if is_dir {
        EntryAction::MakeDir
    } else {
        EntryAction::WriteFile
    };
    (action, segments)
}

} // verus!
